//! The configuration form of a packet filter: a record with a `policy` key
//! and a `list` of [port pattern, channel pattern] pairs of text.
use crate::filter::{
    ChannelFilterMatch, ChannelFilters, FilterError, PacketFilter,
    PortFilterMatch,
};
use itertools::Itertools;
use vstd::prelude::*;
use vstd::string::*;

verus! {

/// A value in a policy record: a string, or a list of pairs of strings.
#[derive(Clone, Debug, PartialEq, Eq)]
pub enum ConfigValue {
    Text(String),
    Pairs(Vec<(String, String)>),
}

pub open spec fn policy_key() -> Seq<char> {
    seq!['p', 'o', 'l', 'i', 'c', 'y']
}

pub open spec fn list_key() -> Seq<char> {
    seq!['l', 'i', 's', 't']
}

pub open spec fn allow_word() -> Seq<char> {
    seq!['a', 'l', 'l', 'o', 'w']
}

pub open spec fn deny_word() -> Seq<char> {
    seq!['d', 'e', 'n', 'y']
}

pub open spec fn allow_all_word() -> Seq<char> {
    seq!['a', 'l', 'l', 'o', 'w', 'a', 'l', 'l']
}

/// Whether a record may hold the key.
pub open spec fn known_key(k: Seq<char>) -> bool {
    k == policy_key() || k == list_key()
}

/// How many entries of the record have the key.
pub open spec fn key_count(record: Seq<(String, ConfigValue)>, k: Seq<char>) -> nat
    decreases record.len(),
{
    if record.len() == 0 {
        0
    } else {
        key_count(record.drop_last(), k) + if record.last().0@ == k {
            1nat
        } else {
            0nat
        }
    }
}

/// The value of the last entry with the key.
pub open spec fn value_of(record: Seq<(String, ConfigValue)>, k: Seq<char>) -> Option<ConfigValue>
    decreases record.len(),
{
    if record.len() == 0 {
        None
    } else if record.last().0@ == k {
        Some(record.last().1)
    } else {
        value_of(record.drop_last(), k)
    }
}

/// Whether both texts of the pair read as patterns.
pub open spec fn pair_readable(pair: (String, String)) -> bool {
    PortFilterMatch::readable(pair.0@) && ChannelFilterMatch::readable(pair.1@)
}

pub open spec fn pairs_readable(pairs: Seq<(String, String)>) -> bool {
    forall|i: int| 0 <= i < pairs.len() ==> pair_readable(#[trigger] pairs[i])
}

/// Whether `t` is the first text of the pairs that does not read as a
/// pattern, found in pair `i`.
pub open spec fn first_unreadable(pairs: Seq<(String, String)>, i: int, t: Seq<char>) -> bool {
    &&& 0 <= i < pairs.len()
    &&& forall|j: int| 0 <= j < i ==> pair_readable(#[trigger] pairs[j])
    &&& !pair_readable(pairs[i])
    &&& t == if !PortFilterMatch::readable(pairs[i].0@) {
        pairs[i].0@
    } else {
        pairs[i].1@
    }
}

/// What reading the pairs as a list gives: the list read pair by pair, or
/// the first text that does not read as a pattern.
pub open spec fn list_read(pairs: Seq<(String, String)>, r: Result<ChannelFilters, FilterError>) -> bool {
    &&& r is Ok <==> pairs_readable(pairs)
    &&& r matches Ok(f) ==> f.read_from(pairs)
    &&& r matches Err(e) ==> e matches FilterError::InvalidIdentifier(t) && exists|i: int|
        first_unreadable(pairs, i, t@)
}

/// What reading a record gives, once its keys are known and none is
/// repeated, from the values of its `policy` and `list` keys.
pub open spec fn policy_read(
    policy: Option<ConfigValue>,
    list: Option<ConfigValue>,
    r: Result<PacketFilter, FilterError>,
) -> bool {
    match policy {
        None => if list is None {
            r matches Ok(PacketFilter::AllowAll)
        } else {
            r matches Err(FilterError::MissingConfigField(k)) && k@ == policy_key()
        },
        Some(ConfigValue::Text(w)) => if w@ == allow_word() || w@ == deny_word() {
            match list {
                None => r matches Err(FilterError::MissingConfigField(k)) && k@ == list_key(),
                Some(ConfigValue::Text(_)) => r matches Err(FilterError::InvalidConfigValue(k))
                    && k@ == list_key(),
                Some(ConfigValue::Pairs(ps)) => {
                    &&& r is Ok <==> pairs_readable(ps@)
                    &&& r matches Ok(f) ==> if w@ == allow_word() {
                        f matches PacketFilter::Allow(l) && l.read_from(ps@)
                    } else {
                        f matches PacketFilter::Deny(l) && l.read_from(ps@)
                    }
                    &&& r matches Err(e) ==> e matches FilterError::InvalidIdentifier(t)
                        && exists|i: int| first_unreadable(ps@, i, t@)
                },
            }
        } else if w@ == allow_all_word() {
            if list is None {
                r matches Ok(PacketFilter::AllowAll)
            } else {
                r matches Err(FilterError::InvalidConfigValue(k)) && k@ == list_key()
            }
        } else {
            r matches Err(FilterError::InvalidConfigValue(k)) && k@ == policy_key()
        },
        Some(ConfigValue::Pairs(_)) => r matches Err(FilterError::InvalidConfigValue(k)) && k@
            == policy_key(),
    }
}

/// The text of an entry: its port pattern, a slash, its channel pattern.
pub open spec fn entry_text(entry: (PortFilterMatch, ChannelFilterMatch)) -> Seq<char> {
    entry.0.text() + seq!['/'] + entry.1.text()
}

/// The texts joined, with `sep` between each two.
pub open spec fn joined(items: Seq<Seq<char>>, sep: Seq<char>) -> Seq<char>
    decreases items.len(),
{
    if items.len() == 0 {
        Seq::empty()
    } else if items.len() == 1 {
        items[0]
    } else {
        joined(items.drop_last(), sep) + sep + items.last()
    }
}

/// Relies on `itertools::Itertools::join`: the strings in order, with the
/// separator between each two.
#[verifier::external_body]
fn join_with(items: &Vec<String>, sep: &str) -> (r: String)
    ensures
        r@ == joined(items@.map_values(|s: String| s@), sep@),
{
    items.iter().join(sep)
}

impl ChannelFilters {
    /// Whether the list is what the pairs read as, pair by pair.
    pub open spec fn read_from(&self, pairs: Seq<(String, String)>) -> bool {
        &&& self.0@.len() == pairs.len()
        &&& forall|i: int|
            0 <= i < pairs.len() ==> (#[trigger] self.0@[i]).0.read_from(pairs[i].0@)
                && self.0@[i].1.read_from(pairs[i].1@)
    }

    /// Whether the pairs are the texts of the list's entries, in order.
    pub open spec fn rendered_as(&self, pairs: Seq<(String, String)>) -> bool {
        &&& self.0@.len() == pairs.len()
        &&& forall|i: int|
            0 <= i < pairs.len() ==> (#[trigger] pairs[i]).0@ == self.0@[i].0.text() && pairs[i].1@
                == self.0@[i].1.text()
    }

    /// Reads a list from pairs of text; the whole list fails if one text
    /// does not read as a pattern.
    pub fn from_pairs(pairs: &Vec<(String, String)>) -> (r: Result<ChannelFilters, FilterError>)
        ensures
            list_read(pairs@, r),
    {
        let mut entries: Vec<(PortFilterMatch, ChannelFilterMatch)> = Vec::new();
        let mut i: usize = 0;
        while i < pairs.len()
            invariant
                i <= pairs@.len(),
                entries@.len() == i,
                forall|j: int| 0 <= j < i ==> pair_readable(#[trigger] pairs@[j]),
                forall|j: int|
                    0 <= j < i ==> (#[trigger] entries@[j]).0.read_from(pairs@[j].0@)
                        && entries@[j].1.read_from(pairs@[j].1@),
            decreases pairs@.len() - i,
        {
            let port = match PortFilterMatch::parse(pairs[i].0.as_str()) {
                Ok(p) => p,
                Err(e) => {
                    assert(first_unreadable(pairs@, i as int, pairs@[i as int].0@));
                    assert(!pairs_readable(pairs@));
                    return Err(e);
                },
            };
            let channel = match ChannelFilterMatch::parse(pairs[i].1.as_str()) {
                Ok(c) => c,
                Err(e) => {
                    assert(first_unreadable(pairs@, i as int, pairs@[i as int].1@));
                    assert(!pairs_readable(pairs@));
                    return Err(e);
                },
            };
            entries.push((port, channel));
            i = i + 1;
        }
        Ok(ChannelFilters(entries))
    }

    /// The texts of the entries, in order.
    pub fn to_pairs(&self) -> (r: Vec<(String, String)>)
        ensures
            self.rendered_as(r@),
    {
        let mut out: Vec<(String, String)> = Vec::new();
        let mut i: usize = 0;
        while i < self.0.len()
            invariant
                i <= self.0@.len(),
                out@.len() == i,
                forall|j: int|
                    0 <= j < i ==> (#[trigger] out@[j]).0@ == self.0@[j].0.text() && out@[j].1@
                        == self.0@[j].1.text(),
            decreases self.0@.len() - i,
        {
            out.push((self.0[i].0.to_string(), self.0[i].1.to_string()));
            i = i + 1;
        }
        out
    }

    /// The entries as `port/channel`, separated by a comma and a space.
    pub fn to_string(&self) -> (r: String)
        ensures
            r@ == joined(self.0@.map_values(|e| entry_text(e)), seq![',', ' ']),
    {
        let mut items: Vec<String> = Vec::new();
        let mut i: usize = 0;
        while i < self.0.len()
            invariant
                i <= self.0@.len(),
                items@.len() == i,
                forall|j: int| 0 <= j < i ==> (#[trigger] items@[j])@ == entry_text(self.0@[j]),
            decreases self.0@.len() - i,
        {
            let mut item = self.0[i].0.to_string();
            proof {
                reveal_strlit("/");
            }
            item.append("/");
            item.append(self.0[i].1.to_string().as_str());
            assert(item@ =~= entry_text(self.0@[i as int]));
            items.push(item);
            i = i + 1;
        }
        assert(items@.map_values(|s: String| s@) =~= self.0@.map_values(|e| entry_text(e)));
        proof {
            reveal_strlit(", ");
        }
        let r = join_with(&items, ", ");
        assert(", "@ =~= seq![',', ' ']);
        r
    }
}

fn key_string(k: &str) -> (r: String)
    ensures
        r@ == k@,
{
    String::from_str(k)
}

impl PacketFilter {
    /// Reads a policy from a record. Every key must be `policy` or `list`,
    /// and none may appear twice. With neither key the policy allows
    /// everything; `allow` and `deny` need a list; `allowall` takes none.
    pub fn from_record(record: &Vec<(String, ConfigValue)>) -> (r: Result<PacketFilter, FilterError>)
        ensures
            (exists|i: int| 0 <= i < record@.len() && !known_key(#[trigger] record@[i].0@))
                ==> (r matches Err(FilterError::UnknownConfigField(k)) && exists|i: int|
                0 <= i < record@.len() && !known_key(#[trigger] record@[i].0@) && record@[i].0@
                == k@ && forall|j: int| 0 <= j < i ==> known_key(#[trigger] record@[j].0@)),
            (forall|i: int| 0 <= i < record@.len() ==> known_key(#[trigger] record@[i].0@))
                ==> {
                if key_count(record@, policy_key()) > 1 {
                    r matches Err(FilterError::DuplicateConfigField(k)) && k@ == policy_key()
                } else if key_count(record@, list_key()) > 1 {
                    r matches Err(FilterError::DuplicateConfigField(k)) && k@ == list_key()
                } else {
                    policy_read(value_of(record@, policy_key()), value_of(record@, list_key()), r)
                }
            },
    {
        proof {
            reveal_strlit("policy");
            reveal_strlit("list");
            reveal_strlit("allow");
            reveal_strlit("deny");
            reveal_strlit("allowall");
        }
        let policy_name = key_string("policy");
        let list_name = key_string("list");
        assert(policy_name@ =~= policy_key());
        assert(list_name@ =~= list_key());
        let n = record.len();
        let mut i: usize = 0;
        while i < n
            invariant
                i <= n,
                n == record@.len(),
                policy_name@ == policy_key(),
                list_name@ == list_key(),
                forall|j: int| 0 <= j < i ==> known_key(#[trigger] record@[j].0@),
            decreases n - i,
        {
            if !(record[i].0 == policy_name || record[i].0 == list_name) {
                assert(!known_key(record@[i as int].0@));
                return Err(FilterError::UnknownConfigField(record[i].0.clone()));
            }
            i = i + 1;
        }
        let mut policy_count: usize = 0;
        let mut list_count: usize = 0;
        let mut policy_at: Option<usize> = None;
        let mut list_at: Option<usize> = None;
        let mut i: usize = 0;
        while i < n
            invariant
                i <= n,
                n == record@.len(),
                policy_name@ == policy_key(),
                list_name@ == list_key(),
                policy_count <= i,
                list_count <= i,
                policy_count == key_count(record@.subrange(0, i as int), policy_key()),
                list_count == key_count(record@.subrange(0, i as int), list_key()),
                match policy_at {
                    None => value_of(record@.subrange(0, i as int), policy_key()) is None,
                    Some(j) => j < i && value_of(record@.subrange(0, i as int), policy_key())
                        == Some(record@[j as int].1),
                },
                match list_at {
                    None => value_of(record@.subrange(0, i as int), list_key()) is None,
                    Some(j) => j < i && value_of(record@.subrange(0, i as int), list_key()) == Some(
                        record@[j as int].1,
                    ),
                },
            decreases n - i,
        {
            assert(record@.subrange(0, i + 1).drop_last() =~= record@.subrange(0, i as int));
            assert(record@.subrange(0, i + 1).last() == record@[i as int]);
            if record[i].0 == policy_name {
                policy_count = policy_count + 1;
                policy_at = Some(i);
            } else if record[i].0 == list_name {
                list_count = list_count + 1;
                list_at = Some(i);
            }
            i = i + 1;
        }
        assert(record@.subrange(0, n as int) =~= record@);
        if policy_count > 1 {
            return Err(FilterError::DuplicateConfigField(policy_name));
        }
        if list_count > 1 {
            return Err(FilterError::DuplicateConfigField(list_name));
        }
        let allow = key_string("allow");
        let deny = key_string("deny");
        let allow_all = key_string("allowall");
        assert(allow@ =~= allow_word());
        assert(deny@ =~= deny_word());
        assert(allow_all@ =~= allow_all_word());
        match policy_at {
            None => match list_at {
                None => Ok(PacketFilter::AllowAll),
                Some(_) => Err(FilterError::MissingConfigField(policy_name)),
            },
            Some(pi) => match &record[pi].1 {
                ConfigValue::Text(word) => {
                    if *word == allow || *word == deny {
                        match list_at {
                            None => Err(FilterError::MissingConfigField(list_name)),
                            Some(li) => match &record[li].1 {
                                ConfigValue::Text(_) => Err(
                                    FilterError::InvalidConfigValue(list_name),
                                ),
                                ConfigValue::Pairs(ps) => match ChannelFilters::from_pairs(ps) {
                                    Ok(list) => if *word == allow {
                                        Ok(PacketFilter::Allow(list))
                                    } else {
                                        Ok(PacketFilter::Deny(list))
                                    },
                                    Err(e) => Err(e),
                                },
                            },
                        }
                    } else if *word == allow_all {
                        match list_at {
                            None => Ok(PacketFilter::AllowAll),
                            Some(_) => Err(FilterError::InvalidConfigValue(list_name)),
                        }
                    } else {
                        Err(FilterError::InvalidConfigValue(policy_name))
                    }
                },
                ConfigValue::Pairs(_) => Err(FilterError::InvalidConfigValue(policy_name)),
            },
        }
    }

    /// The record of the policy: `policy` with its name and, for `allow` and
    /// `deny`, `list` with the texts of the list's entries.
    pub fn to_record(&self) -> (r: Vec<(String, ConfigValue)>)
        ensures
            r@.len() >= 1,
            r@[0].0@ == policy_key(),
            match self {
                PacketFilter::Allow(l) => {
                    &&& r@.len() == 2
                    &&& r@[0].1 matches ConfigValue::Text(w) && w@ == allow_word()
                    &&& r@[1].0@ == list_key()
                    &&& r@[1].1 matches ConfigValue::Pairs(ps) && l.rendered_as(ps@)
                },
                PacketFilter::Deny(l) => {
                    &&& r@.len() == 2
                    &&& r@[0].1 matches ConfigValue::Text(w) && w@ == deny_word()
                    &&& r@[1].0@ == list_key()
                    &&& r@[1].1 matches ConfigValue::Pairs(ps) && l.rendered_as(ps@)
                },
                PacketFilter::AllowAll => {
                    &&& r@.len() == 1
                    &&& r@[0].1 matches ConfigValue::Text(w) && w@ == allow_all_word()
                },
            },
    {
        proof {
            reveal_strlit("policy");
            reveal_strlit("list");
            reveal_strlit("allow");
            reveal_strlit("deny");
            reveal_strlit("allowall");
        }
        let policy_name = key_string("policy");
        assert(policy_name@ =~= policy_key());
        let mut out: Vec<(String, ConfigValue)> = Vec::new();
        match self {
            PacketFilter::Allow(list) => {
                let word = key_string("allow");
                assert(word@ =~= allow_word());
                out.push((policy_name, ConfigValue::Text(word)));
                let list_name = key_string("list");
                assert(list_name@ =~= list_key());
                out.push((list_name, ConfigValue::Pairs(list.to_pairs())));
            },
            PacketFilter::Deny(list) => {
                let word = key_string("deny");
                assert(word@ =~= deny_word());
                out.push((policy_name, ConfigValue::Text(word)));
                let list_name = key_string("list");
                assert(list_name@ =~= list_key());
                out.push((list_name, ConfigValue::Pairs(list.to_pairs())));
            },
            PacketFilter::AllowAll => {
                let word = key_string("allowall");
                assert(word@ =~= allow_all_word());
                out.push((policy_name, ConfigValue::Text(word)));
            },
        }
        out
    }
}

} // verus!
