//! Wildcard patterns, filter patterns over identifiers, filter lists and the
//! packet filter policy.
use crate::ident::{ChannelId, Identifier, PortId};
use crate::matcher::{escape, escaped, regex_accepts, regex_matches, Matcher};
use vstd::prelude::*;
use vstd::string::*;

verus! {

/// What goes wrong while building a filter from text.
#[derive(Clone, Debug, PartialEq, Eq)]
pub enum FilterError {
    /// The text is neither a valid identifier nor a usable wildcard pattern.
    InvalidIdentifier(String),
    /// The wildcard pattern could not be compiled.
    InvalidWildcardSyntax(String),
    /// A policy record holds a key it does not know.
    UnknownConfigField(String),
    /// A policy record holds a key twice.
    DuplicateConfigField(String),
    /// A policy record lacks a key that its policy needs.
    MissingConfigField(String),
    /// A key of a policy record has a value of the wrong shape, or the policy
    /// name is not known.
    InvalidConfigValue(String),
}

/// The regex text that stands for a `*` of a wildcard pattern.
pub open spec fn any_sequence() -> Seq<char> {
    seq!['(', '?', ':', '.', '*', ')']
}

/// Replaces each escaped star (a backslash then `*`), scanning from the left.
pub open spec fn stars_replaced(s: Seq<char>) -> Seq<char>
    decreases s.len(),
{
    if s.len() == 0 {
        Seq::empty()
    } else if s.len() >= 2 && s[0] == '\\' && s[1] == '*' {
        any_sequence() + stars_replaced(s.subrange(2, s.len() as int))
    } else {
        seq![s[0]] + stars_replaced(s.subrange(1, s.len() as int))
    }
}

/// The regex source compiled for a wildcard pattern, anchored at both ends:
/// the pattern escaped, then each escaped star made to match any sequence.
pub open spec fn regex_source(pattern: Seq<char>) -> Seq<char> {
    seq!['^'] + stars_replaced(escaped(pattern)) + seq!['$']
}

/// Whether `text` matches the wildcard pattern.
pub open spec fn wildcard_matches(pattern: Seq<char>, text: Seq<char>) -> bool {
    regex_matches(regex_source(pattern), text)
}

proof fn stars_replaced_at(s: Seq<char>, p: int)
    requires
        0 <= p < s.len(),
    ensures
        p + 1 < s.len() && s[p] == '\\' && s[p + 1] == '*' ==> stars_replaced(
            s.subrange(p, s.len() as int),
        ) == any_sequence() + stars_replaced(s.subrange(p + 2, s.len() as int)),
        !(p + 1 < s.len() && s[p] == '\\' && s[p + 1] == '*') ==> stars_replaced(
            s.subrange(p, s.len() as int),
        ) == seq![s[p]] + stars_replaced(s.subrange(p + 1, s.len() as int)),
{
    let t = s.subrange(p, s.len() as int);
    assert(t.subrange(1, t.len() as int) =~= s.subrange(p + 1, s.len() as int));
    if p + 1 < s.len() {
        assert(t.subrange(2, t.len() as int) =~= s.subrange(p + 2, s.len() as int));
    }
}

/// Replaces each escaped star, visiting each character once: a backslash is
/// held back until the character after it is seen.
fn replace_escaped_stars(e: &str) -> (r: String)
    ensures
        r@ == stars_replaced(e@),
{
    broadcast use vstd::string::group_string_axioms;

    let len = e.unicode_len();
    let ghost n = e@.len() as int;
    let mut out = String::new();
    let mut start: usize = 0;
    let mut i: usize = 0;
    let mut pending = false;
    assert(e@.subrange(0, n) =~= e@);
    assert(e@.subrange(0, 0) =~= Seq::<char>::empty());
    for c in it: e.chars()
        invariant
            n == e@.len(),
            n == len,
            it.seq() == e@,
            i == it.index(),
            i <= n,
            pending ==> 0 < i && e@[i - 1] == '\\' && start <= i - 1,
            !pending ==> start <= i,
            ({
                let p = if pending {
                    i - 1
                } else {
                    i as int
                };
                out@ + e@.subrange(start as int, p) + stars_replaced(e@.subrange(p, n))
                    == stars_replaced(e@)
            }),
    {
        assert(i < n);
        assert(c == e@[i as int]);
        proof {
            if i + 1 < n || i + 1 == n {
                stars_replaced_at(e@, i as int);
            }
            if pending {
                stars_replaced_at(e@, i - 1);
            }
        }
        if pending && c == '*' {
            let ghost before = out@;
            let ghost seg = e@.subrange(start as int, i - 1);
            out.append(e.substring_char(start, i - 1));
            proof {
                reveal_strlit("(?:.*)");
            }
            out.append("(?:.*)");
            assert(out@ =~= before + seg + any_sequence());
            assert(e@.subrange(i + 1, i + 1) =~= Seq::<char>::empty());
            assert(before + seg + (any_sequence() + stars_replaced(e@.subrange(i + 1, n)))
                =~= out@ + e@.subrange(i + 1, i + 1) + stars_replaced(e@.subrange(i + 1, n)));
            start = i + 1;
            pending = false;
        } else {
            if pending {
                assert(e@.subrange(start as int, i as int) =~= e@.subrange(start as int, i - 1)
                    + seq![e@[i - 1]]);
            }
            if c != '\\' {
                assert(e@.subrange(start as int, i + 1) =~= e@.subrange(start as int, i as int)
                    + seq![e@[i as int]]);
            }
            pending = c == '\\';
        }
        i = i + 1;
    }
    assert(i == n);
    if pending {
        assert(e@.subrange(n - 1, n) =~= seq!['\\']);
        let ghost one = seq!['\\'];
        assert(one.subrange(1, 1) =~= Seq::<char>::empty());
        assert(stars_replaced(Seq::<char>::empty()) == Seq::<char>::empty());
        assert(stars_replaced(one) == seq![one[0]] + stars_replaced(one.subrange(1, 1)));
        assert(stars_replaced(one) =~= one);
        assert(e@.subrange(start as int, n) =~= e@.subrange(start as int, n - 1) + seq!['\\']);
    }
    assert(e@.subrange(n, n) =~= Seq::<char>::empty());
    out.append(e.substring_char(start, i));
    out
}

/// A wildcard pattern: literal text in which each `*` stands for any
/// sequence of characters, matched against the whole candidate.
#[derive(Debug)]
pub struct Wildcard {
    pattern: String,
    matcher: Matcher,
}

impl View for Wildcard {
    type V = Seq<char>;

    /// The pattern as written.
    closed spec fn view(&self) -> Seq<char> {
        self.pattern@
    }
}

impl core::str::FromStr for Wildcard {
    type Err = FilterError;

    fn from_str(s: &str) -> Result<Wildcard, FilterError> {
        Wildcard::compile(s)
    }
}

impl Clone for Wildcard {
    fn clone(&self) -> (r: Self)
        ensures
            r@ == self@,
    {
        proof {
            use_type_invariant(self);
        }
        Wildcard { pattern: self.pattern.clone(), matcher: self.matcher.clone() }
    }
}

impl Wildcard {
    #[verifier::type_invariant]
    spec fn compiled_from_pattern(&self) -> bool {
        self.matcher@ == regex_source(self.pattern@)
    }

    /// Compiles a wildcard pattern.
    pub fn compile(s: &str) -> (r: Result<Wildcard, FilterError>)
        ensures
            r is Ok <==> regex_accepts(regex_source(s@)),
            r matches Ok(w) ==> w@ == s@,
            r matches Err(e) ==> e matches FilterError::InvalidWildcardSyntax(t) && t@ == s@,
    {
        let stars = replace_escaped_stars(&escape(s));
        let mut source = String::from_str("^");
        source.append(stars.as_str());
        source.append("$");
        proof {
            reveal_strlit("^");
            reveal_strlit("$");
        }
        assert(source@ =~= regex_source(s@));
        match Matcher::compile(source.as_str()) {
            Ok(matcher) => Ok(Wildcard { pattern: String::from_str(s), matcher }),
            Err(_) => Err(FilterError::InvalidWildcardSyntax(String::from_str(s))),
        }
    }

    /// Whether the whole text matches the pattern.
    pub fn is_match(&self, text: &str) -> (r: bool)
        ensures
            r == wildcard_matches(self@, text@),
    {
        proof {
            use_type_invariant(self);
        }
        self.matcher.is_match(text)
    }

    /// The pattern as written, with `*` where it was.
    pub fn to_string(&self) -> (r: String)
        ensures
            r@ == self@,
    {
        self.pattern.clone()
    }
}

} // verus!

verus! {

/// One side of a filter entry: an exact identifier or a wildcard pattern.
#[derive(Clone, Debug)]
pub enum FilterPattern<T> {
    /// An identifier, matched by equality.
    Exact(T),
    /// A pattern, matched against the identifier's text.
    Wildcard(Wildcard),
}

/// A pattern over port identifiers.
pub type PortFilterMatch = FilterPattern<PortId>;

/// A pattern over channel identifiers.
pub type ChannelFilterMatch = FilterPattern<ChannelId>;

impl<T: Identifier> FilterPattern<T> {
    /// Whether an identifier with the text `t` matches.
    pub open spec fn matches_text(&self, t: Seq<char>) -> bool {
        match self {
            FilterPattern::Exact(v) => v.text() == t,
            FilterPattern::Wildcard(w) => wildcard_matches(w@, t),
        }
    }

    /// The text the pattern is written as.
    pub open spec fn text(&self) -> Seq<char> {
        match self {
            FilterPattern::Exact(v) => v.text(),
            FilterPattern::Wildcard(w) => w@,
        }
    }

    /// Whether `s` can be read as a pattern: as an identifier, or else as a
    /// wildcard pattern.
    pub open spec fn readable(s: Seq<char>) -> bool {
        T::accepts(s) || regex_accepts(regex_source(s))
    }

    /// Whether this pattern is what `s` reads as: the identifier when `s` is
    /// one, the wildcard pattern `s` otherwise.
    pub open spec fn read_from(&self, s: Seq<char>) -> bool {
        if T::accepts(s) {
            self matches FilterPattern::Exact(v) && v.text() == T::canonical(s)
        } else {
            self matches FilterPattern::Wildcard(w) && w@ == s
        }
    }

    /// Reads a pattern: as an identifier if `s` is one, else as a wildcard
    /// pattern.
    pub fn parse(s: &str) -> (r: Result<Self, FilterError>)
        ensures
            r is Ok <==> Self::readable(s@),
            r matches Ok(p) ==> p.read_from(s@),
            r matches Err(e) ==> e matches FilterError::InvalidIdentifier(t) && t@ == s@,
    {
        match T::parse_id(s) {
            Some(v) => Ok(FilterPattern::Exact(v)),
            None => match Wildcard::compile(s) {
                Ok(w) => Ok(FilterPattern::Wildcard(w)),
                Err(_) => Err(FilterError::InvalidIdentifier(String::from_str(s))),
            },
        }
    }

    /// Whether the pattern is a wildcard pattern.
    pub fn is_wildcard(&self) -> (r: bool)
        ensures
            r == self is Wildcard,
    {
        matches!(self, FilterPattern::Wildcard(_))
    }

    /// Whether the pattern is an exact identifier.
    pub fn is_exact(&self) -> (r: bool)
        ensures
            r == self is Exact,
    {
        matches!(self, FilterPattern::Exact(_))
    }

    /// Matches by equality for an identifier, by the whole text for a
    /// wildcard pattern.
    pub fn matches(&self, value: &T) -> (r: bool)
        ensures
            r == self.matches_text(value.text()),
    {
        match self {
            FilterPattern::Exact(v) => value.same_as(v),
            FilterPattern::Wildcard(w) => w.is_match(value.as_str()),
        }
    }

    /// The identifier, for an exact pattern.
    pub fn exact_value(&self) -> (r: Option<&T>)
        ensures
            r is Some <==> self is Exact,
            r matches Some(v) ==> self matches FilterPattern::Exact(x) && *v == x,
    {
        match self {
            FilterPattern::Exact(value) => Some(value),
            FilterPattern::Wildcard(_) => None,
        }
    }

    /// The text of the pattern: the identifier's, or the wildcard pattern as
    /// written.
    pub fn to_string(&self) -> (r: String)
        ensures
            r@ == self.text(),
    {
        match self {
            FilterPattern::Exact(value) => String::from_str(value.as_str()),
            FilterPattern::Wildcard(w) => w.to_string(),
        }
    }
}

/// Whether an entry matches the port and channel texts: both sides must.
pub open spec fn entry_matches(
    entry: (PortFilterMatch, ChannelFilterMatch),
    port: Seq<char>,
    channel: Seq<char>,
) -> bool {
    entry.0.matches_text(port) && entry.1.matches_text(channel)
}

/// Whether both sides of an entry are exact identifiers.
pub open spec fn entry_is_exact(entry: (PortFilterMatch, ChannelFilterMatch)) -> bool {
    entry.0 is Exact && entry.1 is Exact
}

/// The identifiers of the exact entries, in order.
pub open spec fn exact_pairs(entries: Seq<(PortFilterMatch, ChannelFilterMatch)>) -> Seq<
    (PortId, ChannelId),
>
    decreases entries.len(),
{
    if entries.len() == 0 {
        Seq::empty()
    } else {
        let rest = exact_pairs(entries.drop_last());
        match entries.last() {
            (FilterPattern::Exact(p), FilterPattern::Exact(c)) => rest.push((p, c)),
            _ => rest,
        }
    }
}

/// An ordered list of (port pattern, channel pattern) entries. A pair of
/// identifiers matches the list when it matches some entry.
#[derive(Clone, Debug)]
pub struct ChannelFilters(pub Vec<(PortFilterMatch, ChannelFilterMatch)>);

impl ChannelFilters {
    /// Whether some entry matches the port and channel texts.
    pub open spec fn matches_text(&self, port: Seq<char>, channel: Seq<char>) -> bool {
        exists|i: int| 0 <= i < self.0@.len() && entry_matches(#[trigger] self.0@[i], port, channel)
    }

    /// Whether every entry is exact on both sides.
    pub open spec fn all_exact(&self) -> bool {
        forall|i: int| 0 <= i < self.0@.len() ==> entry_is_exact(#[trigger] self.0@[i])
    }

    /// Whether some entry matches the port and channel.
    pub fn matches(&self, channel_port: &(PortId, ChannelId)) -> (r: bool)
        ensures
            r == self.matches_text(channel_port.0.text(), channel_port.1.text()),
    {
        let mut i: usize = 0;
        while i < self.0.len()
            invariant
                i <= self.0@.len(),
                forall|j: int|
                    0 <= j < i ==> !entry_matches(
                        #[trigger] self.0@[j],
                        channel_port.0.text(),
                        channel_port.1.text(),
                    ),
            decreases self.0@.len() - i,
        {
            let (port_filter, chan_filter) = &self.0[i];
            if port_filter.matches(&channel_port.0) && chan_filter.matches(&channel_port.1) {
                assert(entry_matches(
                    self.0@[i as int],
                    channel_port.0.text(),
                    channel_port.1.text(),
                ));
                return true;
            }
            i = i + 1;
        }
        false
    }

    /// Whether the list holds exact entries only.
    pub fn is_exact(&self) -> (r: bool)
        ensures
            r == self.all_exact(),
    {
        let mut i: usize = 0;
        while i < self.0.len()
            invariant
                i <= self.0@.len(),
                forall|j: int| 0 <= j < i ==> entry_is_exact(#[trigger] self.0@[j]),
            decreases self.0@.len() - i,
        {
            let (port_filter, channel_filter) = &self.0[i];
            if !(port_filter.is_exact() && channel_filter.is_exact()) {
                return false;
            }
            i = i + 1;
        }
        true
    }

    /// The identifiers of the exact entries, in list order; entries with a
    /// wildcard pattern on either side are left out.
    pub fn iter_exact(&self) -> (r: Vec<(&PortId, &ChannelId)>)
        ensures
            r@.len() == exact_pairs(self.0@).len(),
            forall|i: int|
                0 <= i < r@.len() ==> *(#[trigger] r@[i]).0 == exact_pairs(self.0@)[i].0
                    && *r@[i].1 == exact_pairs(self.0@)[i].1,
    {
        let mut out: Vec<(&PortId, &ChannelId)> = Vec::new();
        let mut i: usize = 0;
        while i < self.0.len()
            invariant
                i <= self.0@.len(),
                out@.len() == exact_pairs(self.0@.subrange(0, i as int)).len(),
                forall|k: int|
                    0 <= k < out@.len() ==> *(#[trigger] out@[k]).0 == exact_pairs(
                        self.0@.subrange(0, i as int),
                    )[k].0 && *out@[k].1 == exact_pairs(self.0@.subrange(0, i as int))[k].1,
            decreases self.0@.len() - i,
        {
            assert(self.0@.subrange(0, i + 1).drop_last() =~= self.0@.subrange(0, i as int));
            if let (FilterPattern::Exact(port_id), FilterPattern::Exact(chan_id)) = &self.0[i] {
                out.push((port_id, chan_id));
            }
            i = i + 1;
        }
        assert(self.0@.subrange(0, self.0@.len() as int) =~= self.0@);
        out
    }
}

/// Which packets may be relayed.
#[derive(Clone, Debug)]
pub enum PacketFilter {
    /// Packets on channels that match the list.
    Allow(ChannelFilters),
    /// Packets on channels that do not match the list.
    Deny(ChannelFilters),
    /// All packets.
    AllowAll,
}

impl Default for PacketFilter {
    /// Allows all packets: with no policy given, nothing is filtered out.
    fn default() -> (r: Self)
        ensures
            r is AllowAll,
    {
        PacketFilter::AllowAll
    }
}

impl PacketFilter {
    /// Whether packets on the channel with the given port and channel texts
    /// may be relayed.
    pub open spec fn allows(&self, port: Seq<char>, channel: Seq<char>) -> bool {
        match self {
            PacketFilter::Allow(list) => list.matches_text(port, channel),
            PacketFilter::Deny(list) => !list.matches_text(port, channel),
            PacketFilter::AllowAll => true,
        }
    }

    /// Whether packets on the channel may be relayed.
    pub fn is_allowed(&self, port_id: &PortId, channel_id: &ChannelId) -> (r: bool)
        ensures
            r == self.allows(port_id.text(), channel_id.text()),
    {
        match self {
            PacketFilter::Allow(spec) => spec.matches(&(port_id.clone(), channel_id.clone())),
            PacketFilter::Deny(spec) => !spec.matches(&(port_id.clone(), channel_id.clone())),
            PacketFilter::AllowAll => true,
        }
    }
}

} // verus!

verus! {

/// Reads port patterns from configuration text.
pub struct PortFilterMatchVisitor;

impl PortFilterMatchVisitor {
    /// Reads a port pattern: a port identifier if the text is one, else a
    /// wildcard pattern.
    pub fn visit_str(&self, v: &str) -> (r: Result<PortFilterMatch, FilterError>)
        ensures
            r is Ok <==> PortFilterMatch::readable(v@),
            r matches Ok(p) ==> p.read_from(v@),
            r matches Err(e) ==> e matches FilterError::InvalidIdentifier(t) && t@ == v@,
    {
        PortFilterMatch::parse(v)
    }

    /// Reads a port pattern from an owned string, as `visit_str` does.
    pub fn visit_string(&self, v: String) -> (r: Result<PortFilterMatch, FilterError>)
        ensures
            r is Ok <==> PortFilterMatch::readable(v@),
            r matches Ok(p) ==> p.read_from(v@),
            r matches Err(e) ==> e matches FilterError::InvalidIdentifier(t) && t@ == v@,
    {
        self.visit_str(v.as_str())
    }
}

/// Reads channel patterns from configuration text.
pub struct ChannelFilterMatchVisitor;

impl ChannelFilterMatchVisitor {
    /// Reads a channel pattern: a channel identifier if the text is one, else
    /// a wildcard pattern.
    pub fn visit_str(&self, v: &str) -> (r: Result<ChannelFilterMatch, FilterError>)
        ensures
            r is Ok <==> ChannelFilterMatch::readable(v@),
            r matches Ok(p) ==> p.read_from(v@),
            r matches Err(e) ==> e matches FilterError::InvalidIdentifier(t) && t@ == v@,
    {
        ChannelFilterMatch::parse(v)
    }

    /// Reads a channel pattern from an owned string, as `visit_str` does.
    pub fn visit_string(&self, v: String) -> (r: Result<ChannelFilterMatch, FilterError>)
        ensures
            r is Ok <==> ChannelFilterMatch::readable(v@),
            r matches Ok(p) ==> p.read_from(v@),
            r matches Err(e) ==> e matches FilterError::InvalidIdentifier(t) && t@ == v@,
    {
        self.visit_str(v.as_str())
    }
}

/// The default policy lets packets through on every port and channel.
pub proof fn default_allows_everything(f: PacketFilter, port: Seq<char>, channel: Seq<char>)
    requires
        f is AllowAll,
    ensures
        f.allows(port, channel),
{
}

/// Text that reads as an identifier becomes an exact pattern holding what the
/// identifier's parser makes of it, and renders as that identifier's text.
pub proof fn identifier_text_reads_as_exact<T: Identifier>(p: FilterPattern<T>, s: Seq<char>)
    requires
        T::accepts(s),
        p.read_from(s),
    ensures
        p is Exact,
        p.text() == T::canonical(s),
        p matches FilterPattern::Exact(v) && v.text() == T::canonical(s),
{
}

/// Denying a list lets through exactly what allowing it holds back.
pub proof fn deny_is_complement_of_allow(
    list: ChannelFilters,
    port: Seq<char>,
    channel: Seq<char>,
)
    ensures
        PacketFilter::Deny(list).allows(port, channel) == !PacketFilter::Allow(list).allows(
            port,
            channel,
        ),
{
}

proof fn exact_pairs_count(entries: Seq<(PortFilterMatch, ChannelFilterMatch)>)
    ensures
        exact_pairs(entries).len() <= entries.len(),
        exact_pairs(entries).len() == entries.len() <==> forall|i: int|
            0 <= i < entries.len() ==> entry_is_exact(#[trigger] entries[i]),
    decreases entries.len(),
{
    if entries.len() > 0 {
        let rest = entries.drop_last();
        exact_pairs_count(rest);
        if forall|i: int| 0 <= i < entries.len() ==> entry_is_exact(#[trigger] entries[i]) {
            assert forall|i: int| 0 <= i < rest.len() implies entry_is_exact(
                #[trigger] rest[i],
            ) by {
                assert(entry_is_exact(entries[i]));
            }
            assert(entry_is_exact(entries[entries.len() - 1]));
        }
        if exact_pairs(entries).len() == entries.len() {
            assert(entry_is_exact(entries.last()));
            assert forall|i: int| 0 <= i < entries.len() implies entry_is_exact(
                #[trigger] entries[i],
            ) by {
                if i < rest.len() {
                    assert(entry_is_exact(rest[i]));
                }
            }
        }
    }
}

/// A list is exact exactly when listing its exact entries leaves none out.
pub proof fn exact_iff_every_entry_listed(list: ChannelFilters)
    ensures
        list.all_exact() <==> exact_pairs(list.0@).len() == list.0@.len(),
{
    exact_pairs_count(list.0@);
}

} // verus!
