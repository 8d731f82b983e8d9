use packet_filter::commitment::{CommitmentPath, CommitmentPrefix};
use packet_filter::config::ConfigValue;
use packet_filter::filter::{
    ChannelFilterMatch, ChannelFilterMatchVisitor, ChannelFilters, FilterError, FilterPattern,
    PacketFilter, PortFilterMatch, PortFilterMatchVisitor, Wildcard,
};
use packet_filter::ident::{ChannelId, Identifier, PortId};

fn port(s: &str) -> PortId {
    PortId::from_str(s).unwrap()
}

fn chan(s: &str) -> ChannelId {
    ChannelId::from_str(s).unwrap()
}

fn text(s: &str) -> String {
    s.to_string()
}

fn pairs(list: &[(&str, &str)]) -> Vec<(String, String)> {
    list.iter().map(|(a, b)| (text(a), text(b))).collect()
}

fn record(policy: &str, list: &[(&str, &str)]) -> Vec<(String, ConfigValue)> {
    vec![
        (text("policy"), ConfigValue::Text(text(policy))),
        (text("list"), ConfigValue::Pairs(pairs(list))),
    ]
}

const MIXED_LIST: &[(&str, &str)] = &[("ica*", "*"), ("transfer", "channel-0")];

#[test]
fn deserialize_packet_filter_policy() {
    let filter_policy =
        PacketFilter::from_record(&record("allow", MIXED_LIST)).expect("could not parse filter policy");
    println!("{:?}", filter_policy);
    assert!(matches!(filter_policy, PacketFilter::Allow(_)));
}

#[test]
fn serialize_packet_filter_policy() {
    let filter_policy = ChannelFilters(vec![
        (
            FilterPattern::Exact(PortId::from_str("transfer").unwrap()),
            FilterPattern::Exact(ChannelId::from_str("channel-0").unwrap()),
        ),
        (
            FilterPattern::Wildcard(Wildcard::compile("ica*").unwrap()),
            FilterPattern::Wildcard(Wildcard::compile("*").unwrap()),
        ),
    ]);

    let fp = PacketFilter::Allow(filter_policy);
    let rec = fp.to_record();
    println!("{:?}", rec);
    assert_eq!(rec.len(), 2);
    assert_eq!(rec[0], (text("policy"), ConfigValue::Text(text("allow"))));
    assert_eq!(
        rec[1],
        (text("list"), ConfigValue::Pairs(pairs(&[("transfer", "channel-0"), ("ica*", "*")])))
    );
}

#[test]
fn default_filter_allows_everything() {
    let f = PacketFilter::default();
    assert!(matches!(f, PacketFilter::AllowAll));
    assert!(f.is_allowed(&port("transfer"), &chan("channel-0")));
    assert!(f.is_allowed(&port("icahost"), &chan("channel-12345")));
}

#[test]
fn exact_text_reads_as_identifier() {
    let p = PortFilterMatch::parse("transfer").unwrap();
    assert!(p.is_exact());
    assert!(!p.is_wildcard());
    assert_eq!(p.exact_value().unwrap().as_str(), "transfer");
    assert_eq!(p.to_string(), "transfer");
    let c = ChannelFilterMatch::parse("channel-0").unwrap();
    assert!(c.is_exact());
    assert_eq!(c.to_string(), "channel-0");
}

#[test]
fn channel_identifier_is_kept_canonical() {
    let c = ChannelFilterMatch::parse("channel-007").unwrap();
    assert!(c.is_exact());
    assert_eq!(c.to_string(), "channel-7");
    assert!(c.matches(&chan("channel-7")));
}

#[test]
fn text_that_is_no_identifier_reads_as_wildcard() {
    let p = PortFilterMatch::parse("ica*").unwrap();
    assert!(p.is_wildcard());
    assert!(p.exact_value().is_none());
    assert_eq!(p.to_string(), "ica*");
    let c = ChannelFilterMatch::parse("chan*").unwrap();
    assert!(c.is_wildcard());
    let plain = ChannelFilterMatch::parse("transfer").unwrap();
    assert!(plain.is_wildcard());
}

#[test]
fn wildcard_matches_whole_text() {
    let w = Wildcard::compile("ica*").unwrap();
    assert!(w.is_match("ica"));
    assert!(w.is_match("ica0"));
    assert!(w.is_match("icafoo"));
    assert!(w.is_match("icabridge"));
    assert!(!w.is_match("xica"));
    assert!(!w.is_match("foo-ica"));
    assert!(!w.is_match("myica"));
    let any = Wildcard::compile("*").unwrap();
    assert!(any.is_match(""));
    assert!(any.is_match("channel-42"));
}

#[test]
fn wildcard_treats_other_characters_literally() {
    let w = Wildcard::compile("a.b*").unwrap();
    assert!(w.is_match("a.bc"));
    assert!(!w.is_match("axbc"));
    assert_eq!(w.to_string(), "a.b*");
    let mid = Wildcard::compile("port-*-end").unwrap();
    assert!(mid.is_match("port--end"));
    assert!(mid.is_match("port-x-y-end"));
    assert!(!mid.is_match("port-x-en"));
}

#[test]
fn wildcard_renders_as_written() {
    let w = Wildcard::compile("ica*").unwrap();
    let again = Wildcard::compile(&w.to_string()).unwrap();
    assert_eq!(again.to_string(), "ica*");
    for probe in ["ica", "icax", "x", ""] {
        assert_eq!(w.is_match(probe), again.is_match(probe));
    }
}

#[test]
fn oversized_wildcard_is_refused() {
    let huge = "*".repeat(30_000);
    let r = Wildcard::compile(&huge);
    assert!(matches!(r, Err(FilterError::InvalidWildcardSyntax(ref t)) if *t == huge));
    let p = PortFilterMatch::parse(&huge);
    assert!(matches!(p, Err(FilterError::InvalidIdentifier(ref t)) if *t == huge));
}

#[test]
fn allow_list_decisions() {
    let f = PacketFilter::from_record(&record("allow", MIXED_LIST)).unwrap();
    assert!(f.is_allowed(&port("transfer"), &chan("channel-0")));
    assert!(!f.is_allowed(&port("transfer"), &chan("channel-1")));
    assert!(f.is_allowed(&port("icacontroller-foo"), &chan("channel-9")));
}

#[test]
fn deny_list_decisions() {
    let f = PacketFilter::from_record(&record("deny", MIXED_LIST)).unwrap();
    assert!(!f.is_allowed(&port("transfer"), &chan("channel-0")));
    assert!(f.is_allowed(&port("transfer"), &chan("channel-7")));
    assert!(!f.is_allowed(&port("icacontroller-foo"), &chan("channel-9")));
}

#[test]
fn deny_is_complement_of_allow_on_values() {
    let list = ChannelFilters::from_pairs(&pairs(MIXED_LIST)).unwrap();
    let allow = PacketFilter::Allow(list.clone());
    let deny = PacketFilter::Deny(list);
    for (p, c) in [("transfer", "channel-0"), ("transfer", "channel-3"), ("icahost", "channel-1")] {
        assert_eq!(deny.is_allowed(&port(p), &chan(c)), !allow.is_allowed(&port(p), &chan(c)));
    }
}

#[test]
fn empty_list_matches_nothing() {
    let list = ChannelFilters(vec![]);
    assert!(!list.matches(&(port("transfer"), chan("channel-0"))));
    assert!(list.is_exact());
    assert!(list.iter_exact().is_empty());
    assert!(!PacketFilter::Allow(list.clone()).is_allowed(&port("transfer"), &chan("channel-0")));
    assert!(PacketFilter::Deny(list).is_allowed(&port("transfer"), &chan("channel-0")));
}

#[test]
fn exactness_and_exact_pairs() {
    let mixed = ChannelFilters::from_pairs(&pairs(&[
        ("transfer", "channel-0"),
        ("ica*", "channel-1"),
        ("oracle", "channel-2"),
    ]))
    .unwrap();
    assert!(!mixed.is_exact());
    let exact = mixed.iter_exact();
    assert_eq!(exact.len(), 2);
    assert!(exact.len() < mixed.0.len());
    assert_eq!(exact[0].0.as_str(), "transfer");
    assert_eq!(exact[0].1.as_str(), "channel-0");
    assert_eq!(exact[1].0.as_str(), "oracle");
    assert_eq!(exact[1].1.as_str(), "channel-2");
    assert_eq!(mixed.iter_exact().len(), 2);

    let all = ChannelFilters::from_pairs(&pairs(&[("transfer", "channel-0"), ("oracle", "channel-2")]))
        .unwrap();
    assert!(all.is_exact());
    assert_eq!(all.iter_exact().len(), all.0.len());
}

#[test]
fn unknown_key_fails_the_record() {
    let mut rec = record("allow", MIXED_LIST);
    rec.push((text("extra"), ConfigValue::Text(text("x"))));
    assert_eq!(
        PacketFilter::from_record(&rec).unwrap_err(),
        FilterError::UnknownConfigField(text("extra"))
    );
}

#[test]
fn repeated_key_fails_the_record() {
    let mut rec = record("allow", MIXED_LIST);
    rec.push((text("policy"), ConfigValue::Text(text("deny"))));
    assert_eq!(
        PacketFilter::from_record(&rec).unwrap_err(),
        FilterError::DuplicateConfigField(text("policy"))
    );
}

#[test]
fn missing_keys_and_bad_values() {
    let no_list = vec![(text("policy"), ConfigValue::Text(text("allow")))];
    assert_eq!(
        PacketFilter::from_record(&no_list).unwrap_err(),
        FilterError::MissingConfigField(text("list"))
    );
    let no_policy = vec![(text("list"), ConfigValue::Pairs(pairs(MIXED_LIST)))];
    assert_eq!(
        PacketFilter::from_record(&no_policy).unwrap_err(),
        FilterError::MissingConfigField(text("policy"))
    );
    let bad_policy = record("maybe", MIXED_LIST);
    assert_eq!(
        PacketFilter::from_record(&bad_policy).unwrap_err(),
        FilterError::InvalidConfigValue(text("policy"))
    );
    let text_list = vec![
        (text("policy"), ConfigValue::Text(text("deny"))),
        (text("list"), ConfigValue::Text(text("transfer"))),
    ];
    assert_eq!(
        PacketFilter::from_record(&text_list).unwrap_err(),
        FilterError::InvalidConfigValue(text("list"))
    );
}

#[test]
fn empty_record_and_allowall() {
    assert!(matches!(PacketFilter::from_record(&vec![]), Ok(PacketFilter::AllowAll)));
    let all = vec![(text("policy"), ConfigValue::Text(text("allowall")))];
    assert!(matches!(PacketFilter::from_record(&all), Ok(PacketFilter::AllowAll)));
    assert_eq!(PacketFilter::AllowAll.to_record(), all);
}

#[test]
fn semantic_round_trip_through_record() {
    let list = ChannelFilters(vec![
        (FilterPattern::Exact(port("transfer")), FilterPattern::Exact(chan("channel-0"))),
        (
            FilterPattern::Wildcard(Wildcard::compile("ica*").unwrap()),
            FilterPattern::Wildcard(Wildcard::compile("*").unwrap()),
        ),
    ]);
    let original = PacketFilter::Allow(list);
    let back = PacketFilter::from_record(&original.to_record()).unwrap();
    let probes = [
        ("transfer", "channel-0"),
        ("transfer", "channel-1"),
        ("icacontroller-1", "channel-5"),
        ("oracle", "channel-0"),
        ("ica", "channel-0"),
    ];
    for (p, c) in probes {
        assert_eq!(original.is_allowed(&port(p), &chan(c)), back.is_allowed(&port(p), &chan(c)));
    }
}

#[test]
fn list_text_and_pairs() {
    let list = ChannelFilters::from_pairs(&pairs(MIXED_LIST)).unwrap();
    assert_eq!(list.to_string(), "ica*/*, transfer/channel-0");
    assert_eq!(list.to_pairs(), pairs(MIXED_LIST));
    assert_eq!(ChannelFilters(vec![]).to_string(), "");
}

#[test]
fn bad_identifier_in_list_fails_the_list() {
    let huge = "a*".repeat(15_000);
    let bad = vec![(text("transfer"), text("channel-0")), (text("transfer"), huge.clone())];
    assert_eq!(
        ChannelFilters::from_pairs(&bad).unwrap_err(),
        FilterError::InvalidIdentifier(huge)
    );
}

#[test]
fn identifiers_parse_through_ibc() {
    assert!(PortId::from_str("transfer").is_some());
    assert!(PortId::from_str("p").is_none());
    assert!(PortId::from_str("ica*").is_none());
    assert!(ChannelId::from_str("channel-3").is_some());
    assert!(ChannelId::from_str("chan-3").is_none());
    assert!(port("transfer").same_as(&port("transfer")));
    assert!(port("transfer") != port("oracle"));
}

#[test]
fn visitors_read_patterns() {
    let p = PortFilterMatchVisitor.visit_str("transfer").unwrap();
    assert!(p.is_exact());
    let w = PortFilterMatchVisitor.visit_string(text("ica*")).unwrap();
    assert!(w.is_wildcard());
    let c = ChannelFilterMatchVisitor.visit_str("channel-0").unwrap();
    assert!(c.matches(&chan("channel-0")));
    let cw = ChannelFilterMatchVisitor.visit_string(text("*")).unwrap();
    assert!(cw.matches(&chan("channel-99")));
}

#[test]
fn commitment_placeholders() {
    assert_eq!(CommitmentPath::from_path("a/b"), CommitmentPath);
    let prefix = CommitmentPrefix::new(vec![1, 2, 3]);
    assert_eq!(prefix.as_bytes(), &[1, 2, 3]);
}
