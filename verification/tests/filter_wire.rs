use xsync_core::filter::{self, Action, Decision, FilterError, FilterSet, Origin, Rule};
use xsync_core::protocol::{CAP_FILTER_RULES, CAP_ZSTD};
use xsync_core::transfer::{filter_for_peer, filter_from_wire, local_filter, LocalSyncOptions};

fn include_filter() -> FilterSet {
    FilterSet::from_rules(vec![
        Rule::new(Action::Include, "keep/**", Origin::CommandLine).unwrap(),
        Rule::new(Action::Exclude, "*", Origin::CommandLine).unwrap(),
    ])
}

/// A peer that advertises the capability receives the ordered set, and the
/// flat exclude list is left empty so the receiver cannot apply both.
#[test]
fn a_capable_peer_receives_the_ordered_rule_set() {
    let options = LocalSyncOptions {
        filter: Some(include_filter()),
        ..LocalSyncOptions::default()
    };
    let wire = filter_for_peer(&options, CAP_FILTER_RULES).unwrap();
    assert!(wire.exclude_patterns.is_empty());
    assert_eq!(wire.rules, vec![b"+ keep/**".to_vec(), b"- *".to_vec()]);
}

/// Sending the excludes alone would transfer a wider set than asked for, so
/// an older peer is refused instead of approximated at.
#[test]
fn an_incapable_peer_is_refused_rather_than_sent_the_excludes_alone() {
    let options = LocalSyncOptions {
        filter: Some(include_filter()),
        ..LocalSyncOptions::default()
    };
    let error = filter_for_peer(&options, CAP_ZSTD).unwrap_err();
    assert_eq!(error.kind(), "filter-unrepresentable");
    assert!(error.to_string().contains("--include"), "{error:?}");
}

/// An exclude-only filter has always fit the flat list, so an older peer
/// keeps working exactly as before.
#[test]
fn an_incapable_peer_still_accepts_an_exclude_only_filter() {
    let options = LocalSyncOptions {
        filter: Some(filter::from_exclude_patterns(&["*.tmp".to_owned()]).unwrap()),
        exclude_patterns: vec!["*.tmp".to_owned()],
        ..LocalSyncOptions::default()
    };
    let wire = filter_for_peer(&options, CAP_ZSTD).unwrap();
    assert!(wire.rules.is_empty());
    assert_eq!(wire.exclude_patterns, vec![b"*.tmp".to_vec()]);
}

/// Rules that arrive unparseable are an error, never an approximation.
#[test]
fn unusable_rules_from_a_peer_are_refused() {
    let error = filter_from_wire(&[], &[b"keep/** with no sigil".to_vec()]).unwrap_err();
    assert_eq!(error.kind(), "filter-unrepresentable");
}

/// The order of the rules is what carries their meaning across the wire.
#[test]
fn rules_survive_the_wire_with_their_order_intact() {
    let filter = include_filter();
    let wire = filter_for_peer(
        &LocalSyncOptions {
            filter: Some(filter),
            ..LocalSyncOptions::default()
        },
        CAP_FILTER_RULES,
    )
    .unwrap();
    let rebuilt = filter_from_wire(&[], &wire.rules).unwrap();
    assert!(rebuilt.decide("keep/a.txt").is_included());
    assert!(!rebuilt.decide("other/a.txt").is_included());
}

#[test]
fn decoding_the_encoded_rules_gives_back_each_rule_in_order() {
    let set = include_filter();
    let lines = filter::encode(&set);
    let decoded = filter::decode(&lines).unwrap();
    assert_eq!(decoded.rules.len(), 2);
    assert_eq!(decoded.rules[0].action, Action::Include);
    assert_eq!(decoded.rules[0].pattern, "keep/**");
    assert_eq!(decoded.rules[0].origin, Origin::Peer);
    assert_eq!(decoded.rules[1].action, Action::Exclude);
    assert_eq!(decoded.rules[1].pattern, "*");
}

#[test]
fn a_peer_without_ordered_rules_gets_the_flat_excludes_when_no_rule_set_was_given() {
    let options = LocalSyncOptions {
        exclude_patterns: vec!["a".to_owned(), "b/*".to_owned()],
        ..LocalSyncOptions::default()
    };
    let wire = filter_for_peer(&options, CAP_FILTER_RULES).unwrap();
    assert!(wire.rules.is_empty());
    assert_eq!(wire.exclude_patterns, vec![b"a".to_vec(), b"b/*".to_vec()]);
}

#[test]
fn malformed_wire_lines_name_what_is_wrong() {
    assert_eq!(filter::decode(&[b"+".to_vec()]).unwrap_err(), FilterError::MissingSigil);
    assert_eq!(filter::decode(&[b"*x".to_vec()]).unwrap_err(), FilterError::MissingSigil);
    assert_eq!(filter::decode(&[b"- \xff".to_vec()]).unwrap_err(), FilterError::NotUtf8);
    let error = filter_from_wire(&[], &[b"- \xff".to_vec()]).unwrap_err();
    assert_eq!(
        error.to_string(),
        "peer sent unusable filter rules: pattern is not valid UTF-8"
    );
}

#[test]
fn exclude_patterns_from_a_peer_must_be_utf8_and_non_empty() {
    let error = filter_from_wire(&[b"\xfe".to_vec()], &[]).unwrap_err();
    assert_eq!(error.to_string(), "peer sent an exclude pattern that is not valid UTF-8");
    let error = filter_from_wire(&[Vec::new()], &[]).unwrap_err();
    assert_eq!(error.to_string(), "peer sent an unusable exclude pattern: empty pattern");
    let set = filter_from_wire(&[b"*.o".to_vec()], &[]).unwrap();
    assert_eq!(set.decide("src/main.o"), Decision::Excluded);
    assert_eq!(set.decide("src/main.c"), Decision::Included);
}

#[test]
fn empty_patterns_are_refused_when_a_rule_is_built() {
    assert_eq!(
        Rule::new(Action::Exclude, "", Origin::File).unwrap_err(),
        FilterError::EmptyPattern
    );
    assert!(filter::from_exclude_patterns(&["x".to_owned(), String::new()]).is_err());
}

#[test]
fn glob_stars_stop_at_slashes_and_double_stars_do_not() {
    let set = FilterSet::from_rules(vec![
        Rule::new(Action::Exclude, "build/*.o", Origin::CommandLine).unwrap(),
        Rule::new(Action::Exclude, "cache/**", Origin::CommandLine).unwrap(),
        Rule::new(Action::Exclude, "?.tmp", Origin::CommandLine).unwrap(),
    ]);
    assert_eq!(set.decide("build/a.o"), Decision::Excluded);
    assert_eq!(set.decide("build/sub/a.o"), Decision::Included);
    assert_eq!(set.decide("cache/x/y/z"), Decision::Excluded);
    assert_eq!(set.decide("deep/dir/a.tmp"), Decision::Excluded);
    assert_eq!(set.decide("deep/dir/ab.tmp"), Decision::Included);
    assert!(!set.has_includes());
}

#[test]
fn the_first_matching_rule_decides() {
    let set = FilterSet::from_rules(vec![
        Rule::new(Action::Exclude, "*.log", Origin::CommandLine).unwrap(),
        Rule::new(Action::Include, "keep.log", Origin::CommandLine).unwrap(),
    ]);
    assert_eq!(set.decide("keep.log"), Decision::Excluded);
    assert!(set.clone().has_includes());
}

#[test]
fn local_filter_prefers_the_rule_set_and_falls_back_to_the_excludes() {
    let with_rules = LocalSyncOptions {
        filter: Some(include_filter()),
        exclude_patterns: vec!["ignored".to_owned()],
        ..LocalSyncOptions::default()
    };
    assert_eq!(local_filter(&with_rules).unwrap().rules.len(), 2);
    let flat = LocalSyncOptions {
        exclude_patterns: vec!["*.bak".to_owned()],
        ..LocalSyncOptions::default()
    };
    let set = local_filter(&flat).unwrap();
    assert_eq!(set.decide("x/y.bak"), Decision::Excluded);
    let bad = LocalSyncOptions {
        exclude_patterns: vec![String::new()],
        ..LocalSyncOptions::default()
    };
    assert_eq!(local_filter(&bad).unwrap_err().kind(), "filter-unrepresentable");
}
