use pack_explode::object::same_id;
use pack_explode::tally::explode_entries;
use pack_explode::visit::{classify, discard_entry, resolve, verify_object};
use pack_explode::{
    EntryEvent, Event, ExplodeError, Explosion, Mode, ObjectError, ObjectKind, Resolution,
    SafetyCheck, Scheme, Step,
};

fn hex(s: &str) -> Vec<u8> {
    (0..s.len() / 2)
        .map(|i| u8::from_str_radix(&s[2 * i..2 * i + 2], 16).unwrap())
        .collect()
}

const HELLO_BLOB: &str = "b6fc4c620b67d95f953a5c1c1230aaab5db5a1b0";
const EMPTY_BLOB: &str = "e69de29bb2d1d6434b8b29ae775ad8c2e48c5391";
const EMPTY_TREE: &str = "4b825dc642cb6eb9a060e54bf8d69288fbee4904";

const ALL_POLICIES: [SafetyCheck; 4] = [
    SafetyCheck::All,
    SafetyCheck::SkipFileChecksumVerification,
    SafetyCheck::SkipFileAndObjectChecksumVerification,
    SafetyCheck::SkipFileAndObjectChecksumVerificationAndNoAbortOnDecodeError,
];

fn written(kind: ObjectKind, expected: &[u8], actual: &[u8]) -> EntryEvent {
    EntryEvent::Written { kind, expected: expected.to_vec(), written: Ok(actual.to_vec()) }
}

fn id(n: u8) -> Vec<u8> {
    vec![n; 20]
}

#[test]
fn safety_keys_parse_to_their_levels() {
    assert_eq!(SafetyCheck::parse("all").unwrap(), SafetyCheck::All);
    assert_eq!(
        SafetyCheck::parse("skip-file-checksum").unwrap(),
        SafetyCheck::SkipFileChecksumVerification
    );
    assert_eq!(
        SafetyCheck::parse("skip-file-and-object-checksum").unwrap(),
        SafetyCheck::SkipFileAndObjectChecksumVerification
    );
    assert_eq!(
        SafetyCheck::parse("skip-file-and-object-checksum-and-no-abort-on-decode").unwrap(),
        SafetyCheck::SkipFileAndObjectChecksumVerificationAndNoAbortOnDecodeError
    );
    let parsed: SafetyCheck = "all".parse().unwrap();
    assert_eq!(parsed, SafetyCheck::All);
}

#[test]
fn unknown_safety_key_is_a_config_error() {
    let err = SafetyCheck::parse("All").unwrap_err();
    assert_eq!(err.key, "All");
    assert_eq!(err.message(), "Unknown value for safety check: 'All'");
    assert!(SafetyCheck::parse("").is_err());
    assert!(SafetyCheck::parse("skip-file-checksum ").is_err());
}

#[test]
fn variants_list_every_key_and_each_parses_back() {
    let keys = SafetyCheck::variants();
    assert_eq!(
        keys,
        vec![
            "all",
            "skip-file-checksum",
            "skip-file-and-object-checksum",
            "skip-file-and-object-checksum-and-no-abort-on-decode"
        ]
    );
    for policy in ALL_POLICIES {
        assert_eq!(SafetyCheck::parse(policy.key()).unwrap(), policy);
    }
}

#[test]
fn policy_levels_decrease_in_strictness() {
    let checks: Vec<(bool, bool, bool)> = ALL_POLICIES
        .iter()
        .map(|p| (p.verifies_pack_checksum(), p.verifies_object_checksum(), p.aborts_on_error()))
        .collect();
    assert_eq!(
        checks,
        vec![(true, true, true), (false, true, true), (false, false, true), (false, false, false)]
    );
}

#[test]
fn same_id_compares_bytes() {
    assert!(same_id(&id(1), &id(1)));
    assert!(!same_id(&id(1), &id(2)));
    assert!(!same_id(&[1, 2], &[1, 2, 3]));
    assert!(same_id(&[], &[]));
}

#[test]
fn resolve_applies_the_mismatch_policy() {
    assert_eq!(resolve(ObjectKind::Blob, &id(1), &id(1)).unwrap(), Resolution::Exact);
    assert_eq!(resolve(ObjectKind::Tree, &id(1), &id(2)).unwrap(), Resolution::ToleratedTree);
    match resolve(ObjectKind::Commit, &id(1), &id(2)) {
        Err(ObjectError::EncodeMismatch { kind, expected, actual }) => {
            assert_eq!(kind, ObjectKind::Commit);
            assert_eq!(expected, id(1));
            assert_eq!(actual, id(2));
        }
        other => panic!("unexpected {:?}", other),
    }
}

#[test]
fn verify_object_hashes_the_loose_encoding() {
    assert_eq!(
        verify_object(ObjectKind::Blob, b"hello", &hex(HELLO_BLOB)).unwrap(),
        Resolution::Exact
    );
    assert_eq!(verify_object(ObjectKind::Blob, b"", &hex(EMPTY_BLOB)).unwrap(), Resolution::Exact);
    assert_eq!(verify_object(ObjectKind::Tree, b"", &hex(EMPTY_TREE)).unwrap(), Resolution::Exact);
}

#[test]
fn verify_object_reports_the_computed_id_on_mismatch() {
    match verify_object(ObjectKind::Blob, b"hello", &id(7)) {
        Err(ObjectError::EncodeMismatch { kind, expected, actual }) => {
            assert_eq!(kind, ObjectKind::Blob);
            assert_eq!(expected, id(7));
            assert_eq!(actual, hex(HELLO_BLOB));
        }
        other => panic!("unexpected {:?}", other),
    }
    assert_eq!(
        verify_object(ObjectKind::Tree, b"", &hex(EMPTY_BLOB)).unwrap(),
        Resolution::ToleratedTree
    );
}

#[test]
fn writing_the_same_object_twice_gives_the_same_id() {
    let first = verify_object(ObjectKind::Blob, b"same content", &id(0));
    let second = verify_object(ObjectKind::Blob, b"same content", &id(0));
    match (first, second) {
        (
            Err(ObjectError::EncodeMismatch { actual: a, .. }),
            Err(ObjectError::EncodeMismatch { actual: b, .. }),
        ) => {
            assert_eq!(a, b);
            assert_eq!(a.len(), 20);
        }
        other => panic!("unexpected {:?}", other),
    }
}

#[test]
fn classify_wraps_failures_with_the_entry() {
    let ev = EntryEvent::Written {
        kind: ObjectKind::Tag,
        expected: id(3),
        written: Err("disk full".to_string()),
    };
    match classify(&ev) {
        Err(ObjectError::Write { kind, expected, cause }) => {
            assert_eq!(kind, ObjectKind::Tag);
            assert_eq!(expected, id(3));
            assert_eq!(cause, "disk full");
        }
        other => panic!("unexpected {:?}", other),
    }
    let ev = EntryEvent::DecodeFailed { expected: id(4), cause: "bad zlib".to_string() };
    match classify(&ev) {
        Err(ObjectError::Decode { expected, cause }) => {
            assert_eq!(expected, id(4));
            assert_eq!(cause, "bad zlib");
        }
        other => panic!("unexpected {:?}", other),
    }
}

#[test]
fn three_blobs_explode_cleanly() {
    let evs = vec![
        written(ObjectKind::Blob, &id(1), &id(1)),
        written(ObjectKind::Blob, &id(2), &id(2)),
        written(ObjectKind::Blob, &id(3), &id(3)),
    ];
    let out = explode_entries(SafetyCheck::All, &evs).unwrap();
    assert_eq!(out.processed, 3);
    assert_eq!(out.tolerated, 0);
    assert_eq!(out.failed, 0);
}

#[test]
fn empty_pack_explodes_to_nothing() {
    let out = explode_entries(SafetyCheck::All, &vec![]).unwrap();
    assert_eq!((out.processed, out.tolerated, out.failed), (0, 0, 0));
}

#[test]
fn tree_mismatch_is_tolerated_under_every_policy() {
    for policy in ALL_POLICIES {
        let evs = vec![
            written(ObjectKind::Blob, &id(1), &id(1)),
            written(ObjectKind::Tree, &id(2), &id(9)),
        ];
        let out = explode_entries(policy, &evs).unwrap();
        assert_eq!(out.processed, 2);
        assert_eq!(out.tolerated, 1);
        assert_eq!(out.failed, 0);
    }
}

#[test]
fn blob_mismatch_aborts_unless_most_lenient() {
    let evs = vec![
        written(ObjectKind::Blob, &id(1), &id(1)),
        written(ObjectKind::Blob, &id(2), &id(8)),
        written(ObjectKind::Blob, &id(3), &id(3)),
    ];
    let aborted = explode_entries(SafetyCheck::All, &evs).unwrap_err();
    assert_eq!(aborted.at, 1);
    assert_eq!(aborted.so_far.processed, 1);
    assert!(matches!(aborted.error, ObjectError::EncodeMismatch { .. }));
    let out = explode_entries(
        SafetyCheck::SkipFileAndObjectChecksumVerificationAndNoAbortOnDecodeError,
        &evs,
    )
    .unwrap();
    assert_eq!((out.processed, out.failed), (2, 1));
}

#[test]
fn one_undecodable_entry_and_leniency() {
    let k = 4;
    let mut evs = vec![written(ObjectKind::Blob, &id(1), &id(1))];
    evs.push(EntryEvent::DecodeFailed { expected: id(2), cause: "corrupt".to_string() });
    for n in 3..=5u8 {
        evs.push(written(ObjectKind::Commit, &id(n), &id(n)));
    }
    for policy in &ALL_POLICIES[..3] {
        let aborted = explode_entries(*policy, &evs).unwrap_err();
        assert!(aborted.so_far.processed < k);
        assert_eq!(aborted.at, 1);
        assert!(matches!(aborted.error, ObjectError::Decode { .. }));
    }
    let out = explode_entries(ALL_POLICIES[3], &evs).unwrap();
    assert_eq!(out.processed, k);
    assert_eq!(out.failed, 1);
}

fn drive(m: &mut Explosion, evs: &[Event]) -> Vec<Step> {
    let mut steps = vec![m.next_step()];
    for ev in evs {
        m.advance(*ev);
        steps.push(m.next_step());
    }
    steps
}

#[test]
fn clean_run_with_deletion_removes_index_then_data() {
    let mut m = Explosion::new(true, true);
    let steps = drive(
        &mut m,
        &[
            Event::BundleOpened,
            Event::DestinationAccessible,
            Event::TraversalSucceeded,
            Event::Removed,
            Event::Removed,
        ],
    );
    assert_eq!(
        steps,
        vec![
            Step::OpenBundle,
            Step::CheckDestination,
            Step::Traverse,
            Step::RemoveIndex,
            Step::RemoveData,
            Step::Finished
        ]
    );
    assert!(m.exploded);
    assert_eq!(m.error, None);
    assert!(m.is_finished());
}

#[test]
fn failed_traversal_keeps_the_pack() {
    let mut m = Explosion::new(false, true);
    let steps = drive(&mut m, &[Event::BundleOpened, Event::TraversalFailed, Event::Removed]);
    assert_eq!(steps, vec![Step::OpenBundle, Step::Traverse, Step::Finished, Step::Finished]);
    assert!(!m.exploded);
    assert_eq!(m.error, Some(ExplodeError::Traversal));
}

#[test]
fn no_deletion_unless_asked() {
    let mut m = Explosion::new(false, false);
    drive(&mut m, &[Event::BundleOpened, Event::TraversalSucceeded]);
    assert!(m.is_finished());
    assert!(m.exploded);
    assert_eq!(m.error, None);
}

#[test]
fn deletion_failure_keeps_the_explosion() {
    let mut m = Explosion::new(false, true);
    drive(&mut m, &[Event::BundleOpened, Event::TraversalSucceeded, Event::Removed, Event::RemoveFailed]);
    assert!(m.exploded);
    assert_eq!(m.error, Some(ExplodeError::Deletion));
    assert!(m.is_finished());
}

#[test]
fn inaccessible_destination_stops_before_traversal() {
    let mut m = Explosion::new(true, true);
    let steps = drive(
        &mut m,
        &[Event::BundleOpened, Event::DestinationInaccessible, Event::TraversalSucceeded],
    );
    assert_eq!(
        steps,
        vec![Step::OpenBundle, Step::CheckDestination, Step::Finished, Step::Finished]
    );
    assert!(!steps.contains(&Step::Traverse));
    assert_eq!(m.error, Some(ExplodeError::InaccessibleDestination));
    assert!(!m.exploded);
}

#[test]
fn unopenable_bundle_is_reported() {
    let mut m = Explosion::new(true, false);
    drive(&mut m, &[Event::BundleOpenFailed]);
    assert_eq!(m.error, Some(ExplodeError::BundleOpen));
    assert!(m.is_finished());
}

#[test]
fn scheme_names_round_trip() {
    for name in ["file", "git", "ssh", "http", "https", "ext::custom", ""] {
        assert_eq!(Scheme::parse(name).as_str(), name);
        assert_eq!(Scheme::from(name).as_str(), name);
    }
    assert_eq!(Scheme::from("ssh"), Scheme::Ssh);
    assert_eq!(Scheme::from("https"), Scheme::Https);
    assert_eq!(Scheme::from("HTTP"), Scheme::Ext("HTTP".to_string()));
}

#[test]
fn mode_defaults_to_simulate() {
    assert!(Mode::default() == Mode::Simulate);
}

#[test]
fn discard_entry_reports_the_computed_id() {
    match discard_entry(ObjectKind::Blob, b"hello", &id(5)) {
        EntryEvent::Written { kind, expected, written } => {
            assert_eq!(kind, ObjectKind::Blob);
            assert_eq!(expected, id(5));
            assert_eq!(written.unwrap(), hex(HELLO_BLOB));
        }
        other => panic!("unexpected {:?}", other),
    }
}
