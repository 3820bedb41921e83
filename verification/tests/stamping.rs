use gerrit_upload::commit::{contains_id, CommitRecord, Signature};
use gerrit_upload::rewrite_map::RewriteMap;
use gerrit_upload::stamp::{
    derive_change_id, plan_stamp, remap_parents, stamp_commit, stamp_description, StampAction,
};
use gerrit_upload::text::{same_bytes, short_commit_hash, to_decimal};
use gerrit_upload::trailer::{
    classify_trailers, is_well_formed_change_id, ExistingChangeId, Trailer,
};

fn signature(name: &str, millis: i64) -> Signature {
    Signature {
        name: name.to_string(),
        email: format!("{name}@example.com"),
        timestamp_millis: millis,
        tz_offset_minutes: 60,
    }
}

fn commit(id: u8, parents: Vec<Vec<u8>>, description: &str) -> CommitRecord {
    CommitRecord {
        id: vec![id; 20],
        change_id: vec![id.wrapping_add(0x10); 16],
        parents,
        description: description.to_string(),
        author: signature("author", 1_700_000_000_000),
        committer: signature("committer", 1_700_000_100_000),
        discardable: false,
    }
}

fn trailer(key: &str, value: &str) -> Trailer {
    Trailer { key: key.to_string(), value: value.to_string() }
}

#[test]
fn derived_identifier_has_prefix_and_hex() {
    let id = derive_change_id(&vec![0x00, 0x1f, 0xa0, 0xff]);
    assert_eq!(id, "I6a6a6964001fa0ff");
}

#[test]
fn derived_identifier_of_sixteen_bytes_is_well_formed() {
    let id = derive_change_id(&vec![0xab; 16]);
    assert_eq!(id.len(), 41);
    assert_eq!(id, format!("I6a6a6964{}", "ab".repeat(16)));
    assert!(is_well_formed_change_id(&id));
}

#[test]
fn short_hash_takes_twelve_digits() {
    assert_eq!(short_commit_hash(&vec![0x12, 0x34, 0x56, 0x78, 0x9a, 0xbc, 0xde, 0xf0]), "123456789abc");
    assert_eq!(short_commit_hash(&vec![0x12, 0x34, 0x56, 0x78, 0x9a, 0xbc]), "123456789abc");
    assert_eq!(short_commit_hash(&vec![0x0a, 0xb0]), "0ab0");
    assert_eq!(short_commit_hash(&vec![]), "");
}

#[test]
fn decimal_rendering() {
    assert_eq!(to_decimal(0), "0");
    assert_eq!(to_decimal(7), "7");
    assert_eq!(to_decimal(10), "10");
    assert_eq!(to_decimal(1234567890), "1234567890");
}

#[test]
fn same_bytes_compares_contents() {
    assert!(same_bytes(&vec![1, 2, 3], &vec![1, 2, 3]));
    assert!(!same_bytes(&vec![1, 2, 3], &vec![1, 2, 4]));
    assert!(!same_bytes(&vec![1, 2, 3], &vec![1, 2]));
    assert!(same_bytes(&vec![], &vec![]));
    assert!(contains_id(&vec![vec![1], vec![2, 2]], &vec![2, 2]));
    assert!(!contains_id(&vec![vec![1], vec![2, 2]], &vec![2]));
}

#[test]
fn well_formed_identifier_has_forty_one_characters_and_leading_i() {
    let good = format!("I{}", "0".repeat(40));
    assert!(is_well_formed_change_id(&good));
    assert!(!is_well_formed_change_id(&format!("J{}", "0".repeat(40))));
    assert!(!is_well_formed_change_id(&format!("I{}", "0".repeat(39))));
    assert!(!is_well_formed_change_id(&format!("I{}", "0".repeat(41))));
    assert!(!is_well_formed_change_id(""));
}

#[test]
fn classification_counts_tracking_identifiers() {
    let none = vec![trailer("Signed-off-by", "A <a@example.com>")];
    assert_eq!(classify_trailers(&none), ExistingChangeId::Absent);
    assert_eq!(classify_trailers(&vec![]), ExistingChangeId::Absent);

    let value = format!("I{}", "a".repeat(40));
    let one = vec![trailer("Reviewed-by", "B"), trailer("Change-Id", &value)];
    assert_eq!(
        classify_trailers(&one),
        ExistingChangeId::Single { value: value.clone(), well_formed: true }
    );

    let malformed = vec![trailer("Change-Id", "Ibad")];
    assert_eq!(
        classify_trailers(&malformed),
        ExistingChangeId::Single { value: "Ibad".to_string(), well_formed: false }
    );

    let two = vec![trailer("Change-Id", &value), trailer("Change-Id", &value)];
    assert_eq!(classify_trailers(&two), ExistingChangeId::Multiple);
    let three = vec![
        trailer("Change-Id", "I1"),
        trailer("Other", "x"),
        trailer("Change-Id", "I2"),
        trailer("Change-Id", "I3"),
    ];
    assert_eq!(classify_trailers(&three), ExistingChangeId::Multiple);
    // The key is matched exactly.
    let other_case = vec![trailer("change-id", &value)];
    assert_eq!(classify_trailers(&other_case), ExistingChangeId::Absent);
}

#[test]
fn description_without_trailers_gets_blank_line() {
    let stamped = stamp_description("fix bug", false, &vec![0xab; 16]);
    assert_eq!(stamped, format!("fix bug\n\nChange-Id: I6a6a6964{}\n", "ab".repeat(16)));
}

#[test]
fn description_with_trailers_gets_single_line_break() {
    let stamped = stamp_description("fix bug\n\nSigned-off-by: A <a@example.com>\n", true, &vec![1, 2]);
    assert_eq!(stamped, "fix bug\n\nSigned-off-by: A <a@example.com>\nChange-Id: I6a6a69640102\n");
}

#[test]
fn description_is_trimmed_on_both_sides() {
    let stamped = stamp_description(" \t\n fix bug \u{3000}\n\n", false, &vec![0xff]);
    assert_eq!(stamped, "fix bug\n\nChange-Id: I6a6a6964ff\n");
    let inner = stamp_description("a  b", false, &vec![]);
    assert_eq!(inner, "a  b\n\nChange-Id: I6a6a6964\n");
}

#[test]
fn parents_go_through_the_mapping() {
    let mut map = RewriteMap::new();
    map.insert(vec![1; 20], vec![9; 20]);
    let remapped = remap_parents(&map, &vec![vec![2; 20], vec![1; 20]]);
    assert_eq!(remapped, vec![vec![2; 20], vec![9; 20]]);
    assert_eq!(remap_parents(&map, &vec![]), Vec::<Vec<u8>>::new());
}

#[test]
fn rewrite_map_keeps_latest_entry() {
    let mut map = RewriteMap::new();
    assert_eq!(map.get(&vec![1]), None);
    assert_eq!(map.resolve(&vec![1]), vec![1]);
    map.insert(vec![1], vec![2]);
    map.insert(vec![3], vec![3]);
    assert_eq!(map.get(&vec![1]), Some(vec![2]));
    assert_eq!(map.get(&vec![3]), Some(vec![3]));
    assert_eq!(map.get(&vec![2]), None);
    map.insert(vec![1], vec![4]);
    assert_eq!(map.get(&vec![1]), Some(vec![4]));
    assert_eq!(map.resolve(&vec![1]), vec![4]);
    assert_eq!(map.resolve(&vec![7]), vec![7]);
}

#[test]
fn commit_without_identifier_is_rewritten() {
    let original = commit(1, vec![vec![7; 20]], "fix bug");
    let map = RewriteMap::new();
    match plan_stamp(&original, &map) {
        StampAction::Rewrite(new_commit) => {
            let hex = "11".repeat(16);
            assert_eq!(new_commit.description, format!("fix bug\n\nChange-Id: I6a6a6964{hex}\n"));
            assert_eq!(new_commit.parents, vec![vec![7; 20]]);
            assert_eq!(new_commit.author, original.author);
            assert_eq!(new_commit.committer, original.committer);
        }
        other => panic!("unexpected {other:?}"),
    }
}

#[test]
fn stamping_twice_gives_the_same_commit() {
    let original = commit(1, vec![vec![7; 20]], "fix bug\n\nmore text\n");
    let map = RewriteMap::new();
    let first = plan_stamp(&original, &map);
    let second = plan_stamp(&original, &map);
    assert_eq!(first, second);
    assert!(matches!(first, StampAction::Rewrite(_)));
}

#[test]
fn commit_with_other_trailers_is_rewritten_after_them() {
    let original = commit(2, vec![], "fix bug\n\nSigned-off-by: A <a@example.com>\n");
    match plan_stamp(&original, &RewriteMap::new()) {
        StampAction::Rewrite(new_commit) => {
            let hex = "12".repeat(16);
            assert_eq!(
                new_commit.description,
                format!("fix bug\n\nSigned-off-by: A <a@example.com>\nChange-Id: I6a6a6964{hex}\n")
            );
        }
        other => panic!("unexpected {other:?}"),
    }
}

#[test]
fn commit_with_well_formed_identifier_is_kept() {
    let description = format!("fix bug\n\nChange-Id: I{}\n", "c".repeat(40));
    let original = commit(3, vec![], &description);
    assert_eq!(plan_stamp(&original, &RewriteMap::new()), StampAction::Keep { warn: false });
}

#[test]
fn commit_with_malformed_identifier_is_kept_with_warning() {
    let original = commit(3, vec![], "fix bug\n\nChange-Id: Ishort\n");
    assert_eq!(plan_stamp(&original, &RewriteMap::new()), StampAction::Keep { warn: true });
}

#[test]
fn commit_with_two_identifiers_is_rejected() {
    let description =
        format!("fix bug\n\nChange-Id: I{}\nChange-Id: I{}\n", "c".repeat(40), "d".repeat(40));
    let original = commit(4, vec![], &description);
    assert_eq!(plan_stamp(&original, &RewriteMap::new()), StampAction::Reject);
}

#[test]
fn single_paragraph_holds_no_trailers() {
    // A description of one paragraph has no trailer paragraph, whatever it looks like.
    let original = commit(5, vec![], "Change-Id: Ishort");
    match plan_stamp(&original, &RewriteMap::new()) {
        StampAction::Rewrite(new_commit) => {
            let hex = "15".repeat(16);
            assert_eq!(
                new_commit.description,
                format!("Change-Id: Ishort\n\nChange-Id: I6a6a6964{hex}\n")
            );
        }
        other => panic!("unexpected {other:?}"),
    }
}

#[test]
fn stamping_with_given_trailers() {
    let original = commit(6, vec![vec![1; 20]], "  subject  ");
    let mut map = RewriteMap::new();
    map.insert(vec![1; 20], vec![0xee; 20]);
    let trailers = vec![trailer("Reviewed-by", "B")];
    match stamp_commit(&original, &trailers, &map) {
        StampAction::Rewrite(new_commit) => {
            let hex = "16".repeat(16);
            assert_eq!(new_commit.description, format!("subject\nChange-Id: I6a6a6964{hex}\n"));
            assert_eq!(new_commit.parents, vec![vec![0xee; 20]]);
        }
        other => panic!("unexpected {other:?}"),
    }
    let two = vec![trailer("Change-Id", "I1"), trailer("Change-Id", "I2")];
    assert_eq!(stamp_commit(&original, &two, &map), StampAction::Reject);
}
