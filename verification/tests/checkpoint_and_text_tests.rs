//! Unit tests of the checkpoint format and the text utilities.

use phgit_core::checkpoint::{load_checkpoint, parse_checkpoint, SyncCheckpoint};
use phgit_core::commit_id::CommitId;
use phgit_core::fmt::usize_to_string;
use phgit_core::text::{replace_char, split_once_char, str_contains};

const ID_A: &str = "aaaaaaaaaaaaaaaaaaaaaaaaaaaaaaaaaaaaaaaa";
const ID_B: &str = "0123456789abcdef0123456789abcdef01234567";

#[test]
fn commit_id_accepts_exactly_forty_hex_digits() {
    assert!(CommitId::from_hex(ID_A).is_some());
    assert!(CommitId::from_hex(ID_B).is_some());
    // Too short, too long, uppercase, non-hex, non-ascii.
    assert!(CommitId::from_hex("abc").is_none());
    assert!(CommitId::from_hex(&format!("{}a", ID_A)).is_none());
    assert!(CommitId::from_hex("AAAAAAAAAAAAAAAAAAAAAAAAAAAAAAAAAAAAAAAA").is_none());
    assert!(CommitId::from_hex("zzzzzzzzzzzzzzzzzzzzzzzzzzzzzzzzzzzzzzzz").is_none());
    assert!(CommitId::from_hex("éééééééééééééééééééééééééééééééééééééééé").is_none());
    assert_eq!(CommitId::from_hex(ID_B).unwrap().as_str(), ID_B);
}

#[test]
fn checkpoint_serializes_canonically() {
    let empty = SyncCheckpoint::empty();
    assert_eq!(
        empty.serialize(),
        "{\"last_source_synced_oid\":null,\"last_target_synced_oid\":null}"
    );
    let full = SyncCheckpoint {
        last_source_synced_id: CommitId::from_hex(ID_A),
        last_target_synced_id: CommitId::from_hex(ID_B),
    };
    assert_eq!(
        full.serialize(),
        format!(
            "{{\"last_source_synced_oid\":\"{}\",\"last_target_synced_oid\":\"{}\"}}",
            ID_A, ID_B
        )
    );
}

#[test]
fn checkpoint_round_trips_on_disk_content() {
    // save(load(x)) leaves the content untouched, for every field shape.
    let cases = vec![
        (None, None),
        (Some(ID_A), Some(ID_B)),
        (Some(ID_A), None),
        (None, Some(ID_B)),
    ];
    for (src, tgt) in cases {
        let cp = SyncCheckpoint {
            last_source_synced_id: src.and_then(CommitId::from_hex),
            last_target_synced_id: tgt.and_then(CommitId::from_hex),
        };
        let content = cp.serialize();
        let reloaded = load_checkpoint(Some(&content));
        assert_eq!(reloaded.serialize(), content);
    }
}

#[test]
fn load_degrades_to_empty_on_missing_or_corrupt() {
    let empty = SyncCheckpoint::empty().serialize();
    assert_eq!(load_checkpoint(None).serialize(), empty);
    assert_eq!(load_checkpoint(Some("")).serialize(), empty);
    assert_eq!(load_checkpoint(Some("not json at all")).serialize(), empty);
    assert_eq!(load_checkpoint(Some("{}")).serialize(), empty);
    // A nearly-right record with a malformed id is ignored, not trusted.
    let bad = "{\"last_source_synced_oid\":\"tooshort\",\"last_target_synced_oid\":null}";
    assert_eq!(load_checkpoint(Some(bad)).serialize(), empty);
    // Trailing garbage is rejected.
    let trailing = format!(
        "{{\"last_source_synced_oid\":\"{}\",\"last_target_synced_oid\":null}}x",
        ID_A
    );
    assert!(parse_checkpoint(&trailing).is_none());
}

#[test]
fn parse_accepts_the_record_with_or_without_whitespace() {
    let good = format!(
        "{{\"last_source_synced_oid\":\"{}\",\"last_target_synced_oid\":null}}",
        ID_A
    );
    let cp = parse_checkpoint(&good).unwrap();
    assert_eq!(cp.last_source_synced_id.unwrap().as_str(), ID_A);
    assert!(cp.last_target_synced_id.is_none());
    // Whitespace between the tokens, as a pretty printer writes it, is
    // tolerated: such records load with the same content.
    let pretty = format!(
        "{{\n  \"last_source_synced_oid\": \"{}\",\n  \"last_target_synced_oid\": null\n}}",
        ID_A
    );
    let cp = parse_checkpoint(&pretty).unwrap();
    assert_eq!(cp.last_source_synced_id.unwrap().as_str(), ID_A);
    assert!(cp.last_target_synced_id.is_none());
    // Re-saving a loaded pretty record writes the canonical form.
    assert_eq!(load_checkpoint(Some(&pretty)).serialize(), good);
    // Other keys, or the keys out of order, are rejected.
    let swapped = format!(
        "{{\"last_target_synced_oid\":null,\"last_source_synced_oid\":\"{}\"}}",
        ID_A
    );
    assert!(parse_checkpoint(&swapped).is_none());
    // Whitespace inside a quoted id is not whitespace between tokens.
    let broken_id = format!(
        "{{\"last_source_synced_oid\":\" {}\",\"last_target_synced_oid\":null}}",
        &ID_A[1..]
    );
    assert!(parse_checkpoint(&broken_id).is_none());
}

#[test]
fn decimal_rendering_is_exact() {
    assert_eq!(usize_to_string(0), "0");
    assert_eq!(usize_to_string(7), "7");
    assert_eq!(usize_to_string(10), "10");
    assert_eq!(usize_to_string(40302), "40302");
}

#[test]
fn contains_and_split_and_replace() {
    assert!(str_contains("nothing to commit, working tree clean", "nothing to commit"));
    assert!(!str_contains("all good", "nothing to commit"));
    assert!(str_contains("abc", ""));
    assert_eq!(
        split_once_char("origin/feature/x", '/'),
        Some(("origin".to_string(), "feature/x".to_string()))
    );
    assert_eq!(split_once_char("no-separator", '/'), None);
    assert_eq!(replace_char("feat/one/two", '/', '-'), "feat-one-two");
    assert_eq!(replace_char("plain", '/', '-'), "plain");
}
