use klovy_chat_server::controllers::account::{file_ext, serialize_own_warning, Warning};
use klovy_chat_server::controllers::contacts::{fold_letters, normalize_text};
use klovy_chat_server::ids::{is_valid_object_id, ObjectId};
use klovy_chat_server::lists::{
    contains_id, contains_text, distinct_ids, distinct_texts, hex_ids, ids_but, ids_missing_from,
    ids_with, texts_but,
};
use klovy_chat_server::table::IdTable;
use klovy_chat_server::text;
use klovy_chat_server::time::iso_opt;

const A: &str = "507f1f77bcf86cd799439011";
const B: &str = "507f191e810c19729de860ea";

fn id(s: &str) -> ObjectId {
    ObjectId::parse_str(s).unwrap()
}

#[test]
fn identifiers_read_back_from_their_text() {
    assert_eq!(id(A).to_hex(), A);
    assert_eq!(id("507F1F77BCF86CD799439011"), id(A));
    assert_eq!(id("507F1F77BCF86CD799439011").to_hex(), A);
    assert_ne!(id(A), id(B));
}

#[test]
fn texts_that_are_no_identifiers_are_refused() {
    assert!(ObjectId::parse_str("").is_none());
    assert!(ObjectId::parse_str("507f1f77bcf86cd79943901").is_none());
    assert!(ObjectId::parse_str("507f1f77bcf86cd7994390112").is_none());
    assert!(ObjectId::parse_str("507f1f77bcf86cd79943901g").is_none());
    assert!(is_valid_object_id(A));
    assert!(!is_valid_object_id("me"));
}

#[test]
fn identifiers_agree_with_the_store() {
    let outside = mongodb::bson::oid::ObjectId::parse_str(A).unwrap();
    assert_eq!(outside.to_hex(), id(A).to_hex());
    assert_eq!(outside.bytes()[0], 0x50);
}

#[test]
fn times_are_told_in_one_format() {
    assert_eq!(iso_opt(Some(0)), Some("1970-01-01T00:00:00Z".to_string()));
    assert_eq!(iso_opt(Some(1_500)), Some("1970-01-01T00:00:01.5Z".to_string()));
    assert_eq!(iso_opt(None), None);
}

#[test]
fn warnings_are_shown_as_they_are_stored() {
    let w = Warning {
        id: Some(id(A)),
        reason: "spam".to_string(),
        severity: "high",
        acknowledged: true,
        acknowledged_at: Some(1_000),
        created_at: 0,
    };
    let shown = serialize_own_warning(&w);
    assert_eq!(shown.id.as_deref(), Some(A));
    assert_eq!(shown.reason, "spam");
    assert_eq!(shown.severity, "high");
    assert!(shown.acknowledged);
    assert_eq!(shown.acknowledged_at.as_deref(), Some("1970-01-01T00:00:01Z"));
    assert_eq!(shown.created_at.as_deref(), Some("1970-01-01T00:00:00Z"));
}

#[test]
fn white_space_around_texts_is_cut_off() {
    assert_eq!(text::trim("  a b \n"), "a b");
    assert_eq!(text::trim(text::trim(" \t x ")), "x");
    assert!(text::is_blank(" \u{2003}\n"));
    assert!(!text::is_blank(" x "));
}

#[test]
fn numbers_are_read_and_written() {
    assert_eq!(text::parse_number("007", 100), Some(7));
    assert_eq!(text::parse_number("+8", 100), Some(8));
    assert_eq!(text::parse_number("101", 100), None);
    assert_eq!(text::parse_number("", 100), None);
    assert_eq!(text::parse_number("1x", 100), None);
    assert_eq!(text::parse_number("18446744073709551615", u64::MAX), Some(u64::MAX));
    assert_eq!(text::parse_number("18446744073709551616", u64::MAX), None);
    assert_eq!(text::decimal_text(0), "0");
    assert_eq!(text::decimal_text(1_203), "1203");
    let mut s = String::new();
    text::push_signed(&mut s, i64::MIN);
    assert_eq!(s, "-9223372036854775808");
}

#[test]
fn texts_are_taken_apart() {
    assert_eq!(text::split_text("a,,b", ','), vec!["a", "", "b"]);
    assert_eq!(text::collapse_spaces("  a \t b\n"), "a b");
    assert_eq!(text::text_after_last("a.b.c", '.'), "c");
    assert_eq!(text::trim_end_char("x//", '/'), "x");
    assert_eq!(text::trim_start_text("ababc", "ab"), "c");
    assert_eq!(text::strip_prefix("call:end", "call:"), Some("end"));
    assert_eq!(text::strip_prefix("end", "call:"), None);
    assert!(text::contains_text("ns not found", "not"));
    assert!(!text::contains_text("ns", "not"));
    assert!(text::contains_char("a@b", '@'));
    assert!(text::starts_with("https://x", "https://"));
    assert!(text::eq_ignore_ascii_case("TrUe", "true"));
    assert_eq!(text::to_ascii_lowercase("AbĄ"), "abĄ");
    assert_eq!(text::len_bytes("ą"), 2);
}

#[test]
fn file_extensions_are_in_lower_case() {
    assert_eq!(file_ext("Photo.JPG"), "jpg");
    assert_eq!(file_ext("a.b.WebP"), "webp");
    assert_eq!(file_ext("README"), "readme");
    assert_eq!(file_ext("x."), "");
}

#[test]
fn searches_are_normalised() {
    assert_eq!(fold_letters("Zażółć gęślą jaźń"), "Zazolc gesla jazn");
    assert_eq!(normalize_text("  ŁÓDŹ   Wieś "), "lodz wies");
    assert_eq!(normalize_text("ÀB"), "àb");
    assert_eq!(normalize_text("\t"), "");
}

#[test]
fn lists_keep_first_occurrences() {
    let ids = vec![id(A), id(B), id(A)];
    assert_eq!(distinct_ids(&ids), vec![id(A), id(B)]);
    assert_eq!(ids_but(&ids, id(A)), vec![id(B)]);
    assert_eq!(ids_missing_from(&ids, &vec![id(B)]), vec![id(A), id(A)]);
    assert_eq!(ids_with(&vec![id(A)], id(A)), vec![id(A)]);
    assert_eq!(ids_with(&vec![id(A)], id(B)), vec![id(A), id(B)]);
    assert!(contains_id(&ids, id(B)));
    assert_eq!(hex_ids(&vec![id(B)]), vec![B]);
    let t = vec!["x".to_string(), "y".to_string(), "x".to_string()];
    assert_eq!(distinct_texts(&t), vec!["x", "y"]);
    assert_eq!(texts_but(&t, "x"), vec!["y"]);
    assert!(contains_text(&t, "y"));
    assert!(!contains_text(&t, "z"));
}

#[test]
fn tables_hold_one_entry_for_each_identifier() {
    let mut t: IdTable<u64> = IdTable::new();
    assert_eq!(t.get(id(A)), None);
    t.insert(id(A), 1);
    t.insert(id(B), 2);
    t.insert(id(A), 3);
    assert_eq!(t.get(id(A)), Some(&3));
    assert_eq!(t.get(id(B)), Some(&2));
}
