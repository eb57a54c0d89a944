use teledex::answer::{build_answer, u64_decimal};
use teledex::models::InlineQueryEvent;

fn query(id: &str, text: &str) -> InlineQueryEvent {
    InlineQueryEvent {
        query_id: String::from(id),
        from_full_name: String::from("somebody"),
        query_text: String::from(text),
    }
}

#[test]
fn order_is_preserved_and_bodies_formatted() {
    let q = query("55", "x");
    let defs: Vec<&str> = vec!["A", "B"];
    let p = build_answer(&q, &defs);
    assert_eq!(p.results.len(), 2);
    assert_eq!(p.results[0].body, "x = A");
    assert_eq!(p.results[1].body, "x = B");
    assert_eq!(p.results[0].title, "x");
    assert_eq!(p.results[1].title, "x");
}

#[test]
fn query_id_is_echoed_verbatim() {
    let q = query("abc-123", "word");
    let p = build_answer(&q, &vec!["d"]);
    assert_eq!(p.query_id, "abc-123");
}

#[test]
fn empty_lookup_yields_empty_answer() {
    let q = query("9", "nonexistent");
    let defs: Vec<&str> = Vec::new();
    let p = build_answer(&q, &defs);
    assert_eq!(p.results.len(), 0);
    assert_eq!(p.query_id, "9");
}

#[test]
fn rich_text_on_and_link_preview_off() {
    let q = query("1", "w");
    let p = build_answer(&q, &vec!["d"]);
    assert!(p.results[0].rich_text);
    assert!(!p.results[0].link_preview);
}

#[test]
fn result_ids_are_position_prefixed() {
    let q = query("1", "w");
    let p = build_answer(&q, &vec!["first", "second"]);
    assert_eq!(p.results[0].id, "0:first");
    assert_eq!(p.results[1].id, "1:second");
}

#[test]
fn identical_definitions_get_distinct_ids() {
    let q = query("1", "w");
    let p = build_answer(&q, &vec!["dup", "dup"]);
    assert_ne!(p.results[0].id, p.results[1].id);
    assert_eq!(p.results[0].body, p.results[1].body);
}

#[test]
fn decimal_rendering_is_exact() {
    assert_eq!(u64_decimal(0), "0");
    assert_eq!(u64_decimal(7), "7");
    assert_eq!(u64_decimal(10), "10");
    assert_eq!(u64_decimal(907), "907");
    assert_eq!(u64_decimal(18_446_744_073_709_551_615), "18446744073709551615");
}
