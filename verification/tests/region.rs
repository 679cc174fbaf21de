use aqua_verdict::region::{extract, MarkerSet};

fn set(starts: &[&str], ends: &[&str]) -> MarkerSet {
    MarkerSet::new(
        starts.iter().map(|s| s.to_string()).collect(),
        ends.iter().map(|s| s.to_string()).collect(),
    )
}

#[test]
fn region_lies_between_the_markers() {
    let doc = "head\n// BEGIN\nbody\n// END\ntail\n";
    let r = extract(doc, &set(&["// BEGIN"], &["// END"]));
    assert!(r.resolved);
    assert_eq!(r.text, "// BEGIN\nbody\n");
}

#[test]
fn document_without_markers_is_its_own_region() {
    let doc = "fn main() {}\n";
    let r = extract(doc, &set(&["// BEGIN"], &["// END"]));
    assert!(!r.resolved);
    assert_eq!(r.text, doc);
}

#[test]
fn missing_end_marker_widens_to_the_document() {
    let doc = "a\n// BEGIN\nb\n";
    let r = extract(doc, &set(&["// BEGIN"], &["// END"]));
    assert!(!r.resolved);
    assert_eq!(r.text, doc);
}

#[test]
fn missing_start_marker_widens_to_the_document() {
    let doc = "a\nb\n// END\n";
    let r = extract(doc, &set(&["// BEGIN"], &["// END"]));
    assert!(!r.resolved);
    assert_eq!(r.text, doc);
}

#[test]
fn end_marker_before_the_start_does_not_count() {
    let doc = "// END\nx\n// BEGIN\ny\n";
    let r = extract(doc, &set(&["// BEGIN"], &["// END"]));
    assert!(!r.resolved);
    assert_eq!(r.text, doc);
    let doc = "// END\nx\n// BEGIN\ny\n// END\nz";
    let r = extract(doc, &set(&["// BEGIN"], &["// END"]));
    assert!(r.resolved);
    assert_eq!(r.text, "// BEGIN\ny\n");
}

#[test]
fn earliest_marker_wins_over_the_first_listed() {
    let doc = "x\n// CHALLENGE #1\ny\n// CHALLENGE #1: ASYNC I/O\nz\n// END CHALLENGE CODE\n";
    let markers = set(&["// CHALLENGE #1: ASYNC I/O", "// CHALLENGE #1"], &["// END CHALLENGE CODE"]);
    let r = extract(doc, &markers);
    assert!(r.resolved);
    assert_eq!(r.text, "// CHALLENGE #1\ny\n// CHALLENGE #1: ASYNC I/O\nz\n");
}

#[test]
fn earliest_end_marker_wins_too() {
    let doc = "// S\na\n// End Challenge Code\nb\n// END CHALLENGE CODE\n";
    let markers = set(&["// S"], &["// END CHALLENGE CODE", "// End Challenge Code"]);
    assert_eq!(extract(doc, &markers).text, "// S\na\n");
}

#[test]
fn markers_with_multi_byte_characters_are_cut_cleanly() {
    let doc = "é°\n// ⚠️ CHALLENGE #1: ASYNC I/O ⚠️\nlet t = \"2°C\";\n// ⚠️ END CHALLENGE CODE ⚠️\n";
    let markers = set(&["// ⚠️ CHALLENGE #1: ASYNC I/O ⚠️"], &["// ⚠️ END CHALLENGE CODE ⚠️"]);
    let r = extract(doc, &markers);
    assert!(r.resolved);
    assert_eq!(r.text, "// ⚠️ CHALLENGE #1: ASYNC I/O ⚠️\nlet t = \"2°C\";\n");
}

#[test]
fn empty_marker_lists_resolve_nothing() {
    let doc = "abc";
    let r = extract(doc, &set(&[], &[]));
    assert!(!r.resolved);
    assert_eq!(r.text, "abc");
    let r = extract("", &set(&["a"], &["b"]));
    assert!(!r.resolved);
    assert_eq!(r.text, "");
}

#[test]
fn same_marker_on_both_sides_finds_the_next_one() {
    let doc = "a---b---c";
    let r = extract(doc, &set(&["---"], &["---"]));
    assert!(r.resolved);
    assert_eq!(r.text, "---b");
}
