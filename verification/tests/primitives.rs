use aqua_verdict::async_io;
use aqua_verdict::evidence::{BenchmarkResult, Introspection};
use aqua_verdict::lines::{
    count_live_chars, count_on_line, is_comment_line, is_live_chars, is_live_without,
    is_live_without_chars, line_list, line_shows_pattern, live_in, live_without_in,
};
use aqua_verdict::memory;
use aqua_verdict::query_optimization;
use aqua_verdict::region::{char_lists, find_earliest, region_bounds, region_chars, MarkerSet};
use aqua_verdict::resource_leak;
use aqua_verdict::text::{
    chars_of, contains_chars, count_occurrences, find_from, matches_at, push_text,
};

fn cs(s: &str) -> Vec<char> {
    s.chars().collect()
}

fn lists(list: &[&str]) -> Vec<Vec<char>> {
    list.iter().map(|s| cs(s)).collect()
}

#[test]
fn characters_of_a_string() {
    assert_eq!(chars_of(""), Vec::<char>::new());
    assert_eq!(chars_of("a°⚠️"), vec!['a', '°', '\u{26a0}', '\u{fe0f}']);
}

#[test]
fn pattern_at_an_offset() {
    let hay = cs("abcabc");
    assert!(matches_at(&hay, &cs("abc"), 0));
    assert!(matches_at(&hay, &cs("abc"), 3));
    assert!(!matches_at(&hay, &cs("abc"), 1));
    assert!(!matches_at(&hay, &cs("abc"), 4));
    assert!(!matches_at(&hay, &cs("abc"), 100));
    assert!(matches_at(&hay, &cs(""), 6));
    assert!(!matches_at(&hay, &cs(""), 7));
    assert!(!matches_at(&cs("ab"), &cs("abc"), 0));
}

#[test]
fn first_offset_from_a_place() {
    let hay = cs("xxabxxab");
    assert_eq!(find_from(&hay, &cs("ab"), 0), Some(2));
    assert_eq!(find_from(&hay, &cs("ab"), 2), Some(2));
    assert_eq!(find_from(&hay, &cs("ab"), 3), Some(6));
    assert_eq!(find_from(&hay, &cs("ab"), 7), None);
    assert_eq!(find_from(&hay, &cs("ab"), 99), None);
    assert_eq!(find_from(&hay, &cs("zz"), 0), None);
    assert_eq!(find_from(&hay, &cs(""), 0), Some(0));
    assert_eq!(find_from(&hay, &cs(""), 8), Some(8));
    assert_eq!(find_from(&hay, &cs(""), 9), None);
    assert_eq!(find_from(&cs(""), &cs(""), 0), Some(0));
    assert_eq!(find_from(&cs(""), &cs("a"), 0), None);
}

#[test]
fn substring_and_count() {
    assert!(contains_chars(&cs("static CLIENT_COUNT"), &cs("CLIENT")));
    assert!(!contains_chars(&cs("static client"), &cs("CLIENT")));
    assert!(contains_chars(&cs(""), &cs("")));
    assert_eq!(count_occurrences(&cs("Client::new() Client::new()"), &cs("Client::new()")), 2);
    assert_eq!(count_occurrences(&cs("aaaaa"), &cs("aa")), 2);
    assert_eq!(count_occurrences(&cs("abab"), &cs("aba")), 1);
    assert_eq!(count_occurrences(&cs("abc"), &cs("")), 0);
    assert_eq!(count_occurrences(&cs("abc"), &cs("abcd")), 0);
}

#[test]
fn texts_are_appended() {
    let mut v = vec!["a".to_string()];
    push_text(&mut v, "b");
    assert_eq!(v, vec!["a".to_string(), "b".to_string()]);
}

#[test]
fn comment_lines() {
    assert!(is_comment_line(&cs("// x")));
    assert!(is_comment_line(&cs("   //")));
    assert!(is_comment_line(&cs("\t \u{2003}///doc")));
    assert!(!is_comment_line(&cs("/ / x")));
    assert!(!is_comment_line(&cs("x // y")));
    assert!(!is_comment_line(&cs("/")));
    assert!(!is_comment_line(&cs("")));
    assert!(!is_comment_line(&cs("   ")));
    assert!(!is_comment_line(&cs("/* x */")));
    assert!(!is_comment_line(&cs("\u{200b}// x")));
}

#[test]
fn lines_of_a_text() {
    let shown = |s: &str| -> Vec<String> {
        line_list(&cs(s)).into_iter().map(|l| l.into_iter().collect()).collect()
    };
    assert_eq!(shown(""), Vec::<String>::new());
    assert_eq!(shown("a"), vec!["a"]);
    assert_eq!(shown("a\n"), vec!["a"]);
    assert_eq!(shown("a\nb"), vec!["a", "b"]);
    assert_eq!(shown("a\n\nb\n"), vec!["a", "", "b"]);
    assert_eq!(shown("\n"), vec![""]);
    assert_eq!(shown("a\r\nb\r\n"), vec!["a", "b"]);
    assert_eq!(shown("a\rb\r"), vec!["a\rb\r"]);
    assert_eq!(shown("a\r\r\n"), vec!["a\r"]);
    assert_eq!(shown("\r\n"), vec![""]);
    for s in ["", "a", "a\n", "x\r\ny", "\n\n", "a\r", "\r\n\r\n", "é\n⚠️\r\nz"] {
        let std_lines: Vec<String> = s.lines().map(|l| l.to_string()).collect();
        assert_eq!(shown(s), std_lines, "{:?}", s);
    }
}

#[test]
fn patterns_line_by_line() {
    assert!(line_shows_pattern(&cs("let a = b;"), &cs("a = b")));
    assert!(!line_shows_pattern(&cs("// let a = b;"), &cs("a = b")));
    assert!(!line_shows_pattern(&cs("let a = b;"), &cs("c")));
    assert_eq!(count_on_line(&cs("x.to_string() + y.to_string()"), &cs(".to_string()")), 2);
    assert_eq!(count_on_line(&cs("  // x.to_string()"), &cs(".to_string()")), 0);
    assert!(is_live_chars(&cs("// a\nb"), &cs("b")));
    assert!(!is_live_chars(&cs("// a\nb"), &cs("a")));
    assert!(live_in(&cs("// a\nb"), "b"));
    assert!(!live_in(&cs("// a\nb"), "a"));
    assert_eq!(count_live_chars(&cs("aa\n//aa\naaa"), &cs("a")), 5);
}

#[test]
fn earliest_of_several_markers() {
    let doc = cs("..B..A..B");
    assert_eq!(find_earliest(&doc, &lists(&["A", "B"]), 0), Some(2));
    assert_eq!(find_earliest(&doc, &lists(&["B", "A"]), 0), Some(2));
    assert_eq!(find_earliest(&doc, &lists(&["A", "B"]), 3), Some(5));
    assert_eq!(find_earliest(&doc, &lists(&["A", "B"]), 6), Some(8));
    assert_eq!(find_earliest(&doc, &lists(&["A"]), 6), None);
    assert_eq!(find_earliest(&doc, &lists(&[]), 0), None);
    assert_eq!(find_earliest(&doc, &lists(&["C", "D"]), 0), None);
}

#[test]
fn bounds_of_a_region() {
    let doc = cs("0<<3>>6<<9>>");
    assert_eq!(region_bounds(&doc, &lists(&["<<"]), &lists(&[">>"])), Some((1, 4)));
    assert_eq!(region_bounds(&doc, &lists(&["<<"]), &lists(&["]]"])), None);
    assert_eq!(region_bounds(&doc, &lists(&["[["]), &lists(&[">>"])), None);
    assert_eq!(region_bounds(&cs(">><<"), &lists(&["<<"]), &lists(&[">>"])), None);
    assert_eq!(region_bounds(&cs("ab"), &lists(&[""]), &lists(&[""])), Some((0, 1)));
    assert_eq!(region_bounds(&cs(""), &lists(&[""]), &lists(&[""])), None);
    let cut: String = region_chars(&doc, &lists(&["<<"]), &lists(&[">>"])).iter().collect();
    assert_eq!(cut, "<<3");
    let whole: String = region_chars(&doc, &lists(&["<<"]), &lists(&["]]"])).iter().collect();
    assert_eq!(whole, "0<<3>>6<<9>>");
}

#[test]
fn marker_sets_cut_characters() {
    let m = MarkerSet::new(vec!["<<".to_string()], vec![">>".to_string()]);
    let doc = cs("a<<b>>c");
    assert_eq!(m.cut(&doc).iter().collect::<String>(), "<<b");
    assert_eq!(char_lists(&m.starts), vec![vec!['<', '<']]);
}

#[test]
fn category_markers() {
    let m = async_io::markers();
    assert_eq!(
        m.starts,
        vec![
            "// ⚠️ CHALLENGE #1: ASYNC I/O ⚠️",
            "// CHALLENGE #1: ASYNC I/O",
            "// Challenge 1: Async I/O",
            "// Challenge 1",
            "// CHALLENGE #1"
        ]
    );
    assert_eq!(
        m.ends,
        vec![
            "// ⚠️ END CHALLENGE CODE ⚠️",
            "// END CHALLENGE CODE",
            "// End Challenge Code",
            "// End Challenge 1",
            "// END CHALLENGE #1"
        ]
    );
    assert_eq!(resource_leak::markers().starts, vec!["// ⚠️ CHALLENGE #4: RESOURCE LEAK ⚠️"]);
    assert_eq!(resource_leak::markers().ends, vec!["// ⚠️ END CHALLENGE CODE ⚠️"]);
    assert_eq!(
        query_optimization::markers().starts,
        vec!["// ⚠️ CHALLENGE #2: DATABASE QUERY OPTIMIZATION ⚠️"]
    );
    assert_eq!(
        memory::markers().starts,
        vec!["// ⚠️ CHALLENGE #3: STRING ALLOCATION OPTIMIZATION ⚠️"]
    );
    assert_eq!(memory::markers().ends, vec!["// ⚠️ END CHALLENGE CODE ⚠️"]);
}

#[test]
fn findings_pattern_by_pattern() {
    let f = async_io::inspect(&cs("let span = info_span!(\"x\");\nspan.in_scope(|| std::fs::read(p));"));
    assert!(!f.uses_async_io);
    assert!(!f.blocking_sleep);
    assert!(f.blocking_read);
    assert!(f.traced);
    let f = resource_leak::inspect(&cs("static HTTP_CLIENT: X;"), &cs("let c = Client::new();"));
    assert!(f.has_static_client);
    assert!(!f.uses_static_client);
    assert!(f.creates_client);
    let f = resource_leak::inspect(&cs("// static CLIENT"), &cs("// Lazy::new\nlet c = Client::new(); &*HTTP_CLIENT"));
    assert!(f.has_static_client);
    assert!(f.uses_static_client);
    assert!(f.creates_client);
    let f = resource_leak::inspect(&cs(""), &cs("static C: Lazy<Client> = Lazy::new(|| Client::new());"));
    assert!(!f.creates_client);
    let f = resource_leak::inspect(&cs(""), &cs("// let c = Client::new();"));
    assert!(!f.creates_client);
    let f = query_optimization::inspect(&cs("WHERE name LIKE $1\n// WHERE name ILIKE $1"));
    assert!(!f.name_uses_ilike);
    assert!(!f.scientific_name_uses_ilike);
    assert!(f.still_using_like);
    let f = memory::inspect(&cs("enum A {}\nlet a = A::Normal;\nlet s = a.to_string();"));
    assert_eq!(f.to_string_count, 1);
    assert!(f.uses_enums);
    assert!(!f.uses_str_type && !f.uses_cow && !f.uses_interning);
}

#[test]
fn verdicts_from_findings() {
    let f = async_io::AsyncIoFindings {
        uses_async_io: true,
        blocking_sleep: false,
        blocking_read: true,
        traced: true,
    };
    let v = async_io::verdict(f, true, BenchmarkResult { duration_a_ms: 1, duration_b_ms: 2 });
    assert!(!v.valid);
    assert_eq!(
        v.message,
        "Solution validation failed. Issues to address: Remove any blocking operations (std::fs, thread::sleep)"
    );
    let f = query_optimization::QueryFindings {
        name_uses_ilike: true,
        scientific_name_uses_ilike: true,
        still_using_like: false,
    };
    let v = query_optimization::verdict(f, Introspection::Unavailable);
    assert!(!v.valid);
    assert_eq!(
        v.message,
        "Validation failed: Could not perform database checks for pg_trgm extension or indexes."
    );
    assert!(query_optimization::verdict(f, Introspection::Disabled).valid);
    let f = memory::MemoryFindings {
        to_string_count: 12,
        uses_str_type: false,
        uses_cow: false,
        uses_interning: false,
        uses_enums: false,
    };
    assert_eq!(
        memory::verdict(f).message,
        "Solution validation failed. Issues to address: Reduce the number of .to_string() calls (fewer than 10 are allowed, found 12), Use enums for fixed values, static string references, Cow<'a, str> or interning instead of creating new String objects"
    );
    let f = resource_leak::LeakFindings {
        has_static_client: true,
        uses_static_client: false,
        creates_client: false,
    };
    assert_eq!(
        resource_leak::verdict(f, None).message,
        "Solution validation failed. Issues to address: Use the shared HTTP client in the handler"
    );
}

#[test]
fn two_challenges_in_one_file_are_told_apart() {
    let file = "static CLIENT: Lazy<Client> = Lazy::new(|| Client::new());\n\
        pub async fn get_sensor_status() {\n\
        \x20   // ⚠️ CHALLENGE #4: RESOURCE LEAK ⚠️\n\
        \x20   let body = CLIENT.get(url).send().await;\n\
        \x20   // ⚠️ END CHALLENGE CODE ⚠️\n\
        }\n\
        pub async fn get_tank_readings() {\n\
        \x20   // ⚠️ CHALLENGE #1: ASYNC I/O ⚠️\n\
        \x20   let config = std::fs::read_to_string(path);\n\
        \x20   std::thread::sleep(d);\n\
        \x20   // ⚠️ END CHALLENGE CODE ⚠️\n\
        }\n";
    assert!(resource_leak::verify_resource_leak(Some(file), None).valid);
    let v = async_io::verify_async_io(
        Some(file),
        false,
        BenchmarkResult { duration_a_ms: 0, duration_b_ms: 0 },
    );
    assert!(!v.valid);
    assert_eq!(
        v.message,
        "Solution validation failed. Issues to address: Make sure you're using async file operations (e.g., tokio::fs), Remove any blocking operations (std::fs, thread::sleep)"
    );
}

#[test]
fn pattern_without_its_excuse() {
    assert!(is_live_without("let c = Client::new();", "Client::new()", "Lazy::new"));
    assert!(!is_live_without("Lazy::new(|| Client::new())", "Client::new()", "Lazy::new"));
    assert!(!is_live_without("// let c = Client::new();", "Client::new()", "Lazy::new"));
    assert!(is_live_without("// Lazy::new\nlet c = Client::new();", "Client::new()", "Lazy::new"));
    assert!(is_live_without(
        "Lazy::new(|| Client::new())\nlet c = Client::new();\n",
        "Client::new()",
        "Lazy::new"
    ));
    assert!(!is_live_without("Lazy::new(|| {\n// Client::new()\n})", "Client::new()", "Lazy::new"));
    assert!(!is_live_without("", "a", "b"));
    assert!(!is_live_without("a", "a", ""));
    assert!(is_live_without("a", "", "b"));
    assert!(is_live_without_chars(&cs("x y"), &cs("x"), &cs("z")));
    assert!(!is_live_without_chars(&cs("x z"), &cs("x"), &cs("z")));
    assert!(live_without_in(&cs("x\nz"), "x", "z"));
}
