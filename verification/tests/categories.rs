use aqua_verdict::async_io::verify_async_io;
use aqua_verdict::concurrency::verify_concurrency;
use aqua_verdict::evidence::{BenchmarkResult, CounterObservation, Introspection};
use aqua_verdict::memory::verify_memory_optimization;
use aqua_verdict::query_optimization::verify_query_optimization;
use aqua_verdict::resource_leak::verify_resource_leak;
use aqua_verdict::verdict::{Details, Status};

fn bench(a: u64, b: u64) -> BenchmarkResult {
    BenchmarkResult { duration_a_ms: a, duration_b_ms: b }
}

fn async_source(body: &str) -> String {
    format!(
        "fn before() {{ std::thread::sleep(d); }}\n    // ⚠️ CHALLENGE #1: ASYNC I/O ⚠️\n{}\n    // ⚠️ END CHALLENGE CODE ⚠️\nfn after() {{ std::fs::read(p); }}\n",
        body
    )
}

#[test]
fn awaited_async_read_is_valid() {
    let src = async_source("    let config = tokio::fs::read_to_string(path).await.unwrap_or_default();");
    let v = verify_async_io(Some(&src), false, bench(104, 3));
    assert!(v.valid);
    assert_eq!(v.message, "Solution correctly implemented! Async I/O is now being used.");
    assert_eq!(v.system_component.name, "Tank Readings API");
    assert_eq!(v.system_component.status, Status::Normal);
    assert_eq!(
        v.system_component.description,
        "Tank readings API is now using async I/O operations"
    );
}

#[test]
fn awaited_read_without_async_module_is_valid() {
    let src = async_source("    let config = my_fs::read_to_string(path).await;");
    assert!(verify_async_io(Some(&src), false, bench(0, 0)).valid);
    let src = async_source("    let config = my_fs::read_file(path).await;");
    assert!(verify_async_io(Some(&src), false, bench(0, 0)).valid);
    let src = async_source("    let config = my_fs::load(path).await;");
    assert!(!verify_async_io(Some(&src), false, bench(0, 0)).valid);
}

#[test]
fn blocking_sleep_is_named_in_the_message() {
    let src = async_source(
        "    let config = tokio::fs::read_to_string(path).await.unwrap_or_default();\n    std::thread::sleep(std::time::Duration::from_millis(100));",
    );
    let v = verify_async_io(Some(&src), false, bench(104, 3));
    assert!(!v.valid);
    assert_eq!(
        v.message,
        "Solution validation failed. Issues to address: Remove any blocking operations (std::fs, thread::sleep)"
    );
    assert!(v.message.contains("thread::sleep"));
    assert_eq!(v.system_component.status, Status::Degraded);
    assert_eq!(
        v.system_component.description,
        "Tank readings API is experiencing high latency due to blocking I/O or improper tracing"
    );
}

#[test]
fn commented_out_sleep_does_not_count() {
    let src = async_source(
        "    let config = tokio::fs::read_to_string(path).await;\n    // std::thread::sleep(d);",
    );
    assert!(verify_async_io(Some(&src), false, bench(1, 1)).valid);
}

#[test]
fn every_failing_predicate_is_named_in_order() {
    let src = async_source(
        "    let config = std::fs::read_to_string(path).unwrap();\n    std::thread::sleep(d);",
    );
    let v = verify_async_io(Some(&src), true, bench(1, 1));
    assert!(!v.valid);
    assert_eq!(
        v.message,
        "Solution validation failed. Issues to address: Make sure you're using async file operations (e.g., tokio::fs), Remove any blocking operations (std::fs, thread::sleep), Ensure proper tracing implementation for async operations"
    );
}

#[test]
fn strict_rule_asks_for_tracing() {
    let plain = async_source("    let config = tokio::fs::read_to_string(path).await;");
    let v = verify_async_io(Some(&plain), true, bench(1, 1));
    assert!(!v.valid);
    assert_eq!(
        v.message,
        "Solution validation failed. Issues to address: Ensure proper tracing implementation for async operations"
    );
    let traced = async_source(
        "    let span = tracing::info_span!(\"file_io\");\n    let config = tokio::fs::read_to_string(path).instrument(span).await;",
    );
    let v = verify_async_io(Some(&traced), true, bench(1, 1));
    assert!(v.valid);
    assert_eq!(
        v.message,
        "Solution correctly implemented! Async I/O is now being used with proper tracing."
    );
    assert_eq!(
        v.system_component.description,
        "Tank readings API is now using async I/O operations with proper tracing"
    );
}

#[test]
fn benchmark_is_in_the_details_whatever_the_verdict() {
    let good = async_source("    let c = tokio::fs::read_to_string(p).await;");
    let bad = async_source("    let c = std::fs::read_to_string(p);");
    for (src, valid) in [(Some(good.as_str()), true), (Some(bad.as_str()), false), (None, false)] {
        let v = verify_async_io(src, false, bench(104, 3));
        assert_eq!(v.valid, valid);
        match v.details {
            Details::AsyncIo { blocking_io_duration_ms, async_io_duration_ms, .. } => {
                assert_eq!(blocking_io_duration_ms, 104);
                assert_eq!(async_io_duration_ms, 3);
            }
            _ => panic!("details of another category"),
        }
    }
}

#[test]
fn async_details_carry_the_findings() {
    let src = async_source("    let c = std::fs::read_to_string(p);\n    std::thread::sleep(d);");
    let v = verify_async_io(Some(&src), false, bench(7, 9));
    assert_eq!(
        v.details,
        Details::AsyncIo {
            blocking_io_duration_ms: 7,
            async_io_duration_ms: 9,
            uses_async_io: false,
            blocking_sleep: true,
            blocking_read: true,
            traced: false,
        }
    );
}

#[test]
fn unreadable_source_is_an_invalid_verdict() {
    let v = verify_async_io(None, false, bench(0, 0));
    assert!(!v.valid);
    assert_eq!(v.message, "Validation failed: Unable to verify implementation.");
    assert_eq!(v.system_component.status, Status::Degraded);
    let v = verify_resource_leak(None, None);
    assert!(!v.valid);
    assert_eq!(v.message, "Validation failed: Unable to verify implementation.");
    assert_eq!(v.system_component.name, "Sensor Status API");
    assert_eq!(
        v.system_component.description,
        "Sensor status API is creating too many client instances"
    );
    let v = verify_memory_optimization(None);
    assert!(!v.valid);
    assert_eq!(v.message, "Validation failed: Unable to verify implementation.");
    assert_eq!(v.system_component.name, "Analysis Engine");
    assert_eq!(v.details, Details::Empty);
    let v = verify_query_optimization(None, Introspection::Disabled);
    assert!(!v.valid);
    assert_eq!(
        v.message,
        "Validation failed: Unable to read src/challenges.rs to verify ILIKE usage."
    );
    assert_eq!(v.system_component.description, "Species database search is experiencing slowdowns");
}

#[test]
fn async_markers_missing_checks_the_whole_file() {
    let src = "let c = tokio::fs::read_to_string(p).await;\n";
    assert!(verify_async_io(Some(src), false, bench(0, 0)).valid);
    let src = "let c = tokio::fs::read_to_string(p).await;\nstd::thread::sleep(d);\n";
    assert!(!verify_async_io(Some(src), false, bench(0, 0)).valid);
}

#[test]
fn async_plain_markers_are_accepted() {
    let src = "std::thread::sleep(d);\n// Challenge 1\nlet c = tokio::fs::read(p).await;\n// End Challenge 1\nstd::fs::read(p);\n";
    assert!(verify_async_io(Some(src), false, bench(0, 0)).valid);
}

fn leak_source(top: &str, body: &str) -> String {
    format!(
        "{}\npub async fn get_sensor_status() {{\n    // ⚠️ CHALLENGE #4: RESOURCE LEAK ⚠️\n{}\n    // ⚠️ END CHALLENGE CODE ⚠️\n}}\n",
        top, body
    )
}

#[test]
fn shared_lazy_client_is_valid() {
    let src = leak_source(
        "static CLIENT: Lazy<reqwest::Client> = Lazy::new(|| reqwest::Client::new());",
        "    let response = CLIENT.get(url).send().await;",
    );
    let v = verify_resource_leak(Some(&src), None);
    assert!(v.valid);
    assert_eq!(
        v.message,
        "Solution correctly implemented! HTTP client is now shared and resource-efficient."
    );
    assert_eq!(v.system_component.status, Status::Normal);
    assert_eq!(v.system_component.description, "Sensor status API is now resource-efficient");
    assert_eq!(
        v.details,
        Details::ResourceLeak {
            has_static_client: true,
            uses_static_client: true,
            creates_client: false,
            new_instances: 0,
        }
    );
}

#[test]
fn fresh_client_in_the_handler_is_a_leak() {
    let src = leak_source(
        "static CLIENT: Lazy<reqwest::Client> = Lazy::new(|| reqwest::Client::new());",
        "    let client = reqwest::Client::new();\n    let response = CLIENT.get(url).send().await;",
    );
    let v = verify_resource_leak(Some(&src), None);
    assert!(!v.valid);
    assert_eq!(
        v.message,
        "Solution validation failed. Issues to address: Do not create a new client with Client::new() for each request"
    );
    assert_eq!(v.system_component.status, Status::Degraded);
}

#[test]
fn untouched_handler_fails_on_every_count() {
    let src = leak_source("use reqwest;", "    let client = reqwest::Client::new();");
    let v = verify_resource_leak(Some(&src), None);
    assert!(!v.valid);
    assert_eq!(
        v.message,
        "Solution validation failed. Issues to address: Declare a shared HTTP client (a static CLIENT or a client held in AppState), Use the shared HTTP client in the handler, Do not create a new client with Client::new() for each request"
    );
}

#[test]
fn client_in_app_state_is_valid() {
    let src = leak_source(
        "pub struct AppState { pub http_client: reqwest::Client }",
        "    let response = state.http_client.get(url).send().await;",
    );
    assert!(verify_resource_leak(Some(&src), None).valid);
}

#[test]
fn any_name_holding_client_counts_as_shared() {
    let src = leak_source(
        "static CLIENT: i32 = 0;",
        "    let n = CLIENT_COUNT.load();",
    );
    assert!(verify_resource_leak(Some(&src), None).valid);
}

#[test]
fn lazy_wrapper_in_the_handler_excuses_the_construction() {
    let src = leak_source(
        "",
        "    static CLIENT: Lazy<Client> = Lazy::new(|| Client::new());\n    let r = CLIENT.get(url);",
    );
    assert!(verify_resource_leak(Some(&src), None).valid);
}

#[test]
fn counter_growth_is_evidence_of_a_leak() {
    let src = leak_source(
        "static CLIENT: Lazy<reqwest::Client> = Lazy::new(|| reqwest::Client::new());",
        "    let response = CLIENT.get(url).send().await;",
    );
    let steady = CounterObservation { before: 4, after: 4 };
    assert!(verify_resource_leak(Some(&src), Some(steady)).valid);
    let first_use = CounterObservation { before: 0, after: 1 };
    assert!(verify_resource_leak(Some(&src), Some(first_use)).valid);
    let growing = CounterObservation { before: 4, after: 9 };
    let v = verify_resource_leak(Some(&src), Some(growing));
    assert!(!v.valid);
    assert_eq!(
        v.message,
        "Solution validation failed. Issues to address: New client instances were built while the handler was called: 5"
    );
    assert_eq!(
        v.details,
        Details::ResourceLeak {
            has_static_client: true,
            uses_static_client: true,
            creates_client: false,
            new_instances: 5,
        }
    );
    let backwards = CounterObservation { before: 9, after: 4 };
    assert!(verify_resource_leak(Some(&src), Some(backwards)).valid);
}

fn query_source(body: &str) -> String {
    format!(
        "// ⚠️ CHALLENGE #2: DATABASE QUERY OPTIMIZATION ⚠️\n{}\n// ⚠️ END CHALLENGE CODE ⚠️\n",
        body
    )
}

const ILIKE_BODY: &str = "let a = \"SELECT * FROM species WHERE name ILIKE $1\";\nlet b = \"SELECT * FROM species WHERE scientific_name ILIKE $1\";";

fn observed(t: bool, n: bool, s: bool) -> Introspection {
    Introspection::Observed { trigram_enabled: t, name_index: n, scientific_name_index: s }
}

#[test]
fn ilike_with_extension_and_indexes_is_valid() {
    let src = query_source(ILIKE_BODY);
    let v = verify_query_optimization(Some(&src), observed(true, true, true));
    assert!(v.valid);
    assert_eq!(
        v.message,
        "Solution correctly implemented! Database is optimized with pg_trgm and GIN indexes, and queries use ILIKE."
    );
    assert_eq!(v.system_component.name, "Species Database");
    assert_eq!(v.system_component.description, "Species database search is now optimized");
    assert_eq!(v.system_component.status, Status::Normal);
    assert_eq!(
        v.details,
        Details::QueryOptimization {
            introspected: true,
            trigram_enabled: true,
            name_index: true,
            scientific_name_index: true,
            name_uses_ilike: true,
            scientific_name_uses_ilike: true,
            still_using_like: false,
        }
    );
}

#[test]
fn ilike_without_introspection_is_valid() {
    let src = query_source(ILIKE_BODY);
    let v = verify_query_optimization(Some(&src), Introspection::Disabled);
    assert!(v.valid);
    assert_eq!(v.message, "Solution correctly implemented! Queries use ILIKE.");
}

#[test]
fn missing_name_index_is_named() {
    let src = query_source(ILIKE_BODY);
    let v = verify_query_optimization(Some(&src), observed(true, false, true));
    assert!(!v.valid);
    assert_eq!(
        v.message,
        "Validation failed: A GIN trigram index on 'species.name' (e.g., 'species_name_gin_trgm_idx') is missing or incorrect."
    );
    assert_eq!(
        v.system_component.description,
        "Species database search is experiencing slowdowns or is misconfigured"
    );
    assert_eq!(v.system_component.status, Status::Degraded);
}

#[test]
fn missing_scientific_name_index_is_named() {
    let src = query_source(ILIKE_BODY);
    let v = verify_query_optimization(Some(&src), observed(true, true, false));
    assert!(!v.valid);
    assert_eq!(
        v.message,
        "Validation failed: A GIN trigram index on 'species.scientific_name' (e.g., 'species_scientific_name_gin_trgm_idx') is missing or incorrect."
    );
}

#[test]
fn every_database_failure_is_named() {
    let src = query_source("let a = \"SELECT * FROM species WHERE name LIKE $1\";");
    let v = verify_query_optimization(Some(&src), observed(false, false, false));
    assert!(!v.valid);
    assert_eq!(
        v.message,
        "Validation failed: The 'pg_trgm' extension is not enabled in the database. A GIN trigram index on 'species.name' (e.g., 'species_name_gin_trgm_idx') is missing or incorrect. A GIN trigram index on 'species.scientific_name' (e.g., 'species_scientific_name_gin_trgm_idx') is missing or incorrect. Source code in 'src/challenges.rs' still uses LIKE instead of ILIKE for some queries."
    );
}

#[test]
fn one_search_without_ilike_is_inconsistent() {
    let src = query_source("let a = \"SELECT * FROM species WHERE name ILIKE $1\";");
    let v = verify_query_optimization(Some(&src), observed(true, true, true));
    assert!(!v.valid);
    assert_eq!(
        v.message,
        "Validation failed: Source code in 'src/challenges.rs' does not consistently use ILIKE for both name and scientific_name searches."
    );
}

#[test]
fn database_that_cannot_answer_is_told_apart() {
    let src = query_source(ILIKE_BODY);
    let v = verify_query_optimization(Some(&src), Introspection::Unavailable);
    assert!(!v.valid);
    assert_eq!(
        v.message,
        "Validation failed: Could not perform database checks for pg_trgm extension or indexes."
    );
    assert_eq!(v.system_component.description, "Species database search is experiencing slowdowns");
    let v = verify_query_optimization(None, Introspection::Unavailable);
    assert_eq!(
        v.message,
        "Validation failed: Could not perform database checks for pg_trgm extension or indexes."
    );
}

fn memory_source(body: &str) -> String {
    format!(
        "// ⚠️ CHALLENGE #3: STRING ALLOCATION OPTIMIZATION ⚠️\n{}\n// ⚠️ END CHALLENGE CODE ⚠️\n",
        body
    )
}

#[test]
fn enums_and_few_conversions_are_valid() {
    let src = memory_source(
        "pub enum Level { Low }\nlet t = ParameterStatus::Warning;\nlet id = tank.to_string();",
    );
    let v = verify_memory_optimization(Some(&src));
    assert!(v.valid);
    assert_eq!(v.message, "Solution correctly implemented! Memory usage is now optimized.");
    assert_eq!(v.system_component.description, "Analysis engine memory usage is now optimized");
    assert_eq!(
        v.details,
        Details::Memory {
            to_string_count: 1,
            uses_str_type: false,
            uses_cow: false,
            uses_interning: false,
            uses_enums: true,
        }
    );
}

#[test]
fn ten_conversions_are_too_many() {
    let nine = "let a = x.to_string();\n".repeat(9);
    let v = verify_memory_optimization(Some(&memory_source(&format!("{}let s: &str = \"a\";", nine))));
    assert!(v.valid);
    let ten = format!("{}let b = (y.to_string(), 1);\n    // z.to_string()\n", nine);
    let v = verify_memory_optimization(Some(&memory_source(&format!("{}let s: &str = \"a\";", ten))));
    assert!(!v.valid);
    assert_eq!(
        v.message,
        "Solution validation failed. Issues to address: Reduce the number of .to_string() calls (fewer than 10 are allowed, found 10)"
    );
    assert_eq!(v.system_component.description, "Analysis engine is experiencing high memory usage");
}

#[test]
fn conversions_on_one_line_count_one_by_one() {
    let line = "let v = vec![a.to_string(), b.to_string(), c.to_string(), d.to_string()];\n";
    let src = memory_source(&format!("{}{}{}let s: &str = \"\";", line, line, line));
    let v = verify_memory_optimization(Some(&src));
    assert!(!v.valid);
    match v.details {
        Details::Memory { to_string_count, .. } => assert_eq!(to_string_count, 12),
        _ => panic!("details of another category"),
    }
}

#[test]
fn no_technique_is_an_issue() {
    let v = verify_memory_optimization(Some(&memory_source("let a = 1;")));
    assert!(!v.valid);
    assert_eq!(
        v.message,
        "Solution validation failed. Issues to address: Use enums for fixed values, static string references, Cow<'a, str> or interning instead of creating new String objects"
    );
}

#[test]
fn each_technique_counts() {
    for body in [
        "fn f(s: &str) {}",
        "const A: &'static str = \"a\";",
        "let c = Cow::Borrowed(\"a\");",
        "use std::borrow::Cow;",
        "let i = Intern::new(\"a\");",
        "use internment::Intern;",
    ] {
        assert!(verify_memory_optimization(Some(&memory_source(body))).valid, "{}", body);
    }
    assert!(!verify_memory_optimization(Some(&memory_source("enum A { B }"))).valid);
    assert!(!verify_memory_optimization(Some(&memory_source("let a = X::Normal;"))).valid);
}

#[test]
fn latency_below_the_threshold_is_valid() {
    let v = verify_concurrency(12, 50);
    assert!(v.valid);
    assert_eq!(
        v.message,
        "Solution correctly implemented! The lock no longer serializes all callers."
    );
    assert_eq!(v.system_component.status, Status::Normal);
    assert_eq!(v.details, Details::Concurrency { latency_ms: 12, threshold_ms: 50 });
}

#[test]
fn latency_at_the_threshold_is_not_valid() {
    let v = verify_concurrency(50, 50);
    assert!(!v.valid);
    assert_eq!(
        v.message,
        "Solution validation failed. Issues to address: The guarded operation took 50 ms and must finish in under 50 ms"
    );
    assert_eq!(v.system_component.status, Status::Degraded);
    assert!(!verify_concurrency(0, 0).valid);
    assert!(verify_concurrency(0, 1).valid);
    assert!(!verify_concurrency(u64::MAX, u64::MAX).valid);
}

#[test]
fn same_document_gives_the_same_verdict() {
    let src = async_source("    let c = std::fs::read_to_string(p);");
    let a = verify_async_io(Some(&src), true, bench(5, 6));
    let b = verify_async_io(Some(&src), true, bench(5, 6));
    assert_eq!(a.valid, b.valid);
    assert_eq!(a.message, b.message);
    assert_eq!(a.details, b.details);
    assert_eq!(a.system_component.name, b.system_component.name);
    assert_eq!(a.system_component.description, b.system_component.description);
    assert_eq!(a.system_component.status, b.system_component.status);
}

#[test]
fn sleep_in_a_trailing_comment_is_live() {
    let src = "// CHALLENGE #1\n// std::thread::sleep is gone\nlet s = tracing::info_span!(IO); // no std::thread::sleep\nlet c = tokio::fs::read_to_string(p).instrument(s).await;\n// END CHALLENGE CODE\n";
    let v = verify_async_io(Some(src), true, bench(0, 0));
    assert!(!v.valid);
    assert_eq!(
        v.message,
        "Solution validation failed. Issues to address: Remove any blocking operations (std::fs, thread::sleep)"
    );
}

#[test]
fn sleep_beside_a_traced_async_read() {
    let src = "// CHALLENGE #1\nlet s = tracing::info_span!(IO);\nlet c = tokio::fs::read_to_string(p).instrument(s).await;\nstd::thread::sleep(d);\n// END CHALLENGE CODE\n";
    let v = verify_async_io(Some(src), true, bench(0, 0));
    assert!(!v.valid);
    assert_eq!(
        v.message,
        "Solution validation failed. Issues to address: Remove any blocking operations (std::fs, thread::sleep)"
    );
}

#[test]
fn only_a_sleep_fails_on_every_count() {
    let v = verify_async_io(Some("fn f() { std::thread::sleep(d); }\n"), true, bench(0, 0));
    assert!(!v.valid);
    assert_eq!(
        v.message,
        "Solution validation failed. Issues to address: Make sure you're using async file operations (e.g., tokio::fs), Remove any blocking operations (std::fs, thread::sleep), Ensure proper tracing implementation for async operations"
    );
    assert_eq!(v.system_component.status, Status::Degraded);
}

#[test]
fn blocking_read_alone_gives_the_same_issue() {
    let src = async_source("    let c = tokio::fs::read(p).await;\n    let d = std::fs::read(q);");
    let v = verify_async_io(Some(&src), false, bench(0, 0));
    assert!(!v.valid);
    assert_eq!(
        v.message,
        "Solution validation failed. Issues to address: Remove any blocking operations (std::fs, thread::sleep)"
    );
    assert!(v.message.contains("std::fs"));
}

#[test]
fn lazy_wrapper_in_a_comment_excuses_nothing() {
    let src = "static CLIENT: Lazy<Client> = Lazy::new(|| Client::new());\n// ⚠️ CHALLENGE #4: RESOURCE LEAK ⚠️\n// was Lazy::new\nlet c = reqwest::Client::new();\nlet r = CLIENT.get(url).send().await;\n// ⚠️ END CHALLENGE CODE ⚠️\n";
    let v = verify_resource_leak(Some(src), None);
    assert!(!v.valid);
    assert_eq!(
        v.message,
        "Solution validation failed. Issues to address: Do not create a new client with Client::new() for each request"
    );
}

#[test]
fn lazy_wrapper_on_another_line_excuses_nothing() {
    let src = leak_source(
        "",
        "    static CLIENT: Lazy<Client> = Lazy::new(|| Client::new());\n    let fresh = Client::new();\n    let r = CLIENT.get(url);",
    );
    assert!(!verify_resource_leak(Some(&src), None).valid);
    let src = leak_source(
        "",
        "    static CLIENT: Lazy<Client> = Lazy::new(|| Client::new());\n    // let fresh = Client::new();\n    let r = CLIENT.get(url);",
    );
    assert!(verify_resource_leak(Some(&src), None).valid);
}

#[test]
fn probes_sum_up_to_an_answer() {
    assert_eq!(
        Introspection::from_probes(Some(true), Some(false), Some(true)),
        Introspection::Observed {
            trigram_enabled: true,
            name_index: false,
            scientific_name_index: true
        }
    );
    assert_eq!(
        Introspection::from_probes(Some(false), Some(false), Some(false)),
        Introspection::Observed {
            trigram_enabled: false,
            name_index: false,
            scientific_name_index: false
        }
    );
    assert_eq!(Introspection::from_probes(None, Some(true), Some(true)), Introspection::Unavailable);
    assert_eq!(Introspection::from_probes(Some(true), None, Some(true)), Introspection::Unavailable);
    assert_eq!(Introspection::from_probes(Some(true), Some(true), None), Introspection::Unavailable);
    assert_eq!(Introspection::from_probes(None, None, None), Introspection::Unavailable);
}
