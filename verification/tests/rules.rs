use aqua_verdict::rules::{evaluate, Category, Rule, RuleSet, Scope};
use aqua_verdict::text::join_texts;
use aqua_verdict::verdict::{
    all_predicates_hold, cannot_verify, report, Details, Predicate, Status, Wording,
};

fn strings(list: &[&str]) -> Vec<String> {
    list.iter().map(|s| s.to_string()).collect()
}

fn wording() -> Wording<'static> {
    Wording {
        component: "Component",
        fixed: "works",
        broken: "broken",
        success: "ok",
        failure: "failed: ",
        separator: "; ",
    }
}

#[test]
fn all_patterns_as_asked_passes() {
    let set = RuleSet {
        rules: vec![Rule {
            category: Category::AsyncIo,
            scope: Scope::Region,
            required: strings(&["tokio::fs", ".await"]),
            forbidden: strings(&["std::thread::sleep"]),
        }],
        additional: vec![],
    };
    let r = evaluate(&set, "tokio::fs::read(p).await;\n// std::thread::sleep(d)", "whole");
    assert!(r.passed);
    assert_eq!(r.predicates.len(), 3);
    assert!(r.predicates.iter().all(|p| p.holds));
}

#[test]
fn each_failure_is_kept_by_name() {
    let set = RuleSet {
        rules: vec![Rule {
            category: Category::AsyncIo,
            scope: Scope::Region,
            required: strings(&["tokio::fs", ".await"]),
            forbidden: strings(&["std::thread::sleep", "std::fs::read"]),
        }],
        additional: vec![],
    };
    let r = evaluate(&set, "x.await;\nstd::thread::sleep(d);", "");
    assert!(!r.passed);
    let holds: Vec<bool> = r.predicates.iter().map(|p| p.holds).collect();
    assert_eq!(holds, vec![false, true, false, true]);
    assert_eq!(r.predicates[0].issue, "Required pattern not found: tokio::fs");
    assert_eq!(r.predicates[1].issue, "Required pattern not found: .await");
    assert_eq!(r.predicates[2].issue, "Forbidden pattern found: std::thread::sleep");
    assert_eq!(r.predicates[3].issue, "Forbidden pattern found: std::fs::read");
}

#[test]
fn scope_chooses_the_text() {
    let set = RuleSet {
        rules: vec![
            Rule {
                category: Category::ResourceLeak,
                scope: Scope::WholeDocument,
                required: strings(&["static CLIENT"]),
                forbidden: vec![],
            },
            Rule {
                category: Category::ResourceLeak,
                scope: Scope::Region,
                required: strings(&["CLIENT."]),
                forbidden: strings(&["Client::new()"]),
            },
        ],
        additional: vec![],
    };
    let doc = "static CLIENT: Lazy<Client> = Lazy::new(|| Client::new());\nfn h() { CLIENT.get(u); }";
    let r = evaluate(&set, "fn h() { CLIENT.get(u); }", doc);
    assert!(r.passed);
    assert_eq!(r.predicates.len(), 3);
    let r = evaluate(&set, doc, "fn h() { CLIENT.get(u); }");
    assert!(!r.passed);
    let holds: Vec<bool> = r.predicates.iter().map(|p| p.holds).collect();
    assert_eq!(holds, vec![false, true, false]);
}

#[test]
fn additional_terms_count_like_patterns() {
    let set = RuleSet {
        rules: vec![Rule {
            category: Category::QueryOptimization,
            scope: Scope::Region,
            required: strings(&["ILIKE"]),
            forbidden: vec![],
        }],
        additional: vec![
            Predicate { holds: true, issue: "extension missing".to_string() },
            Predicate { holds: false, issue: "index missing".to_string() },
        ],
    };
    let r = evaluate(&set, "WHERE name ILIKE $1", "");
    assert!(!r.passed);
    assert_eq!(r.predicates.len(), 3);
    assert_eq!(r.predicates[2].issue, "index missing");
    assert!(!r.predicates[2].holds);
    let v = report(&r.predicates, &wording(), Details::Empty);
    assert!(!v.valid);
    assert_eq!(v.message, "failed: index missing");
}

#[test]
fn empty_rule_set_passes() {
    let r = evaluate(&RuleSet { rules: vec![], additional: vec![] }, "a", "b");
    assert!(r.passed);
    assert!(r.predicates.is_empty());
}

#[test]
fn evaluating_twice_gives_the_same_result() {
    let set = RuleSet {
        rules: vec![Rule {
            category: Category::Memory,
            scope: Scope::Region,
            required: strings(&["&str"]),
            forbidden: strings(&[".to_string()"]),
        }],
        additional: vec![],
    };
    let a = evaluate(&set, "let s: &str = x.to_string();", "");
    let b = evaluate(&set, "let s: &str = x.to_string();", "");
    assert_eq!(a.passed, b.passed);
    assert_eq!(a.predicates.len(), b.predicates.len());
    for (p, q) in a.predicates.iter().zip(b.predicates.iter()) {
        assert_eq!(p.holds, q.holds);
        assert_eq!(p.issue, q.issue);
    }
}

#[test]
fn report_names_every_failure_in_order() {
    let ps = vec![
        Predicate { holds: false, issue: "first".to_string() },
        Predicate { holds: true, issue: "second".to_string() },
        Predicate { holds: false, issue: "third".to_string() },
    ];
    let v = report(&ps, &wording(), Details::Empty);
    assert!(!v.valid);
    assert_eq!(v.message, "failed: first; third");
    assert_eq!(v.system_component.name, "Component");
    assert_eq!(v.system_component.description, "broken");
    assert_eq!(v.system_component.status, Status::Degraded);
    assert!(!all_predicates_hold(&ps));
}

#[test]
fn report_of_nothing_failed_is_valid() {
    let ps = vec![Predicate { holds: true, issue: "first".to_string() }];
    let v = report(&ps, &wording(), Details::Concurrency { latency_ms: 1, threshold_ms: 2 });
    assert!(v.valid);
    assert_eq!(v.message, "ok");
    assert_eq!(v.system_component.description, "works");
    assert_eq!(v.system_component.status, Status::Normal);
    assert_eq!(v.details, Details::Concurrency { latency_ms: 1, threshold_ms: 2 });
    assert!(all_predicates_hold(&ps));
    let v = report(&vec![], &wording(), Details::Empty);
    assert!(v.valid);
}

#[test]
fn join_puts_the_separator_between() {
    assert_eq!(join_texts(&strings(&[]), ", "), "");
    assert_eq!(join_texts(&strings(&["a"]), ", "), "a");
    assert_eq!(join_texts(&strings(&["a", "b", "c"]), ", "), "a, b, c");
    assert_eq!(join_texts(&strings(&["", ""]), "-"), "-");
}

#[test]
fn status_labels_are_lower_case() {
    assert_eq!(Status::Normal.as_str(), "normal");
    assert_eq!(Status::Degraded.as_str(), "degraded");
    assert_eq!(Status::from_valid(true), Status::Normal);
    assert_eq!(Status::from_valid(false), Status::Degraded);
}

#[test]
fn cannot_verify_is_never_valid() {
    let v = cannot_verify("C", "d", "m", Details::Empty);
    assert!(!v.valid);
    assert_eq!(v.message, "m");
    assert_eq!(v.system_component.name, "C");
    assert_eq!(v.system_component.description, "d");
    assert_eq!(v.system_component.status, Status::Degraded);
}
