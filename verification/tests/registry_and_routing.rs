//! Registration, lookup, backoff and routing behaviour.

use celery::error::ErrorKind;
use celery::registry::{BackoffPolicy, TaskDef, TaskPolicy, TaskRegistry};
use celery::router::{glob_match, pattern_ok, Router, Rule};

fn policy(max_retries: u32) -> TaskPolicy {
    TaskPolicy {
        max_retries,
        backoff: BackoffPolicy::Fixed(10),
        timeout_ms: 1000,
        expires_after_ms: None,
    }
}

fn task(name: &str) -> TaskDef {
    TaskDef { name: name.to_string(), handler: 7, policy: policy(3) }
}

#[test]
fn register_then_duplicate_fails() {
    let mut reg = TaskRegistry::new();
    assert!(reg.register(task("add")).is_ok());
    assert!(reg.register(task("mul_pair")).is_ok());
    let err = reg.register(task("add")).unwrap_err();
    assert_eq!(err.kind, ErrorKind::TaskAlreadyExists("add".to_string()));
    // the registry is unchanged by the failed registration
    assert!(reg.lookup(&"add".to_string()).is_ok());
    assert!(reg.lookup(&"mul_pair".to_string()).is_ok());
}

#[test]
fn lookup_unregistered_fails() {
    let mut reg = TaskRegistry::new();
    assert!(reg.register(task("add")).is_ok());
    let err = reg.lookup(&"missing".to_string()).unwrap_err();
    assert_eq!(err.kind, ErrorKind::UnregisteredTaskError("missing".to_string()));
    let found = reg.lookup(&"add".to_string()).unwrap();
    assert_eq!(found.handler, 7);
    assert_eq!(found.policy.max_retries, 3);
}

#[test]
fn backoff_fixed_and_linear() {
    assert_eq!(BackoffPolicy::Fixed(5).delay_for(0), 5);
    assert_eq!(BackoffPolicy::Fixed(5).delay_for(9), 5);
    assert_eq!(BackoffPolicy::Linear(50).delay_for(0), 0);
    assert_eq!(BackoffPolicy::Linear(50).delay_for(3), 150);
    // saturates instead of overflowing
    assert_eq!(BackoffPolicy::Linear(u64::MAX).delay_for(2), u64::MAX);
}

#[test]
fn backoff_exponential_caps() {
    let b = BackoffPolicy::Exponential { base_ms: 100, cap_ms: 1600 };
    assert_eq!(b.delay_for(0), 100);
    assert_eq!(b.delay_for(1), 200);
    assert_eq!(b.delay_for(2), 400);
    assert_eq!(b.delay_for(4), 1600);
    assert_eq!(b.delay_for(40), 1600);
    let zero = BackoffPolicy::Exponential { base_ms: 0, cap_ms: 1600 };
    assert_eq!(zero.delay_for(10), 0);
}

#[test]
fn glob_star_question_and_literal() {
    assert!(glob_match("orders.*", "orders.create"));
    assert!(glob_match("orders.*", "orders."));
    assert!(!glob_match("orders.*", "billing.charge"));
    assert!(glob_match("*", "anything.at.all"));
    assert!(glob_match("*", ""));
    assert!(glob_match("task-?", "task-a"));
    assert!(!glob_match("task-?", "task-"));
    assert!(glob_match("exact", "exact"));
    assert!(!glob_match("exact", "exactly"));
    // matching is per character, not per byte
    assert!(glob_match("task-?", "task-é"));
    assert!(glob_match("t*e", "tâche"));
}

#[test]
fn glob_character_classes() {
    assert!(glob_match("shard-[abc]", "shard-b"));
    assert!(!glob_match("shard-[abc]", "shard-d"));
    assert!(glob_match("shard-[0-9]", "shard-7"));
    assert!(!glob_match("shard-[0-9]", "shard-x"));
    assert!(glob_match("shard-[!0-9]", "shard-x"));
    assert!(!glob_match("shard-[!0-9]", "shard-3"));
    // the first member is literal, so `[]]` holds `]`
    assert!(glob_match("q[]]", "q]"));
    // an unterminated class matches nothing
    assert!(!glob_match("q[ab", "qa"));
    assert!(pattern_ok("shard-[a-z].*"));
    assert!(!pattern_ok("shard-[a-z"));
}

fn orders_rules() -> Vec<Rule> {
    vec![
        Rule::new("orders.*".to_string(), "orders_q".to_string()),
        Rule::new("*".to_string(), "default_q".to_string()),
    ]
}

#[test]
fn routing_first_match_wins_and_falls_back() {
    let router = Router::new(orders_rules(), None).unwrap();
    assert_eq!(router.resolve(&"orders.create".to_string(), None).unwrap(), "orders_q");
    assert_eq!(router.resolve(&"billing.charge".to_string(), None).unwrap(), "default_q");
}

#[test]
fn routing_override_always_wins() {
    let router = Router::new(orders_rules(), None).unwrap();
    let over = "priority_q".to_string();
    assert_eq!(
        router.resolve(&"orders.create".to_string(), Some(&over)).unwrap(),
        "priority_q"
    );
    let empty = Router::new(Vec::new(), Some("dflt".to_string())).unwrap();
    assert_eq!(empty.resolve(&"x".to_string(), Some(&over)).unwrap(), "priority_q");
}

#[test]
fn routing_default_queue_and_unknown_queue() {
    let rules = vec![Rule::new("orders.*".to_string(), "orders_q".to_string())];
    let with_default = Router::new(rules, Some("fallback".to_string())).unwrap();
    assert_eq!(with_default.resolve(&"billing.charge".to_string(), None).unwrap(), "fallback");

    let rules = vec![Rule::new("orders.*".to_string(), "orders_q".to_string())];
    let without = Router::new(rules, None).unwrap();
    let err = without.resolve(&"billing.charge".to_string(), None).unwrap_err();
    assert_eq!(err.kind, ErrorKind::UnknownQueueError("billing.charge".to_string()));
}

#[test]
fn bad_routing_pattern_is_fatal_at_startup() {
    let rules = vec![
        Rule::new("fine.*".to_string(), "a".to_string()),
        Rule::new("broken[".to_string(), "b".to_string()),
    ];
    let err = Router::new(rules, None).unwrap_err();
    assert_eq!(
        err.kind,
        ErrorKind::BadRoutingRulePatternError(Some("broken[".to_string()))
    );
}
