use limitador_server::context::{aggregate, AttributeContext};
use limitador_server::envoy::{Entry, RateLimitDescriptor};
use limitador_server::hits::normalize_hits_addend;

fn attribute(key: &str, value: &str) -> Entry {
    Entry { key: key.to_string(), value: value.to_string() }
}

fn value_of(context: &AttributeContext, key: &str) -> Option<String> {
    context.get(&key.to_string()).cloned()
}

#[test]
fn zero_hits_addend_counts_as_one() {
    assert_eq!(normalize_hits_addend(0), 1);
}

#[test]
fn other_hits_addends_are_kept() {
    assert_eq!(normalize_hits_addend(1), 1);
    assert_eq!(normalize_hits_addend(2), 2);
    assert_eq!(normalize_hits_addend(6), 6);
    assert_eq!(normalize_hits_addend(u32::MAX), 4294967295);
}

#[test]
fn new_context_is_empty() {
    let context = AttributeContext::new();
    assert_eq!(context.len(), 0);
    assert!(context.entries().is_empty());
    assert_eq!(value_of(&context, "x"), None);
    assert_eq!(value_of(&context, ""), None);
}

#[test]
fn insert_adds_a_new_key() {
    let mut context = AttributeContext::new();
    context.insert("x".to_string(), "1".to_string());
    context.insert("y".to_string(), "2".to_string());
    assert_eq!(context.len(), 2);
    assert_eq!(value_of(&context, "x"), Some("1".to_string()));
    assert_eq!(value_of(&context, "y"), Some("2".to_string()));
    assert_eq!(value_of(&context, "z"), None);
}

#[test]
fn insert_replaces_the_value_of_a_key() {
    let mut context = AttributeContext::new();
    context.insert("x".to_string(), "1".to_string());
    context.insert("y".to_string(), "2".to_string());
    context.insert("x".to_string(), "3".to_string());
    assert_eq!(context.len(), 2);
    assert_eq!(value_of(&context, "x"), Some("3".to_string()));
    assert_eq!(value_of(&context, "y"), Some("2".to_string()));
    assert_eq!(context.entries(), &vec![attribute("x", "3"), attribute("y", "2")]);
}

#[test]
fn keys_and_values_may_be_any_strings() {
    let mut context = AttributeContext::new();
    context.insert(String::new(), String::new());
    context.insert(" == ".to_string(), "\n".to_string());
    context.insert("clé".to_string(), "värde".to_string());
    assert_eq!(context.len(), 3);
    assert_eq!(value_of(&context, ""), Some(String::new()));
    assert_eq!(value_of(&context, " == "), Some("\n".to_string()));
    assert_eq!(value_of(&context, "clé"), Some("värde".to_string()));
}

#[test]
fn aggregate_of_no_descriptors_is_empty() {
    assert_eq!(aggregate(&vec![]).len(), 0);
    assert_eq!(aggregate(&vec![RateLimitDescriptor { entries: vec![] }]).len(), 0);
}

#[test]
fn aggregate_merges_all_descriptors() {
    let descriptors = vec![
        RateLimitDescriptor { entries: vec![attribute("x", "1"), attribute("z", "1")] },
        RateLimitDescriptor { entries: vec![attribute("y", "2")] },
    ];
    let context = aggregate(&descriptors);
    assert_eq!(context.len(), 3);
    assert_eq!(value_of(&context, "x"), Some("1".to_string()));
    assert_eq!(value_of(&context, "y"), Some("2".to_string()));
    assert_eq!(value_of(&context, "z"), Some("1".to_string()));
}

#[test]
fn aggregate_keeps_the_last_value_within_a_descriptor() {
    let descriptors = vec![RateLimitDescriptor {
        entries: vec![attribute("x", "1"), attribute("y", "2"), attribute("x", "3")],
    }];
    let context = aggregate(&descriptors);
    assert_eq!(context.len(), 2);
    assert_eq!(value_of(&context, "x"), Some("3".to_string()));
    assert_eq!(value_of(&context, "y"), Some("2".to_string()));
}

#[test]
fn aggregate_keeps_the_last_value_across_descriptors() {
    let descriptors = vec![
        RateLimitDescriptor { entries: vec![attribute("x", "1"), attribute("y", "2")] },
        RateLimitDescriptor { entries: vec![] },
        RateLimitDescriptor { entries: vec![attribute("x", "4")] },
        RateLimitDescriptor { entries: vec![attribute("w", "5"), attribute("y", "6")] },
    ];
    let context = aggregate(&descriptors);
    assert_eq!(context.len(), 3);
    assert_eq!(value_of(&context, "x"), Some("4".to_string()));
    assert_eq!(value_of(&context, "y"), Some("6".to_string()));
    assert_eq!(value_of(&context, "w"), Some("5".to_string()));
    assert_eq!(
        context.entries(),
        &vec![attribute("x", "4"), attribute("y", "6"), attribute("w", "5")]
    );
}

#[test]
fn aggregate_leaves_the_descriptors_as_they_were() {
    let descriptors =
        vec![RateLimitDescriptor { entries: vec![attribute("x", "1"), attribute("x", "2")] }];
    let before = descriptors.clone();
    aggregate(&descriptors);
    assert_eq!(descriptors, before);
}
