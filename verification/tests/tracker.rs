use resugar::scope::ScopeTracker;
use resugar::text::{decimal_string, suffix_marker};

#[test]
fn first_binding_unsuffixed() {
    let mut t = ScopeTracker::new();
    assert_eq!(t.enter_binding(1, 10), None);
    assert_eq!(t.suffix_of(10), None);
}

#[test]
fn rebinding_progression() {
    let mut t = ScopeTracker::new();
    assert_eq!(t.enter_binding(1, 10), None);
    assert_eq!(t.enter_binding(1, 11), Some(0));
    assert_eq!(t.enter_binding(1, 12), Some(1));
    assert_eq!(t.enter_binding(1, 13), Some(2));
    // an unrelated name keeps its own counter
    assert_eq!(t.enter_binding(2, 14), None);
    assert_eq!(t.enter_binding(2, 15), Some(0));
}

#[test]
fn use_resolves_to_bind_time_suffix() {
    let mut t = ScopeTracker::new();
    t.enter_binding(1, 10);
    t.enter_binding(1, 11);
    t.enter_binding(1, 12);
    // each identity keeps the suffix handed out when it was bound,
    // whatever was rebound in between
    assert_eq!(t.suffix_of(10), None);
    assert_eq!(t.suffix_of(11), Some(0));
    assert_eq!(t.suffix_of(12), Some(1));
}

#[test]
fn is_bound_tracks_registration() {
    let mut t = ScopeTracker::new();
    assert!(!t.is_bound(10));
    t.enter_binding(1, 10);
    assert!(t.is_bound(10));
    assert!(!t.is_bound(11));
}

#[test]
fn clear_restarts_every_name() {
    let mut t = ScopeTracker::new();
    t.enter_binding(1, 10);
    assert_eq!(t.enter_binding(1, 11), Some(0));
    t.clear();
    assert!(!t.is_bound(10));
    assert!(!t.is_bound(11));
    // a name suffixed in the previous unit restarts unadorned
    assert_eq!(t.enter_binding(1, 20), None);
    assert_eq!(t.enter_binding(1, 21), Some(0));
}

#[test]
fn suffix_marker_spelling() {
    assert_eq!(suffix_marker(0).as_str(), "_0");
    assert_eq!(suffix_marker(7).as_str(), "_7");
    assert_eq!(suffix_marker(10).as_str(), "_10");
    assert_eq!(suffix_marker(12345).as_str(), "_12345");
}

#[test]
fn decimal_spelling() {
    assert_eq!(decimal_string(0).as_str(), "0");
    assert_eq!(decimal_string(9).as_str(), "9");
    assert_eq!(decimal_string(10).as_str(), "10");
    assert_eq!(decimal_string(400).as_str(), "400");
    assert_eq!(decimal_string(1000001).as_str(), "1000001");
}
