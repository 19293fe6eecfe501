use grit::order::sort_statuses;
use grit::status::{Existence, RepoStatus};
use grit::RepoAction;

fn status(path: &str) -> RepoStatus {
    RepoStatus {
        path: String::from(path),
        existence: Existence::Exists,
        branch: String::from("main"),
        remote: String::from("https://example.com/r"),
        action: RepoAction::UpToDate,
    }
}

fn paths(v: &[RepoStatus]) -> Vec<String> {
    v.iter().map(|s| s.path.clone()).collect()
}

#[test]
fn sorting_is_by_path() {
    let sorted = sort_statuses(vec![status("/c"), status("/a"), status("/b")]);
    assert_eq!(paths(&sorted), vec!["/a", "/b", "/c"]);
}

#[test]
fn completion_order_does_not_leak() {
    // The same set of probed paths, arriving in two different completion
    // orders, sorts to the identical list.
    let first = sort_statuses(vec![
        status("/home/u/beta"),
        status("/home/u/alpha"),
        status("/home/u/gamma"),
        status("/home/u/delta"),
    ]);
    let second = sort_statuses(vec![
        status("/home/u/gamma"),
        status("/home/u/delta"),
        status("/home/u/beta"),
        status("/home/u/alpha"),
    ]);
    assert_eq!(paths(&first), paths(&second));
    assert_eq!(
        paths(&first),
        vec![
            "/home/u/alpha",
            "/home/u/beta",
            "/home/u/delta",
            "/home/u/gamma"
        ]
    );
}

#[test]
fn sorting_keeps_every_snapshot() {
    let sorted = sort_statuses(vec![status("/z"), status("/y")]);
    assert_eq!(sorted.len(), 2);
}

#[test]
fn empty_input_sorts_to_empty() {
    let sorted = sort_statuses(Vec::new());
    assert!(sorted.is_empty());
}
