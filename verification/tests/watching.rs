use dirwatch::DirectoryWatcher;
use dirwatch::WatchRegistry;

fn sorted(mut v: Vec<String>) -> Vec<String> {
    v.sort();
    v
}

#[test]
fn watch_then_list_returns_watched_paths() {
    let mut w = DirectoryWatcher::new();
    w.watch(String::from("/tmp/a"), true).unwrap();
    w.watch(String::from("/tmp/b"), true).unwrap();
    w.watch(String::from("/tmp/c"), true).unwrap();
    w.unwatch(&String::from("/tmp/b"), true).unwrap();
    let paths = sorted(w.get_watched_paths());
    assert_eq!(paths, vec![String::from("/tmp/a"), String::from("/tmp/c")]);
}

#[test]
fn watch_twice_single_entry() {
    let mut w = DirectoryWatcher::new();
    w.watch(String::from("/tmp/a"), true).unwrap();
    w.watch(String::from("/tmp/a"), true).unwrap();
    let paths = w.get_watched_paths();
    assert_eq!(paths.len(), 1);
    assert_eq!(paths, vec![String::from("/tmp/a")]);
}

#[test]
fn unwatch_absent_path_is_noop() {
    let mut w = DirectoryWatcher::new();
    w.watch(String::from("/tmp/a"), true).unwrap();
    w.unwatch(&String::from("/tmp/never"), true).unwrap();
    assert_eq!(w.get_watched_paths(), vec![String::from("/tmp/a")]);
}

#[test]
fn rejected_watch_errs_and_adds_nothing() {
    let mut w = DirectoryWatcher::new();
    let r = w.watch(String::from("/does/not/exist"), false);
    assert!(r.is_err());
    assert!(w.get_watched_paths().is_empty());
}

#[test]
fn rejected_unwatch_errs_and_keeps_path() {
    let mut w = DirectoryWatcher::new();
    w.watch(String::from("/tmp/a"), true).unwrap();
    let r = w.unwatch(&String::from("/tmp/a"), false);
    assert!(r.is_err());
    assert_eq!(w.get_watched_paths(), vec![String::from("/tmp/a")]);
}

#[test]
fn watch_and_unwatch_interleaved_any_order() {
    let mut w = DirectoryWatcher::new();
    w.watch(String::from("/x"), true).unwrap();
    w.watch(String::from("/y"), true).unwrap();
    w.unwatch(&String::from("/x"), true).unwrap();
    w.watch(String::from("/z"), true).unwrap();
    w.watch(String::from("/x"), true).unwrap();
    w.unwatch(&String::from("/z"), true).unwrap();
    let paths = sorted(w.get_watched_paths());
    assert_eq!(paths, vec![String::from("/x"), String::from("/y")]);
}

#[test]
fn registry_insert_contains_remove() {
    let mut r = WatchRegistry::new();
    let a = String::from("/tmp/a");
    let b = String::from("/tmp/b");
    assert!(!r.contains(&a));
    r.insert(a.clone());
    assert!(r.contains(&a));
    assert!(!r.contains(&b));
    r.insert(a.clone());
    assert_eq!(r.snapshot().len(), 1);
    r.remove(&a);
    assert!(!r.contains(&a));
    assert!(r.snapshot().is_empty());
}
