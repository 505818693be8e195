use auth_emulator::store::{evict_expired_tokens, RefreshEntry, RefreshStore};

fn entry(sub: &str, exp: i64) -> RefreshEntry {
    RefreshEntry { sub: sub.to_owned(), exp }
}

fn entry_of(store: &RefreshStore, token: &str) -> Option<(String, i64)> {
    store.get(token).map(|e| (e.sub.clone(), e.exp))
}

#[test]
fn inserted_tokens_are_found() {
    let mut store = RefreshStore::new();
    assert_eq!(store.len(), 0);
    assert_eq!(entry_of(&store, "a"), None);
    store.insert("a".to_owned(), entry("alice", 10));
    store.insert("b".to_owned(), entry("bob", 20));
    assert_eq!(store.len(), 2);
    assert_eq!(entry_of(&store, "a"), Some(("alice".to_owned(), 10)));
    assert_eq!(entry_of(&store, "b"), Some(("bob".to_owned(), 20)));
    store.insert("a".to_owned(), entry("carol", 30));
    assert_eq!(store.len(), 2);
    assert_eq!(entry_of(&store, "a"), Some(("carol".to_owned(), 30)));
}

#[test]
fn removed_tokens_are_gone() {
    let mut store = RefreshStore::new();
    for (token, exp) in [("a", 1), ("b", 2), ("c", 3)] {
        store.insert(token.to_owned(), entry("s", exp));
    }
    assert_eq!(store.remove("a").map(|e| e.exp), Some(1));
    assert!(store.remove("a").is_none());
    assert!(store.remove("d").is_none());
    assert_eq!(store.len(), 2);
    assert_eq!(entry_of(&store, "b"), Some(("s".to_owned(), 2)));
    assert_eq!(entry_of(&store, "c"), Some(("s".to_owned(), 3)));
}

#[test]
fn eviction_removes_what_has_expired() {
    let mut store = RefreshStore::new();
    for (token, exp) in [("a", 9), ("b", 10), ("c", 11), ("d", 10), ("e", 12)] {
        store.insert(token.to_owned(), entry(token, exp));
    }
    evict_expired_tokens(&mut store, 10);
    assert_eq!(store.len(), 2);
    assert_eq!(entry_of(&store, "c"), Some(("c".to_owned(), 11)));
    assert_eq!(entry_of(&store, "e"), Some(("e".to_owned(), 12)));
    evict_expired_tokens(&mut store, 9);
    assert_eq!(store.len(), 2);
    evict_expired_tokens(&mut store, i64::MAX);
    assert_eq!(store.len(), 0);
}
