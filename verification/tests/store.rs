use discord_spotify_bot::store::Store;

#[test]
fn a_new_store_is_empty() {
    let mut store = Store::new();
    assert_eq!(store.bot_name(), "Discord Bot");
    assert_eq!(store.settle("1"), None);
    assert_eq!(Store::default().bot_name(), "Discord Bot");
}

#[test]
fn a_wait_is_settled_once() {
    let mut store = Store::new();
    assert_eq!(store.wait("1".to_string(), 10), None);
    assert_eq!(store.settle("1"), Some(10));
    assert_eq!(store.settle("1"), None);
}

#[test]
fn a_second_wait_displaces_the_first() {
    let mut store = Store::new();
    assert_eq!(store.wait("1".to_string(), 10), None);
    assert_eq!(store.wait("1".to_string(), 11), Some(10));
    assert_eq!(store.settle("1"), Some(11));
}

#[test]
fn users_do_not_interfere() {
    let mut store = Store::new();
    store.wait("1".to_string(), 10);
    store.wait("2".to_string(), 20);
    assert_eq!(store.settle("1"), Some(10));
    assert_eq!(store.settle("12"), None);
    assert_eq!(store.settle("2"), Some(20));
}

#[test]
fn the_name_of_the_bot_is_kept() {
    let mut store = Store::new();
    store.wait("1".to_string(), 10);
    store.set_bot_name("Jukebox");
    assert_eq!(store.bot_name(), "Jukebox");
    assert_eq!(store.settle("1"), Some(10));
}
