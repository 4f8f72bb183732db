use bitwarden_secrets_operator::cache::CredentialCache;
use bitwarden_secrets_operator::json::Json;

fn listing(text: &str) -> Json {
    Json::parse(text).unwrap()
}

#[test]
fn a_new_cache_holds_nothing() {
    let cache = CredentialCache::new();
    assert_eq!(cache.len(), 0);
    assert_eq!(cache.get("db"), None);
}

#[test]
fn a_listing_is_cached_item_by_name() {
    let cache = CredentialCache::from_listing(&listing(
        "[{\"name\": \"a\", \"notes\": \"1\"}, {\"name\": \"b\", \"notes\": \"2\"}]",
    ))
    .unwrap();
    assert_eq!(cache.len(), 2);
    assert_eq!(cache.get("a").unwrap().str_member("notes"), Some("1"));
    assert_eq!(cache.get("b").unwrap().str_member("notes"), Some("2"));
    assert_eq!(cache.get("c"), None);
}

#[test]
fn the_later_of_two_items_of_one_name_wins() {
    let cache = CredentialCache::from_listing(&listing(
        "[{\"name\": \"a\", \"notes\": \"old\"}, {\"name\": \"b\"}, {\"name\": \"a\", \"notes\": \"new\"}]",
    ))
    .unwrap();
    assert_eq!(cache.len(), 2);
    assert_eq!(cache.get("a").unwrap().str_member("notes"), Some("new"));
}

#[test]
fn a_listing_that_is_no_array_holds_nothing() {
    let cache = CredentialCache::from_listing(&listing("{\"name\": \"a\"}")).unwrap();
    assert_eq!(cache.len(), 0);
    let cache = CredentialCache::from_listing(&Json::Null).unwrap();
    assert_eq!(cache.len(), 0);
}

#[test]
fn an_item_without_a_name_spoils_the_listing() {
    assert!(CredentialCache::from_listing(&listing("[{\"name\": \"a\"}, {\"notes\": \"x\"}]")).is_none());
    assert!(CredentialCache::from_listing(&listing("[{\"name\": null}]")).is_none());
    assert!(CredentialCache::from_listing(&listing("[5]")).is_none());
}

#[test]
fn a_fresh_cache_takes_the_place_of_the_old_one_as_a_whole() {
    let mut cache = CredentialCache::from_listing(&listing(
        "[{\"name\": \"a\", \"notes\": \"1\"}, {\"name\": \"b\", \"notes\": \"2\"}]",
    ))
    .unwrap();
    let fresh = CredentialCache::from_listing(&listing("[{\"name\": \"c\", \"notes\": \"3\"}]")).unwrap();
    let failure: Option<String> = cache.absorb(Ok(fresh));
    assert_eq!(failure, None);
    assert_eq!(cache.len(), 1);
    assert_eq!(cache.get("a"), None);
    assert_eq!(cache.get("c").unwrap().str_member("notes"), Some("3"));
}

#[test]
fn a_failed_refresh_leaves_the_cache_as_it_is() {
    let mut cache = CredentialCache::from_listing(&listing("[{\"name\": \"a\", \"notes\": \"1\"}]")).unwrap();
    let failure = cache.absorb(Err("vault is down".to_string()));
    assert_eq!(failure, Some("vault is down".to_string()));
    assert_eq!(cache.len(), 1);
    assert_eq!(cache.get("a").unwrap().str_member("notes"), Some("1"));
}
