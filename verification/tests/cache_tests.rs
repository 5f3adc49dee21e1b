use gemini_server::cache::Cache;

// Test text cache functionality
#[test]
fn test_text_cache() {
    let mut cache = Cache::new();
    cache.set_text("key1".to_string(), "value1".to_string());

    // Check if the cached value is correct
    assert_eq!(cache.get_text("key1"), Some("value1".to_string()));
    assert_eq!(cache.get_text("key2"), None); // Key "key2" doesn't exist
}

// Test binary cache functionality
#[test]
fn test_binary_cache() {
    let mut cache = Cache::new();
    cache.set_binary("key1".to_string(), vec![1, 2, 3, 4]);

    // Check if the cached binary data is correct
    assert_eq!(cache.get_binary("key1"), Some(vec![1, 2, 3, 4]));
    assert_eq!(cache.get_binary("key2"), None); // Key "key2" doesn't exist
}

// The two namespaces are independent: the same key string never collides
// across them.
#[test]
fn namespaces_do_not_collide() {
    let mut cache = Cache::new();
    cache.set_text("shared".to_string(), "text value".to_string());
    cache.set_binary("shared".to_string(), vec![9, 8, 7]);

    assert_eq!(cache.get_text("shared"), Some("text value".to_string()));
    assert_eq!(cache.get_binary("shared"), Some(vec![9, 8, 7]));

    // Storing in one namespace never creates an entry in the other.
    let mut fresh = Cache::new();
    fresh.set_text("only-text".to_string(), "t".to_string());
    assert_eq!(fresh.get_binary("only-text"), None);
}

// A later store overwrites the earlier value for the same key.
#[test]
fn store_overwrites() {
    let mut cache = Cache::new();
    cache.set_text("k".to_string(), "first".to_string());
    cache.set_text("k".to_string(), "second".to_string());
    assert_eq!(cache.get_text("k"), Some("second".to_string()));
}
