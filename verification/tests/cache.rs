use translation_cache::cache::PhraseCache;

#[test]
fn new_cache_is_empty() {
    let cache = PhraseCache::new();
    assert_eq!(cache.lookup("hello"), None);
    assert_eq!(cache.lookup("anything at all"), None);
}

#[test]
fn insert_then_lookup_returns_the_value() {
    let mut cache = PhraseCache::new();
    cache.insert("hello", "bonjour");
    assert_eq!(cache.lookup("hello"), Some("bonjour".to_string()));
}

#[test]
fn lookup_of_an_absent_phrase_returns_none() {
    let mut cache = PhraseCache::new();
    cache.insert("hello", "bonjour");
    assert_eq!(cache.lookup("world"), None);
}

#[test]
fn insert_overwrites_the_value_for_a_key() {
    let mut cache = PhraseCache::new();
    cache.insert("hello", "bonjour");
    cache.insert("hello", "salut");
    assert_eq!(cache.lookup("hello"), Some("salut".to_string()));
}

#[test]
fn reinserting_an_identical_value_is_harmless() {
    let mut cache = PhraseCache::new();
    cache.insert("hello", "bonjour");
    cache.insert("hello", "bonjour");
    assert_eq!(cache.lookup("hello"), Some("bonjour".to_string()));
}

#[test]
fn distinct_keys_are_independent() {
    let mut cache = PhraseCache::new();
    cache.insert("cat", "neko");
    cache.insert("dog", "inu");
    assert_eq!(cache.lookup("cat"), Some("neko".to_string()));
    assert_eq!(cache.lookup("dog"), Some("inu".to_string()));
    assert_eq!(cache.lookup("bird"), None);
}
