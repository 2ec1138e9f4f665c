use voice_bot::catalog::TrackCatalog;
use voice_bot::text::{chars_of, contains_chars, matches_at, remove_all_chars, same_chars};

#[test]
fn catalog_insert_and_lookup() {
    let mut catalog = TrackCatalog::new();
    assert_eq!(catalog.len(), 0);
    assert_eq!(catalog.lookup("a"), None);
    catalog.insert("a", "/x/a.mp3");
    catalog.insert("b", "/x/b.mp3");
    assert_eq!(catalog.len(), 2);
    assert_eq!(catalog.lookup("b"), Some(1));
    assert_eq!(catalog.name(1), "b");
    assert_eq!(catalog.lookup("c"), None);
    catalog.insert("a", "/y/a.mp3");
    assert_eq!(catalog.len(), 2);
    assert_eq!(catalog.path(0), "/y/a.mp3");
    assert_eq!(catalog.lookup_chars(&chars_of("a")), Some(0));
}

#[test]
fn text_helpers() {
    let s = chars_of("бот вруби бот вруби X");
    let p = chars_of("бот вруби ");
    assert_eq!(s.len(), 21);
    assert_eq!(remove_all_chars(&s, &p), chars_of("X"));
    assert!(contains_chars(&s, &chars_of("вруби X")));
    assert!(!contains_chars(&s, &chars_of("Y")));
    assert!(contains_chars(&s, &chars_of("")));
    assert!(matches_at(&s, &p, 10));
    assert!(!matches_at(&s, &p, 11));
    assert!(same_chars(&chars_of("ab"), &chars_of("ab")));
    assert!(!same_chars(&chars_of("ab"), &chars_of("abc")));
    assert_eq!(remove_all_chars(&chars_of("aaa"), &chars_of("aa")), chars_of("a"));
    assert_eq!(remove_all_chars(&chars_of("ab"), &chars_of("")), chars_of("ab"));
}

#[test]
fn stored_name_resolves_to_stored_path() {
    let mut catalog = TrackCatalog::new();
    catalog.insert("Летова", "D:/bot-rs/assets/letov1.mp3");
    catalog.insert("x", "/x.mp3");
    let i = catalog.lookup("x").unwrap();
    assert_eq!(catalog.path(i), "/x.mp3");
    catalog.insert("Летова", "/other.mp3");
    let i = catalog.lookup("Летова").unwrap();
    assert_eq!(i, 0);
    assert_eq!(catalog.path(i), "/other.mp3");
    assert_eq!(catalog.name(i), "Летова");
}
