use fade::icon_catalog::{catalog, search};

#[test]
fn test_search_returns_all_on_empty() {
    assert_eq!(search("").len(), catalog().len());
    assert_eq!(search("   ").len(), catalog().len());
}

#[test]
fn test_search_matches_keyword() {
    let hits = search("chrome");
    assert!(!hits.is_empty());
    assert!(hits.iter().any(|e| e.keywords.contains("chrome")));
}

#[test]
fn test_search_case_insensitive() {
    let a = search("BROWSER").len();
    let b = search("browser").len();
    assert_eq!(a, b);
    assert!(a > 0);
}

#[test]
fn test_search_no_match_returns_empty() {
    assert!(search("zzznosuchkeywordxyz").is_empty());
}

#[test]
fn test_catalog_has_many_entries() {
    assert!(catalog().len() > 150, "catalog should contain many entries (got {})", catalog().len());
}

#[test]
fn catalog_size_and_first_entry() {
    let c = catalog();
    assert_eq!(c.len(), 251);
    assert!(!c[0].glyph.is_empty());
    assert!(c.iter().all(|e| !e.keywords.is_empty()));
}

#[test]
fn search_keeps_catalog_order_and_only_hits() {
    let c = catalog();
    let hits = search("  Game ");
    let expected: Vec<&str> = c.iter().filter(|e| e.keywords.contains("game")).map(|e| e.glyph).collect();
    let got: Vec<&str> = hits.iter().map(|e| e.glyph).collect();
    assert_eq!(got, expected);
    assert!(!got.is_empty());
}

#[test]
fn search_blank_returns_catalog_in_order() {
    let all: Vec<&str> = search("\t \n").iter().map(|e| e.glyph).collect();
    let c: Vec<&str> = catalog().iter().map(|e| e.glyph).collect();
    assert_eq!(all, c);
}

#[test]
fn search_gives_same_entries_whatever_the_case() {
    let lower: Vec<String> = search("browser").iter().map(|e| e.glyph.to_string()).collect();
    let upper: Vec<String> = search("BrOwSeR").iter().map(|e| e.glyph.to_string()).collect();
    assert_eq!(lower, upper);
}
