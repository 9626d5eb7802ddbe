use todo_api::text::{find_last, has_prefix, join, text_eq, text_from};

#[test]
fn text_equality() {
    assert!(text_eq("", ""));
    assert!(text_eq("image", "image"));
    assert!(!text_eq("image", "images"));
    assert!(!text_eq("image", "imagE"));
    assert!(!text_eq("", "a"));
    assert!(text_eq("日本語", "日本語"));
    assert!(!text_eq("日本語", "日本誤"));
}

#[test]
fn prefixes() {
    assert!(has_prefix("Bearer abc", "Bearer "));
    assert!(has_prefix("Bearer ", "Bearer "));
    assert!(has_prefix("anything", ""));
    assert!(has_prefix("", ""));
    assert!(!has_prefix("Bearer", "Bearer "));
    assert!(!has_prefix("bearer abc", "Bearer "));
    assert!(!has_prefix("", "B"));
    assert!(has_prefix("éa", "é"));
}

#[test]
fn rest_of_a_text_counts_characters_not_bytes() {
    assert_eq!(text_from("Bearer abc", 7), "abc");
    assert_eq!(text_from("abc", 0), "abc");
    assert_eq!(text_from("abc", 3), "");
    assert_eq!(text_from("é.png", 2), "png");
    assert_eq!(text_from("", 0), "");
}

#[test]
fn joining() {
    assert_eq!(join("uploads/", "a.png"), "uploads/a.png");
    assert_eq!(join("", ""), "");
    assert_eq!(join("a", ""), "a");
    assert_eq!(join("", "b"), "b");
}

#[test]
fn last_occurrence() {
    assert_eq!(find_last("photo.png", '.'), Some(5));
    assert_eq!(find_last("archive.tar.gz", '.'), Some(11));
    assert_eq!(find_last("photo", '.'), None);
    assert_eq!(find_last("", '.'), None);
    assert_eq!(find_last(".", '.'), Some(0));
    assert_eq!(find_last("photo.", '.'), Some(5));
    assert_eq!(find_last("é.png", '.'), Some(1));
}
