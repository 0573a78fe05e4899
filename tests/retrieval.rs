use kitty_cat::retrieval::{
    classify_response, error_text, file_path, get_cached_images, is_cached_image_name,
    new_transient_name, pick_cached_image, remote_error_text, subtype_of, transient_image_name,
    ResponseKind,
};

fn names(v: &[&str]) -> Vec<String> {
    v.iter().map(|s| s.to_string()).collect()
}

#[test]
fn image_content_types_are_images() {
    assert_eq!(classify_response(Some("image/png")), ResponseKind::Image);
    assert_eq!(classify_response(Some("image/jpeg")), ResponseKind::Image);
    assert_eq!(classify_response(Some("image/gif")), ResponseKind::Image);
    assert_eq!(classify_response(Some("image/png/extra")), ResponseKind::Image);
}

#[test]
fn other_content_types_are_errors() {
    assert_eq!(classify_response(Some("application/json")), ResponseKind::RemoteError);
    assert_eq!(classify_response(Some("image/webp")), ResponseKind::RemoteError);
    assert_eq!(classify_response(Some("image/png; charset=x")), ResponseKind::RemoteError);
    assert_eq!(classify_response(Some("png")), ResponseKind::RemoteError);
    assert_eq!(classify_response(None), ResponseKind::RemoteError);
}

#[test]
fn subtypes() {
    assert_eq!(subtype_of("image/png"), Some("png"));
    assert_eq!(subtype_of("a/b/c"), Some("b"));
    assert_eq!(subtype_of("text/"), Some(""));
    assert_eq!(subtype_of("text"), None);
}

#[test]
fn rate_limited_message_is_reported() {
    let body = r#"{"message":"rate limited"}"#.to_string();
    assert_eq!(classify_response(Some("application/json")), ResponseKind::RemoteError);
    assert_eq!(remote_error_text(Some(body)), "rate limited");
}

#[test]
fn body_without_message_is_reported_as_is() {
    assert_eq!(remote_error_text(Some("oops".to_string())), "oops");
    let other = r#"{"error":"nope"}"#.to_string();
    assert_eq!(remote_error_text(Some(other.clone())), other);
    let number = r#"{"message":5}"#.to_string();
    assert_eq!(remote_error_text(Some(number.clone())), number);
}

#[test]
fn unreadable_body_has_fallback_text() {
    assert_eq!(remote_error_text(None), "Couldnt get error");
}

#[test]
fn error_text_prefers_message() {
    assert_eq!(error_text("raw", Some("why".to_string())), "why");
    assert_eq!(error_text("raw", None), "raw");
}

#[test]
fn cache_listing_keeps_images_only() {
    let listing = names(&["a.png", "b.jpeg", "readme.txt"]);
    assert_eq!(get_cached_images(&listing), names(&["a.png", "b.jpeg"]));
}

#[test]
fn cache_listing_edge_names() {
    let listing = names(&[".png", "noext", "x.tar.gif", "A.PNG", "c.jpg", "d.", "e.gif.txt", "f.gif"]);
    assert_eq!(get_cached_images(&listing), names(&["x.tar.gif", "f.gif"]));
    assert!(get_cached_images(&Vec::new()).is_empty());
    assert!(is_cached_image_name("cat_10:00:00.png"));
    assert!(!is_cached_image_name("png"));
}

#[test]
fn empty_cache_picks_nothing() {
    assert_eq!(pick_cached_image("/c", &Vec::new()), None);
    assert_eq!(pick_cached_image("/c", &names(&["notes.txt"])), None);
}

#[test]
fn pick_is_one_of_the_images() {
    assert_eq!(pick_cached_image("/c", &names(&["readme.txt", "a.png"])), Some("/c/a.png".to_string()));
    let listing = names(&["a.png", "b.jpeg", "readme.txt"]);
    for _ in 0..20 {
        let p = pick_cached_image("/cache", &listing).unwrap();
        assert!(p == "/cache/a.png" || p == "/cache/b.jpeg", "{p}");
    }
}

#[test]
fn transient_names_follow_the_clock() {
    assert_eq!(transient_image_name(9, 5, 7), "cat_09:05:07.png");
    assert_eq!(transient_image_name(23, 59, 0), "cat_23:59:00.png");
    let now = new_transient_name();
    assert!(now.starts_with("cat_") && now.ends_with(".png"));
    assert_eq!(now.len(), "cat_00:00:00.png".len());
}

#[test]
fn paths_in_a_directory() {
    assert_eq!(file_path("/data", "x.png"), "/data/x.png");
}
