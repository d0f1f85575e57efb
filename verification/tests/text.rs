use microservice_rust_workshop::greeting::greeting;
use microservice_rust_workshop::greeting::welcome;
use microservice_rust_workshop::text::same_text;
use microservice_rust_workshop::text::starts_with;

#[test]
fn hello_world() {
    assert_eq!(welcome().as_bytes(), b"<h1>Hello Axum</h1>");
}

#[test]
fn say_hi_unknown() {
    assert_eq!(greeting(None).as_bytes(), b"<h1>Hello Unknown Visitor</h1>");
}

#[test]
fn say_hi_stefan() {
    assert_eq!(greeting(Some("Stefan")).as_bytes(), b"<h1>Hello Stefan</h1>");
}

#[test]
fn greeting_takes_any_name() {
    assert_eq!(greeting(Some("")), "<h1>Hello </h1>");
    assert_eq!(greeting(Some("Zoë & Co")), "<h1>Hello Zoë & Co</h1>");
}

#[test]
fn starts_with_compares_characters() {
    assert!(starts_with("image/png", "image"));
    assert!(starts_with("image", "image"));
    assert!(starts_with("image", ""));
    assert!(starts_with("", ""));
    assert!(!starts_with("", "image"));
    assert!(!starts_with("imag", "image"));
    assert!(!starts_with("Image/png", "image"));
    assert!(!starts_with("an image", "image"));
    assert!(starts_with("héllo wörld", "héllo"));
    assert!(!starts_with("héllo", "hello"));
    assert!(!starts_with("he", "hé"));
    assert!(starts_with("日本語のテキスト", "日本語"));
}

#[test]
fn same_text_is_equality() {
    assert!(same_text("", ""));
    assert!(same_text("secret", "secret"));
    assert!(!same_text("secret", "Secret"));
    assert!(!same_text("secret", "secret "));
    assert!(!same_text("é", "e\u{301}"));
}
