use dinkelberg::ddg::ImageResponse;
use dinkelberg::keys::{plain_key, scoped_key, CacheIdentifier};

#[test]
fn plain_key_joins_type_and_id_with_a_dot() {
    assert_eq!(plain_key("dinkelberg::ddg::ImageResponse", "cats"), "dinkelberg::ddg::ImageResponse.cats");
    assert_eq!(plain_key("i32", "k"), "i32.k");
}

#[test]
fn scoped_key_starts_with_scope() {
    assert_eq!(scoped_key("42", "dinkelberg::ddg::ImageResponse"), "scope.42.dinkelberg::ddg::ImageResponse");
    assert_eq!(scoped_key("-1001234", "T"), "scope.-1001234.T");
}

#[test]
fn keys_of_empty_parts_keep_their_separators() {
    assert_eq!(plain_key("", ""), ".");
    assert_eq!(plain_key("T", ""), "T.");
    assert_eq!(scoped_key("", ""), "scope..");
}

#[test]
fn keys_are_deterministic() {
    assert_eq!(plain_key("T", "id"), plain_key("T", "id"));
    assert_eq!(scoped_key("s", "T"), scoped_key("s", "T"));
}

#[test]
fn keys_keep_text_outside_ascii() {
    assert_eq!(plain_key("T", "Niño 🤔"), "T.Niño 🤔");
    assert_eq!(scoped_key("çà", "T"), "scope.çà.T");
}

#[test]
fn plain_keys_of_one_type_differ_with_the_id() {
    assert_ne!(plain_key("T", "a"), plain_key("T", "b"));
    assert_ne!(plain_key("T", "a"), plain_key("T", "a."));
    assert_ne!(plain_key("T", "a.b"), plain_key("T", "a"));
}

#[test]
fn plain_keys_of_dot_free_types_differ_with_the_type() {
    assert_ne!(plain_key("a::T", "x"), plain_key("b::T", "x"));
    assert_ne!(plain_key("A", "B.x"), plain_key("B", "A.x"));
    assert_ne!(plain_key("T", "x"), plain_key("TT", "x"));
}

#[test]
fn plain_keys_collide_when_a_type_holds_a_dot() {
    assert_eq!(plain_key("T", "U.x"), plain_key("T.U", "x"));
}

#[test]
fn scoped_keys_of_one_type_differ_with_the_scope() {
    assert_ne!(scoped_key("1", "T"), scoped_key("2", "T"));
    assert_ne!(scoped_key("1", "T"), scoped_key("1.", "T"));
    assert_ne!(scoped_key("", "T"), scoped_key(".", "T"));
}

#[test]
fn scoped_keys_collide_when_a_scope_holds_a_dot() {
    assert_eq!(scoped_key("x", "y.z"), scoped_key("x.y", "z"));
}

#[test]
fn plain_and_scoped_keys_differ() {
    assert_ne!(plain_key("T", "1.T"), scoped_key("1", "T"));
    assert_eq!(plain_key("scope", "1.T"), scoped_key("1", "T"));
}

#[test]
fn image_response_names_its_plain_keys() {
    assert_eq!(ImageResponse::cache_key("cats"), "dinkelberg::ddg::ImageResponse.cats");
    assert_eq!(ImageResponse::cache_key(42), "dinkelberg::ddg::ImageResponse.42");
    assert_eq!(
        ImageResponse::cache_key(String::from("grumpy cat")),
        plain_key("dinkelberg::ddg::ImageResponse", "grumpy cat")
    );
}
