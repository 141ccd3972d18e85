use dinkelberg::commands::{found, image, image_reply, more, Reply};
use dinkelberg::ddg::{Image, ImageResponse};

fn picture(name: &str) -> Image {
    Image::new(
        640,
        480,
        format!("https://example.com/{}", name),
        String::from("Bing"),
        String::from(name),
        format!("https://example.com/{}.png", name),
    )
}

#[test]
fn an_empty_query_is_answered_at_once() {
    assert_eq!(image(""), Some(Reply::Text(String::from("Please provide an image query"))));
}

#[test]
fn any_other_query_is_searched_for() {
    assert_eq!(image("cats"), None);
    assert_eq!(image(" "), None);
}

#[test]
fn a_picked_image_is_shown_by_its_address() {
    assert_eq!(
        image_reply(Some(&picture("cat"))),
        Reply::Photo(String::from("https://example.com/cat.png"))
    );
}

#[test]
fn no_picked_image_is_answered_in_words() {
    assert_eq!(image_reply(None), Reply::Text(String::from("No image found")));
}

#[test]
fn results_are_answered_with_one_of_their_images() {
    let images = ImageResponse::new(String::from("cats"), vec![picture("a"), picture("b")]);
    let a = Reply::Photo(String::from("https://example.com/a.png"));
    let b = Reply::Photo(String::from("https://example.com/b.png"));
    let mut seen = (false, false);
    for _ in 0..200 {
        let reply = found(&images);
        assert!(reply == a || reply == b);
        seen = (seen.0 || reply == a, seen.1 || reply == b);
    }
    assert_eq!(seen, (true, true));
}

#[test]
fn empty_results_are_answered_in_words() {
    let images = ImageResponse::new(String::from("cats"), vec![]);
    assert_eq!(found(&images), Reply::Text(String::from("No image found")));
    assert_eq!(more(Some(&images)), Reply::Text(String::from("No image found")));
}

#[test]
fn more_without_kept_results_asks_to_fetch_first() {
    assert_eq!(more(None), Reply::Text(String::from("You have to fetch images first")));
}

#[test]
fn more_shows_one_of_the_kept_images() {
    let images = ImageResponse::new(String::from("cats"), vec![picture("only")]);
    assert_eq!(more(Some(&images)), Reply::Photo(String::from("https://example.com/only.png")));
}
