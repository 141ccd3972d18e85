//! What the image commands answer.

use vstd::prelude::*;
use vstd::string::*;

use crate::ddg::{Image, ImageResponse, ImageView};

verus! {

/// An answer to a command.
#[derive(Debug, PartialEq, Eq)]
pub enum Reply {
    /// A text message.
    Text(String),
    /// The photo at this address.
    Photo(String),
}

/// An answer to a command, as mathematical values.
pub enum ReplyView {
    Text(Seq<char>),
    Photo(Seq<char>),
}

impl View for Reply {
    type V = ReplyView;

    open spec fn view(&self) -> ReplyView {
        match self {
            Reply::Text(text) => ReplyView::Text(text@),
            Reply::Photo(address) => ReplyView::Photo(address@),
        }
    }
}

/// The answer that shows an image, or says that there is none to show.
pub open spec fn show(picked: Option<ImageView>) -> ReplyView {
    match picked {
        Some(image) => ReplyView::Photo(image.image),
        None => ReplyView::Text("No image found"@),
    }
}

/// The answer to an image that was picked from the results of a search, or
/// to none.
pub fn image_reply(picked: Option<&Image>) -> (reply: Reply)
    ensures
        reply@ == show(
            match picked {
                Some(image) => Some(image@),
                None => None,
            },
        ),
{
    match picked {
        Some(image) => Reply::Photo(String::from_str(image.image_url())),
        None => Reply::Text(String::from_str("No image found")),
    }
}

/// The answer of the image command to a query that it cannot search for:
/// an empty query is answered at once, any other is searched for.
pub fn image(query: &str) -> (reply: Option<Reply>)
    ensures
        match reply {
            Some(answer) => query@.len() == 0 && answer@ == ReplyView::Text(
                "Please provide an image query"@,
            ),
            None => query@.len() > 0,
        },
{
    if query.is_empty() {
        Some(Reply::Text(String::from_str("Please provide an image query")))
    } else {
        None
    }
}

/// The answer to the results of a search: one of the images, picked at
/// random, or the word that none was found.
pub fn found(images: &ImageResponse) -> (reply: Reply)
    ensures
        images@.results.len() == 0 ==> reply@ == show(None),
        images@.results.len() > 0 ==> exists|i: int|
            0 <= i < images@.results.len() && reply@ == show(Some(#[trigger] images@.results[i])),
{
    let picked = images.random();
    proof {
        if let Some(image) = picked {
            let i = images@.results.index_of(image@);
            assert(images@.results[i] == image@);
        }
    }
    image_reply(picked)
}

/// The answer of the command that shows one more image of the last search
/// in this chat: the results as they were kept for the chat, or none.
pub fn more(kept: Option<&ImageResponse>) -> (reply: Reply)
    ensures
        match kept {
            None => reply@ == ReplyView::Text("You have to fetch images first"@),
            Some(images) => {
                &&& images@.results.len() == 0 ==> reply@ == show(None)
                &&& images@.results.len() > 0 ==> exists|i: int|
                    0 <= i < images@.results.len() && reply@ == show(
                        Some(#[trigger] images@.results[i]),
                    )
            },
        },
{
    match kept {
        Some(images) => found(images),
        None => Reply::Text(String::from_str("You have to fetch images first")),
    }
}

} // verus!
