//! The image search: its results, and the pure parts of its client.
//!
//! A search needs a request token, which the search engine hides in the page
//! that it serves for the query. The client finds the token in the page and
//! names the two requests to send; sending them is the caller's part.

use rand::seq::SliceRandom;
use vstd::prelude::*;
use vstd::string::*;

use crate::keys::{plain_key, plain_key_spec, CacheIdentifier};

verus! {

/// The address of the search engine.
pub const BASE_URI: &'static str = "https://duckduckgo.com";

/// The pattern of a request token in a page: `vqd=`, then digits and dashes.
pub const TOKEN_PATTERN: &'static str = r"vqd=([\d-]+)";

/// An image, as mathematical values.
pub struct ImageView {
    pub width: int,
    pub height: int,
    pub url: Seq<char>,
    pub source: Seq<char>,
    pub title: Seq<char>,
    pub image: Seq<char>,
}

/// One image that a search found.
#[derive(Clone, Debug, PartialEq, Eq)]
pub struct Image {
    width: i32,
    height: i32,
    /// URL to the page
    url: String,
    source: String,
    title: String,
    /// URL to the actual image
    image: String,
}

impl View for Image {
    type V = ImageView;

    closed spec fn view(&self) -> ImageView {
        ImageView {
            width: self.width as int,
            height: self.height as int,
            url: self.url@,
            source: self.source@,
            title: self.title@,
            image: self.image@,
        }
    }
}

/// The results of a search, as mathematical values.
pub struct ImageResponseView {
    pub query: Seq<char>,
    pub results: Seq<ImageView>,
}

/// What a search for `query` found.
#[derive(Clone, Debug, PartialEq, Eq)]
pub struct ImageResponse {
    query: String,
    results: Vec<Image>,
}

impl View for ImageResponse {
    type V = ImageResponseView;

    closed spec fn view(&self) -> ImageResponseView {
        ImageResponseView {
            query: self.query@,
            results: Seq::new(self.results@.len(), |i: int| self.results@[i]@),
        }
    }
}

/// Why a search failed.
#[derive(Clone, Copy, Debug, PartialEq, Eq, Structural)]
pub enum DuckDuckGoError {
    /// The page for the query held no request token.
    TokenNotFound,
    /// A request failed.
    ServerError,
}

impl DuckDuckGoError {
    /// The error's text.
    pub fn message(&self) -> (text: &'static str)
        ensures
            text@ == match self {
                DuckDuckGoError::TokenNotFound => "DDG API token not found in response"@,
                DuckDuckGoError::ServerError => "Unexpected DDG server error"@,
            },
    {
        match self {
            DuckDuckGoError::TokenNotFound => "DDG API token not found in response",
            DuckDuckGoError::ServerError => "Unexpected DDG server error",
        }
    }
}

/// `rand::seq::SliceRandom::choose` with the thread's generator. Trusted: it
/// gives no item of an empty list, and else some item of the list.
#[verifier::external_body]
fn pick_random<T>(items: &Vec<T>) -> (picked: Option<&T>)
    ensures
        picked is None <==> items@.len() == 0,
        picked matches Some(item) ==> exists|i: int| 0 <= i < items@.len() && items@[i] == *item,
{
    items.as_slice().choose(&mut rand::thread_rng())
}

impl Image {
    /// An image of these values.
    pub fn new(
        width: i32,
        height: i32,
        url: String,
        source: String,
        title: String,
        image: String,
    ) -> (made: Image)
        ensures
            made@ == (ImageView {
                width: width as int,
                height: height as int,
                url: url@,
                source: source@,
                title: title@,
                image: image@,
            }),
    {
        Image { width, height, url, source, title, image }
    }

    /// The address of the image itself.
    pub fn image_url(&self) -> (address: &str)
        ensures
            address@ == self@.image,
    {
        self.image.as_str()
    }

    /// The address of the page that shows the image.
    pub fn url(&self) -> (address: &str)
        ensures
            address@ == self@.url,
    {
        self.url.as_str()
    }

    /// Where the image comes from.
    pub fn source(&self) -> (source: &str)
        ensures
            source@ == self@.source,
    {
        self.source.as_str()
    }

    /// The image's title.
    pub fn title(&self) -> (title: &str)
        ensures
            title@ == self@.title,
    {
        self.title.as_str()
    }

    /// The image's width.
    pub fn width(&self) -> (width: i32)
        ensures
            width == self@.width,
    {
        self.width
    }

    /// The image's height.
    pub fn height(&self) -> (height: i32)
        ensures
            height == self@.height,
    {
        self.height
    }
}

impl ImageResponse {
    /// The results of a search for `query`.
    pub fn new(query: String, results: Vec<Image>) -> (made: ImageResponse)
        ensures
            made@.query == query@,
            made@.results == Seq::new(results@.len(), |i: int| results@[i]@),
    {
        ImageResponse { query, results }
    }

    /// The query that was searched for.
    pub fn query(&self) -> (query: &str)
        ensures
            query@ == self@.query,
    {
        self.query.as_str()
    }

    /// The images that were found.
    pub fn results(&self) -> (results: &Vec<Image>)
        ensures
            self@.results == Seq::new(results@.len(), |i: int| results@[i]@),
    {
        &self.results
    }

    /// One of the images, picked at random; none where the search found
    /// none.
    pub fn random(&self) -> (picked: Option<&Image>)
        ensures
            picked is None <==> self@.results.len() == 0,
            picked matches Some(image) ==> self@.results.contains(image@),
    {
        let picked = pick_random(&self.results);
        proof {
            if let Some(image) = picked {
                let i = choose|i: int| 0 <= i < self.results@.len() && self.results@[i] == *image;
                assert(self@.results[i] == image@);
            }
        }
        picked
    }
}

impl CacheIdentifier for ImageResponse {
    open spec fn type_id() -> Seq<char> {
        "dinkelberg::ddg::ImageResponse"@
    }

    fn cache_key<T: std::fmt::Display>(id: T) -> (key: String) {
        let text = id.to_string();
        plain_key("dinkelberg::ddg::ImageResponse", text.as_str())
    }
}

/// `regex::Error`, why a pattern was rejected. Opaque.
#[verifier::external_type_specification]
#[verifier::external_body]
pub struct ExRegexError(regex::Error);

/// What the `regex` crate finds for a pattern in a text: `None` where it
/// rejects the pattern, and else the text of the leftmost match, if there is
/// a match.
pub uninterp spec fn leftmost_match(pattern: Seq<char>, text: Seq<char>) -> Option<
    Option<Seq<char>>,
>;

/// `regex::Regex::new` on the pattern, then `Regex::captures` on the text,
/// of which it takes the whole match. Trusted: the result is a function of
/// the pattern and the text.
#[verifier::external_body]
fn first_match(pattern: &str, text: &str) -> (found: Result<Option<String>, regex::Error>)
    ensures
        leftmost_match(pattern@, text@) == match found {
            Ok(Some(matched)) => Some(Some(matched@)),
            Ok(None) => Some(None::<Seq<char>>),
            Err(_) => None::<Option<Seq<char>>>,
        },
{
    let pattern = regex::Regex::new(pattern)?;
    Ok(pattern.captures(text).and_then(|found| found.get(0)).map(|whole| whole.as_str().to_owned()))
}

/// The part of a text after its last `mark`: the whole text where it holds
/// none.
pub open spec fn after_last(text: Seq<char>, mark: char) -> Seq<char>
    decreases text.len(),
{
    if text.len() == 0 {
        text
    } else if text.last() == mark {
        Seq::empty()
    } else {
        after_last(text.drop_last(), mark).push(text.last())
    }
}

/// The part after the last mark is the text from a position on, once no mark
/// stands from there on and one stands just before, or the text starts there.
proof fn lemma_after_last_is_tail(text: Seq<char>, mark: char, start: int)
    requires
        0 <= start <= text.len(),
        forall|j: int| start <= j < text.len() ==> text[j] != mark,
        start == 0 || text[start - 1] == mark,
    ensures
        after_last(text, mark) == text.subrange(start, text.len() as int),
    decreases text.len(),
{
    if text.len() == 0 {
        assert(text.subrange(start, text.len() as int) =~= text);
    } else if start == text.len() {
        assert(text.last() == mark);
        assert(text.subrange(start, text.len() as int) =~= Seq::<char>::empty());
    } else {
        assert(text.last() != mark);
        let front = text.drop_last();
        lemma_after_last_is_tail(front, mark, start);
        assert(front.subrange(start, front.len() as int).push(text.last()) =~= text.subrange(
            start,
            text.len() as int,
        ));
    }
}

/// The token in a match of the token pattern: what follows the last `=`.
pub fn token_of_match(matched: &str) -> (token: String)
    ensures
        token@ == after_last(matched@, '='),
{
    let length: usize = matched.unicode_len();
    let mut start: usize = length;
    while start > 0 && matched.get_char(start - 1) != '='
        invariant
            length == matched@.len(),
            start <= length,
            forall|j: int| start <= j < length ==> matched@[j] != '=',
        decreases start,
    {
        start = start - 1;
    }
    proof {
        lemma_after_last_is_tail(matched@, '=', start as int);
    }
    String::from_str(matched.substring_char(start, length))
}

/// The request token in a page, if the page holds one.
pub open spec fn token_in(page: Seq<char>) -> Option<Seq<char>> {
    match leftmost_match(TOKEN_PATTERN@, page) {
        Some(Some(matched)) => Some(after_last(matched, '=')),
        _ => None,
    }
}

/// A request to send: the address, and the query parameters in order.
#[derive(Debug, PartialEq, Eq)]
pub struct HttpGet {
    pub url: String,
    pub params: Vec<(String, String)>,
}

/// A parameter of a request.
fn param(name: &str, value: &str) -> (pair: (String, String))
    ensures
        pair.0@ == name@,
        pair.1@ == value@,
{
    (String::from_str(name), String::from_str(value))
}

/// The client of the image search: it holds the request token, once it has
/// one.
#[derive(Debug)]
pub struct Client {
    token: Option<String>,
}

impl Client {
    /// The request token, if the client has one.
    pub closed spec fn token_spec(&self) -> Option<Seq<char>> {
        match self.token {
            Some(token) => Some(token@),
            None => None,
        }
    }

    /// A client without a token.
    pub fn new() -> (client: Client)
        ensures
            client.token_spec() is None,
    {
        Client { token: None }
    }

    /// The request token, if the client has one.
    pub fn token(&self) -> (token: Option<&str>)
        ensures
            match token {
                Some(text) => self.token_spec() == Some(text@),
                None => self.token_spec() is None,
            },
    {
        match &self.token {
            Some(token) => Some(token.as_str()),
            None => None,
        }
    }

    /// Looks through a page of the search engine for the request token.
    pub fn find_token(haystack: &str) -> (token: Option<String>)
        ensures
            match token {
                Some(text) => token_in(haystack@) == Some(text@),
                None => token_in(haystack@) is None,
            },
    {
        match first_match(TOKEN_PATTERN, haystack) {
            Ok(Some(matched)) => Some(token_of_match(matched.as_str())),
            _ => None,
        }
    }

    /// The request for the page that holds the token for `query`.
    pub fn token_request(query: &str) -> (request: HttpGet)
        ensures
            request.url@ == BASE_URI@,
            request.params@.len() == 1,
            request.params@[0].0@ == "q"@,
            request.params@[0].1@ == query@,
    {
        let mut params: Vec<(String, String)> = Vec::new();
        params.push(param("q", query));
        HttpGet { url: String::from_str(BASE_URI), params }
    }

    /// Takes the page that answered the token request, or `None` if the
    /// request failed, and keeps the token that the page holds. Without a
    /// page the error is `ServerError`, without a token in it
    /// `TokenNotFound`; the client is then left as it was.
    pub fn acquire_token(&mut self, page: Option<&str>) -> (acquired: Result<(), DuckDuckGoError>)
        ensures
            match page {
                None => acquired == Err::<(), DuckDuckGoError>(DuckDuckGoError::ServerError)
                    && final(self).token_spec() == old(self).token_spec(),
                Some(text) => match token_in(text@) {
                    None => acquired == Err::<(), DuckDuckGoError>(
                        DuckDuckGoError::TokenNotFound,
                    ) && final(self).token_spec() == old(self).token_spec(),
                    Some(token) => acquired is Ok && final(self).token_spec() == Some(token),
                },
            },
    {
        let text = match page {
            Some(text) => text,
            None => {
                return Err(DuckDuckGoError::ServerError);
            },
        };
        match Client::find_token(text) {
            Some(token) => {
                self.token = Some(token);
                Ok(())
            },
            None => Err(DuckDuckGoError::TokenNotFound),
        }
    }

    /// The request for the images of `query`, with the client's token.
    pub fn images_request(&self, query: &str) -> (request: HttpGet)
        requires
            self.token_spec() is Some,
        ensures
            request.url@ == BASE_URI@ + "/i.js"@,
            request.params@.len() == 4,
            request.params@[0].0@ == "l"@ && request.params@[0].1@ == "us-en"@,
            request.params@[1].0@ == "o"@ && request.params@[1].1@ == "json"@,
            request.params@[2].0@ == "vqd"@ && Some(request.params@[2].1@) == self.token_spec(),
            request.params@[3].0@ == "q"@ && request.params@[3].1@ == query@,
    {
        let token = self.token.as_ref().unwrap().as_str();
        let mut params: Vec<(String, String)> = Vec::new();
        params.push(param("l", "us-en"));
        params.push(param("o", "json"));
        params.push(param("vqd", token));
        params.push(param("q", query));
        let mut url = String::from_str(BASE_URI);
        url.append("/i.js");
        HttpGet { url, params }
    }
}

/// A step of a search, as mathematical values.
pub enum SearchView {
    /// The cache is to be asked for the results of `query`.
    Lookup { query: Seq<char> },
    /// The page that holds the token for `query` is to be requested.
    FetchToken { query: Seq<char> },
    /// The images of `query` are to be requested, with this token.
    FetchImages { query: Seq<char>, token: Seq<char> },
    /// The results are to be written to the cache, under their own query.
    Remember { found: ImageResponseView },
    /// The search is over.
    Done(Result<ImageResponseView, DuckDuckGoError>),
}

impl SearchView {
    /// The step after the cache gave the results, or gave none: cached
    /// results end the search.
    pub open spec fn cached(self, kept: Option<ImageResponseView>) -> SearchView {
        match self {
            SearchView::Lookup { query } => match kept {
                Some(found) => SearchView::Done(Ok(found)),
                None => SearchView::FetchToken { query },
            },
            _ => self,
        }
    }

    /// The step after the page for the query came, or did not (`None`): the
    /// search goes on with the page's token, and fails without one.
    pub open spec fn paged(self, page: Option<Seq<char>>) -> SearchView {
        match self {
            SearchView::FetchToken { query } => match page {
                None => SearchView::Done(Err(DuckDuckGoError::ServerError)),
                Some(text) => match token_in(text) {
                    None => SearchView::Done(Err(DuckDuckGoError::TokenNotFound)),
                    Some(token) => SearchView::FetchImages { query, token },
                },
            },
            _ => self,
        }
    }

    /// The step after the images came, or did not (`None`).
    pub open spec fn answered(self, response: Option<ImageResponseView>) -> SearchView {
        match self {
            SearchView::FetchImages { .. } => match response {
                None => SearchView::Done(Err(DuckDuckGoError::ServerError)),
                Some(found) => SearchView::Remember { found },
            },
            _ => self,
        }
    }

    /// The step after the results went to the cache: they are the search's
    /// result, whether or not the cache kept them.
    pub open spec fn remembered(self) -> SearchView {
        match self {
            SearchView::Remember { found } => SearchView::Done(Ok(found)),
            _ => self,
        }
    }
}

/// A search that waits for what the cache holds.
#[derive(Debug)]
pub struct LookingUp {
    query: String,
}

/// A search that waits for the page with the token.
#[derive(Debug)]
pub struct FetchingToken {
    query: String,
}

/// A search that waits for the images.
#[derive(Debug)]
pub struct FetchingImages {
    token: String,
    query: String,
}

/// A search that waits for its results to be written to the cache.
#[derive(Debug)]
pub struct Remembering {
    found: ImageResponse,
}

/// A step of a search: the effect to perform next, or the result.
#[derive(Debug)]
pub enum Search {
    Lookup(LookingUp),
    FetchToken(FetchingToken),
    FetchImages(FetchingImages),
    Remember(Remembering),
    Done(Result<ImageResponse, DuckDuckGoError>),
}

impl LookingUp {
    /// The query that is searched for.
    pub closed spec fn held_query(&self) -> Seq<char> {
        self.query@
    }
}

impl View for LookingUp {
    type V = SearchView;

    open spec fn view(&self) -> SearchView {
        SearchView::Lookup { query: self.held_query() }
    }
}

impl FetchingToken {
    /// The query that is searched for.
    pub closed spec fn held_query(&self) -> Seq<char> {
        self.query@
    }
}

impl View for FetchingToken {
    type V = SearchView;

    open spec fn view(&self) -> SearchView {
        SearchView::FetchToken { query: self.held_query() }
    }
}

impl FetchingImages {
    /// The query that is searched for.
    pub closed spec fn held_query(&self) -> Seq<char> {
        self.query@
    }

    /// The request token.
    pub closed spec fn held_token(&self) -> Seq<char> {
        self.token@
    }
}

impl View for FetchingImages {
    type V = SearchView;

    open spec fn view(&self) -> SearchView {
        SearchView::FetchImages { query: self.held_query(), token: self.held_token() }
    }
}

impl Remembering {
    /// The results that were found.
    pub closed spec fn held_found(&self) -> ImageResponseView {
        self.found@
    }
}

impl View for Remembering {
    type V = SearchView;

    open spec fn view(&self) -> SearchView {
        SearchView::Remember { found: self.held_found() }
    }
}

impl View for Search {
    type V = SearchView;

    open spec fn view(&self) -> SearchView {
        match self {
            Search::Lookup(state) => state@,
            Search::FetchToken(state) => state@,
            Search::FetchImages(state) => state@,
            Search::Remember(state) => state@,
            Search::Done(Ok(found)) => SearchView::Done(Ok(found@)),
            Search::Done(Err(error)) => SearchView::Done(Err(*error)),
        }
    }
}

impl Client {
    /// Starts a search for the images of `query`: the cache is asked first.
    pub fn search_images(query: &str) -> (next: Search)
        ensures
            next@ == (SearchView::Lookup { query: query@ }),
    {
        Search::Lookup(LookingUp { query: String::from_str(query) })
    }
}

impl LookingUp {
    /// The query, which is the id of the results in the cache.
    pub fn query(&self) -> (query: &str)
        ensures
            query@ == self.held_query(),
    {
        self.query.as_str()
    }

    /// Takes the results that the cache holds for the query, or `None`.
    pub fn on_cached(self, kept: Option<ImageResponse>) -> (next: Search)
        ensures
            next@ == self@.cached(
                match kept {
                    Some(found) => Some(found@),
                    None => None,
                },
            ),
    {
        match kept {
            Some(found) => Search::Done(Ok(found)),
            None => Search::FetchToken(FetchingToken { query: self.query }),
        }
    }
}

impl FetchingToken {
    /// The request to send.
    pub fn request(&self) -> (request: HttpGet)
        ensures
            request.url@ == BASE_URI@,
            request.params@.len() == 1,
            request.params@[0].0@ == "q"@,
            request.params@[0].1@ == self.held_query(),
    {
        Client::token_request(self.query.as_str())
    }

    /// Takes the page that answered the request, or `None` if the request
    /// failed.
    pub fn on_page(self, page: Option<&str>) -> (next: Search)
        ensures
            next@ == self@.paged(
                match page {
                    Some(text) => Some(text@),
                    None => None,
                },
            ),
    {
        let text = match page {
            Some(text) => text,
            None => {
                return Search::Done(Err(DuckDuckGoError::ServerError));
            },
        };
        match Client::find_token(text) {
            Some(token) => Search::FetchImages(FetchingImages { token, query: self.query }),
            None => Search::Done(Err(DuckDuckGoError::TokenNotFound)),
        }
    }
}

impl FetchingImages {
    /// The request to send.
    pub fn request(&self) -> (request: HttpGet)
        ensures
            request.url@ == BASE_URI@ + "/i.js"@,
            request.params@.len() == 4,
            request.params@[0].0@ == "l"@ && request.params@[0].1@ == "us-en"@,
            request.params@[1].0@ == "o"@ && request.params@[1].1@ == "json"@,
            request.params@[2].0@ == "vqd"@ && request.params@[2].1@ == self.held_token(),
            request.params@[3].0@ == "q"@ && request.params@[3].1@ == self.held_query(),
    {
        let client = Client { token: Some(self.token.clone()) };
        client.images_request(self.query.as_str())
    }

    /// Takes the images that answered the request, or `None` if the request
    /// failed or its answer could not be read.
    pub fn on_response(self, response: Option<ImageResponse>) -> (next: Search)
        ensures
            next@ == self@.answered(
                match response {
                    Some(found) => Some(found@),
                    None => None,
                },
            ),
    {
        match response {
            Some(found) => Search::Remember(Remembering { found }),
            None => Search::Done(Err(DuckDuckGoError::ServerError)),
        }
    }
}

impl Remembering {
    /// The results to write to the cache, under the query that they name.
    pub fn found(&self) -> (found: &ImageResponse)
        ensures
            found@ == self.held_found(),
    {
        &self.found
    }

    /// Ends the search, once the results went to the cache.
    pub fn on_remembered(self) -> (next: Search)
        ensures
            next@ == self@.remembered(),
    {
        Search::Done(Ok(self.found))
    }
}

} // verus!
