//! Node URLs: the address of the node that an extrinsic is sent to.
//!
//! A text becomes a node URL by passing through the parser of the `url`
//! crate, and what is kept is the rendering of the parsed URL: the crate's own
//! serialization of it. Texts that the parser reads as one URL are therefore
//! kept, shown and matched as one text.

use vstd::prelude::*;

verus! {

/// The local development endpoint, which options use until a URL is set.
pub const LOCAL_NODE_URL: &'static str = "ws://localhost:9944";

/// `url::ParseError`, carried as an opaque value.
#[verifier::external_type_specification]
#[verifier::external_body]
pub struct ExParseError(url::ParseError);

/// The serialization of the URL that `url::Url::parse` reads from `text`, or
/// `None` where the parser rejects `text`.
///
/// The parser is the `url` crate's; nothing is proved about which texts it
/// accepts or how it renders them, only that both depend on the text alone.
pub uninterp spec fn url_rendering(text: Seq<char>) -> Option<Seq<char>>;

/// Runs `url::Url::parse` on `text` and hands out the serialization of the
/// URL, which is the `String` that the `url` crate converts a `Url` into.
///
/// Unverified: the contract only names the outcome. It is `Ok` exactly on the
/// texts that have a rendering, and then holds that rendering.
#[verifier::external_body]
fn render_url(text: &str) -> (r: Result<String, url::ParseError>)
    ensures
        r is Ok <==> url_rendering(text@) is Some,
        r matches Ok(rendering) ==> url_rendering(text@) == Some(rendering@),
{
    match url::Url::parse(text) {
        Ok(url) => Ok(String::from(url)),
        Err(e) => Err(e),
    }
}

/// Why a text was not taken as a node URL.
#[derive(Clone, Copy, Debug, PartialEq, Eq)]
pub enum UrlError {
    /// The text cannot be parsed as a URL.
    InvalidUrl,
}

/// The texts that a [`NodeUrl`] can hold: the local development endpoint and
/// every rendering of a text that the URL parser accepts.
pub open spec fn is_node_url(text: Seq<char>) -> bool {
    text == LOCAL_NODE_URL@ || exists|typed: Seq<char>| url_rendering(typed) == Some(text)
}

/// What [`NodeUrl::parse`] returns for `text`, as views: the rendering of
/// `text` where the parser accepts it.
pub open spec fn parse_node_url(text: Seq<char>) -> Result<Seq<char>, UrlError> {
    match url_rendering(text) {
        Some(rendering) => Ok(rendering),
        None => Err(UrlError::InvalidUrl),
    }
}

/// A URL of a node, validated and rendered when it is made.
#[derive(Debug)]
pub struct NodeUrl {
    text: String,
}

impl View for NodeUrl {
    type V = Seq<char>;

    /// The URL as text.
    closed spec fn view(&self) -> Seq<char> {
        self.text@
    }
}

impl NodeUrl {
    #[verifier::type_invariant]
    spec fn holds_a_url(self) -> bool {
        is_node_url(self.text@)
    }

    /// The local development endpoint, [`LOCAL_NODE_URL`], letter for letter.
    pub fn local() -> (r: Self)
        ensures
            r@ == LOCAL_NODE_URL@,
    {
        NodeUrl { text: LOCAL_NODE_URL.to_owned() }
    }

    /// Takes `text` as a node URL if the URL parser accepts it, and fails with
    /// [`UrlError::InvalidUrl`] if it does not. The URL holds the rendering of
    /// what was parsed, not `text` itself.
    pub fn parse(text: &str) -> (r: Result<Self, UrlError>)
        ensures
            match r {
                Ok(url) => parse_node_url(text@) == Ok::<Seq<char>, UrlError>(url@),
                Err(e) => parse_node_url(text@) == Err::<Seq<char>, UrlError>(e),
            },
    {
        match render_url(text) {
            Ok(rendering) => Ok(NodeUrl { text: rendering }),
            Err(_) => Err(UrlError::InvalidUrl),
        }
    }

    /// The URL as text.
    pub fn as_str(&self) -> (r: &str)
        ensures
            r@ == self@,
            is_node_url(r@),
    {
        proof {
            use_type_invariant(self);
        }
        self.text.as_str()
    }

    /// Whether this URL is, character for character, `text`.
    pub(crate) fn is_text(&self, text: &String) -> (r: bool)
        ensures
            r == (self@ == text@),
    {
        self.text == *text
    }
}

impl Clone for NodeUrl {
    fn clone(&self) -> (r: Self)
        ensures
            r@ == self@,
    {
        proof {
            use_type_invariant(self);
        }
        NodeUrl { text: self.text.clone() }
    }
}

} // verus!
