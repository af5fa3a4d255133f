//! URIs.

use url::Url;
use vstd::prelude::*;
use vstd::std_specs::cmp::PartialEqSpec;

verus! {

/// What a URI is: its serialization, and the listing of its components that
/// goes to diagnostics.
pub struct UriView {
    pub text: Seq<char>,
    pub listing: Seq<char>,
}

/// An absolute URI, normalised.
#[derive(Debug)]
pub struct Uri {
    text: String,
    listing: String,
}

impl View for Uri {
    type V = UriView;

    closed spec fn view(&self) -> UriView {
        UriView { text: self.text@, listing: self.listing@ }
    }
}

impl DeepView for Uri {
    type V = UriView;

    open spec fn deep_view(&self) -> UriView {
        self.view()
    }
}

impl Clone for Uri {
    fn clone(&self) -> (r: Self)
        ensures
            r@ == self@,
    {
        Uri { text: self.text.clone(), listing: self.listing.clone() }
    }
}

/// URIs compare like their serializations.
impl PartialEq for Uri {
    fn eq(&self, other: &Self) -> (r: bool) {
        self.text == other.text
    }
}

impl vstd::std_specs::cmp::PartialEqSpecImpl for Uri {
    open spec fn obeys_eq_spec() -> bool {
        true
    }

    open spec fn eq_spec(&self, other: &Self) -> bool {
        self@.text == other@.text
    }
}

impl Eq for Uri {

}

impl Uri {
    /// The serialization.
    pub fn as_str(&self) -> (r: &str)
        ensures
            r@ == self@.text,
    {
        self.text.as_str()
    }

    /// The components, as diagnostics list them.
    pub fn listing(&self) -> (r: &str)
        ensures
            r@ == self@.listing,
    {
        self.listing.as_str()
    }
}

/// A URI is seen by contracts with its fields as they are.
proof fn law_view_keeps_uri(uri: Uri)
    ensures
        uri@.text == uri.text@,
        uri@.listing == uri.listing@,
        uri.deep_view() == uri@,
{
}

/// URIs are equal exactly where their serializations are.
pub proof fn law_equal_uris(a: Uri, b: Uri)
    ensures
        a.eq_spec(&b) <==> a@.text == b@.text,
        Uri::obeys_eq_spec(),
{
}

/// What `Url::parse` makes of a text: the URI, or the text of the error.
pub uninterp spec fn url_parse(input: Seq<char>) -> Result<UriView, Seq<char>>;

/// The texts of the errors that parsing a URI ends in.
pub open spec fn is_parse_error_text(s: Seq<char>) -> bool {
    ||| s == "empty host"@
    ||| s == "invalid international domain name"@
    ||| s == "invalid port number"@
    ||| s == "invalid IPv4 address"@
    ||| s == "invalid IPv6 address"@
    ||| s == "invalid domain character"@
    ||| s == "relative URL without a base"@
    ||| s == "relative URL with a cannot-be-a-base base"@
    ||| s == "a cannot-be-a-base URL doesn’t have a host to set"@
    ||| s == "URLs more than 4 GB are not supported"@
}

/// Calls `Url::parse`, and takes of the URL its serialization (`Display`) and
/// its listing (`Debug`), of the error its text (`Display`). The contract names
/// the outcome; of the error it says that its text is one of those that
/// `url::ParseError` has, none of which holds any of the input.
#[verifier::external_body]
pub(crate) fn parse_url(input: &str) -> (r: Result<Uri, String>)
    ensures
        match r {
            Ok(uri) => url_parse(input@) == Ok::<UriView, Seq<char>>(uri@),
            Err(err) => {
                &&& url_parse(input@) == Err::<UriView, Seq<char>>(err@)
                &&& is_parse_error_text(err@)
            },
        },
{
    match Url::parse(input) {
        Ok(url) => Ok(Uri { text: url.to_string(), listing: format!("{url:?}") }),
        Err(err) => Err(err.to_string()),
    }
}

} // verus!
