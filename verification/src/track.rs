//! Track requests and the validation of locators.

use crate::error::ValidationError;
use vstd::prelude::*;

verus! {

/// Whether a locator names a resource that the transport can fetch: one
/// under the http or the https scheme, that is one that begins with
/// `http://` or with `https://`.
pub open spec fn is_http_locator(uri: Seq<char>) -> bool {
    "http://"@.is_prefix_of(uri) || "https://"@.is_prefix_of(uri)
}

/// Whether `text` begins with `prefix`, character for character.
pub fn starts_with(text: &str, prefix: &str) -> (b: bool)
    ensures
        b == prefix@.is_prefix_of(text@),
{
    let n = prefix.unicode_len();
    if text.unicode_len() < n {
        return false;
    }
    let mut i: usize = 0;
    while i < n
        invariant
            i <= n,
            n == prefix@.len(),
            n <= text@.len(),
            forall|j: int| 0 <= j < i ==> text@[j] == prefix@[j],
        decreases n - i,
    {
        if text.get_char(i) != prefix.get_char(i) {
            return false;
        }
        i += 1;
    }
    true
}

/// Tests a locator for the http or the https scheme.
pub fn has_http_scheme(uri: &str) -> (b: bool)
    ensures
        b == is_http_locator(uri@),
{
    starts_with(uri, "http://") || starts_with(uri, "https://")
}

/// A request to play one track: a locator that passed validation.
#[derive(Debug)]
pub struct TrackRequest {
    uri: String,
}

impl View for TrackRequest {
    type V = Seq<char>;

    closed spec fn view(&self) -> Seq<char> {
        self.uri@
    }
}

impl Clone for TrackRequest {
    fn clone(&self) -> (r: TrackRequest)
        ensures
            r@ == self@,
    {
        proof {
            use_type_invariant(self);
        }
        TrackRequest { uri: self.uri.clone() }
    }
}

impl TrackRequest {
    /// Holds of every request: its locator is under the http or the https
    /// scheme.
    #[verifier::type_invariant]
    pub closed spec fn wf(self) -> bool {
        is_http_locator(self.uri@)
    }

    /// A request always carries an accepted locator.
    pub proof fn lemma_valid(self)
        requires
            self.wf(),
        ensures
            is_http_locator(self@),
    {
    }

    /// Accepts the locator exactly when it is under the http or the https
    /// scheme.
    pub fn new(uri: String) -> (r: Result<TrackRequest, ValidationError>)
        ensures
            is_http_locator(uri@) ==> r is Ok && r->Ok_0@ == uri@,
            !is_http_locator(uri@) ==> r == Err::<TrackRequest, ValidationError>(
                ValidationError::MalformedUri,
            ),
    {
        if has_http_scheme(uri.as_str()) {
            Ok(TrackRequest { uri })
        } else {
            Err(ValidationError::MalformedUri)
        }
    }

    /// The locator of the request.
    pub fn as_str(&self) -> (r: &str)
        ensures
            r@ == self@,
            is_http_locator(r@),
    {
        proof {
            use_type_invariant(self);
        }
        self.uri.as_str()
    }

    /// Gives the locator up.
    pub fn into_string(self) -> (r: String)
        ensures
            r@ == self@,
            is_http_locator(r@),
    {
        proof {
            use_type_invariant(&self);
        }
        self.uri
    }
}

} // verus!
