//! The rule of the network API: plain HTTP is refused before any request.
use vstd::prelude::*;
use crate::text::chars_of;

verus! {

/// Why a fetch failed.
pub enum NetworkError {
    /// The request failed; the HTTP client's message.
    Request(String),
    /// The URL uses plain HTTP.
    HttpNotAllowed,
}

impl NetworkError {
    /// The message of the error.
    pub fn message(&self) -> (r: String)
        ensures
            match self {
                NetworkError::Request(m) => r@ == m@,
                NetworkError::HttpNotAllowed => r@ == "HTTP is not allowed; use HTTPS"@,
            },
    {
        match self {
            NetworkError::Request(m) => m.clone(),
            NetworkError::HttpNotAllowed => "HTTP is not allowed; use HTTPS".to_string(),
        }
    }
}

/// The start of an HTTPS URL, in lower case.
pub open spec fn https_lower() -> Seq<char> {
    seq!['h', 't', 't', 'p', 's', ':', '/', '/']
}

/// The start of an HTTPS URL, in upper case.
pub open spec fn https_upper() -> Seq<char> {
    seq!['H', 'T', 'T', 'P', 'S', ':', '/', '/']
}

/// `url` starts with `https://`, the letters of the scheme in any case
/// (URL schemes are case-insensitive).
pub open spec fn is_https_url(url: Seq<char>) -> bool {
    url.len() >= 8 && forall|i: int|
        0 <= i < 8 ==> (#[trigger] url[i] == https_lower()[i] || url[i] == https_upper()[i])
}

/// The network API.
pub struct NetworkApi;

impl NetworkApi {
    /// Whether `url` may be fetched: only HTTPS is allowed, so every URL
    /// whose scheme is not `https` is refused with
    /// [`NetworkError::HttpNotAllowed`] before any request is made.
    pub fn check_url(url: &str) -> (r: Result<(), NetworkError>)
        ensures
            r is Ok <==> is_https_url(url@),
            r matches Err(e) ==> e is HttpNotAllowed,
    {
        let cs = chars_of(url);
        if cs.len() < 8 {
            return Err(NetworkError::HttpNotAllowed);
        }
        let lower: [char; 8] = ['h', 't', 't', 'p', 's', ':', '/', '/'];
        let upper: [char; 8] = ['H', 'T', 'T', 'P', 'S', ':', '/', '/'];
        assert(lower@ =~= https_lower());
        assert(upper@ =~= https_upper());
        let mut i: usize = 0;
        while i < 8
            invariant
                cs@ == url@,
                cs@.len() >= 8,
                lower@ == https_lower(),
                upper@ == https_upper(),
                i <= 8,
                forall|k: int| 0 <= k < i ==> (#[trigger] cs@[k] == https_lower()[k] || cs@[k] == https_upper()[k]),
            decreases 8 - i,
        {
            if cs[i] != lower[i] && cs[i] != upper[i] {
                assert(!(cs@[i as int] == https_lower()[i as int] || cs@[i as int] == https_upper()[i as int]));
                return Err(NetworkError::HttpNotAllowed);
            }
            i = i + 1;
        }
        Ok(())
    }
}

/// A URL that starts with `https://` or `HTTPS://` may be fetched; one that
/// starts with `http://` (or is shorter than `https://`) may not.
pub proof fn lemma_https_only(url: Seq<char>)
    ensures
        crate::text::is_prefix("https://"@, url) ==> is_https_url(url),
        crate::text::is_prefix("HTTPS://"@, url) ==> is_https_url(url),
        crate::text::is_prefix("http://"@, url) ==> !is_https_url(url),
        url.len() < 8 ==> !is_https_url(url),
{
    reveal_strlit("https://");
    reveal_strlit("HTTPS://");
    reveal_strlit("http://");
    if crate::text::is_prefix("https://"@, url) {
        assert forall|i: int| 0 <= i < 8 implies (#[trigger] url[i] == https_lower()[i] || url[i] == https_upper()[i]) by {
            assert(url.subrange(0, 8)[i] == "https://"@[i]);
        }
    }
    if crate::text::is_prefix("HTTPS://"@, url) {
        assert forall|i: int| 0 <= i < 8 implies (#[trigger] url[i] == https_lower()[i] || url[i] == https_upper()[i]) by {
            assert(url.subrange(0, 8)[i] == "HTTPS://"@[i]);
        }
    }
    if crate::text::is_prefix("http://"@, url) && url.len() >= 8 {
        assert(url.subrange(0, 7)[4] == "http://"@[4]);
        assert(url[4] == ':');
        assert(!(url[4] == https_lower()[4] || url[4] == https_upper()[4]));
    }
}

} // verus!
