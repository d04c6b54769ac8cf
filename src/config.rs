//! The client's connection string: a URL whose scheme is `ws` or `wss`.

use vstd::prelude::*;
use vstd::string::StrSliceExecFns;

verus! {

/// The scheme of the URL that a text parses as, or none where it does not parse.
pub uninterp spec fn url_scheme(s: Seq<char>) -> Option<Seq<char>>;

/// Relies on url's `Url::parse` and `Url::scheme`: the scheme of the parsed
/// URL, which depends on the text alone.
#[verifier::external_body]
fn parsed_scheme(s: &str) -> (r: Option<String>)
    ensures
        match r {
            Some(t) => url_scheme(s@) == Some(t@),
            None => url_scheme(s@) is None,
        },
{
    url::Url::parse(s).ok().map(|u| u.scheme().to_owned())
}

/// Whether a scheme is one of the websocket schemes.
pub open spec fn ws_scheme(t: Seq<char>) -> bool {
    t =~= seq!['w', 's'] || t =~= seq!['w', 's', 's']
}

/// Whether `scheme` is `ws` or `wss`.
pub fn is_ws_scheme(scheme: &str) -> (r: bool)
    ensures
        r == ws_scheme(scheme@),
{
    let n = scheme.unicode_len();
    if n < 2 || n > 3 {
        return false;
    }
    if scheme.get_char(0) != 'w' || scheme.get_char(1) != 's' {
        return false;
    }
    if n == 2 {
        assert(scheme@ =~= seq!['w', 's']);
        true
    } else {
        let r = scheme.get_char(2) == 's';
        if r {
            assert(scheme@ =~= seq!['w', 's', 's']);
        }
        r
    }
}

/// Why a connection string was refused.
#[derive(Debug, Clone, Copy, PartialEq, Eq)]
pub enum UrlError {
    /// It is not a URL.
    Unparsable,
    /// Its scheme is neither `ws` nor `wss`.
    NotWebSocket,
}

/// A connection string that is a websocket URL.
#[derive(Debug, Clone, PartialEq, Eq)]
pub struct WsUrl {
    url: String,
}

impl View for WsUrl {
    type V = Seq<char>;

    closed spec fn view(&self) -> Seq<char> {
        self.url@
    }
}

impl WsUrl {
    /// Accepts `s` where it parses as a URL with scheme `ws` or `wss`.
    pub fn from_str(s: &str) -> (r: Result<WsUrl, UrlError>)
        ensures
            url_scheme(s@) is None <==> r == Err::<WsUrl, UrlError>(UrlError::Unparsable),
            (url_scheme(s@) matches Some(t) && !ws_scheme(t)) <==> r == Err::<WsUrl, UrlError>(
                UrlError::NotWebSocket,
            ),
            r matches Ok(u) ==> u@ == s@,
    {
        match parsed_scheme(s) {
            None => Err(UrlError::Unparsable),
            Some(scheme) => if is_ws_scheme(scheme.as_str()) {
                Ok(WsUrl { url: s.to_owned() })
            } else {
                Err(UrlError::NotWebSocket)
            },
        }
    }

    /// The URL as text.
    pub fn as_str(&self) -> (r: &str)
        ensures
            r@ == self@,
    {
        self.url.as_str()
    }
}

} // verus!
