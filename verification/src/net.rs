//! What an HTTP call to a provider carries: the URL, the bearer token and
//! the extra headers that are valid to send, and the host a base URL names.

use vstd::prelude::*;

verus! {

/// A header-name token character: an ASCII letter or digit, or one of
/// `` !#$%&'*+-.^_`|~ ``.
pub open spec fn header_name_char_ok(c: char) -> bool {
    ||| ('a' <= c && c <= 'z')
    ||| ('A' <= c && c <= 'Z')
    ||| ('0' <= c && c <= '9')
    ||| c == '!' || c == '#' || c == '$' || c == '%' || c == '&' || c == '\''
    ||| c == '*' || c == '+' || c == '-' || c == '.' || c == '^' || c == '_'
    ||| c == '`' || c == '|' || c == '~'
}

/// Whether `http::HeaderName::from_bytes` accepts the UTF-8 bytes of `name`:
/// one to 65535 token characters (upper case allowed; every other byte,
/// including each byte of a non-ASCII character, is refused).
pub open spec fn header_name_accepted(name: Seq<char>) -> bool {
    &&& 1 <= name.len() <= 65535
    &&& forall|i: int| 0 <= i < name.len() ==> header_name_char_ok(#[trigger] name[i])
}

/// `http::header::HeaderName::from_bytes(name.as_bytes()).is_ok()`.
#[verifier::external_body]
pub(crate) fn header_name_is_valid(name: &str) -> (r: bool)
    ensures
        r == header_name_accepted(name@),
{
    http::header::HeaderName::from_bytes(name.as_bytes()).is_ok()
}

/// A character `http::HeaderValue::from_str` lets through: a tab, or any
/// character from the space up except DEL (every byte of a multi-byte UTF-8
/// character is at least 0x80, which is allowed).
pub open spec fn header_value_char_ok(c: char) -> bool {
    c == '\t' || ((c as u32) >= 0x20 && (c as u32) != 0x7f)
}

/// Whether every character of `value` may appear in a header value.
pub open spec fn header_value_accepted(value: Seq<char>) -> bool {
    forall|i: int| 0 <= i < value.len() ==> header_value_char_ok(#[trigger] value[i])
}

/// `http::header::HeaderValue::from_str(value).is_ok()`: it fails exactly
/// when some byte is below 0x20 (other than a tab) or is 0x7f.
#[verifier::external_body]
pub(crate) fn header_value_is_valid(value: &str) -> (r: bool)
    ensures
        r == header_value_accepted(value@),
{
    http::header::HeaderValue::from_str(value).is_ok()
}

/// The host that `url::Url::parse` finds in `text`, when it parses and has a
/// host.
pub uninterp spec fn url_host(text: Seq<char>) -> Option<Seq<char>>;

/// `url::Url::parse(text)` followed by `host_str()`.
#[verifier::external_body]
pub(crate) fn parse_url_host(text: &str) -> (r: Option<String>)
    ensures
        r.deep_view() == url_host(text@),
{
    match url::Url::parse(text) {
        Ok(u) => u.host_str().map(|h| h.to_owned()),
        Err(_) => None,
    }
}

/// The headers of `headers` that are valid to send, in order.
pub open spec fn spec_valid_headers(headers: Seq<(Seq<char>, Seq<char>)>) -> Seq<(Seq<char>, Seq<char>)> {
    headers.filter_map(
        |h: (Seq<char>, Seq<char>)|
            if header_name_accepted(h.0) && header_value_accepted(h.1) {
                Some(h)
            } else {
                None
            },
    )
}

/// An HTTP call to a provider, as the transport should make it.
#[derive(Clone, Debug, PartialEq)]
pub struct HttpCall {
    pub url: String,
    /// Sent as `Authorization: Bearer <token>` when present.
    pub bearer_token: Option<String>,
    pub headers: Vec<(String, String)>,
}

pub struct SpecHttpCall {
    pub url: Seq<char>,
    pub bearer_token: Option<Seq<char>>,
    pub headers: Seq<(Seq<char>, Seq<char>)>,
}

impl DeepView for HttpCall {
    type V = SpecHttpCall;

    open spec fn deep_view(&self) -> SpecHttpCall {
        SpecHttpCall {
            url: self.url@,
            bearer_token: self.bearer_token.deep_view(),
            headers: self.headers.deep_view(),
        }
    }
}

/// The call to `url`: a bearer token when the API key is not empty, and the
/// extra headers whose name and value are valid (invalid ones are dropped).
pub open spec fn spec_http_call(
    url: Seq<char>,
    api_key: Seq<char>,
    extra_headers: Seq<(Seq<char>, Seq<char>)>,
) -> SpecHttpCall {
    SpecHttpCall {
        url: url,
        bearer_token: if api_key.len() == 0 {
            None
        } else {
            Some(api_key)
        },
        headers: spec_valid_headers(extra_headers),
    }
}

/// Plan a call to `url` with an optional API key and extra headers.
pub fn plan_http_call(url: String, api_key: &str, extra_headers: &Vec<(String, String)>) -> (r:
    HttpCall)
    ensures
        r.deep_view() == spec_http_call(url@, api_key@, extra_headers.deep_view()),
{
    let bearer_token = if api_key.is_empty() {
        None
    } else {
        Some(String::from_str(api_key))
    };
    let ghost sv = extra_headers.deep_view();
    let mut headers: Vec<(String, String)> = Vec::new();
    let mut i: usize = 0;
    while i < extra_headers.len()
        invariant
            i <= extra_headers@.len(),
            sv == extra_headers.deep_view(),
            headers.deep_view() =~= spec_valid_headers(sv.take(i as int)),
        decreases extra_headers@.len() - i,
    {
        assert(sv.take(i + 1).drop_last() =~= sv.take(i as int));
        assert(sv.take(i + 1).last() == extra_headers@[i as int].deep_view());
        let (name, value) = &extra_headers[i];
        if header_name_is_valid(name.as_str()) && header_value_is_valid(value.as_str()) {
            headers.push((name.clone(), value.clone()));
        }
        assert(headers.deep_view() =~= spec_valid_headers(sv.take(i + 1)));
        i = i + 1;
    }
    assert(sv.take(extra_headers@.len() as int) =~= sv);
    HttpCall { url, bearer_token, headers }
}

} // verus!
