//! URLs as the `url` crate parses them, carried as plain text.

use vstd::prelude::*;
use crate::text::{utf8_len, starts_with};

verus! {

#[verifier::external_type_specification]
#[verifier::external_body]
pub struct ExUrl(url::Url);

/// What `url::Url::parse` makes of `input`: the serialization, the scheme and
/// the host of the URL, or the text of the parse error.
pub uninterp spec fn url_parse_result(input: Seq<char>) -> Result<
    (Seq<char>, Seq<char>, Option<Seq<char>>),
    Seq<char>,
>;

/// What `url::Url::set_username` makes of the URL serialized as `href`: the new
/// serialization, or `None` when the URL takes no username.
pub uninterp spec fn url_username_result(href: Seq<char>, username: Seq<char>) -> Option<
    Seq<char>,
>;

/// What `url::Url::set_password` (with `Some(password)`) makes of the URL
/// serialized as `href`: the new serialization, or `None` when the URL takes
/// no password.
pub uninterp spec fn url_password_result(href: Seq<char>, password: Seq<char>) -> Option<
    Seq<char>,
>;

/// A credential setter's result is sure to stay within the `u32` offsets that
/// `url` keeps (its setters unwrap `to_u32` of the new length in bytes and
/// panic past it): the new serialization holds at most the old one's bytes,
/// the text percent-encoded (each byte becomes at most three) and two
/// separators.
pub open spec fn setter_fits(href: Seq<char>, text: Seq<char>) -> bool {
    utf8_len(href) + 3 * utf8_len(text) + 2 <= u32::MAX
}

/// A parsed URL: its serialization, scheme and host, beside the parsed value.
pub struct ParsedUrl {
    href: String,
    scheme: String,
    host: Option<String>,
    url: url::Url,
}

impl View for ParsedUrl {
    /// Serialization, scheme and host.
    type V = (Seq<char>, Seq<char>, Option<Seq<char>>);

    closed spec fn view(&self) -> (Seq<char>, Seq<char>, Option<Seq<char>>) {
        (
            self.href@,
            self.scheme@,
            match self.host {
                Some(h) => Some(h@),
                None => None,
            },
        )
    }
}

/// `url::Url::parse`. The contract claims that the parts handed back are
/// those that the crate's parser gives for `input` (named
/// `url_parse_result`), and two facts of its source (url 2.5.8): the
/// serialization starts with the scheme and a `:` (`scheme()` is the slice
/// before `scheme_end`, where the parser puts the `:`), and a text that
/// starts with `http:` has the scheme `http` (`parse_scheme` keeps the
/// lowercase letters before the first `:`). What the parser accepts is not
/// stated.
#[verifier::external_body]
pub(crate) fn parse_url(input: &str) -> (r: Result<ParsedUrl, String>)
    ensures
        match (r, url_parse_result(input@)) {
            (Ok(u), Ok(m)) => u@ == m,
            (Err(e), Err(m)) => e@ == m,
            _ => false,
        },
        r matches Ok(u) ==> starts_with(u@.0, u@.1 + ":"@),
        starts_with(input@, "http:"@) && r is Ok ==> r->Ok_0@.1 == "http"@,
{
    match url::Url::parse(input) {
        Ok(url) => Ok(ParsedUrl {
            href: url.as_str().to_string(),
            scheme: url.scheme().to_string(),
            host: url.host_str().map(str::to_string),
            url,
        }),
        Err(e) => Err(e.to_string()),
    }
}

/// `url::Url::set_username`. Claimed: the new serialization is the named
/// `url_username_result`; on failure the URL is unchanged; scheme and host
/// are never changed, and the serialization still starts with the scheme and
/// its `:` (the crate's source rewrites only what follows `scheme://`). The
/// `requires` keeps the new length within the `u32` offsets that the crate
/// unwraps.
#[verifier::external_body]
pub(crate) fn set_url_username(u: &mut ParsedUrl, username: &str) -> (ok: bool)
    requires
        setter_fits(old(u)@.0, username@),
    ensures
        match url_username_result(old(u)@.0, username@) {
            Some(h) => ok && final(u)@ == (h, old(u)@.1, old(u)@.2),
            None => !ok && final(u)@ == old(u)@,
        },
        starts_with(old(u)@.0, old(u)@.1 + ":"@) ==> starts_with(final(u)@.0, final(u)@.1 + ":"@),
{
    let ok = u.url.set_username(username).is_ok();
    u.href = u.url.as_str().to_string();
    ok
}

/// `url::Url::set_password` with `Some(password)`. Claimed as for
/// `set_url_username`, with the name `url_password_result`.
#[verifier::external_body]
pub(crate) fn set_url_password(u: &mut ParsedUrl, password: &str) -> (ok: bool)
    requires
        setter_fits(old(u)@.0, password@),
    ensures
        match url_password_result(old(u)@.0, password@) {
            Some(h) => ok && final(u)@ == (h, old(u)@.1, old(u)@.2),
            None => !ok && final(u)@ == old(u)@,
        },
        starts_with(old(u)@.0, old(u)@.1 + ":"@) ==> starts_with(final(u)@.0, final(u)@.1 + ":"@),
{
    let ok = u.url.set_password(Some(password)).is_ok();
    u.href = u.url.as_str().to_string();
    ok
}

impl ParsedUrl {
    /// The serialization of the URL.
    pub fn href(&self) -> (r: &str)
        ensures
            r@ == self@.0,
    {
        self.href.as_str()
    }

    /// The scheme of the URL.
    pub fn scheme(&self) -> (r: &str)
        ensures
            r@ == self@.1,
    {
        self.scheme.as_str()
    }

    /// The host of the URL, if it has one.
    pub fn host(&self) -> (r: Option<&str>)
        ensures
            match (r, self@.2) {
                (Some(a), Some(b)) => a@ == b,
                (None, None) => true,
                _ => false,
            },
    {
        match &self.host {
            Some(h) => Some(h.as_str()),
            None => None,
        }
    }
}

} // verus!
