//! Proxy settings: how they are checked, stored and turned into the proxy
//! that an HTTP client is given.

use vstd::prelude::*;
use crate::text::{trim, decimal, trim_str, decimal_string, owned, occurs_at, contains, utf8_len_of, starts_with};
use crate::urls::{
    url_parse_result, url_username_result, url_password_result, setter_fits, parse_url,
    set_url_username, set_url_password,
};

verus! {

/// Which proxy the HTTP clients use.
#[derive(Debug, Clone, Copy, PartialEq, Eq, Structural)]
pub enum ProxyMode {
    NoProxy,
    System,
    Custom,
}

impl Default for ProxyMode {
    fn default() -> (r: Self)
        ensures
            r == ProxyMode::NoProxy,
    {
        ProxyMode::NoProxy
    }
}

/// The protocol of a custom proxy.
#[derive(Debug, Clone, Copy, PartialEq, Eq, Structural)]
pub enum ProxyProtocol {
    Http,
    Socks5,
}

impl Default for ProxyProtocol {
    fn default() -> (r: Self)
        ensures
            r == ProxyProtocol::Http,
    {
        ProxyProtocol::Http
    }
}

/// The proxy settings a user enters.
#[derive(Debug)]
pub struct ProxySettings {
    pub mode: ProxyMode,
    pub protocol: ProxyProtocol,
    pub host: String,
    pub port: u16,
    pub username: String,
    pub password: String,
}

impl Clone for ProxySettings {
    fn clone(&self) -> (r: Self)
        ensures
            r == *self,
    {
        ProxySettings {
            mode: self.mode,
            protocol: self.protocol,
            host: self.host.clone(),
            port: self.port,
            username: self.username.clone(),
            password: self.password.clone(),
        }
    }
}

/// The settings every field of which is empty: no proxy, HTTP, port 0.
pub open spec fn is_default_settings(s: ProxySettings) -> bool {
    &&& s.mode == ProxyMode::NoProxy
    &&& s.protocol == ProxyProtocol::Http
    &&& s.host@ == Seq::<char>::empty()
    &&& s.port == 0
    &&& s.username@ == Seq::<char>::empty()
    &&& s.password@ == Seq::<char>::empty()
}

impl Default for ProxySettings {
    fn default() -> (r: Self)
        ensures
            is_default_settings(r),
    {
        ProxySettings {
            mode: ProxyMode::NoProxy,
            protocol: ProxyProtocol::Http,
            host: String::new(),
            port: 0,
            username: String::new(),
            password: String::new(),
        }
    }
}

/// The URL scheme of a custom proxy; with `remote_dns` a SOCKS5 proxy
/// resolves host names itself (`socks5h`).
pub open spec fn scheme_text(protocol: ProxyProtocol, remote_dns: bool) -> Seq<char> {
    match protocol {
        ProxyProtocol::Http => "http"@,
        ProxyProtocol::Socks5 => if remote_dns {
            "socks5h"@
        } else {
            "socks5"@
        },
    }
}

/// The address `scheme://host:port` that a custom proxy URL is parsed from.
pub open spec fn proxy_address(s: ProxySettings, remote_dns: bool) -> Seq<char> {
    scheme_text(s.protocol, remote_dns) + "://"@ + trim(s.host@) + ":"@ + decimal(s.port as nat)
}

/// The URL of the custom proxy that `s` describes, or the message that says
/// why there is none.
pub open spec fn custom_url_result(s: ProxySettings, remote_dns: bool) -> Result<
    Seq<char>,
    Seq<char>,
> {
    if trim(s.host@).len() == 0 || s.port == 0 {
        Err("Please enter a proxy host and port"@)
    } else {
        match url_parse_result(proxy_address(s, remote_dns)) {
            Err(e) => Err("Invalid proxy address: "@ + e),
            Ok(m) => if trim(s.username@).len() == 0 {
                Ok(m.0)
            } else {
                match url_username_result(m.0, trim(s.username@)) {
                    None => Err("Invalid proxy username"@),
                    Some(h) => match url_password_result(h, s.password@) {
                        None => Err("Invalid proxy password"@),
                        Some(h2) => Ok(h2),
                    },
                }
            },
        }
    }
}

/// The proxy URL, username and password stay within what the `url` crate's
/// credential setters take without overflowing its `u32` offsets.
pub open spec fn credentials_fit(s: ProxySettings, remote_dns: bool) -> bool {
    trim(s.host@).len() == 0 || s.port == 0 || match url_parse_result(
        proxy_address(s, remote_dns),
    ) {
        Err(_) => true,
        Ok(m) => trim(s.username@).len() == 0 || {
            &&& setter_fits(m.0, trim(s.username@))
            &&& match url_username_result(m.0, trim(s.username@)) {
                Some(h) => setter_fits(h, s.password@),
                None => true,
            }
        },
    }
}

/// `setter_fits` for these texts.
fn fits(href: &str, text: &str) -> (r: bool)
    ensures
        r == setter_fits(href@, text@),
{
    let h = utf8_len_of(href);
    let t = utf8_len_of(text);
    h + 3 * t + 2 <= 0xFFFF_FFFFu128
}

/// The scheme of a custom proxy.
fn scheme_str(protocol: ProxyProtocol, remote_dns: bool) -> (r: &'static str)
    ensures
        r@ == scheme_text(protocol, remote_dns),
{
    match protocol {
        ProxyProtocol::Http => "http",
        ProxyProtocol::Socks5 => if remote_dns {
            "socks5h"
        } else {
            "socks5"
        },
    }
}

impl ProxySettings {
    /// The address `scheme://host:port` of the custom proxy.
    pub fn proxy_address(&self, remote_dns: bool) -> (r: String)
        ensures
            r@ == proxy_address(*self, remote_dns),
    {
        let host = trim_str(self.host.as_str());
        let port = decimal_string(self.port as u64);
        let mut r = owned(scheme_str(self.protocol, remote_dns));
        r.append("://");
        r.append(host.as_str());
        r.append(":");
        r.append(port.as_str());
        r
    }

    /// The URL of the custom proxy, with the username and password set when a
    /// username is given; the error says what is wrong with the settings.
    pub fn custom_url(&self, remote_dns: bool) -> (r: Result<String, String>)
        requires
            credentials_fit(*self, remote_dns),
        ensures
            match (r, custom_url_result(*self, remote_dns)) {
                (Ok(a), Ok(b)) => a@ == b,
                (Err(a), Err(b)) => a@ == b,
                _ => false,
            },
            self.protocol == ProxyProtocol::Http && r is Ok ==> starts_with(r->Ok_0@, "http:"@),
    {
        let host = trim_str(self.host.as_str());
        if host.as_str().unicode_len() == 0 || self.port == 0 {
            return Err(owned("Please enter a proxy host and port"));
        }
        let address = self.proxy_address(remote_dns);
        proof {
            if self.protocol == ProxyProtocol::Http {
                reveal_strlit("http");
                reveal_strlit("://");
                reveal_strlit("http:");
                assert(address@.subrange(0, 5) =~= "http:"@);
            }
        }
        let mut parsed = match parse_url(address.as_str()) {
            Ok(u) => u,
            Err(e) => {
                let mut m = owned("Invalid proxy address: ");
                m.append(e.as_str());
                return Err(m);
            },
        };
        let ghost http = self.protocol == ProxyProtocol::Http;
        proof {
            reveal_strlit("http");
            reveal_strlit(":");
            reveal_strlit("http:");
            assert("http"@ + ":"@ =~= "http:"@);
        }
        let username = trim_str(self.username.as_str());
        if username.as_str().unicode_len() > 0 {
            if !set_url_username(&mut parsed, username.as_str()) {
                return Err(owned("Invalid proxy username"));
            }
            if !set_url_password(&mut parsed, self.password.as_str()) {
                return Err(owned("Invalid proxy password"));
            }
        }
        assert(http ==> starts_with(parsed@.0, "http:"@));
        Ok(owned(parsed.href()))
    }

    /// Whether the settings stay within what `custom_url` takes.
    pub fn credentials_fit(&self, remote_dns: bool) -> (r: bool)
        ensures
            r == credentials_fit(*self, remote_dns),
    {
        let host = trim_str(self.host.as_str());
        if host.as_str().unicode_len() == 0 || self.port == 0 {
            return true;
        }
        let address = self.proxy_address(remote_dns);
        let mut parsed = match parse_url(address.as_str()) {
            Ok(u) => u,
            Err(_) => return true,
        };
        let username = trim_str(self.username.as_str());
        let ulen = username.as_str().unicode_len();
        if ulen == 0 {
            return true;
        }
        if !fits(parsed.href(), username.as_str()) {
            return false;
        }
        if set_url_username(&mut parsed, username.as_str()) {
            fits(parsed.href(), self.password.as_str())
        } else {
            true
        }
    }

    /// `custom_url` where the settings stay within what it takes, `None` where
    /// they do not.
    pub fn try_custom_url(&self, remote_dns: bool) -> (r: Option<Result<String, String>>)
        ensures
            r is None <==> !credentials_fit(*self, remote_dns),
            r matches Some(x) ==> match (x, custom_url_result(*self, remote_dns)) {
                (Ok(a), Ok(b)) => a@ == b,
                (Err(a), Err(b)) => a@ == b,
                _ => false,
            },
    {
        if self.credentials_fit(remote_dns) {
            Some(self.custom_url(remote_dns))
        } else {
            None
        }
    }
}


/// Settings that may be stored: a custom proxy stays within what
/// `custom_url` takes with remote name resolution, the form that storing
/// checks.
pub open spec fn storable(s: ProxySettings) -> bool {
    s.mode == ProxyMode::Custom ==> credentials_fit(s, true)
}

/// Settings whose custom proxy, without remote name resolution, stays within
/// what `custom_url` takes: the form a client that resolves names itself is
/// given.
pub open spec fn agent_fits(s: ProxySettings) -> bool {
    s.mode == ProxyMode::Custom ==> credentials_fit(s, false)
}

/// The proxy settings in force, and whether a running test has locked them.
pub struct ProxyState {
    locked: bool,
    settings: ProxySettings,
}

/// What `set_proxy_settings` answers and stores, given the state before.
pub open spec fn set_outcome(
    locked: bool,
    before: ProxySettings,
    settings: ProxySettings,
) -> (Result<ProxySettings, Seq<char>>, ProxySettings) {
    if locked {
        (Err("Cannot change proxy settings while a test is running"@), before)
    } else if settings.mode == ProxyMode::Custom && custom_url_result(settings, true) is Err {
        (Err(custom_url_result(settings, true)->Err_0), before)
    } else {
        (Ok(settings), settings)
    }
}

/// The proxy that an HTTP client with remote name resolution is given.
pub enum ClientProxy {
    /// No proxy at all.
    Direct,
    /// The proxy that the system configures.
    System,
    /// The custom proxy at this URL.
    Custom(String),
    /// The custom settings are not usable, for this reason.
    Invalid(String),
}

/// The proxy that a client without remote name resolution is given.
pub enum AgentProxy {
    /// The client is left as it is.
    Unchanged,
    /// The first usable proxy that the environment names.
    FromEnvironment,
    /// The custom proxy at this URL.
    Custom(String),
    /// The custom settings are not usable, for this reason.
    Invalid(String),
}

impl ProxyState {
    #[verifier::type_invariant]
    spec fn inv(self) -> bool {
        &&& storable(self.settings)
        &&& self.settings.mode == ProxyMode::Custom ==> custom_url_result(self.settings, true) is Ok
    }

    /// The settings in force.
    pub closed spec fn settings(self) -> ProxySettings {
        self.settings
    }

    /// Whether a running test has locked the settings.
    pub closed spec fn locked(self) -> bool {
        self.locked
    }

    /// Unlocked, with the default settings.
    pub fn new() -> (r: Self)
        ensures
            !r.locked(),
            is_default_settings(r.settings()),
    {
        ProxyState { locked: false, settings: ProxySettings::default() }
    }

    /// Locks or unlocks the settings; the settings stay as they are.
    pub fn set_settings_locked(&mut self, locked: bool)
        ensures
            final(self).locked() == locked,
            final(self).settings() == old(self).settings(),
    {
        proof {
            use_type_invariant(&*self);
        }
        self.locked = locked;
    }

    /// A copy of the settings in force.
    pub fn current_settings(&self) -> (r: ProxySettings)
        ensures
            r == self.settings(),
    {
        self.settings.clone()
    }

    /// The settings in force (what the settings page shows).
    pub fn get_proxy_settings(&self) -> (r: ProxySettings)
        ensures
            r == self.settings(),
    {
        self.current_settings()
    }

    /// Replaces the settings, unless a test has locked them or a custom proxy
    /// is not usable; answers the settings stored or the reason for refusing.
    pub fn set_proxy_settings(&mut self, settings: ProxySettings) -> (r: Result<ProxySettings, String>)
        requires
            !old(self).locked() ==> storable(settings),
        ensures
            final(self).locked() == old(self).locked(),
            final(self).settings() == set_outcome(old(self).locked(), old(self).settings(), settings).1,
            match (r, set_outcome(old(self).locked(), old(self).settings(), settings).0) {
                (Ok(a), Ok(b)) => a == b,
                (Err(a), Err(b)) => a@ == b,
                _ => false,
            },
    {
        proof {
            use_type_invariant(&*self);
        }
        if self.locked {
            return Err(owned("Cannot change proxy settings while a test is running"));
        }
        if settings.mode == ProxyMode::Custom {
            if let Err(e) = settings.custom_url(true) {
                return Err(e);
            }
        }
        self.settings = settings.clone();
        Ok(settings)
    }

    /// `set_proxy_settings` where it may be called; `None`, and nothing
    /// changed, where the settings are unlocked and a custom proxy exceeds
    /// what `custom_url` takes.
    pub fn try_set_proxy_settings(&mut self, settings: ProxySettings) -> (r: Option<
        Result<ProxySettings, String>,
    >)
        ensures
            r is None <==> (!old(self).locked() && !storable(settings)),
            r is None ==> *final(self) == *old(self),
            r is Some ==> final(self).locked() == old(self).locked() && final(self).settings()
                == set_outcome(old(self).locked(), old(self).settings(), settings).1,
            r matches Some(x) ==> match (
                x,
                set_outcome(old(self).locked(), old(self).settings(), settings).0,
            ) {
                (Ok(a), Ok(b)) => a == b,
                (Err(a), Err(b)) => a@ == b,
                _ => false,
            },
    {
        if !self.locked && settings.mode == ProxyMode::Custom && !settings.credentials_fit(true) {
            return None;
        }
        Some(self.set_proxy_settings(settings))
    }

    /// The proxy for a client that resolves names through the proxy: none,
    /// the system's, or the custom one (`Invalid` when it is not usable, and
    /// the client then goes without a proxy). Custom settings in force were
    /// accepted by `set_proxy_settings`, so the answer is never `Invalid`.
    pub fn client_proxy(&self) -> (r: ClientProxy)
        ensures
            match self.settings().mode {
                ProxyMode::NoProxy => r is Direct,
                ProxyMode::System => r is System,
                ProxyMode::Custom => match (r, custom_url_result(self.settings(), true)) {
                    (ClientProxy::Custom(a), Ok(b)) => a@ == b,
                    _ => false,
                },
            },
            self.settings().mode == ProxyMode::Custom && self.settings().protocol
                == ProxyProtocol::Http ==> starts_with(
                custom_url_result(self.settings(), true)->Ok_0,
                "http:"@,
            ),
    {
        proof {
            use_type_invariant(self);
        }
        match self.settings.mode {
            ProxyMode::NoProxy => ClientProxy::Direct,
            ProxyMode::System => ClientProxy::System,
            ProxyMode::Custom => match self.settings.custom_url(true) {
                Ok(url) => ClientProxy::Custom(url),
                Err(e) => ClientProxy::Invalid(e),
            },
        }
    }

    /// The proxy for a client that resolves names itself: unchanged, the one
    /// the environment names, or the custom one (`Invalid` when it is not
    /// usable, and the client is then left as it is).
    pub fn agent_proxy(&self) -> (r: AgentProxy)
        requires
            agent_fits(self.settings()),
        ensures
            match self.settings().mode {
                ProxyMode::NoProxy => r is Unchanged,
                ProxyMode::System => r is FromEnvironment,
                ProxyMode::Custom => match (r, custom_url_result(self.settings(), false)) {
                    (AgentProxy::Custom(a), Ok(b)) => a@ == b,
                    (AgentProxy::Invalid(a), Err(b)) => a@ == b,
                    _ => false,
                },
            },
    {
        proof {
            use_type_invariant(self);
        }
        match self.settings.mode {
            ProxyMode::NoProxy => AgentProxy::Unchanged,
            ProxyMode::System => AgentProxy::FromEnvironment,
            ProxyMode::Custom => match self.settings.custom_url(false) {
                Ok(url) => AgentProxy::Custom(url),
                Err(e) => AgentProxy::Invalid(e),
            },
        }
    }
}

#[verifier::external_type_specification]
#[verifier::external_body]
pub struct ExReqwestProxy(reqwest::Proxy);

/// A proxy that `reqwest` built, beside the URL it was built from.
pub struct ReqwestProxy {
    url: String,
    proxy: reqwest::Proxy,
}

impl View for ReqwestProxy {
    /// The URL the proxy was built from.
    type V = Seq<char>;

    closed spec fn view(&self) -> Seq<char> {
        self.url@
    }
}

impl ReqwestProxy {
    /// The URL the proxy was built from.
    pub fn url(&self) -> (r: &str)
        ensures
            r@ == self@,
    {
        self.url.as_str()
    }

    /// The proxy itself, for a client builder.
    pub fn into_proxy(self) -> reqwest::Proxy {
        self.proxy
    }
}

/// What `reqwest::Proxy::all` answers for a URL that starts with `http:`:
/// acceptance, or the text of its error.
pub uninterp spec fn reqwest_http_proxy_result(url: Seq<char>) -> Result<(), Seq<char>>;

/// `reqwest::Proxy::all`. Claimed: a proxy handed back is the one built from
/// `url`, kept beside that text. For a URL that starts with `http:` the
/// crate's source (reqwest 0.11.27, `proxy.rs`) only parses: the URL, then
/// its host and port, so acceptance and the error's text are a function of
/// the URL, named `reqwest_http_proxy_result`. For any other URL nothing is
/// stated of acceptance: for a `socks5` or `socks5h` URL the crate resolves
/// the proxy's host through the system resolver, so the answer depends on
/// the network. Every refusal is a builder error wrapping its cause
/// (`error::builder`), which displays as `builder error: ` and the cause.
#[verifier::external_body]
pub(crate) fn reqwest_proxy(url: &str) -> (r: Result<ReqwestProxy, String>)
    ensures
        r matches Ok(p) ==> p@ == url@,
        r matches Err(e) ==> starts_with(e@, "builder error: "@),
        starts_with(url@, "http:"@) ==> match (r, reqwest_http_proxy_result(url@)) {
            (Ok(_), Ok(_)) => true,
            (Err(e), Err(m)) => e@ == m,
            _ => false,
        },
{
    match reqwest::Proxy::all(url) {
        Ok(proxy) => Ok(ReqwestProxy { url: url.to_string(), proxy }),
        Err(e) => Err(e.to_string()),
    }
}

/// How a client that resolves names through the proxy is set up.
pub enum ClientSetup {
    /// With no proxy at all.
    Direct,
    /// Left as it is, so that the system's proxy applies.
    System,
    /// Given this proxy.
    Use(ReqwestProxy),
    /// With no proxy at all, because `reqwest` refused the custom proxy, for
    /// this reason.
    FallBack(String),
}

/// The set-up for a custom proxy, from what `reqwest` answered for its URL:
/// the proxy built, or no proxy at all with the reason.
pub fn custom_client_setup(built: Result<ReqwestProxy, String>) -> (r: ClientSetup)
    ensures
        match built {
            Ok(p) => r matches ClientSetup::Use(q) && q@ == p@,
            Err(e) => r matches ClientSetup::FallBack(m) && m@ == e@,
        },
{
    match built {
        Ok(p) => ClientSetup::Use(p),
        Err(e) => ClientSetup::FallBack(e),
    }
}

impl ProxyState {
    /// The set-up for a client that resolves names through the proxy: no
    /// proxy, the system's, or the one `reqwest` builds from the custom URL
    /// (with remote name resolution), falling back to no proxy, with
    /// `reqwest`'s reason, when `reqwest` refuses it. For an HTTP proxy which
    /// of the two comes is `reqwest`'s answer for the URL; for a SOCKS5 proxy
    /// `reqwest` looks the proxy's host up on the network, so either may come.
    pub fn client_setup(&self) -> (r: ClientSetup)
        ensures
            match self.settings().mode {
                ProxyMode::NoProxy => r is Direct,
                ProxyMode::System => r is System,
                ProxyMode::Custom => match r {
                    ClientSetup::Use(p) => p@ == custom_url_result(self.settings(), true)->Ok_0,
                    ClientSetup::FallBack(m) => starts_with(m@, "builder error: "@),
                    _ => false,
                },
            },
            self.settings().mode == ProxyMode::Custom && self.settings().protocol
                == ProxyProtocol::Http ==> match (
                r,
                reqwest_http_proxy_result(custom_url_result(self.settings(), true)->Ok_0),
            ) {
                (ClientSetup::Use(_), Ok(_)) => true,
                (ClientSetup::FallBack(m), Err(e)) => m@ == e,
                _ => false,
            },
    {
        proof {
            use_type_invariant(self);
        }
        match self.client_proxy() {
            ClientProxy::Direct => ClientSetup::Direct,
            ClientProxy::System => ClientSetup::System,
            ClientProxy::Custom(url) => custom_client_setup(reqwest_proxy(url.as_str())),
            ClientProxy::Invalid(e) => ClientSetup::FallBack(e),
        }
    }
}

impl ProxyState {
    /// Whether a proxy is configured at all; a reachability check of no
    /// proxy answers `false` without a request.
    pub fn proxy_in_use(&self) -> (r: bool)
        ensures
            r == (self.settings().mode != ProxyMode::NoProxy),
    {
        self.settings.mode != ProxyMode::NoProxy
    }
}

/// Whether the status of the probe request through the proxy shows it
/// reachable: any success status (200..=299), 204 among them.
pub fn reachable_status(code: u16) -> (r: bool)
    ensures
        r == ((200 <= code && code <= 299) || code == 204),
{
    (code >= 200 && code <= 299) || code == 204
}

#[verifier::external_type_specification]
#[verifier::external_body]
pub struct ExUreqProxy(ureq::Proxy);

/// `s` without the `/` characters that end it.
pub open spec fn without_trailing_slashes(s: Seq<char>) -> Seq<char>
    decreases s.len(),
{
    if s.len() > 0 && s.last() == '/' {
        without_trailing_slashes(s.drop_last())
    } else {
        s
    }
}

/// `i` is the first position at which `p` occurs in `s`.
pub open spec fn first_occurrence_at(s: Seq<char>, p: Seq<char>, i: int) -> bool {
    occurs_at(s, p, i) && forall|j: int| 0 <= j < i ==> !occurs_at(s, p, j)
}

/// The proxy schemes that `ureq` knows.
pub open spec fn ureq_scheme(p: Seq<char>) -> bool {
    p == "http"@ || p == "socks4"@ || p == "socks4a"@ || p == "socks"@ || p == "socks5"@
}

/// The user information of a proxy text, the part before its last `@` if
/// there is one, holds a `:` between user and password.
pub open spec fn ureq_credentials_ok(r: Seq<char>) -> bool {
    forall|k: int|
        #![trigger r[k]]
        0 <= k < r.len() && r[k] == '@' && (forall|m: int| k < m < r.len() ==> r[m] != '@') ==> exists|
            c: int,
        | 0 <= c < k && r[c] == ':'
}

/// The texts that `ureq::Proxy::new` accepts: with the trailing `/` taken
/// off, a scheme before the first `://` (if any) that `ureq` knows, and user
/// information (if any) with a `:` in it. Host and port are never refused: a
/// port that does not parse gives way to the scheme's default.
pub open spec fn ureq_accepts(spec: Seq<char>) -> bool {
    let s = without_trailing_slashes(spec);
    if contains(s, "://"@) {
        forall|i: int|
            first_occurrence_at(s, "://"@, i) ==> ureq_scheme(s.subrange(0, i))
                && ureq_credentials_ok(s.subrange(i + 3, s.len() as int))
    } else {
        ureq_credentials_ok(s)
    }
}

/// A proxy that `ureq` built, beside the text it was built from.
pub struct UreqProxy {
    text: String,
    proxy: ureq::Proxy,
}

impl View for UreqProxy {
    /// The text the proxy was built from.
    type V = Seq<char>;

    closed spec fn view(&self) -> Seq<char> {
        self.text@
    }
}

impl UreqProxy {
    /// The text the proxy was built from.
    pub fn text(&self) -> (r: &str)
        ensures
            r@ == self@,
    {
        self.text.as_str()
    }

    /// The proxy itself, for an agent builder.
    pub fn into_proxy(self) -> ureq::Proxy {
        self.proxy
    }
}

/// `ureq::Proxy::new`. Claimed from its source (ureq 2.12.1, `proxy.rs`):
/// it accepts exactly the texts of `ureq_accepts`, never panics, and every
/// refusal is `ErrorKind::InvalidProxyUrl` with no URL or message attached,
/// which displays as `Malformed proxy`. The proxy handed back is the one
/// built from `spec`, kept beside that text.
#[verifier::external_body]
pub(crate) fn ureq_proxy(spec: &str) -> (r: Result<UreqProxy, String>)
    ensures
        r is Ok <==> ureq_accepts(spec@),
        r matches Ok(p) ==> p@ == spec@,
        r matches Err(e) ==> e@ == "Malformed proxy"@,
{
    match ureq::Proxy::new(spec) {
        Ok(proxy) => Ok(UreqProxy { text: spec.to_string(), proxy }),
        Err(e) => Err(e.to_string()),
    }
}

/// How a client that resolves names itself is set up.
pub enum AgentSetup {
    /// Left as it is.
    Unchanged,
    /// Given the first usable proxy that the environment names.
    FromEnvironment,
    /// Given this proxy.
    Use(UreqProxy),
    /// Left as it is, because the custom proxy is not usable, for this reason.
    Invalid(String),
}

impl ProxyState {
    /// The proxy set-up for a client that resolves names itself: none for no
    /// proxy, the environment's for the system proxy, and for a custom proxy
    /// the one that `ureq` builds from its URL (`Invalid` with the reason when
    /// there is no URL or `ureq` refuses it).
    pub fn agent_setup(&self) -> (r: AgentSetup)
        requires
            agent_fits(self.settings()),
        ensures
            match self.settings().mode {
                ProxyMode::NoProxy => r is Unchanged,
                ProxyMode::System => r is FromEnvironment,
                ProxyMode::Custom => match custom_url_result(self.settings(), false) {
                    Err(m) => r matches AgentSetup::Invalid(a) && a@ == m,
                    Ok(u) => if ureq_accepts(u) {
                        r matches AgentSetup::Use(p) && p@ == u
                    } else {
                        r matches AgentSetup::Invalid(a) && a@ == "Malformed proxy"@
                    },
                },
            },
    {
        match self.agent_proxy() {
            AgentProxy::Unchanged => AgentSetup::Unchanged,
            AgentProxy::FromEnvironment => AgentSetup::FromEnvironment,
            AgentProxy::Custom(url) => match ureq_proxy(url.as_str()) {
                Ok(p) => AgentSetup::Use(p),
                Err(e) => AgentSetup::Invalid(e),
            },
            AgentProxy::Invalid(e) => AgentSetup::Invalid(e),
        }
    }

    /// `agent_setup` where it may be called; `None` where a custom proxy,
    /// without remote name resolution, exceeds what `custom_url` takes.
    pub fn try_agent_setup(&self) -> (r: Option<AgentSetup>)
        ensures
            r is None <==> !agent_fits(self.settings()),
            r matches Some(a) ==> match self.settings().mode {
                ProxyMode::NoProxy => a is Unchanged,
                ProxyMode::System => a is FromEnvironment,
                ProxyMode::Custom => match custom_url_result(self.settings(), false) {
                    Err(m) => a matches AgentSetup::Invalid(x) && x@ == m,
                    Ok(u) => if ureq_accepts(u) {
                        a matches AgentSetup::Use(p) && p@ == u
                    } else {
                        a matches AgentSetup::Invalid(x) && x@ == "Malformed proxy"@
                    },
                },
            },
    {
        if self.settings.mode == ProxyMode::Custom && !self.settings.credentials_fit(false) {
            None
        } else {
            Some(self.agent_setup())
        }
    }
}

/// An environment variable's value names a proxy that `ureq` takes: it holds
/// more than white space, and `ureq` accepts it trimmed.
pub open spec fn usable_env_value(v: Option<String>) -> bool {
    match v {
        Some(s) => trim(s@).len() > 0 && ureq_accepts(trim(s@)),
        None => false,
    }
}

/// The proxy named by the first of `values` (the environment variables of
/// `env_proxy_keys`, in order, `None` where unset) that names a usable one,
/// with its position.
pub fn env_proxy(values: &Vec<Option<String>>) -> (r: Option<(usize, UreqProxy)>)
    ensures
        match r {
            Some((i, p)) => i < values@.len() && usable_env_value(values@[i as int]) && p@ == trim(
                values@[i as int]->Some_0@,
            ) && forall|j: int| 0 <= j < i ==> !usable_env_value(#[trigger] values@[j]),
            None => forall|j: int| 0 <= j < values@.len() ==> !usable_env_value(#[trigger] values@[j]),
        },
{
    let mut i: usize = 0;
    while i < values.len()
        invariant
            i <= values@.len(),
            forall|j: int| 0 <= j < i ==> !usable_env_value(#[trigger] values@[j]),
        decreases values@.len() - i,
    {
        if let Some(v) = &values[i] {
            if let Some(t) = env_proxy_value(v.as_str()) {
                if let Ok(p) = ureq_proxy(t.as_str()) {
                    return Some((i, p));
                }
            }
        }
        i = i + 1;
    }
    None
}

/// The environment variables that may name a proxy, in the order they are read.
pub fn env_proxy_keys() -> (r: Vec<&'static str>)
    ensures
        r@ == seq![
            "ALL_PROXY",
            "HTTPS_PROXY",
            "HTTP_PROXY",
            "all_proxy",
            "https_proxy",
            "http_proxy",
        ],
{
    let r = vec!["ALL_PROXY", "HTTPS_PROXY", "HTTP_PROXY", "all_proxy", "https_proxy", "http_proxy"];
    assert(r@ =~= seq!["ALL_PROXY", "HTTPS_PROXY", "HTTP_PROXY", "all_proxy", "https_proxy", "http_proxy"]);
    r
}

/// The proxy that an environment variable's value names: the value trimmed,
/// `None` when nothing but white space is left.
pub fn env_proxy_value(value: &str) -> (r: Option<String>)
    ensures
        trim(value@).len() == 0 ==> r is None,
        trim(value@).len() > 0 ==> (r matches Some(x) && x@ == trim(value@)),
{
    let t = trim_str(value);
    if t.as_str().unicode_len() == 0 {
        None
    } else {
        Some(t)
    }
}


/// A custom proxy URL exists only for settings with a host (other than white
/// space) and a port other than 0, and it is then the `url` crate's reading
/// of `scheme://host:port`, with the credentials set when a username is given.
pub proof fn custom_url_needs_host_and_port(s: ProxySettings, remote_dns: bool)
    ensures
        custom_url_result(s, remote_dns) is Ok ==> trim(s.host@).len() > 0 && s.port != 0
            && url_parse_result(proxy_address(s, remote_dns)) is Ok,
        trim(s.username@).len() == 0 && custom_url_result(s, remote_dns) is Ok
            ==> custom_url_result(s, remote_dns)->Ok_0 == url_parse_result(
            proxy_address(s, remote_dns),
        )->Ok_0.0,
{
}

/// While the settings are locked, a change is refused with the lock message
/// and the settings stay as they were.
pub proof fn locked_settings_refuse_change(before: ProxySettings, settings: ProxySettings)
    ensures
        set_outcome(true, before, settings) == (
            Err::<ProxySettings, Seq<char>>("Cannot change proxy settings while a test is running"@),
            before,
        ),
{
}

/// An accepted change stores exactly the settings given, and answers them;
/// a refused one stores nothing.
pub proof fn accepted_settings_are_stored(locked: bool, before: ProxySettings, settings: ProxySettings)
    ensures
        set_outcome(locked, before, settings).0 is Ok ==> set_outcome(locked, before, settings)
            == (Ok::<ProxySettings, Seq<char>>(settings), settings),
        set_outcome(locked, before, settings).0 is Err ==> set_outcome(locked, before, settings).1
            == before,
        !locked && settings.mode != ProxyMode::Custom ==> set_outcome(locked, before, settings).0
            is Ok,
{
}

/// Unlocked, a change is refused exactly when it names a custom proxy whose
/// URL (with remote name resolution) cannot be built, with the reason the
/// URL gives; every other change is accepted and stored as given.
pub proof fn usable_settings_are_accepted(locked: bool, before: ProxySettings, settings: ProxySettings)
    ensures
        set_outcome(locked, before, settings).0 is Err <==> (locked || (settings.mode == ProxyMode::Custom
            && custom_url_result(settings, true) is Err)),
        !locked && settings.mode == ProxyMode::Custom && custom_url_result(settings, true) is Ok
            ==> set_outcome(locked, before, settings) == (Ok::<ProxySettings, Seq<char>>(settings), settings),
        !locked && settings.mode == ProxyMode::Custom && custom_url_result(settings, true) is Err
            ==> set_outcome(locked, before, settings) == (
            Err::<ProxySettings, Seq<char>>(custom_url_result(settings, true)->Err_0),
            before,
        ),
{
}

/// With a host and a port, the custom proxy URL is the `url` crate's reading
/// of `scheme://host:port`; given a (trimmed) username, it is that reading
/// with the username and then the password set, and it is refused only when
/// the address does not parse or the crate refuses a credential.
pub proof fn custom_url_sets_the_credentials(s: ProxySettings, remote_dns: bool)
    requires
        trim(s.host@).len() > 0,
        s.port != 0,
    ensures
        match url_parse_result(proxy_address(s, remote_dns)) {
            Err(e) => custom_url_result(s, remote_dns) == Err::<Seq<char>, Seq<char>>(
                "Invalid proxy address: "@ + e,
            ),
            Ok(m) => {
            &&& trim(s.username@).len() == 0 ==> custom_url_result(s, remote_dns) == Ok::<
                Seq<char>,
                Seq<char>,
            >(m.0)
            &&& trim(s.username@).len() > 0 ==> match url_username_result(m.0, trim(s.username@)) {
                Some(h) => match url_password_result(h, s.password@) {
                    Some(h2) => custom_url_result(s, remote_dns) == Ok::<Seq<char>, Seq<char>>(h2),
                    None => custom_url_result(s, remote_dns) == Err::<Seq<char>, Seq<char>>(
                        "Invalid proxy password"@,
                    ),
                },
                None => custom_url_result(s, remote_dns) == Err::<Seq<char>, Seq<char>>(
                    "Invalid proxy username"@,
                ),
            }
            },
        },
        proxy_address(s, remote_dns) == match s.protocol {
            ProxyProtocol::Http => "http"@,
            ProxyProtocol::Socks5 => if remote_dns {
                "socks5h"@
            } else {
                "socks5"@
            },
        } + "://"@ + trim(s.host@) + ":"@ + decimal(s.port as nat),
{
}

/// An environment variable names a usable proxy exactly when it is set, holds
/// more than white space, and `ureq` accepts its value trimmed.
pub proof fn usable_env_values(v: Option<String>)
    ensures
        v is None ==> !usable_env_value(v),
        v matches Some(s) ==> (usable_env_value(v) <==> trim(s@).len() > 0 && ureq_accepts(trim(s@))),
{
}

} // verus!
