//! DNS-server tests: the list of servers, the URL a domain is tested at,
//! the steps of a check through one server and how its result reads, and
//! the steps of a download test.

use vstd::prelude::*;
use crate::text::{
    contains, replace_absent_is_identity, lemma_trimmed_ends, is_space, occurs_at,
    owned, trim, trim_str, replace_all, replace_all_exec, strip_prefix, starts_with, starts_with_exec,
    chars_of, string_of, slice_range, decimal, decimal_string,
};
use crate::urls::{ParsedUrl, parse_url, url_parse_result};

verus! {

/// How the HTTP request of a test ended.
#[derive(Debug, Clone)]
pub enum HttpStatus {
    /// A status in 200..=299.
    Success,
    /// Status 403.
    Forbidden403,
    /// Another status.
    Other(u16),
    /// No status; why.
    Failed(String),
    /// No request made.
    NotTested,
}

/// The result of testing one DNS server.
#[derive(Debug, Clone)]
pub struct DnsTestResult {
    pub dns_server: String,
    pub status: bool,
    pub response_time: Option<u64>,
    pub error_message: Option<String>,
    pub session_id: u64,
    pub http_status: HttpStatus,
    pub test_url: Option<String>,
}

/// The DNS servers offered for testing, in order.
pub fn dns_servers() -> (r: Vec<&'static str>)
    ensures
        r@ == seq![
            "178.22.122.100",
            "185.51.200.2",
            "192.104.158.78",
            "194.104.158.48",
            "172.29.0.100",
            "172.29.2.100",
            "10.202.10.202",
            "10.202.10.102",
            "185.55.226.26",
            "185.55.225.25",
            "185.55.224.24",
            "10.202.10.10",
            "10.202.10.11",
            "37.27.41.228",
            "87.107.52.11",
            "87.107.52.13",
            "5.202.100.100",
            "5.202.100.101",
            "94.103.125.157",
            "94.103.125.158",
            "8.8.8.8",
            "8.8.4.4",
            "1.1.1.1",
            "1.0.0.1",
            "9.9.9.9",
            "149.112.112.112",
            "149.112.112.112",
        ],
{
    let r = vec![
        "178.22.122.100",
        "185.51.200.2",
        "192.104.158.78",
        "194.104.158.48",
        "172.29.0.100",
        "172.29.2.100",
        "10.202.10.202",
        "10.202.10.102",
        "185.55.226.26",
        "185.55.225.25",
        "185.55.224.24",
        "10.202.10.10",
        "10.202.10.11",
        "37.27.41.228",
        "87.107.52.11",
        "87.107.52.13",
        "5.202.100.100",
        "5.202.100.101",
        "94.103.125.157",
        "94.103.125.158",
        "8.8.8.8",
        "8.8.4.4",
        "1.1.1.1",
        "1.0.0.1",
        "9.9.9.9",
        "149.112.112.112",
        "149.112.112.112",
    ];
    assert(r@ =~= seq![
        "178.22.122.100",
        "185.51.200.2",
        "192.104.158.78",
        "194.104.158.48",
        "172.29.0.100",
        "172.29.2.100",
        "10.202.10.202",
        "10.202.10.102",
        "185.55.226.26",
        "185.55.225.25",
        "185.55.224.24",
        "10.202.10.10",
        "10.202.10.11",
        "37.27.41.228",
        "87.107.52.11",
        "87.107.52.13",
        "5.202.100.100",
        "5.202.100.101",
        "94.103.125.157",
        "94.103.125.158",
        "8.8.8.8",
        "8.8.4.4",
        "1.1.1.1",
        "1.0.0.1",
        "9.9.9.9",
        "149.112.112.112",
        "149.112.112.112",
    ]);
    r
}

/// The text that a domain is parsed from as a URL: trimmed, every `http://`
/// and then every `https://` taken out, and put between `https://` and `/`.
pub open spec fn https_candidate(input: Seq<char>) -> Seq<char> {
    "https://"@ + replace_all(
        replace_all(trim(input), "http://"@, Seq::empty()),
        "https://"@,
        Seq::empty(),
    ) + "/"@
}

/// The HTTPS URL at which a domain is tested, if it parses.
pub fn ensure_https_url(input: &str) -> (r: Option<ParsedUrl>)
    ensures
        match (r, url_parse_result(https_candidate(input@))) {
            (Some(u), Ok(m)) => u@ == m,
            (None, Err(_)) => true,
            _ => false,
        },
{
    proof {
        reveal_strlit("http://");
        reveal_strlit("https://");
    }
    let t = trim_str(input);
    let tv = chars_of(t.as_str());
    let http = chars_of("http://");
    let https = chars_of("https://");
    let empty: Vec<char> = Vec::new();
    let step = replace_all_exec(tv.as_slice(), http.as_slice(), empty.as_slice());
    let clean = replace_all_exec(step.as_slice(), https.as_slice(), empty.as_slice());
    assert(empty@ =~= Seq::<char>::empty());
    let clean_s = string_of(clean.as_slice());
    let mut candidate = owned("https://");
    candidate.append(clean_s.as_str());
    candidate.append("/");
    match parse_url(candidate.as_str()) {
        Ok(u) => Some(u),
        Err(_) => None,
    }
}

/// A domain given without a scheme, without surrounding white space and
/// without `http://` or `https://` inside, is tested at `https://<domain>/`.
pub proof fn bare_domain_is_tested_over_https(domain: Seq<char>)
    requires
        trim(domain) == domain,
        !contains(domain, "http://"@),
        !contains(domain, "https://"@),
    ensures
        https_candidate(domain) == "https://"@ + domain + "/"@,
{
    reveal_strlit("http://");
    reveal_strlit("https://");
    replace_absent_is_identity(domain, "http://"@, Seq::empty());
    replace_absent_is_identity(domain, "https://"@, Seq::empty());
}

/// A domain given with `http://` or with `https://` in front is tested at the
/// same `https://<domain>/` as the domain alone.
pub proof fn given_scheme_is_replaced_by_https(domain: Seq<char>)
    requires
        trim(domain) == domain,
        !contains(domain, "http://"@),
        !contains(domain, "https://"@),
    ensures
        https_candidate("http://"@ + domain) == "https://"@ + domain + "/"@,
        https_candidate("https://"@ + domain) == "https://"@ + domain + "/"@,
{
    reveal_strlit("http://");
    reveal_strlit("https://");
    let http = "http://"@;
    let https = "https://"@;
    if domain.len() > 0 {
        lemma_trimmed_ends(domain);
    }
    let a = http + domain;
    let b = https + domain;
    // Neither text starts or ends with white space.
    assert(!is_space(a[0]));
    assert(!is_space(b[0]));
    assert(!is_space(a.last())) by {
        if domain.len() > 0 {
            assert(a.last() == domain.last());
        }
    }
    assert(!is_space(b.last())) by {
        if domain.len() > 0 {
            assert(b.last() == domain.last());
        }
    }
    assert(trim(a) == a);
    assert(trim(b) == b);
    // `http://` + domain: the prefix is the one occurrence of `http://`.
    assert(a.subrange(0, 7) =~= http);
    assert(a.subrange(7, a.len() as int) =~= domain);
    replace_absent_is_identity(domain, http, Seq::empty());
    assert(replace_all(a, http, Seq::empty()) =~= domain);
    replace_absent_is_identity(domain, https, Seq::empty());
    // `https://` + domain holds no `http://`.
    assert forall|i: int| !occurs_at(b, http, i) by {
        if occurs_at(b, http, i) {
            if i < 8 {
                assert(b.subrange(i, i + 7)[0] == b[i]);
                assert(b[i] == 'h');
                assert(i == 0);
                assert(b.subrange(0, 7)[4] == b[4]);
            } else {
                assert(domain.subrange(i - 8, i - 1) =~= b.subrange(i, i + 7));
                assert(occurs_at(domain, http, i - 8));
            }
        }
    }
    replace_absent_is_identity(b, http, Seq::empty());
    assert(b.subrange(0, 8) =~= https);
    assert(b.subrange(8, b.len() as int) =~= domain);
    assert(replace_all(b, https, Seq::empty()) =~= domain);
}

/// A domain with a leading `http://`, and then a leading `https://`, taken off.
pub open spec fn strip_scheme(domain: Seq<char>) -> Seq<char> {
    let a = match strip_prefix(domain, "http://"@) {
        Some(x) => x,
        None => domain,
    };
    match strip_prefix(a, "https://"@) {
        Some(x) => x,
        None => a,
    }
}

/// The URL text a test reports: `https://<host>/` when `https://` and the
/// domain parse as a URL with a host, else `https://` and the domain.
pub open spec fn normalized_https(domain: Seq<char>) -> Seq<char> {
    let candidate = "https://"@ + strip_scheme(domain);
    match url_parse_result(candidate) {
        Ok(m) => match m.2 {
            Some(h) => "https://"@ + h + "/"@,
            None => candidate,
        },
        Err(_) => candidate,
    }
}

/// `s` without the prefix `p`, or `s` itself.
fn strip_or_keep(s: &str, p: &str) -> (r: String)
    ensures
        r@ == match strip_prefix(s@, p@) {
            Some(x) => x,
            None => s@,
        },
{
    let v = chars_of(s);
    let pv = chars_of(p);
    if starts_with_exec(v.as_slice(), pv.as_slice()) {
        string_of(slice_range(v.as_slice(), pv.len(), v.len()))
    } else {
        owned(s)
    }
}

/// The URL text a test of `domain` reports.
pub fn ensure_https(domain: &str) -> (r: String)
    ensures
        r@ == normalized_https(domain@),
{
    let a = strip_or_keep(domain, "http://");
    let host_part = strip_or_keep(a.as_str(), "https://");
    let mut candidate = owned("https://");
    candidate.append(host_part.as_str());
    match parse_url(candidate.as_str()) {
        Ok(u) => match u.host() {
            Some(h) => {
                let mut r = owned("https://");
                r.append(h);
                r.append("/");
                r
            },
            None => candidate,
        },
        Err(_) => candidate,
    }
}

/// Every URL text a test reports starts with `https://`.
pub proof fn reported_url_is_https(domain: Seq<char>)
    ensures
        starts_with(normalized_https(domain), "https://"@),
{
    let candidate = "https://"@ + strip_scheme(domain);
    assert(candidate.subrange(0, "https://"@.len() as int) =~= "https://"@);
    match url_parse_result(candidate) {
        Ok(m) => match m.2 {
            Some(h) => {
                let r = "https://"@ + h + "/"@;
                assert(r.subrange(0, "https://"@.len() as int) =~= "https://"@);
            },
            None => {},
        },
        Err(_) => {},
    }
}


/// Taking the scheme off `https://` and `x` gives `x`.
proof fn strip_scheme_of_https(x: Seq<char>)
    ensures
        strip_scheme("https://"@ + x) == x,
{
    reveal_strlit("https://");
    reveal_strlit("http://");
    let c = "https://"@ + x;
    assert(c[4] == 's');
    assert(!starts_with(c, "http://"@)) by {
        if starts_with(c, "http://"@) {
            assert(c.subrange(0, 7)[4] == c[4]);
        }
    }
    assert(c.subrange(0, 8) =~= "https://"@);
    assert(c.subrange(8, c.len() as int) =~= x);
}

/// Normalising the URL text of a test twice gives what normalising it once
/// gives. A text that does not parse, or parses without a host, comes back
/// unchanged whatever the `url` crate answers; one with a host does so where
/// the crate reads `https://<host>/` back with that host.
pub proof fn normalizing_twice_is_normalizing_once(domain: Seq<char>)
    requires
        match url_parse_result("https://"@ + strip_scheme(domain)) {
            Ok(m) => match m.2 {
                Some(h) => url_parse_result("https://"@ + h + "/"@) matches Ok(m2) && m2.2 == Some(h),
                None => true,
            },
            Err(_) => true,
        },
    ensures
        normalized_https(normalized_https(domain)) == normalized_https(domain),
{
    let candidate = "https://"@ + strip_scheme(domain);
    strip_scheme_of_https(strip_scheme(domain));
    match url_parse_result(candidate) {
        Ok(m) => match m.2 {
            Some(h) => {
                let once = "https://"@ + h + "/"@;
                assert(once =~= "https://"@ + (h + "/"@));
                strip_scheme_of_https(h + "/"@);
                assert("https://"@ + strip_scheme(once) =~= once);
            },
            None => {},
        },
        Err(_) => {},
    }
}

/// The port for a URL scheme: 443 for `https`, 80 for `http`, none else.
pub open spec fn scheme_port(scheme: Seq<char>) -> Option<u16> {
    if scheme == "https"@ {
        Some(443)
    } else if scheme == "http"@ {
        Some(80)
    } else {
        None
    }
}

/// The port for a URL scheme.
pub fn port_for_scheme(scheme: &str) -> (r: Option<u16>)
    ensures
        r == scheme_port(scheme@),
{
    let s = owned(scheme);
    if s == owned("https") {
        Some(443)
    } else if s == owned("http") {
        Some(80)
    } else {
        None
    }
}

/// The address of a DNS server's port 53, as text.
pub open spec fn nameserver_address(dns_ip: Seq<char>) -> Seq<char> {
    dns_ip + ":53"@
}

/// The address of a DNS server's port 53.
pub fn nameserver_address_exec(dns_ip: &str) -> (r: String)
    ensures
        r@ == nameserver_address(dns_ip@),
{
    let mut r = owned(dns_ip);
    r.append(":53");
    r
}

/// What a check through a DNS server asks for next, as a value.
pub enum CheckActionView {
    Resolve(Seq<char>, Seq<char>),
    Request(Seq<char>, u16, Seq<char>),
    Finish(Option<(u16, Seq<char>)>),
}

/// What a check through a DNS server asks for next.
pub enum CheckAction {
    /// Resolve `host` through the DNS server at `nameserver` (UDP, 5 s
    /// timeout, 2 attempts) and keep its first address.
    Resolve { nameserver: String, host: String },
    /// Request `url` with `host` pinned to the kept address and `port`.
    Request { host: String, port: u16, url: String },
    /// The check is over: the status code and reason, or nothing.
    Finish(Option<(u16, String)>),
}

/// The view of an optional status code and reason.
pub open spec fn status_view(o: Option<(u16, String)>) -> Option<(u16, Seq<char>)> {
    match o {
        Some((c, m)) => Some((c, m@)),
        None => None,
    }
}

impl View for CheckAction {
    type V = CheckActionView;

    open spec fn view(&self) -> CheckActionView {
        match self {
            CheckAction::Resolve { nameserver, host } => CheckActionView::Resolve(
                nameserver@,
                host@,
            ),
            CheckAction::Request { host, port, url } => CheckActionView::Request(
                host@,
                *port,
                url@,
            ),
            CheckAction::Finish(o) => CheckActionView::Finish(status_view(*o)),
        }
    }
}

/// What comes back for the last request of a check.
pub enum CheckEvent {
    /// Whether the host resolved to at least one address.
    Resolved(bool),
    /// The status code and reason of the response, or nothing when the
    /// client could not be built or the request failed.
    Responded(Option<(u16, String)>),
}

/// Where a check stands.
#[derive(Debug, Clone, Copy, PartialEq, Eq, Structural)]
pub enum CheckPhase {
    Resolving,
    Requesting,
    Done,
}

/// How a check of `url` through `dns_ip` starts.
pub open spec fn check_start(url: (Seq<char>, Seq<char>, Option<Seq<char>>), dns_ip: Seq<char>) -> (
    CheckPhase,
    CheckActionView,
) {
    match url.2 {
        None => (CheckPhase::Done, CheckActionView::Finish(None)),
        Some(h) => (CheckPhase::Resolving, CheckActionView::Resolve(nameserver_address(dns_ip), h)),
    }
}

/// Where a check of `url` goes, and what it asks for, when `e` comes back.
pub open spec fn check_transition(
    url: (Seq<char>, Seq<char>, Option<Seq<char>>),
    phase: CheckPhase,
    e: CheckEvent,
) -> (CheckPhase, CheckActionView) {
    match (phase, e) {
        (CheckPhase::Resolving, CheckEvent::Resolved(found)) => if !found {
            (CheckPhase::Done, CheckActionView::Finish(None))
        } else {
            match scheme_port(url.1) {
                None => (CheckPhase::Done, CheckActionView::Finish(None)),
                Some(p) => (CheckPhase::Requesting, CheckActionView::Request(url.2->Some_0, p, url.0)),
            }
        },
        (CheckPhase::Requesting, CheckEvent::Responded(o)) => (
            CheckPhase::Done,
            CheckActionView::Finish(status_view(o)),
        ),
        _ => (phase, CheckActionView::Finish(None)),
    }
}

/// The events a check takes where it stands.
pub open spec fn check_accepts(phase: CheckPhase, e: CheckEvent) -> bool {
    match phase {
        CheckPhase::Resolving => e is Resolved,
        CheckPhase::Requesting => e is Responded,
        CheckPhase::Done => false,
    }
}

/// A check of a URL through one DNS server: the host is resolved through
/// that server only, then the URL is requested at the address found.
pub struct UrlCheck {
    url: ParsedUrl,
    phase: CheckPhase,
}

impl UrlCheck {
    #[verifier::type_invariant]
    spec fn inv(self) -> bool {
        self.phase != CheckPhase::Done ==> self.url@.2 is Some
    }

    /// The URL checked.
    pub closed spec fn url(self) -> (Seq<char>, Seq<char>, Option<Seq<char>>) {
        self.url@
    }

    /// Where the check stands.
    pub closed spec fn phase(self) -> CheckPhase {
        self.phase
    }

    /// Whether the check is over.
    pub fn is_done(&self) -> (r: bool)
        ensures
            r == (self.phase() == CheckPhase::Done),
    {
        self.phase == CheckPhase::Done
    }

    /// A check of `url` through the DNS server `dns_ip`, and its first request.
    pub fn check_url_with_custom_dns(url: ParsedUrl, dns_ip: &str) -> (r: (Self, CheckAction))
        ensures
            r.0.url() == url@,
            (r.0.phase(), r.1@) == check_start(url@, dns_ip@),
    {
        let (phase, action) = match url.host() {
            None => (CheckPhase::Done, CheckAction::Finish(None)),
            Some(h) => (
                CheckPhase::Resolving,
                CheckAction::Resolve { nameserver: nameserver_address_exec(dns_ip), host: owned(h) },
            ),
        };
        (UrlCheck { url, phase }, action)
    }

    /// Takes what came back for the last request and makes the next one.
    pub fn step(&mut self, event: CheckEvent) -> (a: CheckAction)
        requires
            check_accepts(old(self).phase(), event),
        ensures
            final(self).url() == old(self).url(),
            (final(self).phase(), a@) == check_transition(old(self).url(), old(self).phase(), event),
            event matches CheckEvent::Responded(o) ==> a == CheckAction::Finish(o) && final(self).phase()
                == CheckPhase::Done,
    {
        proof {
            use_type_invariant(&*self);
        }
        match event {
            CheckEvent::Resolved(found) => {
                if !found {
                    self.phase = CheckPhase::Done;
                    return CheckAction::Finish(None);
                }
                match port_for_scheme(self.url.scheme()) {
                    None => {
                        self.phase = CheckPhase::Done;
                        CheckAction::Finish(None)
                    },
                    Some(port) => {
                        let host = match self.url.host() {
                            Some(h) => owned(h),
                            None => String::new(),
                        };
                        assert(self.url@.2 is Some);
                        self.phase = CheckPhase::Requesting;
                        CheckAction::Request { host, port, url: owned(self.url.href()) }
                    },
                }
            },
            CheckEvent::Responded(o) => {
                self.phase = CheckPhase::Done;
                CheckAction::Finish(o)
            },
        }
    }
}


/// A check requests its URL only after the host resolved through the chosen
/// server, only for `http` and `https`, at the port of the scheme, at the
/// URL's host; any other answer ends the check without a status.
pub proof fn request_only_after_resolution(
    url: (Seq<char>, Seq<char>, Option<Seq<char>>),
    phase: CheckPhase,
    e: CheckEvent,
)
    requires
        check_accepts(phase, e),
        check_transition(url, phase, e).1 is Request,
    ensures
        phase == CheckPhase::Resolving,
        e == CheckEvent::Resolved(true),
        scheme_port(url.1) is Some,
        check_transition(url, phase, e).1 == CheckActionView::Request(
            url.2->Some_0,
            scheme_port(url.1)->Some_0,
            url.0,
        ),
{
}

/// A status code counts as usable when it is in 200..=299.
pub open spec fn usable_status(code: u16) -> bool {
    200 <= code && code < 300
}

/// How a status code reads: success for 200..=299, 403, or another.
pub open spec fn status_kind(code: u16) -> HttpStatus {
    if usable_status(code) {
        HttpStatus::Success
    } else if code == 403 {
        HttpStatus::Forbidden403
    } else {
        HttpStatus::Other(code)
    }
}

/// The message of an unusable status: `HTTP <code> - <reason>`.
pub open spec fn status_message(code: u16, reason: Seq<char>) -> Seq<char> {
    "HTTP "@ + decimal(code as nat) + " - "@ + reason
}

/// The text of an optional string.
pub open spec fn opt_text(o: Option<String>) -> Option<Seq<char>> {
    match o {
        Some(s) => Some(s@),
        None => None,
    }
}

/// The text of a failed status, if it is one.
pub open spec fn failed_text(h: HttpStatus) -> Option<Seq<char>> {
    match h {
        HttpStatus::Failed(s) => Some(s@),
        _ => None,
    }
}

/// The URL a domain is tested at: the text the result reports and the
/// parsed URL, if the domain makes one.
pub struct DnsTestPlan {
    pub url_string: String,
    pub url: Option<ParsedUrl>,
}

/// The URL that a test of `domain` reports and the URL it requests.
pub fn dns_test_plan(domain: &str) -> (r: DnsTestPlan)
    ensures
        r.url_string@ == normalized_https(domain@),
        match (r.url, url_parse_result(https_candidate(domain@))) {
            (Some(u), Ok(m)) => u@ == m,
            (None, Err(_)) => true,
            _ => false,
        },
{
    DnsTestPlan { url_string: ensure_https(domain), url: ensure_https_url(domain) }
}

/// `r` is the result for a domain that makes no URL.
pub open spec fn is_invalid_domain_result(
    r: DnsTestResult,
    dns_server: String,
    url_string: Seq<char>,
    response_time: u64,
) -> bool {
    &&& r.dns_server == dns_server
    &&& !r.status
    &&& r.response_time == Some(response_time)
    &&& opt_text(r.error_message) == Some("Invalid domain format"@)
    &&& r.session_id == 0
    &&& failed_text(r.http_status) == Some("Invalid domain"@)
    &&& opt_text(r.test_url) == Some(url_string)
}

/// `r` is the result of a test from what the check answered: usable exactly
/// for a status in 200..=299; an unusable status reads `HTTP <code> -
/// <reason>`, no answer reads as a failed resolution or request.
pub open spec fn is_checked_result(
    r: DnsTestResult,
    dns_server: String,
    url_string: Seq<char>,
    outcome: Option<(u16, String)>,
    response_time: u64,
) -> bool {
    &&& r.dns_server == dns_server
    &&& r.response_time == Some(response_time)
    &&& r.session_id == 0
    &&& opt_text(r.test_url) == Some(url_string)
    &&& r.status <==> r.error_message is None
    &&& r.status <==> r.http_status is Success
    &&& match outcome {
        Some((code, reason)) => {
            &&& r.status == usable_status(code)
            &&& (usable_status(code) ==> r.error_message is None)
            &&& (!usable_status(code) ==> opt_text(r.error_message) == Some(
                status_message(code, reason@),
            ))
            &&& r.http_status == status_kind(code)
        },
        None => {
            &&& !r.status
            &&& opt_text(r.error_message) == Some("DNS resolution or HTTP request failed"@)
            &&& failed_text(r.http_status) == Some("Connection failed"@)
        },
    }
}

/// The result for a domain that makes no URL.
pub fn invalid_domain_result(dns_server: String, url_string: String, response_time: u64) -> (r:
    DnsTestResult)
    ensures
        is_invalid_domain_result(r, dns_server, url_string@, response_time),
{
    DnsTestResult {
        dns_server,
        status: false,
        response_time: Some(response_time),
        error_message: Some(owned("Invalid domain format")),
        session_id: 0,
        http_status: HttpStatus::Failed(owned("Invalid domain")),
        test_url: Some(url_string),
    }
}

/// The result of a test from what the check answered: usable exactly for a
/// status in 200..=299; an unusable status reads `HTTP <code> - <reason>`,
/// no answer reads as a failed resolution or request.
pub fn dns_test_result(
    dns_server: String,
    url_string: String,
    outcome: Option<(u16, String)>,
    response_time: u64,
) -> (r: DnsTestResult)
    ensures
        is_checked_result(r, dns_server, url_string@, outcome, response_time),
{
    match outcome {
        Some((code, reason)) => {
            let http_status = if code >= 200 && code <= 299 {
                HttpStatus::Success
            } else if code == 403 {
                HttpStatus::Forbidden403
            } else {
                HttpStatus::Other(code)
            };
            let usable = code >= 200 && code < 300;
            let error_message = if usable {
                None
            } else {
                let mut m = owned("HTTP ");
                let n = decimal_string(code as u64);
                m.append(n.as_str());
                m.append(" - ");
                m.append(reason.as_str());
                Some(m)
            };
            DnsTestResult {
                dns_server,
                status: usable,
                response_time: Some(response_time),
                error_message,
                session_id: 0,
                http_status,
                test_url: Some(url_string),
            }
        },
        None => DnsTestResult {
            dns_server,
            status: false,
            response_time: Some(response_time),
            error_message: Some(owned("DNS resolution or HTTP request failed")),
            session_id: 0,
            http_status: HttpStatus::Failed(owned("Connection failed")),
            test_url: Some(url_string),
        },
    }
}

/// What a test of a domain came to: the domain made no URL, or the check
/// through the DNS server answered (a status and reason, or nothing).
pub enum DnsTestAnswer {
    InvalidDomain,
    Checked(Option<(u16, String)>),
}

/// The result of testing a DNS server for a domain, from what the test came
/// to and how long it took.
pub fn single_dns_test_result(
    dns_server: String,
    url_string: String,
    answer: DnsTestAnswer,
    response_time: u64,
) -> (r: DnsTestResult)
    ensures
        match answer {
            DnsTestAnswer::InvalidDomain => is_invalid_domain_result(
                r,
                dns_server,
                url_string@,
                response_time,
            ),
            DnsTestAnswer::Checked(o) => is_checked_result(
                r,
                dns_server,
                url_string@,
                o,
                response_time,
            ),
        },
{
    match answer {
        DnsTestAnswer::InvalidDomain => invalid_domain_result(dns_server, url_string, response_time),
        DnsTestAnswer::Checked(o) => dns_test_result(dns_server, url_string, o, response_time),
    }
}

/// After its request, a check ends with exactly the status code and reason
/// that came back, or with none when nothing came back: an answer is never
/// dropped, changed or made up.
pub proof fn check_reports_the_response(
    url: (Seq<char>, Seq<char>, Option<Seq<char>>),
    o: Option<(u16, String)>,
)
    ensures
        check_transition(url, CheckPhase::Requesting, CheckEvent::Responded(o)).0 == CheckPhase::Done,
        check_transition(url, CheckPhase::Requesting, CheckEvent::Responded(o)).1 matches CheckActionView::Finish(
            f,
        ) && (f is Some <==> o is Some) && (o matches Some((c, m)) ==> f == Some((c, m@))),
{
}

/// A check whose response carries a status in 200..=299 gives a usable result
/// with no error message and the status `Success`; any other status gives an
/// unusable result that names the code and reason; no response gives a
/// failed one.
pub proof fn response_decides_the_result(
    r: DnsTestResult,
    dns_server: String,
    url_string: Seq<char>,
    o: Option<(u16, String)>,
    response_time: u64,
)
    requires
        is_checked_result(r, dns_server, url_string, o, response_time),
    ensures
        r.status <==> (match o {
            Some((c, _)) => 200 <= c <= 299,
            None => false,
        }),
        r.status ==> r.error_message is None && r.http_status == HttpStatus::Success,
        match o {
            Some((c, _)) => (c == 403 ==> r.http_status == HttpStatus::Forbidden403) && (!(200 <= c
                <= 299) && c != 403 ==> r.http_status == HttpStatus::Other(c)),
            None => true,
        },
        match o {
            Some((c, m)) => !(200 <= c <= 299) ==> (r.error_message matches Some(e) && e@ == "HTTP "@
                + decimal(c as nat) + " - "@ + m@),
            None => (r.http_status matches HttpStatus::Failed(f) && f@ == "Connection failed"@),
        },
{
}

/// A check starts by resolving exactly the URL's host through the chosen
/// server's port 53; a URL without a host ends at once with no answer.
pub proof fn check_resolves_the_url_host(
    url: (Seq<char>, Seq<char>, Option<Seq<char>>),
    dns_ip: Seq<char>,
)
    ensures
        url.2 matches Some(h) ==> check_start(url, dns_ip) == (
            CheckPhase::Resolving,
            CheckActionView::Resolve(dns_ip + ":53"@, h),
        ),
        url.2 is None ==> check_start(url, dns_ip) == (CheckPhase::Done, CheckActionView::Finish(None)),
{
}

} // verus!
