//! The steps of a download test through one DNS server: resolve the host,
//! request the URL at the address found, and count the bytes that arrive
//! until the stream ends, the time is up or the user cancels.

use vstd::prelude::*;
use crate::text::{owned, decimal, decimal_string};
use crate::urls::{ParsedUrl, parse_url, url_parse_result};
use crate::dns::{scheme_port, port_for_scheme, nameserver_address, nameserver_address_exec};

verus! {

/// A span of time as `std::time::Duration` holds it.
#[derive(Debug, Clone, Copy, PartialEq, Eq, Structural)]
pub struct Elapsed {
    pub secs: u64,
    pub nanos: u32,
}

/// How resolving the host ended.
pub enum ResolveOutcome {
    /// An address was found; the time since resolving began.
    Resolved { resolution: Elapsed },
    /// The time of the test ran out first.
    TimedOut,
    /// The resolution failed; the text of the error.
    Failed(String),
}

/// What a download test took in, when it succeeds.
#[derive(Debug, Clone, Copy, PartialEq, Eq, Structural)]
pub struct DownloadOutcome {
    pub downloaded_bytes: u64,
    pub resolution_time_ms: u64,
}

/// What comes back for the last request of a download test.
pub enum DownloadEvent {
    /// How resolving the host ended.
    Resolution(ResolveOutcome),
    /// The time since the test started.
    Clock(Elapsed),
    /// The HTTP client could not be built; the text of the error.
    ClientFailed(String),
    /// The request failed; the text of the error.
    SendFailed(String),
    /// The response arrived; its body can be read.
    Responded,
    /// The next piece of the body: its length or the error reading it (`None`
    /// at the end), whether cancellation had been asked for when it came,
    /// and the time since the test started.
    Chunk { item: Option<Result<u64, String>>, cancelled: bool, elapsed: Elapsed },
    /// Whether cancellation has been asked for.
    Cancelled(bool),
}

/// What a download test asks for next, as a value.
pub enum DownloadActionView {
    Resolve(Seq<char>, Seq<char>, u64),
    ReadClock,
    Request(Seq<char>, u16, Seq<char>, Elapsed),
    NextChunk,
    CheckCancelled,
    Finish(Result<DownloadOutcome, Seq<char>>),
}

/// What a download test asks for next.
pub enum DownloadAction {
    /// Resolve `host` through the DNS server at `nameserver`, giving up after
    /// `timeout_seconds`; keep the first address.
    Resolve { nameserver: String, host: String, timeout_seconds: u64 },
    /// Tell the time since the test started.
    ReadClock,
    /// Request `url` with `host` pinned to the kept address and `port`, with
    /// `timeout` as the client's time limit.
    Request { host: String, port: u16, url: String, timeout: Elapsed },
    /// Read the next piece of the body.
    NextChunk,
    /// Tell whether cancellation has been asked for.
    CheckCancelled,
    /// The test is over.
    Finish(Result<DownloadOutcome, String>),
}

impl View for DownloadAction {
    type V = DownloadActionView;

    open spec fn view(&self) -> DownloadActionView {
        match self {
            DownloadAction::Resolve { nameserver, host, timeout_seconds } => DownloadActionView::Resolve(
                nameserver@,
                host@,
                *timeout_seconds,
            ),
            DownloadAction::ReadClock => DownloadActionView::ReadClock,
            DownloadAction::Request { host, port, url, timeout } => DownloadActionView::Request(
                host@,
                *port,
                url@,
                *timeout,
            ),
            DownloadAction::NextChunk => DownloadActionView::NextChunk,
            DownloadAction::CheckCancelled => DownloadActionView::CheckCancelled,
            DownloadAction::Finish(Ok(o)) => DownloadActionView::Finish(Ok(*o)),
            DownloadAction::Finish(Err(m)) => DownloadActionView::Finish(Err(m@)),
        }
    }
}

/// Where a download test stands.
#[derive(Debug, Clone, Copy, PartialEq, Eq, Structural)]
pub enum DownloadPhase {
    Resolving,
    CheckAfterResolve,
    CheckBeforeRequest { port: u16 },
    Requesting,
    Streaming,
    CheckCancelled,
    Done,
}

/// What a download test knows, as a value.
pub struct DownloadState {
    pub url: (Seq<char>, Seq<char>, Option<Seq<char>>),
    pub timeout_seconds: u64,
    pub downloaded: u64,
    pub resolution: Elapsed,
    pub phase: DownloadPhase,
}

/// `a` is earlier than `b`.
pub open spec fn earlier(a: Elapsed, b: Elapsed) -> bool {
    a.secs < b.secs || (a.secs == b.secs && a.nanos < b.nanos)
}

/// The whole milliseconds in `e` (`Duration::as_millis`).
pub open spec fn millis(e: Elapsed) -> int {
    e.secs * 1000 + e.nanos / 1_000_000
}

/// The resolution time reported, in milliseconds: `as_millis` taken as `u64`.
pub open spec fn reported_ms(e: Elapsed) -> u64 {
    (millis(e) % 0x1_0000_0000_0000_0000) as u64
}

/// Once the test has passed the check after resolving, the resolution took
/// less than the time allowed.
pub open spec fn within_budget(s: DownloadState) -> bool {
    match s.phase {
        DownloadPhase::Resolving | DownloadPhase::Done => true,
        DownloadPhase::CheckAfterResolve => s.resolution.nanos < 1_000_000_000,
        _ => s.resolution.secs < s.timeout_seconds && s.resolution.nanos < 1_000_000_000,
    }
}

/// The time left of `timeout_seconds` after `e`, which is less.
pub open spec fn remaining(timeout_seconds: u64, e: Elapsed) -> Elapsed {
    if e.nanos == 0 {
        Elapsed { secs: (timeout_seconds - e.secs) as u64, nanos: 0 }
    } else {
        Elapsed { secs: (timeout_seconds - e.secs - 1) as u64, nanos: (1_000_000_000 - e.nanos) as u32 }
    }
}

/// The elapsed time has reached `timeout_seconds`.
pub open spec fn timed_out(timeout_seconds: u64, e: Elapsed) -> bool {
    e.secs >= timeout_seconds
}

/// The end of a test with the error `m`.
pub open spec fn fail(s: DownloadState, m: Seq<char>) -> (DownloadState, DownloadActionView) {
    (DownloadState { phase: DownloadPhase::Done, ..s }, DownloadActionView::Finish(Err(m)))
}

/// How a download test of `url` through `dns_ip` starts.
pub open spec fn download_start(url: Seq<char>, dns_ip: Seq<char>, timeout_seconds: u64) -> (
    Option<DownloadState>,
    DownloadActionView,
) {
    match url_parse_result(url) {
        Err(e) => (None, DownloadActionView::Finish(Err(e))),
        Ok(m) => match m.2 {
            None => (None, DownloadActionView::Finish(Err("Invalid host"@))),
            Some(h) => (
                Some(
                    DownloadState {
                        url: m,
                        timeout_seconds,
                        downloaded: 0,
                        resolution: Elapsed { secs: 0, nanos: 0 },
                        phase: DownloadPhase::Resolving,
                    },
                ),
                DownloadActionView::Resolve(nameserver_address(dns_ip), h, timeout_seconds),
            ),
        },
    }
}

/// The events a download test takes where it stands.
pub open spec fn download_accepts(s: DownloadState, e: DownloadEvent) -> bool {
    match s.phase {
        DownloadPhase::Resolving => e matches DownloadEvent::Resolution(r) && (r matches ResolveOutcome::Resolved {
            resolution,
        } ==> resolution.nanos < 1_000_000_000),
        DownloadPhase::CheckAfterResolve => e matches DownloadEvent::Clock(c) && !earlier(
            c,
            s.resolution,
        ),
        DownloadPhase::CheckBeforeRequest { .. } => e matches DownloadEvent::Clock(c) && c.nanos
            < 1_000_000_000,
        DownloadPhase::Requesting => e is ClientFailed || e is SendFailed || e is Responded,
        DownloadPhase::Streaming => match e {
            DownloadEvent::Chunk { item, cancelled, elapsed } => match item {
                Some(Ok(n)) => !cancelled && !timed_out(s.timeout_seconds, elapsed) ==> s.downloaded
                    + n <= u64::MAX,
                _ => true,
            },
            _ => false,
        },
        DownloadPhase::CheckCancelled => e is Cancelled,
        DownloadPhase::Done => false,
    }
}

/// Where a download test goes, and what it asks for, when `e` comes back.
pub open spec fn download_transition(s: DownloadState, e: DownloadEvent) -> (
    DownloadState,
    DownloadActionView,
) {
    match (s.phase, e) {
        (DownloadPhase::Resolving, DownloadEvent::Resolution(r)) => match r {
            ResolveOutcome::TimedOut => fail(
                s,
                "DNS resolution timed out after "@ + decimal(s.timeout_seconds as nat) + " seconds"@,
            ),
            ResolveOutcome::Failed(m) => fail(s, "DNS resolution failed: "@ + m@),
            ResolveOutcome::Resolved { resolution } => (
                DownloadState { resolution, phase: DownloadPhase::CheckAfterResolve, ..s },
                DownloadActionView::ReadClock,
            ),
        },
        (DownloadPhase::CheckAfterResolve, DownloadEvent::Clock(e)) => if timed_out(
            s.timeout_seconds,
            e,
        ) {
            fail(s, "Operation timed out during DNS resolution"@)
        } else {
            match scheme_port(s.url.1) {
                None => fail(s, "Unsupported scheme"@),
                Some(p) => (
                    DownloadState { phase: DownloadPhase::CheckBeforeRequest { port: p }, ..s },
                    DownloadActionView::ReadClock,
                ),
            }
        },
        (DownloadPhase::CheckBeforeRequest { port }, DownloadEvent::Clock(e)) => if timed_out(
            s.timeout_seconds,
            e,
        ) {
            fail(s, "Operation timed out before HTTP request"@)
        } else {
            (
                DownloadState { phase: DownloadPhase::Requesting, ..s },
                DownloadActionView::Request(
                    s.url.2->Some_0,
                    port,
                    s.url.0,
                    remaining(s.timeout_seconds, e),
                ),
            )
        },
        (DownloadPhase::Requesting, DownloadEvent::ClientFailed(m)) => fail(s, m@),
        (DownloadPhase::Requesting, DownloadEvent::SendFailed(m)) => fail(
            s,
            "HTTP request failed: "@ + m@,
        ),
        (DownloadPhase::Requesting, DownloadEvent::Responded) => (
            DownloadState { phase: DownloadPhase::Streaming, ..s },
            DownloadActionView::NextChunk,
        ),
        (DownloadPhase::Streaming, DownloadEvent::Chunk { item, cancelled, elapsed }) => match item {
            None => (
                DownloadState { phase: DownloadPhase::CheckCancelled, ..s },
                DownloadActionView::CheckCancelled,
            ),
            Some(r) => if cancelled || timed_out(s.timeout_seconds, elapsed) {
                (
                    DownloadState { phase: DownloadPhase::CheckCancelled, ..s },
                    DownloadActionView::CheckCancelled,
                )
            } else {
                match r {
                    Err(m) => fail(s, "Stream error: "@ + m@),
                    Ok(n) => (
                        DownloadState { downloaded: (s.downloaded + n) as u64, ..s },
                        DownloadActionView::NextChunk,
                    ),
                }
            },
        },
        (DownloadPhase::CheckCancelled, DownloadEvent::Cancelled(c)) => if c {
            fail(s, "Download cancelled"@)
        } else {
            (
                DownloadState { phase: DownloadPhase::Done, ..s },
                DownloadActionView::Finish(
                    Ok(
                        DownloadOutcome {
                            downloaded_bytes: s.downloaded,
                            resolution_time_ms: reported_ms(s.resolution),
                        },
                    ),
                ),
            )
        },
        _ => (s, DownloadActionView::Finish(Err(Seq::empty()))),
    }
}

/// A download test through one DNS server.
pub struct DownloadTest {
    url: ParsedUrl,
    timeout_seconds: u64,
    downloaded: u64,
    resolution: Elapsed,
    phase: DownloadPhase,
}

/// The whole milliseconds in `e`, taken as `u64`.
fn millis_u64(e: Elapsed) -> (r: u64)
    ensures
        r == reported_ms(e),
{
    let ms: u128 = (e.secs as u128) * 1000 + (e.nanos as u128) / 1_000_000;
    (ms % 0x1_0000_0000_0000_0000u128) as u64
}

/// The end of a test with the error `m`.
fn failed(m: String) -> (r: DownloadAction)
    ensures
        r@ == DownloadActionView::Finish(Err(m@)),
{
    DownloadAction::Finish(Err(m))
}

/// `prefix` followed by `s`.
fn prefixed(prefix: &str, s: &str) -> (r: String)
    ensures
        r@ == prefix@ + s@,
{
    let mut r = owned(prefix);
    r.append(s);
    r
}

impl DownloadTest {
    #[verifier::type_invariant]
    spec fn inv(self) -> bool {
        &&& self.url@.2 is Some
        &&& within_budget(self.state())
    }

    /// What the test knows.
    pub closed spec fn state(self) -> DownloadState {
        DownloadState {
            url: self.url@,
            timeout_seconds: self.timeout_seconds,
            downloaded: self.downloaded,
            resolution: self.resolution,
            phase: self.phase,
        }
    }

    /// A download test of `url` through the DNS server `dns_ip` within
    /// `timeout_seconds`, and its first request; `None` (with the error)
    /// when the URL does not parse or has no host.
    pub fn download_with_custom_dns(url: &str, dns_ip: &str, timeout_seconds: u64) -> (r: (
        Option<Self>,
        DownloadAction,
    ))
        ensures
            (
                match r.0 {
                    Some(t) => Some(t.state()),
                    None => None,
                },
                r.1@,
            ) == download_start(url@, dns_ip@, timeout_seconds),
            r.1 is Resolve <==> (url_parse_result(url@) matches Ok(m) && m.2 is Some),
            r.1 matches DownloadAction::Resolve { nameserver, host, timeout_seconds: t } ==> {
                &&& url_parse_result(url@) matches Ok(m) && m.2 == Some(host@)
                &&& nameserver@ == dns_ip@ + ":53"@
                &&& t == timeout_seconds
            },
            r.0 is Some <==> r.1 is Resolve,
    {
        let parsed = match parse_url(url) {
            Ok(u) => u,
            Err(e) => return (None, failed(e)),
        };
        let host = match parsed.host() {
            Some(h) => owned(h),
            None => return (None, failed(owned("Invalid host"))),
        };
        let action = DownloadAction::Resolve {
            nameserver: nameserver_address_exec(dns_ip),
            host,
            timeout_seconds,
        };
        (
            Some(
                DownloadTest {
                    url: parsed,
                    timeout_seconds,
                    downloaded: 0,
                    resolution: Elapsed { secs: 0, nanos: 0 },
                    phase: DownloadPhase::Resolving,
                },
            ),
            action,
        )
    }

    /// Whether the test is over.
    pub fn is_done(&self) -> (r: bool)
        ensures
            r == (self.state().phase == DownloadPhase::Done),
    {
        self.phase == DownloadPhase::Done
    }

    /// The bytes counted so far.
    pub fn downloaded_bytes(&self) -> (r: u64)
        ensures
            r == self.state().downloaded,
    {
        self.downloaded
    }

    /// Takes what came back for the last request and makes the next one.
    pub fn step(&mut self, event: DownloadEvent) -> (a: DownloadAction)
        requires
            download_accepts(old(self).state(), event),
        ensures
            (final(self).state(), a@) == download_transition(old(self).state(), event),
            a@ matches DownloadActionView::Finish(Ok(o)) ==> o.resolution_time_ms
                < old(self).state().timeout_seconds * 1000,
    {
        proof {
            use_type_invariant(&*self);
        }
        match (self.phase, event) {
            (DownloadPhase::Resolving, DownloadEvent::Resolution(r)) => match r {
                ResolveOutcome::TimedOut => {
                    self.phase = DownloadPhase::Done;
                    let mut m = owned("DNS resolution timed out after ");
                    let n = decimal_string(self.timeout_seconds);
                    m.append(n.as_str());
                    m.append(" seconds");
                    failed(m)
                },
                ResolveOutcome::Failed(e) => {
                    self.phase = DownloadPhase::Done;
                    failed(prefixed("DNS resolution failed: ", e.as_str()))
                },
                ResolveOutcome::Resolved { resolution } => {
                    self.resolution = resolution;
                    self.phase = DownloadPhase::CheckAfterResolve;
                    DownloadAction::ReadClock
                },
            },
            (DownloadPhase::CheckAfterResolve, DownloadEvent::Clock(e)) => {
                if e.secs >= self.timeout_seconds {
                    self.phase = DownloadPhase::Done;
                    return failed(owned("Operation timed out during DNS resolution"));
                }
                match port_for_scheme(self.url.scheme()) {
                    None => {
                        self.phase = DownloadPhase::Done;
                        failed(owned("Unsupported scheme"))
                    },
                    Some(port) => {
                        self.phase = DownloadPhase::CheckBeforeRequest { port };
                        DownloadAction::ReadClock
                    },
                }
            },
            (DownloadPhase::CheckBeforeRequest { port }, DownloadEvent::Clock(e)) => {
                if e.secs >= self.timeout_seconds {
                    self.phase = DownloadPhase::Done;
                    return failed(owned("Operation timed out before HTTP request"));
                }
                let timeout = if e.nanos == 0 {
                    Elapsed { secs: self.timeout_seconds - e.secs, nanos: 0 }
                } else {
                    Elapsed {
                        secs: self.timeout_seconds - e.secs - 1,
                        nanos: 1_000_000_000u32 - e.nanos,
                    }
                };
                let host = match self.url.host() {
                    Some(h) => owned(h),
                    None => String::new(),
                };
                self.phase = DownloadPhase::Requesting;
                DownloadAction::Request { host, port, url: owned(self.url.href()), timeout }
            },
            (DownloadPhase::Requesting, DownloadEvent::ClientFailed(m)) => {
                self.phase = DownloadPhase::Done;
                failed(m)
            },
            (DownloadPhase::Requesting, DownloadEvent::SendFailed(m)) => {
                self.phase = DownloadPhase::Done;
                failed(prefixed("HTTP request failed: ", m.as_str()))
            },
            (DownloadPhase::Requesting, DownloadEvent::Responded) => {
                self.phase = DownloadPhase::Streaming;
                DownloadAction::NextChunk
            },
            (DownloadPhase::Streaming, DownloadEvent::Chunk { item, cancelled, elapsed }) => {
                match item {
                    None => {
                        self.phase = DownloadPhase::CheckCancelled;
                        DownloadAction::CheckCancelled
                    },
                    Some(r) => {
                        if cancelled || elapsed.secs >= self.timeout_seconds {
                            self.phase = DownloadPhase::CheckCancelled;
                            DownloadAction::CheckCancelled
                        } else {
                            match r {
                                Err(m) => {
                                    self.phase = DownloadPhase::Done;
                                    failed(prefixed("Stream error: ", m.as_str()))
                                },
                                Ok(n) => {
                                    self.downloaded = self.downloaded + n;
                                    DownloadAction::NextChunk
                                },
                            }
                        }
                    },
                }
            },
            (DownloadPhase::CheckCancelled, DownloadEvent::Cancelled(c)) => {
                self.phase = DownloadPhase::Done;
                if c {
                    failed(owned("Download cancelled"))
                } else {
                    DownloadAction::Finish(
                        Ok(
                            DownloadOutcome {
                                downloaded_bytes: self.downloaded,
                                resolution_time_ms: millis_u64(self.resolution),
                            },
                        ),
                    )
                }
            },
            _ => {
                assert(false);
                DownloadAction::NextChunk
            },
        }
    }
}


/// The time limit given to the HTTP client is exactly what is left of the
/// test's time when the request is made, and it is never zero.
pub proof fn request_gets_time_left(timeout_seconds: u64, e: Elapsed)
    requires
        !timed_out(timeout_seconds, e),
        e.nanos < 1_000_000_000,
    ensures
        remaining(timeout_seconds, e).nanos < 1_000_000_000,
        remaining(timeout_seconds, e).secs * 1_000_000_000 + remaining(timeout_seconds, e).nanos
            + e.secs * 1_000_000_000 + e.nanos == timeout_seconds * 1_000_000_000,
        remaining(timeout_seconds, e).secs > 0 || remaining(timeout_seconds, e).nanos > 0,
{
}

/// While the body streams, the count grows by exactly the length of each
/// piece taken in, and a piece that comes after cancellation or after the
/// time is up is not counted: the test stops reading instead.
pub proof fn bytes_counted_are_pieces_taken(s: DownloadState, e: DownloadEvent)
    requires
        s.phase == DownloadPhase::Streaming,
        download_accepts(s, e),
    ensures
        match e {
            DownloadEvent::Chunk { item: Some(Ok(n)), cancelled, elapsed } => if cancelled
                || timed_out(s.timeout_seconds, elapsed) {
                download_transition(s, e).0.downloaded == s.downloaded
                    && download_transition(s, e).1 is CheckCancelled
            } else {
                download_transition(s, e).0.downloaded == s.downloaded + n
                    && download_transition(s, e).1 is NextChunk
            },
            _ => download_transition(s, e).0.downloaded == s.downloaded,
        },
{
}

/// The resolution time that a successful test reports is the time that
/// resolving took, in whole milliseconds, and it is less than the time
/// allowed: the test goes on only when the clock, read after resolving,
/// shows time left.
pub proof fn resolution_within_budget(s: DownloadState, e: DownloadEvent)
    requires
        within_budget(s),
        download_accepts(s, e),
    ensures
        within_budget(download_transition(s, e).0),
        download_transition(s, e).1 matches DownloadActionView::Finish(Ok(o)) ==> {
            &&& o.resolution_time_ms == reported_ms(s.resolution)
            &&& o.resolution_time_ms < s.timeout_seconds * 1000
        },
{
    if download_transition(s, e).1 matches DownloadActionView::Finish(Ok(o)) {
        assert(s.phase == DownloadPhase::CheckCancelled);
        let m = millis(s.resolution);
        assert(0 <= m < s.timeout_seconds * 1000);
        assert(0 <= m % 0x1_0000_0000_0000_0000 <= m) by (nonlinear_arith)
            requires
                0 <= m,
        ;
        assert(reported_ms(s.resolution) == m % 0x1_0000_0000_0000_0000);
    }
}

/// A download test first resolves exactly the host of its URL, through the
/// chosen server's port 53, within the whole time allowed; a URL that does
/// not parse, or has no host, ends the test at once with the parser's error
/// or `Invalid host`.
pub proof fn download_resolves_the_url_host(url: Seq<char>, dns_ip: Seq<char>, timeout_seconds: u64)
    ensures
        download_start(url, dns_ip, timeout_seconds).1 is Resolve <==> (url_parse_result(url) matches Ok(
            m,
        ) && m.2 is Some),
        download_start(url, dns_ip, timeout_seconds).1 matches DownloadActionView::Resolve(n, h, t) ==> {
            &&& url_parse_result(url) matches Ok(m) && m.2 == Some(h)
            &&& n == dns_ip + ":53"@
            &&& t == timeout_seconds
        },
        download_start(url, dns_ip, timeout_seconds).0 matches Some(s) ==> s.url == url_parse_result(
            url,
        )->Ok_0 && s.downloaded == 0 && s.timeout_seconds == timeout_seconds,
        url_parse_result(url) matches Err(e) ==> download_start(url, dns_ip, timeout_seconds).1
            == DownloadActionView::Finish(Err(e)),
        url_parse_result(url) matches Ok(m) && m.2 is None ==> download_start(
            url,
            dns_ip,
            timeout_seconds,
        ).1 == DownloadActionView::Finish(Err("Invalid host"@)),
{
}

/// Once the host has resolved in time, an `https` or `http` URL is requested
/// at its own host, at port 443 or 80, with the time that is left; any other
/// scheme ends the test with "Unsupported scheme", and a clock past the time
/// allowed ends it before any request.
pub proof fn download_requests_the_url_at_its_scheme_port(s: DownloadState, e1: Elapsed, e2: Elapsed)
    requires
        s.phase == DownloadPhase::CheckAfterResolve,
        s.url.2 is Some,
    ensures
        timed_out(s.timeout_seconds, e1) ==> download_transition(s, DownloadEvent::Clock(e1)).1
            == DownloadActionView::Finish(Err("Operation timed out during DNS resolution"@)),
        !timed_out(s.timeout_seconds, e1) && s.url.1 != "https"@ && s.url.1 != "http"@
            ==> download_transition(s, DownloadEvent::Clock(e1)).1 == DownloadActionView::Finish(
            Err("Unsupported scheme"@),
        ),
        !timed_out(s.timeout_seconds, e1) && (s.url.1 == "https"@ || s.url.1 == "http"@) ==> {
            let s1 = download_transition(s, DownloadEvent::Clock(e1)).0;
            &&& download_transition(s, DownloadEvent::Clock(e1)).1 == DownloadActionView::ReadClock
            &&& timed_out(s.timeout_seconds, e2) ==> download_transition(s1, DownloadEvent::Clock(e2)).1
                == DownloadActionView::Finish(Err("Operation timed out before HTTP request"@))
            &&& !timed_out(s.timeout_seconds, e2) ==> download_transition(
                s1,
                DownloadEvent::Clock(e2),
            ).1 == DownloadActionView::Request(
                s.url.2->Some_0,
                if s.url.1 == "https"@ {
                    443u16
                } else {
                    80u16
                },
                s.url.0,
                remaining(s.timeout_seconds, e2),
            )
        },
{
    reveal_strlit("https");
    reveal_strlit("http");
}

/// The time is up exactly when the elapsed time has reached the whole number
/// of seconds allowed.
pub proof fn time_is_up_at_the_limit(timeout_seconds: u64, e: Elapsed)
    requires
        e.nanos < 1_000_000_000,
    ensures
        timed_out(timeout_seconds, e) <==> e.secs * 1_000_000_000 + e.nanos >= timeout_seconds
            * 1_000_000_000,
{
}

} // verus!
