//! The Windows flow that sets or resets the DNS server through the IP helper
//! API and an elevated `netsh`: the adapter is chosen here, the change is
//! made by the caller.

use vstd::prelude::*;
use crate::text::{decimal, push_decimal, chars_of, string_of};

verus! {

/// What the IP helper API reports of a network adapter.
pub struct AdapterInfo {
    /// Its operational status is up.
    pub up: bool,
    /// It is a software loopback interface.
    pub loopback: bool,
    /// It has a default gateway.
    pub has_gateway: bool,
    /// Its IPv4 route metric.
    pub metric: u32,
    /// Its friendly name.
    pub name: String,
}

/// A name that can stand between double quotes in a `netsh` argument: not
/// empty, with no double quote and no NUL.
pub open spec fn usable_name(name: Seq<char>) -> bool {
    name.len() > 0 && forall|i: int| 0 <= i < name.len() ==> name[i] != '"' && name[i] != '\0'
}

/// Whether `name` can stand between double quotes in a `netsh` argument.
pub fn is_usable_interface_name(name: &str) -> (r: bool)
    ensures
        r == usable_name(name@),
{
    let v = chars_of(name);
    if v.len() == 0 {
        return false;
    }
    let mut i: usize = 0;
    while i < v.len()
        invariant
            v@ == name@,
            i <= v@.len(),
            forall|j: int| 0 <= j < i ==> v@[j] != '"' && v@[j] != '\0',
        decreases v@.len() - i,
    {
        if v[i] == '"' || v[i] == '\0' {
            return false;
        }
        i = i + 1;
    }
    true
}

/// An adapter that may carry the DNS change: up, not loopback, with a
/// gateway, and with a usable name.
pub open spec fn eligible(a: AdapterInfo) -> bool {
    a.up && !a.loopback && a.has_gateway && usable_name(a.name@)
}

/// The adapter kept after looking at `list` with `best` kept so far: an
/// eligible adapter replaces the kept one when its metric is strictly lower.
pub open spec fn best_from(list: Seq<AdapterInfo>, best: Option<(u32, Seq<char>)>) -> Option<
    (u32, Seq<char>),
>
    decreases list.len(),
{
    if list.len() == 0 {
        best
    } else {
        let a = list[0];
        let replace = eligible(a) && match best {
            None => true,
            Some(b) => a.metric < b.0,
        };
        best_from(list.drop_first(), if replace { Some((a.metric, a.name@)) } else { best })
    }
}

/// The name of the interface the DNS change is made on.
pub open spec fn chosen_interface(list: Seq<AdapterInfo>) -> Option<Seq<char>> {
    match best_from(list, None) {
        Some(b) => Some(b.1),
        None => None,
    }
}

/// The name of the eligible adapter with the lowest metric, the first such
/// in `list`.
pub fn select_interface(list: &Vec<AdapterInfo>) -> (r: Option<String>)
    ensures
        match (r, chosen_interface(list@)) {
            (Some(a), Some(b)) => a@ == b,
            (None, None) => true,
            _ => false,
        },
{
    let n = list.len();
    let mut best: Option<(u32, usize)> = None;
    let mut i: usize = 0;
    assert(list@.subrange(0, n as int) =~= list@);
    while i < n
        invariant
            n == list@.len(),
            i <= n,
            best matches Some(b) ==> b.1 < i,
            best_from(list@, None) == best_from(
                list@.subrange(i as int, n as int),
                match best {
                    Some(b) => Some((b.0, list@[b.1 as int].name@)),
                    None => None,
                },
            ),
        decreases n - i,
    {
        let a = &list[i];
        let ghost rest = list@.subrange(i as int, n as int);
        assert(rest.drop_first() =~= list@.subrange(i + 1, n as int));
        assert(rest[0] == list@[i as int]);
        if a.up && !a.loopback && a.has_gateway && is_usable_interface_name(a.name.as_str()) {
            let better = match best {
                None => true,
                Some(b) => a.metric < b.0,
            };
            if better {
                best = Some((a.metric, i));
            }
        }
        i = i + 1;
    }
    assert(list@.subrange(n as int, n as int).len() == 0);
    match best {
        Some(b) => Some(list[b.1].name.clone()),
        None => None,
    }
}

/// The Win32 error code of a request the user declined (`ERROR_CANCELLED`).
pub const ERROR_CANCELLED: u32 = 1223;

/// How the elevated `netsh` launch ended.
pub enum NetshOutcome {
    /// `ShellExecuteExW` failed, with this `GetLastError` code.
    NotStarted { error: u32 },
    /// It started without handing back a process handle.
    NoProcess,
    /// The process ended; its exit code, if it could be read.
    Exited { code: Option<u32> },
}

/// How the `netsh` outcome reads: `Ok` on success, else the reason.
pub open spec fn netsh_verdict(o: NetshOutcome) -> Result<(), Seq<char>> {
    match o {
        NetshOutcome::NotStarted { error } => if error == ERROR_CANCELLED {
            Err("Operation cancelled by user"@)
        } else {
            Err("Failed to start elevated netsh (error "@ + decimal(error as nat) + ")"@)
        },
        NetshOutcome::NoProcess => Ok(()),
        NetshOutcome::Exited { code } => match code {
            None => Err("Failed to read netsh result"@),
            Some(c) => if c != 0 {
                Err("Failed to set DNS (netsh exit code "@ + decimal(c as nat) + ")"@)
            } else {
                Ok(())
            },
        },
    }
}

/// `s` followed by the decimal notation of `n` and `tail`.
fn with_number(s: &str, n: u32, tail: &str) -> (r: String)
    ensures
        r@ == s@ + decimal(n as nat) + tail@,
{
    let mut v = chars_of(s);
    push_decimal(&mut v, n as u64);
    let t = chars_of(tail);
    crate::text::push_all(&mut v, t.as_slice());
    string_of(v.as_slice())
}

/// How the `netsh` outcome reads.
pub fn netsh_verdict_exec(o: &NetshOutcome) -> (r: Result<(), String>)
    ensures
        match (r, netsh_verdict(*o)) {
            (Ok(_), Ok(_)) => true,
            (Err(a), Err(b)) => a@ == b,
            _ => false,
        },
{
    match o {
        NetshOutcome::NotStarted { error } => {
            if *error == ERROR_CANCELLED {
                Err(String::from_str("Operation cancelled by user"))
            } else {
                Err(with_number("Failed to start elevated netsh (error ", *error, ")"))
            }
        },
        NetshOutcome::NoProcess => Ok(()),
        NetshOutcome::Exited { code } => match code {
            None => Err(String::from_str("Failed to read netsh result")),
            Some(c) => {
                if *c != 0 {
                    Err(with_number("Failed to set DNS (netsh exit code ", *c, ")"))
                } else {
                    Ok(())
                }
            },
        },
    }
}

/// The arguments of the elevated `netsh` for the interface.
pub open spec fn netsh_params(dns: Option<Seq<char>>, interface: Seq<char>) -> Seq<char> {
    match dns {
        Some(d) => "interface ipv4 set dnsservers name=\""@ + interface + "\" source=static address="@
            + d + " register=primary validate=no"@,
        None => "interface ipv4 set dnsservers name=\""@ + interface
            + "\" source=dhcp register=primary validate=no"@,
    }
}

/// The arguments of the elevated `netsh` for the interface.
pub fn netsh_params_exec(dns: &Option<String>, interface: &str) -> (r: String)
    ensures
        r@ == netsh_params(
            match dns {
                Some(d) => Some(d@),
                None => None,
            },
            interface@,
        ),
{
    let mut m = String::from_str("interface ipv4 set dnsservers name=\"");
    m.append(interface);
    match dns {
        Some(d) => {
            m.append("\" source=static address=");
            m.append(d.as_str());
            m.append(" register=primary validate=no");
        },
        None => {
            m.append("\" source=dhcp register=primary validate=no");
        },
    }
    m
}

/// The UTF-16 code units of `c`.
pub open spec fn utf16_units(c: char) -> Seq<u16> {
    let v = (c as u32) as int;
    if v < 0x10000 {
        seq![v as u16]
    } else {
        seq![(0xD800 + (v - 0x10000) / 0x400) as u16, (0xDC00 + (v - 0x10000) % 0x400) as u16]
    }
}

/// The UTF-16 encoding of `s` (`str::encode_utf16`).
pub open spec fn utf16(s: Seq<char>) -> Seq<u16>
    decreases s.len(),
{
    if s.len() == 0 {
        seq![]
    } else {
        utf16(s.drop_last()) + utf16_units(s.last())
    }
}

/// `value` in UTF-16, ended by a NUL, as Win32 functions take text.
pub fn to_wide(value: &str) -> (r: Vec<u16>)
    ensures
        r@ == utf16(value@).push(0u16),
{
    let v = chars_of(value);
    let mut out: Vec<u16> = Vec::new();
    let mut i: usize = 0;
    while i < v.len()
        invariant
            v@ == value@,
            i <= v@.len(),
            out@ == utf16(v@.subrange(0, i as int)),
        decreases v@.len() - i,
    {
        let c = v[i];
        let code = c as u32;
        proof {
            vstd::utf8::char_is_scalar(c);
        }
        if code < 0x10000 {
            out.push(code as u16);
        } else {
            let w = code - 0x10000;
            out.push((0xD800 + w / 0x400) as u16);
            out.push((0xDC00 + w % 0x400) as u16);
        }
        assert(v@.subrange(0, i + 1).drop_last() =~= v@.subrange(0, i as int));
        i = i + 1;
        assert(out@ =~= utf16(v@.subrange(0, i as int)));
    }
    assert(v@.subrange(0, v@.len() as int) =~= v@);
    out.push(0);
    out
}


/// Where a Windows flow stands, as a value.
pub enum WinPhaseView {
    ListAdapters,
    Netsh(Seq<char>),
    Flush(Seq<char>),
    Done,
}

/// What a Windows flow asks for next, as a value.
pub enum WinActionView {
    ListAdapters,
    ElevatedNetsh(Seq<char>),
    FlushDnsCache,
    Finish(Result<Seq<char>, Seq<char>>),
}

/// Where a Windows flow stands.
pub enum WinPhase {
    /// The adapters are being listed.
    ListAdapters,
    /// `netsh` runs elevated for the interface.
    Netsh { interface: String },
    /// The DNS cache is being flushed after the change on the interface.
    Flush { interface: String },
    /// The flow is over.
    Done,
}

impl View for WinPhase {
    type V = WinPhaseView;

    open spec fn view(&self) -> WinPhaseView {
        match self {
            WinPhase::ListAdapters => WinPhaseView::ListAdapters,
            WinPhase::Netsh { interface } => WinPhaseView::Netsh(interface@),
            WinPhase::Flush { interface } => WinPhaseView::Flush(interface@),
            WinPhase::Done => WinPhaseView::Done,
        }
    }
}

/// What comes back for the last request of a Windows flow.
pub enum WinEvent {
    /// The adapters, or `None` when listing them failed.
    Adapters(Option<Vec<AdapterInfo>>),
    /// How the elevated `netsh` ended.
    Netsh(NetshOutcome),
    /// The DNS cache was flushed (whatever `ipconfig` answered).
    Flushed,
}

/// What a Windows flow asks for next.
pub enum WinAction {
    /// List the IPv4 adapters with their gateways.
    ListAdapters,
    /// Run `netsh` elevated with these arguments.
    ElevatedNetsh(String),
    /// Run `ipconfig /flushdns`.
    FlushDnsCache,
    /// The flow is over, with this answer.
    Finish(Result<String, String>),
}

impl View for WinAction {
    type V = WinActionView;

    open spec fn view(&self) -> WinActionView {
        match self {
            WinAction::ListAdapters => WinActionView::ListAdapters,
            WinAction::ElevatedNetsh(p) => WinActionView::ElevatedNetsh(p@),
            WinAction::FlushDnsCache => WinActionView::FlushDnsCache,
            WinAction::Finish(Ok(m)) => WinActionView::Finish(Ok(m@)),
            WinAction::Finish(Err(m)) => WinActionView::Finish(Err(m@)),
        }
    }
}

/// The events a Windows flow takes where it stands.
pub open spec fn win_accepts(phase: WinPhaseView, e: WinEvent) -> bool {
    match phase {
        WinPhaseView::ListAdapters => e is Adapters,
        WinPhaseView::Netsh(_) => e is Netsh,
        WinPhaseView::Flush(_) => e is Flushed,
        WinPhaseView::Done => false,
    }
}

/// Where a Windows flow goes, and what it asks for, when `e` comes back.
pub open spec fn win_transition(dns: Option<Seq<char>>, phase: WinPhaseView, e: WinEvent) -> (
    WinPhaseView,
    WinActionView,
) {
    match (phase, e) {
        (WinPhaseView::ListAdapters, WinEvent::Adapters(list)) => match list {
            None => (
                WinPhaseView::Done,
                WinActionView::Finish(Err("Failed to list network adapters"@)),
            ),
            Some(l) => match chosen_interface(l@) {
                None => (
                    WinPhaseView::Done,
                    WinActionView::Finish(Err("No active network interface found"@)),
                ),
                Some(i) => (WinPhaseView::Netsh(i), WinActionView::ElevatedNetsh(netsh_params(dns, i))),
            },
        },
        (WinPhaseView::Netsh(i), WinEvent::Netsh(o)) => match netsh_verdict(o) {
            Ok(_) => (WinPhaseView::Flush(i), WinActionView::FlushDnsCache),
            Err(m) => (WinPhaseView::Done, WinActionView::Finish(Err(m))),
        },
        (WinPhaseView::Flush(i), WinEvent::Flushed) => (
            WinPhaseView::Done,
            WinActionView::Finish(
                Ok(
                    match dns {
                        Some(d) => "DNS set to "@ + d + " on "@ + i,
                        None => "DNS reset to automatic (DHCP) on "@ + i,
                    },
                ),
            ),
        ),
        _ => (phase, WinActionView::Finish(Err(Seq::empty()))),
    }
}

/// A Windows flow that sets the DNS server, or resets it to DHCP.
pub struct WindowsDnsTask {
    dns: Option<String>,
    phase: WinPhase,
}

impl WindowsDnsTask {
    /// The DNS address being set, or `None` for a reset.
    pub closed spec fn dns(self) -> Option<Seq<char>> {
        match self.dns {
            Some(d) => Some(d@),
            None => None,
        }
    }

    /// Where the flow stands.
    pub closed spec fn phase(self) -> WinPhaseView {
        self.phase@
    }

    /// Whether the flow is over.
    pub fn is_done(&self) -> (r: bool)
        ensures
            r == (self.phase() is Done),
    {
        match self.phase {
            WinPhase::Done => true,
            _ => false,
        }
    }

    /// A flow that sets the DNS server to `dns` on the active interface; it
    /// starts by listing the adapters.
    pub fn set_dns_windows(dns: &str) -> (r: (Self, WinAction))
        ensures
            r.0.dns() == Some(dns@),
            r.0.phase() is ListAdapters,
            r.1 is ListAdapters,
    {
        (WindowsDnsTask { dns: Some(String::from_str(dns)), phase: WinPhase::ListAdapters }, WinAction::ListAdapters)
    }

    /// A flow that resets the DNS server of the active interface to DHCP.
    pub fn reset_dns_windows() -> (r: (Self, WinAction))
        ensures
            r.0.dns() is None,
            r.0.phase() is ListAdapters,
            r.1 is ListAdapters,
    {
        (WindowsDnsTask { dns: None, phase: WinPhase::ListAdapters }, WinAction::ListAdapters)
    }

    /// Takes what came back for the last request and makes the next one.
    pub fn step(&mut self, event: WinEvent) -> (a: WinAction)
        requires
            win_accepts(old(self).phase(), event),
        ensures
            final(self).dns() == old(self).dns(),
            (final(self).phase(), a@) == win_transition(old(self).dns(), old(self).phase(), event),
    {
        let (phase, action) = match (&self.phase, &event) {
            (WinPhase::ListAdapters, WinEvent::Adapters(list)) => match list {
                None => (
                    WinPhase::Done,
                    WinAction::Finish(Err(String::from_str("Failed to list network adapters"))),
                ),
                Some(l) => match select_interface(l) {
                    None => (
                        WinPhase::Done,
                        WinAction::Finish(Err(String::from_str("No active network interface found"))),
                    ),
                    Some(i) => {
                        let params = netsh_params_exec(&self.dns, i.as_str());
                        (WinPhase::Netsh { interface: i }, WinAction::ElevatedNetsh(params))
                    },
                },
            },
            (WinPhase::Netsh { interface }, WinEvent::Netsh(o)) => match netsh_verdict_exec(o) {
                Ok(_) => (WinPhase::Flush { interface: interface.clone() }, WinAction::FlushDnsCache),
                Err(m) => (WinPhase::Done, WinAction::Finish(Err(m))),
            },
            (WinPhase::Flush { interface }, WinEvent::Flushed) => {
                let m = match &self.dns {
                    Some(d) => {
                        let mut m = String::from_str("DNS set to ");
                        m.append(d.as_str());
                        m.append(" on ");
                        m.append(interface.as_str());
                        m
                    },
                    None => {
                        let mut m = String::from_str("DNS reset to automatic (DHCP) on ");
                        m.append(interface.as_str());
                        m
                    },
                };
                (WinPhase::Done, WinAction::Finish(Ok(m)))
            },
            _ => {
                assert(false);
                (WinPhase::Done, WinAction::Finish(Err(String::new())))
            },
        };
        self.phase = phase;
        action
    }
}


/// `list[i]` beats every eligible adapter of `list`: its metric is the
/// lowest, and every one before it has a higher metric.
pub open spec fn is_best_at(list: Seq<AdapterInfo>, i: int) -> bool {
    &&& 0 <= i < list.len()
    &&& eligible(list[i])
    &&& forall|j: int| 0 <= j < list.len() && eligible(#[trigger] list[j]) ==> list[i].metric <= list[j].metric
    &&& forall|j: int| 0 <= j < i && eligible(#[trigger] list[j]) ==> list[i].metric < list[j].metric
}

/// What `best_from` keeps: the adapter kept before, when none of `list` has
/// a lower metric, or else the best adapter of `list`.
proof fn lemma_best_from(list: Seq<AdapterInfo>, best: Option<(u32, Seq<char>)>)
    ensures
        best_from(list, best) is None <==> (best is None && forall|i: int|
            0 <= i < list.len() ==> !eligible(#[trigger] list[i])),
        best_from(list, best) matches Some(r) ==> ({
            ||| (best matches Some(b) && r == b && forall|j: int|
                0 <= j < list.len() && eligible(#[trigger] list[j]) ==> b.0 <= list[j].metric)
            ||| exists|i: int|
                is_best_at(list, i) && r == (list[i].metric, list[i].name@) && (best matches Some(
                    b,
                ) ==> list[i].metric < b.0)
        }),
    decreases list.len(),
{
    if list.len() > 0 {
        let a = list[0];
        let rest = list.drop_first();
        let replace = eligible(a) && match best {
            None => true,
            Some(b) => a.metric < b.0,
        };
        let next = if replace {
            Some((a.metric, a.name@))
        } else {
            best
        };
        lemma_best_from(rest, next);
        assert forall|j: int| 0 <= j < rest.len() implies rest[j] == list[j + 1] by {}
        if let Some(r) = best_from(list, best) {
            let kept = next matches Some(b) && r == b && forall|j: int|
                0 <= j < rest.len() && eligible(#[trigger] rest[j]) ==> b.0 <= rest[j].metric;
            if kept {
                let b = next->Some_0;
                if replace {
                    assert(is_best_at(list, 0)) by {
                        assert forall|j: int| 0 <= j < list.len() && eligible(#[trigger] list[j])
                            implies list[0].metric <= list[j].metric by {
                            if j > 0 {
                                assert(list[j] == rest[j - 1]);
                            }
                        }
                    }
                } else {
                    assert forall|j: int| 0 <= j < list.len() && eligible(#[trigger] list[j])
                        implies b.0 <= list[j].metric by {
                        if j > 0 {
                            assert(list[j] == rest[j - 1]);
                        }
                    }
                }
            } else {
                let i = choose|i: int|
                    is_best_at(rest, i) && r == (rest[i].metric, rest[i].name@) && (next matches Some(
                        b,
                    ) ==> rest[i].metric < b.0);
                assert(list[i + 1] == rest[i]);
                assert(is_best_at(list, i + 1)) by {
                    assert forall|j: int| 0 <= j < list.len() && eligible(#[trigger] list[j])
                        implies list[i + 1].metric <= list[j].metric by {
                        if j > 0 {
                            assert(list[j] == rest[j - 1]);
                        } else if !replace {
                            match best {
                                Some(b) => {},
                                None => {},
                            }
                        }
                    }
                    assert forall|j: int| 0 <= j < i + 1 && eligible(#[trigger] list[j]) implies list[i
                        + 1].metric < list[j].metric by {
                        if j > 0 {
                            assert(list[j] == rest[j - 1]);
                        }
                    }
                }
            }
        } else {
            assert forall|i: int| 0 <= i < list.len() implies !eligible(#[trigger] list[i]) by {
                if i > 0 {
                    assert(list[i] == rest[i - 1]);
                }
            }
        }
    }
}

/// The interface chosen for the DNS change is the eligible adapter with the
/// lowest metric, the first of those in the list; there is none exactly
/// when no adapter is eligible.
pub proof fn chosen_interface_is_best(list: Seq<AdapterInfo>)
    ensures
        chosen_interface(list) is None <==> forall|i: int|
            0 <= i < list.len() ==> !eligible(#[trigger] list[i]),
        chosen_interface(list) matches Some(n) ==> exists|i: int|
            is_best_at(list, i) && list[i].name@ == n,
{
    lemma_best_from(list, None);
}


/// A text without NUL characters encodes to UTF-16 without NUL units, so the
/// NUL that `to_wide` appends is the only one and Win32 reads the whole text.
pub proof fn wide_text_ends_at_its_terminator(s: Seq<char>)
    requires
        forall|i: int| 0 <= i < s.len() ==> s[i] != '\0',
    ensures
        forall|k: int| 0 <= k < utf16(s).len() ==> utf16(s)[k] != 0u16,
    decreases s.len(),
{
    if s.len() > 0 {
        let c = s.last();
        wide_text_ends_at_its_terminator(s.drop_last());
        vstd::utf8::char_is_scalar(c);
        assert(c != '\0');
        assert((c as u32) != 0) by {
            if (c as u32) == 0 {
                vstd::utf8::char_u32_cast(c, 0);
                assert((0u32 as char) == '\0');
            }
        }
        let u = utf16_units(c);
        assert forall|k: int| 0 <= k < u.len() implies u[k] != 0u16 by {}
        let a = utf16(s.drop_last());
        assert forall|k: int| 0 <= k < utf16(s).len() implies utf16(s)[k] != 0u16 by {
            if k < a.len() {
                assert(utf16(s)[k] == a[k]);
            } else {
                assert(utf16(s)[k] == u[k - a.len()]);
            }
        }
    }
}

/// The Win32 flow changes the interface it chose from the adapters: `netsh`
/// runs elevated with that interface's name (and the address, for a set),
/// and once `netsh` has succeeded and the cache is flushed, the success
/// message names the same interface; a `netsh` failure ends the flow with
/// its verdict and no flush.
pub proof fn windows_flow_changes_the_chosen_interface(
    dns: Option<Seq<char>>,
    adapters: Vec<AdapterInfo>,
    o: NetshOutcome,
)
    requires
        chosen_interface(adapters@) is Some,
    ensures
        ({
            let i = chosen_interface(adapters@)->Some_0;
            let first = win_transition(dns, WinPhaseView::ListAdapters, WinEvent::Adapters(Some(adapters)));
            let params = match dns {
                Some(d) => "interface ipv4 set dnsservers name=\""@ + i + "\" source=static address="@ + d
                    + " register=primary validate=no"@,
                None => "interface ipv4 set dnsservers name=\""@ + i
                    + "\" source=dhcp register=primary validate=no"@,
            };
            let message = match dns {
                Some(d) => "DNS set to "@ + d + " on "@ + i,
                None => "DNS reset to automatic (DHCP) on "@ + i,
            };
            let second = win_transition(dns, first.0, WinEvent::Netsh(o));
            &&& first == (WinPhaseView::Netsh(i), WinActionView::ElevatedNetsh(params))
            &&& netsh_verdict(o) is Ok ==> second == (WinPhaseView::Flush(i), WinActionView::FlushDnsCache)
                && win_transition(dns, second.0, WinEvent::Flushed) == (
                WinPhaseView::Done,
                WinActionView::Finish(Ok(message)),
            )
            &&& netsh_verdict(o) matches Err(m) ==> second == (
                WinPhaseView::Done,
                WinActionView::Finish(Err(m)),
            )
        }),
{
}

/// The elevated `netsh` counts as done exactly when it started and did not
/// report a failing exit: a launch the user declined reads as a cancellation,
/// any other failed launch names its error code, an exit code that cannot be
/// read or is not 0 is a failure that says so.
pub proof fn netsh_succeeds_only_on_a_clean_exit(o: NetshOutcome)
    ensures
        netsh_verdict(o) is Ok <==> (o is NoProcess || (o is Exited && o->code == Some(0u32))),
        o is NotStarted && o->error == 1223 ==> netsh_verdict(o) == Err::<(), Seq<char>>(
            "Operation cancelled by user"@,
        ),
        o is NotStarted && o->error != 1223 ==> netsh_verdict(o) == Err::<(), Seq<char>>(
            "Failed to start elevated netsh (error "@ + decimal(o->error as nat) + ")"@,
        ),
        o is Exited && o->code is Some && o->code->Some_0 != 0 ==> netsh_verdict(o) == Err::<
            (),
            Seq<char>,
        >("Failed to set DNS (netsh exit code "@ + decimal(o->code->Some_0 as nat) + ")"@),
        o is Exited && o->code is None ==> netsh_verdict(o) == Err::<(), Seq<char>>(
            "Failed to read netsh result"@,
        ),
{
}

/// Each character's UTF-16 units decode back to it: one unit equal to its
/// code below 0x10000, else a high surrogate and a low surrogate that carry
/// its code less 0x10000.
pub proof fn utf16_units_decode_back(c: char)
    ensures
        (c as u32) < 0x10000 ==> utf16_units(c) == seq![(c as u32) as u16],
        (c as u32) >= 0x10000 ==> {
            let u = utf16_units(c);
            &&& u.len() == 2
            &&& 0xD800 <= u[0] < 0xDC00
            &&& 0xDC00 <= u[1] < 0xE000
            &&& (u[0] - 0xD800) * 0x400 + (u[1] - 0xDC00) + 0x10000 == c as u32
        },
{
    vstd::utf8::char_is_scalar(c);
    let v = (c as u32) as int;
    if v >= 0x10000 {
        let w = v - 0x10000;
        assert(w < 0x100000);
        assert(0 <= w / 0x400 < 0x400) by (nonlinear_arith)
            requires
                0 <= w < 0x100000,
        ;
        assert(0 <= w % 0x400 < 0x400) by (nonlinear_arith)
            requires
                0 <= w,
        ;
        assert((w / 0x400) * 0x400 + w % 0x400 == w) by (nonlinear_arith)
            requires
                0 <= w,
        ;
    }
}

/// An adapter may carry the change exactly when it is up, is not a loopback
/// interface, has a default gateway, and its name is not empty and holds no
/// double quote and no NUL.
pub proof fn eligible_adapters(a: AdapterInfo)
    ensures
        eligible(a) <==> (a.up && !a.loopback && a.has_gateway && a.name@.len() > 0 && forall|i: int|
            0 <= i < a.name@.len() ==> a.name@[i] != '"' && a.name@[i] != '\0'),
{
}

} // verus!
