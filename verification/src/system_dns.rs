//! The flows that point the system at a DNS server, or back at the one that
//! DHCP gives, on macOS, Linux and Windows. Each flow is a state machine: it
//! asks for an IP-address check or for a command to be run, and decides from
//! what comes back.

use vstd::prelude::*;
use crate::text::{
    owned, trim, trim_str, strip_prefix, contains, str_contains, words, nth_word, lines, first_nonblank_line,
    first_nonblank_line_exec, escape_quoted, escape_for_shell, second_field, second_field_exec,
    starts_with, starts_with_exec, chars_of, string_of, slice_range, trim_bounds, next_line,
};
use crate::commands::{CommandLine, CommandResult, texts, strings, command, probe_found, probe_found_exec};

verus! {

/// The operating system whose DNS settings are changed.
#[derive(Debug, Clone, Copy, PartialEq, Eq, Structural)]
pub enum Platform {
    MacOs,
    Windows,
    Linux,
    Other,
}

/// The elevated command that makes the change, which decides how its
/// failure reads.
#[derive(Debug, Clone, Copy, PartialEq, Eq, Structural)]
pub enum Runner {
    /// `pkexec sh -c <script>` (Linux).
    Pkexec,
    /// `osascript -e <script>` with administrator privileges (macOS).
    Osascript,
    /// `powershell -NoProfile -Command <script>` (Windows); `reset` for the
    /// way back to DHCP.
    PowerShell { reset: bool },
}

/// The text of a message or script; a `String` in executable code.
pub type Text = Seq<char>;

/// Where a flow stands, as a value.
pub enum PhaseView {
    ValidateIp,
    ProbeNmcli,
    ProbeResolvectl,
    ListConnections,
    ReadRoute,
    MacRoute,
    MacPorts(Text),
    MacProbe(nat),
    WinInterface,
    Elevated(Runner, Text),
    Done,
}

/// What a flow asks for next, as a value.
pub enum ActionView {
    CheckIp(Text),
    Run(Text, Seq<Text>),
    Finish(Result<Text, Text>),
}

/// Where a flow stands.
pub enum Phase {
    /// The DNS address is being checked.
    ValidateIp,
    /// `which nmcli` runs.
    ProbeNmcli,
    /// `which resolvectl` runs.
    ProbeResolvectl,
    /// `nmcli` lists the active connections.
    ListConnections,
    /// `ip route show default` runs.
    ReadRoute,
    /// `route -n get default` runs.
    MacRoute,
    /// `networksetup -listallhardwareports` runs; the interface of the
    /// default route.
    MacPorts { interface: String },
    /// `networksetup -getdnsservers` probes the fallback service `index`.
    MacProbe { index: usize },
    /// PowerShell names the interface with the default gateway.
    WinInterface,
    /// The elevated command runs; the message if it succeeds.
    Elevated { runner: Runner, success: String },
    /// The flow is over.
    Done,
}

impl View for Phase {
    type V = PhaseView;

    open spec fn view(&self) -> PhaseView {
        match self {
            Phase::ValidateIp => PhaseView::ValidateIp,
            Phase::ProbeNmcli => PhaseView::ProbeNmcli,
            Phase::ProbeResolvectl => PhaseView::ProbeResolvectl,
            Phase::ListConnections => PhaseView::ListConnections,
            Phase::ReadRoute => PhaseView::ReadRoute,
            Phase::MacRoute => PhaseView::MacRoute,
            Phase::MacPorts { interface } => PhaseView::MacPorts(interface@),
            Phase::MacProbe { index } => PhaseView::MacProbe(*index as nat),
            Phase::WinInterface => PhaseView::WinInterface,
            Phase::Elevated { runner, success } => PhaseView::Elevated(*runner, success@),
            Phase::Done => PhaseView::Done,
        }
    }
}

/// What comes back for the last request of a flow.
pub enum DnsEvent {
    /// Whether the text was an IP address.
    IpChecked(bool),
    /// How the command ended.
    Ran(CommandResult),
}

/// What a flow asks for next.
pub enum DnsAction {
    /// Check whether this text is an IP address.
    CheckIp(String),
    /// Run this command.
    Run(CommandLine),
    /// The flow is over, with this answer.
    Finish(Result<String, String>),
}

impl View for DnsAction {
    type V = ActionView;

    open spec fn view(&self) -> ActionView {
        match self {
            DnsAction::CheckIp(s) => ActionView::CheckIp(s@),
            DnsAction::Run(c) => ActionView::Run(c.program@, texts(c.args@)),
            DnsAction::Finish(Ok(m)) => ActionView::Finish(Ok(m@)),
            DnsAction::Finish(Err(m)) => ActionView::Finish(Err(m@)),
        }
    }
}

/// The message of a successful change to `dns` (or back to DHCP, for `None`).
pub open spec fn set_message(dns: Text, target: Text) -> Text {
    "DNS set to "@ + dns + " on "@ + target
}

/// The message of a successful reset through DHCP.
pub open spec fn reset_dhcp_message(target: Text) -> Text {
    "DNS reset to automatic (DHCP) on "@ + target
}

/// The message of a successful reset through `resolvectl revert`.
pub open spec fn reset_auto_message(target: Text) -> Text {
    "DNS reset to automatic on "@ + target
}

/// The script that `nmcli` runs for the connection.
pub open spec fn nmcli_script(dns: Option<Text>, connection: Text) -> Text {
    match dns {
        Some(d) => "nmcli con mod \""@ + connection + "\" ipv4.dns \""@ + d
            + "\" ipv4.ignore-auto-dns yes && nmcli con up \""@ + connection + "\""@,
        None => "nmcli con mod \""@ + connection
            + "\" ipv4.dns \"\" ipv4.ignore-auto-dns no && nmcli con up \""@ + connection + "\""@,
    }
}

/// The script that `resolvectl` runs for the interface.
pub open spec fn resolvectl_script(dns: Option<Text>, interface: Text) -> Text {
    match dns {
        Some(d) => "resolvectl dns "@ + interface + " "@ + d + " && resolvectl flush-caches"@,
        None => "resolvectl revert "@ + interface + " && resolvectl flush-caches"@,
    }
}

/// The shell script that `networksetup` runs for the service.
pub open spec fn networksetup_script(dns: Option<Text>, service: Text) -> Text {
    match dns {
        Some(d) => "networksetup -setdnsservers \""@ + escape_quoted(service) + "\" "@ + d
            + " && dscacheutil -flushcache && killall -HUP mDNSResponder"@,
        None => "networksetup -setdnsservers \""@ + escape_quoted(service)
            + "\" empty && dscacheutil -flushcache && killall -HUP mDNSResponder"@,
    }
}

/// The AppleScript that runs `script` with administrator privileges.
pub open spec fn osascript_program(script: Text) -> Text {
    "do shell script \""@ + escape_quoted(script) + "\" with administrator privileges"@
}

/// The PowerShell script that changes the interface through an elevated `netsh`.
pub open spec fn netsh_script(dns: Option<Text>, interface: Text) -> Text {
    match dns {
        Some(d) => "Start-Process netsh -Verb RunAs -Wait -ArgumentList 'interface','ip','set','dns','name="@
            + interface + "','static','"@ + d + "'; ipconfig /flushdns"@,
        None => "Start-Process netsh -Verb RunAs -Wait -ArgumentList 'interface','ip','set','dns','name="@
            + interface + "','dhcp'; ipconfig /flushdns"@,
    }
}

/// The PowerShell script that names the interface with the default gateway.
pub open spec fn interface_query() -> Text {
    "(Get-NetIPConfiguration | Where-Object { $_.IPv4DefaultGateway -ne $null } | Select-Object -First 1 -ExpandProperty InterfaceAlias)"@
}

/// How the elevated command's run reads: `Ok` on success, else the reason.
pub open spec fn elevated_verdict(runner: Runner, r: CommandResult) -> Result<(), Text> {
    match r {
        CommandResult::NotStarted(e) => Err("Failed to run command: "@ + e@),
        CommandResult::Finished { success, stderr, .. } => if success {
            Ok(())
        } else {
            match runner {
                Runner::Pkexec => if contains(stderr@, " dismissed"@) || contains(
                    stderr@,
                    "Not authorized"@,
                ) {
                    Err("Operation cancelled or not authorized"@)
                } else {
                    Err("Failed to set DNS: "@ + trim(stderr@))
                },
                Runner::Osascript => if contains(stderr@, "User canceled"@) || contains(
                    stderr@,
                    "-128"@,
                ) {
                    Err("Operation cancelled by user"@)
                } else {
                    Err("Failed to set DNS: "@ + trim(stderr@))
                },
                Runner::PowerShell { reset } => if reset {
                    Err("Failed to reset DNS: "@ + trim(stderr@))
                } else {
                    Err("Failed to set DNS: "@ + trim(stderr@))
                },
            }
        },
    }
}

/// The interface that `route -n get default` names: the first line that
/// starts (after white space) with `interface:`, the field after its first
/// colon, trimmed, if not empty.
pub open spec fn route_interface(out: Text) -> Option<Text> {
    match find_interface_line(lines(out)) {
        Some(l) => match second_field(l) {
            Some(f) => if trim(f).len() > 0 {
                Some(trim(f))
            } else {
                None
            },
            None => None,
        },
        None => None,
    }
}

/// The first of `ls` that starts (after white space) with `interface:`.
pub open spec fn find_interface_line(ls: Seq<Text>) -> Option<Text>
    decreases ls.len(),
{
    if ls.len() == 0 {
        None
    } else if starts_with(trim(ls[0]), "interface:"@) {
        Some(ls[0])
    } else {
        find_interface_line(ls.drop_first())
    }
}

/// The hardware port whose device is `interface`, scanning the lines of
/// `networksetup -listallhardwareports` with `current` the last port named.
pub open spec fn port_scan(ls: Seq<Text>, current: Text, interface: Text) -> Option<Text>
    decreases ls.len(),
{
    if ls.len() == 0 {
        None
    } else {
        match strip_prefix(ls[0], "Hardware Port:"@) {
            Some(p) => port_scan(ls.drop_first(), trim(p), interface),
            None => match strip_prefix(ls[0], "Device:"@) {
                Some(d) => if trim(d) == interface {
                    Some(current)
                } else {
                    port_scan(ls.drop_first(), current, interface)
                },
                None => port_scan(ls.drop_first(), current, interface),
            },
        }
    }
}

/// The network service of `interface` in the output of
/// `networksetup -listallhardwareports`.
pub open spec fn hardware_port(out: Text, interface: Text) -> Option<Text> {
    port_scan(lines(out), Seq::empty(), interface)
}

/// The services tried, in order, when no hardware port matches.
pub open spec fn fallback_service(index: nat) -> Text {
    if index == 0 {
        "Wi-Fi"@
    } else {
        "Ethernet"@
    }
}

/// The interface of the default route in the output of `ip route show
/// default`: its fifth word.
pub open spec fn ip_route_interface(out: Text) -> Option<Text> {
    if words(out).len() > 4 {
        Some(words(out)[4])
    } else {
        None
    }
}


/// The interface that `route -n get default` names.
pub fn route_interface_exec(out: &str) -> (r: Option<String>)
    ensures
        match (r, route_interface(out@)) {
            (Some(a), Some(b)) => a@ == b,
            (None, None) => true,
            _ => false,
        },
{
    let v = chars_of(out);
    let n = v.len();
    let prefix = chars_of("interface:");
    let mut i: usize = 0;
    assert(v@.subrange(0, n as int) =~= v@);
    while i < n
        invariant
            n == v@.len(),
            i <= n,
            v@ == out@,
            prefix@ == "interface:"@,
            find_interface_line(lines(v@)) == find_interface_line(
                lines(v@.subrange(i as int, n as int)),
            ),
        decreases n - i,
    {
        let (e, next) = next_line(v.as_slice(), i);
        let line = slice_range(v.as_slice(), i, e);
        let (a, b) = trim_bounds(line);
        let trimmed = slice_range(line, a, b);
        let ghost ls = lines(v@.subrange(i as int, n as int));
        assert(ls.drop_first() =~= lines(v@.subrange(next as int, n as int)));
        assert(ls[0] == line@);
        if starts_with_exec(trimmed, prefix.as_slice()) {
            assert(find_interface_line(ls) == Some(line@));
            match second_field_exec(line) {
                None => {
                    return None;
                },
                Some((fa, fb)) => {
                    let field = slice_range(line, fa, fb);
                    let (ta, tb) = trim_bounds(field);
                    if ta < tb {
                        return Some(string_of(slice_range(field, ta, tb)));
                    } else {
                        return None;
                    }
                },
            }
        }
        i = next;
    }
    assert(lines(v@.subrange(n as int, n as int)) =~= Seq::<Seq<char>>::empty());
    None
}

/// The network service of `interface` in the output of
/// `networksetup -listallhardwareports`.
pub fn hardware_port_exec(out: &str, interface: &str) -> (r: Option<String>)
    ensures
        match (r, hardware_port(out@, interface@)) {
            (Some(a), Some(b)) => a@ == b,
            (None, None) => true,
            _ => false,
        },
{
    let v = chars_of(out);
    let want = chars_of(interface);
    let n = v.len();
    let port_prefix = chars_of("Hardware Port:");
    let device_prefix = chars_of("Device:");
    let mut current: Vec<char> = Vec::new();
    let mut i: usize = 0;
    assert(v@.subrange(0, n as int) =~= v@);
    while i < n
        invariant
            n == v@.len(),
            i <= n,
            v@ == out@,
            want@ == interface@,
            port_prefix@ == "Hardware Port:"@,
            device_prefix@ == "Device:"@,
            hardware_port(out@, interface@) == port_scan(
                lines(v@.subrange(i as int, n as int)),
                current@,
                interface@,
            ),
        decreases n - i,
    {
        let (e, next) = next_line(v.as_slice(), i);
        let line = slice_range(v.as_slice(), i, e);
        let ghost ls = lines(v@.subrange(i as int, n as int));
        assert(ls.drop_first() =~= lines(v@.subrange(next as int, n as int)));
        assert(ls[0] == line@);
        let ghost before = current@;
        let plen = port_prefix.len();
        let dlen = device_prefix.len();
        if starts_with_exec(line, port_prefix.as_slice()) {
            let rest = slice_range(line, plen, line.len());
            let (a, b) = trim_bounds(rest);
            let mut next_current: Vec<char> = Vec::new();
            crate::text::push_all(&mut next_current, slice_range(rest, a, b));
            assert(strip_prefix(line@, "Hardware Port:"@) == Some(rest@));
            assert(next_current@ =~= trim(rest@));
            current = next_current;
            assert(port_scan(ls, before, interface@) == port_scan(ls.drop_first(), current@, interface@));
        } else if starts_with_exec(line, device_prefix.as_slice()) {
            let rest = slice_range(line, dlen, line.len());
            let (a, b) = trim_bounds(rest);
            let dev = slice_range(rest, a, b);
            assert(strip_prefix(line@, "Hardware Port:"@) is None);
            assert(strip_prefix(line@, "Device:"@) == Some(rest@));
            assert(dev@ == trim(rest@));
            if crate::text::occurs_at_exec(dev, want.as_slice(), 0) && dev.len() == want.len() {
                assert(dev@ =~= want@);
                assert(port_scan(ls, before, interface@) == Some(before));
                return Some(string_of(current.as_slice()));
            }
            assert(dev@ != want@) by {
                if dev@ == want@ {
                    assert(dev@.subrange(0, dev@.len() as int) =~= dev@);
                }
            }
            assert(port_scan(ls, before, interface@) == port_scan(ls.drop_first(), before, interface@));
        } else {
            assert(strip_prefix(line@, "Hardware Port:"@) is None);
            assert(strip_prefix(line@, "Device:"@) is None);
            assert(port_scan(ls, before, interface@) == port_scan(ls.drop_first(), before, interface@));
        }
        i = next;
    }
    assert(lines(v@.subrange(n as int, n as int)) =~= Seq::<Seq<char>>::empty());
    None
}

/// The fifth word of the output of `ip route show default`.
pub fn ip_route_interface_exec(out: &str) -> (r: Option<String>)
    ensures
        match (r, ip_route_interface(out@)) {
            (Some(a), Some(b)) => a@ == b,
            (None, None) => true,
            _ => false,
        },
{
    let v = chars_of(out);
    match nth_word(v.as_slice(), 4) {
        Some((a, b)) => Some(string_of(slice_range(v.as_slice(), a, b))),
        None => None,
    }
}

/// How the elevated command's run reads.
pub fn elevated_verdict_exec(runner: Runner, r: &CommandResult) -> (v: Result<(), String>)
    ensures
        match (v, elevated_verdict(runner, *r)) {
            (Ok(_), Ok(_)) => true,
            (Err(a), Err(b)) => a@ == b,
            _ => false,
        },
{
    match r {
        CommandResult::NotStarted(e) => {
            let mut m = owned("Failed to run command: ");
            m.append(e.as_str());
            Err(m)
        },
        CommandResult::Finished { success, stderr, .. } => {
            if *success {
                return Ok(());
            }
            match runner {
                Runner::Pkexec => {
                    if str_contains(stderr.as_str(), " dismissed") || str_contains(
                        stderr.as_str(),
                        "Not authorized",
                    ) {
                        return Err(owned("Operation cancelled or not authorized"));
                    }
                },
                Runner::Osascript => {
                    if str_contains(stderr.as_str(), "User canceled") || str_contains(
                        stderr.as_str(),
                        "-128",
                    ) {
                        return Err(owned("Operation cancelled by user"));
                    }
                },
                Runner::PowerShell { reset } => {
                    if reset {
                        let mut m = owned("Failed to reset DNS: ");
                        let t = trim_str(stderr.as_str());
                        m.append(t.as_str());
                        return Err(m);
                    }
                },
            }
            let mut m = owned("Failed to set DNS: ");
            let t = trim_str(stderr.as_str());
            m.append(t.as_str());
            Err(m)
        },
    }
}


/// The first request on `platform`, once the address (if any) is accepted.
pub open spec fn dispatch(platform: Platform) -> (PhaseView, ActionView) {
    match platform {
        Platform::Linux => (PhaseView::ProbeNmcli, ActionView::Run("which"@, seq!["nmcli"@])),
        Platform::MacOs => (
            PhaseView::MacRoute,
            ActionView::Run("route"@, seq!["-n"@, "get"@, "default"@]),
        ),
        Platform::Windows => (
            PhaseView::WinInterface,
            ActionView::Run("powershell"@, seq!["-NoProfile"@, "-Command"@, interface_query()]),
        ),
        Platform::Other => finish_err("Unsupported operating system"@),
    }
}

/// The end of a flow with the error `m`.
pub open spec fn finish_err(m: Text) -> (PhaseView, ActionView) {
    (PhaseView::Done, ActionView::Finish(Err(m)))
}

/// How a flow starts: setting `dns` begins with checking that it is an IP
/// address; a reset begins on the platform at once.
pub open spec fn start(platform: Platform, dns: Option<Text>) -> (PhaseView, ActionView) {
    match dns {
        Some(d) => (PhaseView::ValidateIp, ActionView::CheckIp(d)),
        None => dispatch(platform),
    }
}

/// The elevated `pkexec` run on Linux, through `nmcli` or `resolvectl`.
pub open spec fn linux_elevate(dns: Option<Text>, name: Text, nmcli: bool) -> (PhaseView, ActionView) {
    let script = if nmcli {
        nmcli_script(dns, name)
    } else {
        resolvectl_script(dns, name)
    };
    let success = match dns {
        Some(d) => set_message(d, name),
        None => if nmcli {
            reset_dhcp_message(name)
        } else {
            reset_auto_message(name)
        },
    };
    (
        PhaseView::Elevated(Runner::Pkexec, success),
        ActionView::Run("pkexec"@, seq!["sh"@, "-c"@, script]),
    )
}

/// The elevated `osascript` run on macOS for the service.
pub open spec fn mac_elevate(dns: Option<Text>, service: Text) -> (PhaseView, ActionView) {
    let success = match dns {
        Some(d) => set_message(d, service),
        None => reset_dhcp_message(service),
    };
    (
        PhaseView::Elevated(Runner::Osascript, success),
        ActionView::Run(
            "osascript"@,
            seq!["-e"@, osascript_program(networksetup_script(dns, service))],
        ),
    )
}

/// The elevated PowerShell run on Windows for the interface.
pub open spec fn win_elevate(dns: Option<Text>, interface: Text) -> (PhaseView, ActionView) {
    let success = match dns {
        Some(d) => set_message(d, interface),
        None => reset_dhcp_message(interface),
    };
    (
        PhaseView::Elevated(Runner::PowerShell { reset: dns is None }, success),
        ActionView::Run(
            "powershell"@,
            seq!["-NoProfile"@, "-Command"@, netsh_script(dns, interface)],
        ),
    )
}

/// The `networksetup` probe of the fallback service `index`.
pub open spec fn mac_probe(index: nat) -> (PhaseView, ActionView) {
    (
        PhaseView::MacProbe(index),
        ActionView::Run("networksetup"@, seq!["-getdnsservers"@, fallback_service(index)]),
    )
}

/// The events a flow takes where it stands.
pub open spec fn accepts(phase: PhaseView, e: DnsEvent) -> bool {
    match phase {
        PhaseView::ValidateIp => e is IpChecked,
        PhaseView::Done => false,
        _ => e is Ran,
    }
}

/// Where a flow goes, and what it asks for, when `e` comes back.
pub open spec fn transition(platform: Platform, dns: Option<Text>, phase: PhaseView, e: DnsEvent) -> (
    PhaseView,
    ActionView,
) {
    match (phase, e) {
        (PhaseView::ValidateIp, DnsEvent::IpChecked(ok)) => if ok {
            dispatch(platform)
        } else {
            finish_err("Invalid DNS address"@)
        },
        (PhaseView::ProbeNmcli, DnsEvent::Ran(r)) => if probe_found(r) {
            (
                PhaseView::ListConnections,
                ActionView::Run(
                    "nmcli"@,
                    seq!["-t"@, "-f"@, "NAME"@, "con"@, "show"@, "--active"@],
                ),
            )
        } else {
            (PhaseView::ProbeResolvectl, ActionView::Run("which"@, seq!["resolvectl"@]))
        },
        (PhaseView::ProbeResolvectl, DnsEvent::Ran(r)) => if probe_found(r) {
            (PhaseView::ReadRoute, ActionView::Run("ip"@, seq!["route"@, "show"@, "default"@]))
        } else {
            finish_err("NetworkManager (nmcli) or systemd-resolved (resolvectl) is required"@)
        },
        (PhaseView::ListConnections, DnsEvent::Ran(r)) => match r {
            CommandResult::NotStarted(e) => finish_err(
                "Failed to detect active connection: "@ + e@,
            ),
            CommandResult::Finished { stdout, .. } => match first_nonblank_line(stdout@) {
                None => finish_err("No active network connection found"@),
                Some(c) => linux_elevate(dns, c, true),
            },
        },
        (PhaseView::ReadRoute, DnsEvent::Ran(r)) => match r {
            CommandResult::NotStarted(e) => finish_err("Failed to detect network interface: "@ + e@),
            CommandResult::Finished { stdout, .. } => match ip_route_interface(stdout@) {
                None => finish_err("No active network interface found"@),
                Some(i) => linux_elevate(dns, i, false),
            },
        },
        (PhaseView::MacRoute, DnsEvent::Ran(r)) => match r {
            CommandResult::NotStarted(e) => finish_err("Failed to detect network interface: "@ + e@),
            CommandResult::Finished { stdout, .. } => match route_interface(stdout@) {
                None => finish_err("No active network interface found"@),
                Some(i) => (
                    PhaseView::MacPorts(i),
                    ActionView::Run("networksetup"@, seq!["-listallhardwareports"@]),
                ),
            },
        },
        (PhaseView::MacPorts(i), DnsEvent::Ran(r)) => match r {
            CommandResult::NotStarted(e) => finish_err("Failed to list network services: "@ + e@),
            CommandResult::Finished { stdout, .. } => match hardware_port(stdout@, i) {
                Some(svc) => mac_elevate(dns, svc),
                None => mac_probe(0),
            },
        },
        (PhaseView::MacProbe(k), DnsEvent::Ran(r)) => if probe_found(r) {
            mac_elevate(dns, fallback_service(k))
        } else if k == 0 {
            mac_probe(1)
        } else {
            finish_err("No supported network service found"@)
        },
        (PhaseView::WinInterface, DnsEvent::Ran(r)) => match r {
            CommandResult::NotStarted(e) => finish_err("Failed to detect network interface: "@ + e@),
            CommandResult::Finished { stdout, .. } => if trim(stdout@).len() == 0 {
                finish_err("No active network interface found"@)
            } else {
                win_elevate(dns, trim(stdout@))
            },
        },
        (PhaseView::Elevated(runner, success), DnsEvent::Ran(r)) => match elevated_verdict(
            runner,
            r,
        ) {
            Ok(_) => (PhaseView::Done, ActionView::Finish(Ok(success))),
            Err(m) => finish_err(m),
        },
        _ => (phase, ActionView::Finish(Err(Seq::empty()))),
    }
}

/// The text of an optional string.
pub open spec fn opt_text(o: Option<String>) -> Option<Text> {
    match o {
        Some(s) => Some(s@),
        None => None,
    }
}

/// A run of `program` with the arguments `args`.
fn run_action(program: &str, args: &[&str]) -> (r: DnsAction)
    ensures
        r@ == ActionView::Run(program@, args@.map_values(|s: &str| s@)),
{
    DnsAction::Run(command(program, strings(args)))
}

/// A run of `program` with argument texts already built.
fn run_owned(program: &str, args: Vec<String>) -> (r: DnsAction)
    ensures
        r@ == ActionView::Run(program@, texts(args@)),
{
    DnsAction::Run(command(program, args))
}

/// The end of a flow with the error `m`.
fn finish_err_exec(m: String) -> (r: (Phase, DnsAction))
    ensures
        (r.0@, r.1@) == finish_err(m@),
{
    (Phase::Done, DnsAction::Finish(Err(m)))
}

/// The first request on `platform`.
fn dispatch_exec(platform: Platform) -> (r: (Phase, DnsAction))
    ensures
        (r.0@, r.1@) == dispatch(platform),
{
    match platform {
        Platform::Linux => {
            let args = ["nmcli"];
            let a = run_action("which", &args);
            assert(args@.map_values(|s: &str| s@) =~= seq!["nmcli"@]);
            (Phase::ProbeNmcli, a)
        },
        Platform::MacOs => {
            let a = run_action("route", &["-n", "get", "default"]);
            assert(seq!["-n", "get", "default"].map_values(|s: &str| s@) =~= seq![
                "-n"@,
                "get"@,
                "default"@,
            ]);
            (Phase::MacRoute, a)
        },
        Platform::Windows => {
            let a = run_action(
                "powershell",
                &[
                    "-NoProfile",
                    "-Command",
                    "(Get-NetIPConfiguration | Where-Object { $_.IPv4DefaultGateway -ne $null } | Select-Object -First 1 -ExpandProperty InterfaceAlias)",
                ],
            );
            assert(seq![
                "-NoProfile",
                "-Command",
                "(Get-NetIPConfiguration | Where-Object { $_.IPv4DefaultGateway -ne $null } | Select-Object -First 1 -ExpandProperty InterfaceAlias)",
            ].map_values(|s: &str| s@) =~= seq!["-NoProfile"@, "-Command"@, interface_query()]);
            (Phase::WinInterface, a)
        },
        Platform::Other => finish_err_exec(owned("Unsupported operating system")),
    }
}


/// The message of a successful change on `target`.
fn success_message(dns: &Option<String>, target: &str, dhcp: bool) -> (r: String)
    ensures
        r@ == match opt_text(*dns) {
            Some(d) => set_message(d, target@),
            None => if dhcp {
                reset_dhcp_message(target@)
            } else {
                reset_auto_message(target@)
            },
        },
{
    match dns {
        Some(d) => {
            let mut m = owned("DNS set to ");
            m.append(d.as_str());
            m.append(" on ");
            m.append(target);
            m
        },
        None => {
            let mut m = if dhcp {
                owned("DNS reset to automatic (DHCP) on ")
            } else {
                owned("DNS reset to automatic on ")
            };
            m.append(target);
            m
        },
    }
}

/// The script that `nmcli` runs for the connection.
fn nmcli_script_exec(dns: &Option<String>, connection: &str) -> (r: String)
    ensures
        r@ == nmcli_script(opt_text(*dns), connection@),
{
    let mut m = owned("nmcli con mod \"");
    m.append(connection);
    match dns {
        Some(d) => {
            m.append("\" ipv4.dns \"");
            m.append(d.as_str());
            m.append("\" ipv4.ignore-auto-dns yes && nmcli con up \"");
        },
        None => {
            m.append("\" ipv4.dns \"\" ipv4.ignore-auto-dns no && nmcli con up \"");
        },
    }
    m.append(connection);
    m.append("\"");
    m
}

/// The script that `resolvectl` runs for the interface.
fn resolvectl_script_exec(dns: &Option<String>, interface: &str) -> (r: String)
    ensures
        r@ == resolvectl_script(opt_text(*dns), interface@),
{
    match dns {
        Some(d) => {
            let mut m = owned("resolvectl dns ");
            m.append(interface);
            m.append(" ");
            m.append(d.as_str());
            m.append(" && resolvectl flush-caches");
            m
        },
        None => {
            let mut m = owned("resolvectl revert ");
            m.append(interface);
            m.append(" && resolvectl flush-caches");
            m
        },
    }
}

/// The shell script that `networksetup` runs for the service.
fn networksetup_script_exec(dns: &Option<String>, service: &str) -> (r: String)
    ensures
        r@ == networksetup_script(opt_text(*dns), service@),
{
    let escaped = escape_for_shell(service);
    let mut m = owned("networksetup -setdnsservers \"");
    m.append(escaped.as_str());
    match dns {
        Some(d) => {
            m.append("\" ");
            m.append(d.as_str());
            m.append(" && dscacheutil -flushcache && killall -HUP mDNSResponder");
        },
        None => {
            m.append("\" empty && dscacheutil -flushcache && killall -HUP mDNSResponder");
        },
    }
    m
}

/// The AppleScript that runs `script` with administrator privileges.
fn osascript_program_exec(script: &str) -> (r: String)
    ensures
        r@ == osascript_program(script@),
{
    let escaped = escape_for_shell(script);
    let mut m = owned("do shell script \"");
    m.append(escaped.as_str());
    m.append("\" with administrator privileges");
    m
}

/// The PowerShell script that changes the interface through `netsh`.
fn netsh_script_exec(dns: &Option<String>, interface: &str) -> (r: String)
    ensures
        r@ == netsh_script(opt_text(*dns), interface@),
{
    let mut m = owned(
        "Start-Process netsh -Verb RunAs -Wait -ArgumentList 'interface','ip','set','dns','name=",
    );
    m.append(interface);
    match dns {
        Some(d) => {
            m.append("','static','");
            m.append(d.as_str());
            m.append("'; ipconfig /flushdns");
        },
        None => {
            m.append("','dhcp'; ipconfig /flushdns");
        },
    }
    m
}

/// The elevated `pkexec` run on Linux.
fn linux_elevate_exec(dns: &Option<String>, name: &str, nmcli: bool) -> (r: (Phase, DnsAction))
    ensures
        (r.0@, r.1@) == linux_elevate(opt_text(*dns), name@, nmcli),
{
    let script = if nmcli {
        nmcli_script_exec(dns, name)
    } else {
        resolvectl_script_exec(dns, name)
    };
    let success = success_message(dns, name, nmcli);
    let args = vec![owned("sh"), owned("-c"), script];
    assert(texts(args@) =~= seq!["sh"@, "-c"@, args@[2]@]);
    (Phase::Elevated { runner: Runner::Pkexec, success }, run_owned("pkexec", args))
}

/// The elevated `osascript` run on macOS.
fn mac_elevate_exec(dns: &Option<String>, service: &str) -> (r: (Phase, DnsAction))
    ensures
        (r.0@, r.1@) == mac_elevate(opt_text(*dns), service@),
{
    let script = networksetup_script_exec(dns, service);
    let program = osascript_program_exec(script.as_str());
    let success = success_message(dns, service, true);
    let args = vec![owned("-e"), program];
    assert(texts(args@) =~= seq!["-e"@, args@[1]@]);
    (Phase::Elevated { runner: Runner::Osascript, success }, run_owned("osascript", args))
}

/// The elevated PowerShell run on Windows.
fn win_elevate_exec(dns: &Option<String>, interface: &str) -> (r: (Phase, DnsAction))
    ensures
        (r.0@, r.1@) == win_elevate(opt_text(*dns), interface@),
{
    let script = netsh_script_exec(dns, interface);
    let success = success_message(dns, interface, true);
    let args = vec![owned("-NoProfile"), owned("-Command"), script];
    assert(texts(args@) =~= seq!["-NoProfile"@, "-Command"@, args@[2]@]);
    let reset = dns.is_none();
    (Phase::Elevated { runner: Runner::PowerShell { reset }, success }, run_owned("powershell", args))
}

/// The `networksetup` probe of the fallback service `index`.
fn mac_probe_exec(index: usize) -> (r: (Phase, DnsAction))
    requires
        index <= 1,
    ensures
        (r.0@, r.1@) == mac_probe(index as nat),
{
    let service = if index == 0 {
        "Wi-Fi"
    } else {
        "Ethernet"
    };
    let args = vec![owned("-getdnsservers"), owned(service)];
    assert(texts(args@) =~= seq!["-getdnsservers"@, fallback_service(index as nat)]);
    (Phase::MacProbe { index }, run_owned("networksetup", args))
}

/// A flow that sets the system DNS server, or resets it to DHCP.
pub struct SystemDnsTask {
    platform: Platform,
    dns: Option<String>,
    phase: Phase,
}

impl SystemDnsTask {
    #[verifier::type_invariant]
    spec fn inv(self) -> bool {
        &&& self.phase matches Phase::MacProbe { index } ==> index <= 1
    }

    /// The platform the flow runs on.
    pub closed spec fn platform(self) -> Platform {
        self.platform
    }

    /// The DNS address being set (trimmed), or `None` for a reset.
    pub closed spec fn dns(self) -> Option<Text> {
        opt_text(self.dns)
    }

    /// Where the flow stands.
    pub closed spec fn phase(self) -> PhaseView {
        self.phase@
    }

    /// Whether the flow is over.
    pub fn is_done(&self) -> (r: bool)
        ensures
            r == (self.phase() is Done),
    {
        match self.phase {
            Phase::Done => true,
            _ => false,
        }
    }

    /// A flow that sets the system DNS server to `dns_server` (trimmed), and
    /// its first request: the check that the address is an IP address.
    pub fn set_system_dns_sync(platform: Platform, dns_server: &str) -> (r: (Self, DnsAction))
        ensures
            r.0.platform() == platform,
            r.0.dns() == Some(trim(dns_server@)),
            (r.0.phase(), r.1@) == start(platform, Some(trim(dns_server@))),
    {
        let dns = trim_str(dns_server);
        let check = dns.clone();
        (SystemDnsTask { platform, dns: Some(dns), phase: Phase::ValidateIp }, DnsAction::CheckIp(check))
    }

    /// A flow that resets the system DNS server to what DHCP gives, and its
    /// first request.
    pub fn reset_system_dns_sync(platform: Platform) -> (r: (Self, DnsAction))
        ensures
            r.0.platform() == platform,
            r.0.dns() is None,
            (r.0.phase(), r.1@) == start(platform, None),
    {
        let (phase, action) = dispatch_exec(platform);
        (SystemDnsTask { platform, dns: None, phase }, action)
    }

    /// Takes what came back for the last request and makes the next one.
    pub fn step(&mut self, event: DnsEvent) -> (a: DnsAction)
        requires
            accepts(old(self).phase(), event),
        ensures
            final(self).platform() == old(self).platform(),
            final(self).dns() == old(self).dns(),
            (final(self).phase(), a@) == transition(
                old(self).platform(),
                old(self).dns(),
                old(self).phase(),
                event,
            ),
    {
        proof {
            use_type_invariant(&*self);
        }
        let (phase, action) = match (&self.phase, &event) {
            (Phase::ValidateIp, DnsEvent::IpChecked(ok)) => {
                if *ok {
                    dispatch_exec(self.platform)
                } else {
                    finish_err_exec(owned("Invalid DNS address"))
                }
            },
            (Phase::ProbeNmcli, DnsEvent::Ran(r)) => {
                if probe_found_exec(r) {
                    let args = ["-t", "-f", "NAME", "con", "show", "--active"];
                    let a = run_action("nmcli", &args);
                    assert(args@.map_values(|s: &str| s@) =~= seq![
                        "-t"@,
                        "-f"@,
                        "NAME"@,
                        "con"@,
                        "show"@,
                        "--active"@,
                    ]);
                    (Phase::ListConnections, a)
                } else {
                    let args = ["resolvectl"];
                    let a = run_action("which", &args);
                    assert(args@.map_values(|s: &str| s@) =~= seq!["resolvectl"@]);
                    (Phase::ProbeResolvectl, a)
                }
            },
            (Phase::ProbeResolvectl, DnsEvent::Ran(r)) => {
                if probe_found_exec(r) {
                    let args = ["route", "show", "default"];
                    let a = run_action("ip", &args);
                    assert(args@.map_values(|s: &str| s@) =~= seq!["route"@, "show"@, "default"@]);
                    (Phase::ReadRoute, a)
                } else {
                    finish_err_exec(
                        owned("NetworkManager (nmcli) or systemd-resolved (resolvectl) is required"),
                    )
                }
            },
            (Phase::ListConnections, DnsEvent::Ran(r)) => match r {
                CommandResult::NotStarted(e) => {
                    let mut m = owned("Failed to detect active connection: ");
                    m.append(e.as_str());
                    finish_err_exec(m)
                },
                CommandResult::Finished { stdout, .. } => match first_nonblank_line_exec(
                    stdout.as_str(),
                ) {
                    None => finish_err_exec(owned("No active network connection found")),
                    Some(c) => linux_elevate_exec(&self.dns, c.as_str(), true),
                },
            },
            (Phase::ReadRoute, DnsEvent::Ran(r)) => match r {
                CommandResult::NotStarted(e) => {
                    let mut m = owned("Failed to detect network interface: ");
                    m.append(e.as_str());
                    finish_err_exec(m)
                },
                CommandResult::Finished { stdout, .. } => match ip_route_interface_exec(
                    stdout.as_str(),
                ) {
                    None => finish_err_exec(owned("No active network interface found")),
                    Some(i) => linux_elevate_exec(&self.dns, i.as_str(), false),
                },
            },
            (Phase::MacRoute, DnsEvent::Ran(r)) => match r {
                CommandResult::NotStarted(e) => {
                    let mut m = owned("Failed to detect network interface: ");
                    m.append(e.as_str());
                    finish_err_exec(m)
                },
                CommandResult::Finished { stdout, .. } => match route_interface_exec(
                    stdout.as_str(),
                ) {
                    None => finish_err_exec(owned("No active network interface found")),
                    Some(i) => {
                        let args = ["-listallhardwareports"];
                        let a = run_action("networksetup", &args);
                        assert(args@.map_values(|s: &str| s@) =~= seq!["-listallhardwareports"@]);
                        (Phase::MacPorts { interface: i }, a)
                    },
                },
            },
            (Phase::MacPorts { interface }, DnsEvent::Ran(r)) => match r {
                CommandResult::NotStarted(e) => {
                    let mut m = owned("Failed to list network services: ");
                    m.append(e.as_str());
                    finish_err_exec(m)
                },
                CommandResult::Finished { stdout, .. } => match hardware_port_exec(
                    stdout.as_str(),
                    interface.as_str(),
                ) {
                    Some(svc) => mac_elevate_exec(&self.dns, svc.as_str()),
                    None => mac_probe_exec(0),
                },
            },
            (Phase::MacProbe { index }, DnsEvent::Ran(r)) => {
                let k = *index;
                if probe_found_exec(r) {
                    let service = if k == 0 {
                        "Wi-Fi"
                    } else {
                        "Ethernet"
                    };
                    mac_elevate_exec(&self.dns, service)
                } else if k == 0 {
                    mac_probe_exec(1)
                } else {
                    finish_err_exec(owned("No supported network service found"))
                }
            },
            (Phase::WinInterface, DnsEvent::Ran(r)) => match r {
                CommandResult::NotStarted(e) => {
                    let mut m = owned("Failed to detect network interface: ");
                    m.append(e.as_str());
                    finish_err_exec(m)
                },
                CommandResult::Finished { stdout, .. } => {
                    let t = trim_str(stdout.as_str());
                    if t.as_str().unicode_len() == 0 {
                        finish_err_exec(owned("No active network interface found"))
                    } else {
                        win_elevate_exec(&self.dns, t.as_str())
                    }
                },
            },
            (Phase::Elevated { runner, success }, DnsEvent::Ran(r)) => {
                match elevated_verdict_exec(*runner, r) {
                    Ok(_) => (Phase::Done, DnsAction::Finish(Ok(success.clone()))),
                    Err(m) => finish_err_exec(m),
                }
            },
            _ => {
                assert(false);
                (Phase::Done, DnsAction::Finish(Err(String::new())))
            },
        };
        self.phase = phase;
        action
    }
}


/// How many requests a flow may still make, at most, from where it stands.
pub open spec fn rank(phase: PhaseView) -> nat {
    match phase {
        PhaseView::ValidateIp => 9,
        PhaseView::ProbeNmcli => 8,
        PhaseView::MacRoute => 8,
        PhaseView::ProbeResolvectl => 7,
        PhaseView::MacPorts(_) => 7,
        PhaseView::ListConnections => 6,
        PhaseView::ReadRoute => 6,
        PhaseView::MacProbe(k) => if k == 0 {
            6
        } else {
            5
        },
        PhaseView::WinInterface => 5,
        PhaseView::Elevated(_, _) => 1,
        PhaseView::Done => 0,
    }
}

/// Every flow comes to an end: each answer it takes moves it to a phase of
/// lower rank, and it finishes exactly when it reaches `Done`; so a flow
/// makes at most nine requests.
pub proof fn flow_ends(platform: Platform, dns: Option<Text>, phase: PhaseView, e: DnsEvent)
    requires
        accepts(phase, e),
    ensures
        rank(transition(platform, dns, phase, e).0) < rank(phase),
        transition(platform, dns, phase, e).1 is Finish <==> transition(
            platform,
            dns,
            phase,
            e,
        ).0 is Done,
{
}

/// The first request of a flow is a check of the address (when one is set)
/// or the first command on the platform; it finishes at once only on an
/// unsupported platform.
pub proof fn flow_starts(platform: Platform, dns: Option<Text>)
    ensures
        rank(start(platform, dns).0) <= 9,
        start(platform, dns).1 is Finish <==> start(platform, dns).0 is Done,
        start(platform, dns).1 is Finish <==> (dns is None && platform == Platform::Other),
{
}

/// A flow reports success only as the answer to its elevated command, and
/// only when that command ran and exited with success; the message is the
/// one the phase holds.
pub proof fn success_only_after_elevated_run(
    platform: Platform,
    dns: Option<Text>,
    phase: PhaseView,
    e: DnsEvent,
)
    requires
        accepts(phase, e),
        transition(platform, dns, phase, e).1 is Finish,
        transition(platform, dns, phase, e).1->Finish_0 is Ok,
    ensures
        phase is Elevated,
        e matches DnsEvent::Ran(CommandResult::Finished { success, .. }) && success,
        transition(platform, dns, phase, e).1->Finish_0->Ok_0 == phase->Elevated_1,
{
}

/// A refused address ends a flow that sets the DNS server before any
/// command runs, with the message "Invalid DNS address"; an accepted one
/// leads to the platform's first command.
pub proof fn address_checked_first(platform: Platform, dns: Text, ok: bool)
    ensures
        start(platform, Some(dns)) == (PhaseView::ValidateIp, ActionView::CheckIp(dns)),
        !ok ==> transition(platform, Some(dns), PhaseView::ValidateIp, DnsEvent::IpChecked(ok))
            == finish_err("Invalid DNS address"@),
        ok ==> transition(platform, Some(dns), PhaseView::ValidateIp, DnsEvent::IpChecked(ok))
            == dispatch(platform),
{
}

/// When no hardware port matches, the fallback services are probed in turn,
/// and the DNS change is made on the service whose probe succeeded (the one
/// named in that probe's `networksetup -getdnsservers` call), with the
/// success message naming that service; when neither probe succeeds the flow
/// ends with "No supported network service found".
pub proof fn fallback_sets_the_probed_service(
    platform: Platform,
    dns: Option<Text>,
    k: nat,
    r: CommandResult,
)
    requires
        k <= 1,
    ensures
        ({
            let probed = mac_probe(k).1->Run_1[1];
            let next = transition(platform, dns, PhaseView::MacProbe(k), DnsEvent::Ran(r));
            probe_found(r) ==> {
                &&& next.1 == ActionView::Run(
                    "osascript"@,
                    seq!["-e"@, osascript_program(networksetup_script(dns, probed))],
                )
                &&& next.0 == PhaseView::Elevated(
                    Runner::Osascript,
                    match dns {
                        Some(d) => "DNS set to "@ + d + " on "@ + probed,
                        None => "DNS reset to automatic (DHCP) on "@ + probed,
                    },
                )
            }
        }),
        mac_probe(0).1 == ActionView::Run("networksetup"@, seq!["-getdnsservers"@, "Wi-Fi"@]),
        mac_probe(1).1 == ActionView::Run("networksetup"@, seq!["-getdnsservers"@, "Ethernet"@]),
        !probe_found(r) && k == 0 ==> transition(platform, dns, PhaseView::MacProbe(k), DnsEvent::Ran(r))
            == mac_probe(1),
        !probe_found(r) && k == 1 ==> transition(platform, dns, PhaseView::MacProbe(k), DnsEvent::Ran(r))
            == (PhaseView::Done, ActionView::Finish(Err("No supported network service found"@))),
{
}

/// On Linux the change is made, through `pkexec sh -c`, on the connection or
/// interface that was detected: `nmcli` on the first active connection
/// listed, `resolvectl` on the interface of the default route; the script
/// names that target and the address, and so does the success message.
pub proof fn linux_change_names_the_detected_target(
    platform: Platform,
    dns: Option<Text>,
    stdout: Text,
    r: CommandResult,
)
    requires
        r matches CommandResult::Finished { stdout: out, .. } && out@ == stdout,
    ensures
        first_nonblank_line(stdout) matches Some(c) ==> ({
            let message = match dns {
                Some(d) => "DNS set to "@ + d + " on "@ + c,
                None => "DNS reset to automatic (DHCP) on "@ + c,
            };
            let script = match dns {
                Some(d) => "nmcli con mod \""@ + c + "\" ipv4.dns \""@ + d
                    + "\" ipv4.ignore-auto-dns yes && nmcli con up \""@ + c + "\""@,
                None => "nmcli con mod \""@ + c
                    + "\" ipv4.dns \"\" ipv4.ignore-auto-dns no && nmcli con up \""@ + c + "\""@,
            };
            transition(platform, dns, PhaseView::ListConnections, DnsEvent::Ran(r)) == (
                PhaseView::Elevated(Runner::Pkexec, message),
                ActionView::Run("pkexec"@, seq!["sh"@, "-c"@, script]),
            )
        }),
        first_nonblank_line(stdout) is None ==> transition(
            platform,
            dns,
            PhaseView::ListConnections,
            DnsEvent::Ran(r),
        ) == finish_err("No active network connection found"@),
        ip_route_interface(stdout) matches Some(i) ==> ({
            let message = match dns {
                Some(d) => "DNS set to "@ + d + " on "@ + i,
                None => "DNS reset to automatic on "@ + i,
            };
            let script = match dns {
                Some(d) => "resolvectl dns "@ + i + " "@ + d + " && resolvectl flush-caches"@,
                None => "resolvectl revert "@ + i + " && resolvectl flush-caches"@,
            };
            transition(platform, dns, PhaseView::ReadRoute, DnsEvent::Ran(r)) == (
                PhaseView::Elevated(Runner::Pkexec, message),
                ActionView::Run("pkexec"@, seq!["sh"@, "-c"@, script]),
            )
        }),
        ip_route_interface(stdout) is None ==> transition(
            platform,
            dns,
            PhaseView::ReadRoute,
            DnsEvent::Ran(r),
        ) == finish_err("No active network interface found"@),
{
}

/// Through PowerShell on Windows, the change is made on the interface that
/// the query named (its output trimmed): an elevated `netsh` sets it to the
/// address, or back to DHCP, and the success message names both.
pub proof fn windows_change_names_the_detected_interface(
    platform: Platform,
    dns: Option<Text>,
    stdout: Text,
    r: CommandResult,
)
    requires
        r matches CommandResult::Finished { stdout: out, .. } && out@ == stdout,
        trim(stdout).len() > 0,
    ensures
        ({
            let i = trim(stdout);
            let message = match dns {
                Some(d) => "DNS set to "@ + d + " on "@ + i,
                None => "DNS reset to automatic (DHCP) on "@ + i,
            };
            let script = match dns {
                Some(d) => "Start-Process netsh -Verb RunAs -Wait -ArgumentList 'interface','ip','set','dns','name="@
                    + i + "','static','"@ + d + "'; ipconfig /flushdns"@,
                None => "Start-Process netsh -Verb RunAs -Wait -ArgumentList 'interface','ip','set','dns','name="@
                    + i + "','dhcp'; ipconfig /flushdns"@,
            };
            transition(platform, dns, PhaseView::WinInterface, DnsEvent::Ran(r)) == (
                PhaseView::Elevated(Runner::PowerShell { reset: dns is None }, message),
                ActionView::Run("powershell"@, seq!["-NoProfile"@, "-Command"@, script]),
            )
        }),
{
}

/// `l` is a `Device:` line naming `interface`.
pub open spec fn names_device(l: Text, interface: Text) -> bool {
    &&& strip_prefix(l, "Hardware Port:"@) is None
    &&& strip_prefix(l, "Device:"@) matches Some(x) && trim(x) == interface
}

/// `l` is a `Hardware Port:` line.
pub open spec fn is_port_line(l: Text) -> bool {
    strip_prefix(l, "Hardware Port:"@) is Some
}

/// The port that the scan answers, with `current` the port named before `ls`:
/// it looks for the first `Device:` line naming `interface` and answers the
/// port of the last `Hardware Port:` line above it.
proof fn lemma_port_scan(ls: Seq<Text>, current: Text, interface: Text)
    ensures
        port_scan(ls, current, interface) is None <==> forall|j: int|
            0 <= j < ls.len() ==> !names_device(#[trigger] ls[j], interface),
        port_scan(ls, current, interface) matches Some(p) ==> exists|j: int|
            0 <= j < ls.len() && names_device(#[trigger] ls[j], interface) && (forall|k: int|
                0 <= k < j ==> !names_device(#[trigger] ls[k], interface)) && ({
                ||| (forall|k: int| 0 <= k < j ==> !is_port_line(#[trigger] ls[k])) && p == current
                ||| exists|k: int|
                    0 <= k < j && is_port_line(#[trigger] ls[k]) && p == trim(
                        strip_prefix(ls[k], "Hardware Port:"@)->Some_0,
                    ) && forall|m: int| k < m < j ==> !is_port_line(#[trigger] ls[m])
            }),
    decreases ls.len(),
{
    if ls.len() > 0 {
        let rest = ls.drop_first();
        let l = ls[0];
        let next = match strip_prefix(l, "Hardware Port:"@) {
            Some(q) => trim(q),
            None => current,
        };
        lemma_port_scan(rest, next, interface);
        assert forall|j: int| 0 <= j < rest.len() implies rest[j] == ls[j + 1] by {}
        if port_scan(ls, current, interface) is None {
            assert forall|j: int| 0 <= j < ls.len() implies !names_device(#[trigger] ls[j], interface) by {
                if j > 0 {
                    assert(ls[j] == rest[j - 1]);
                }
            }
        } else {
            if forall|j: int| 0 <= j < ls.len() ==> !names_device(#[trigger] ls[j], interface) {
                assert(!names_device(ls[0], interface));
                assert forall|j: int| 0 <= j < rest.len() implies !names_device(#[trigger] rest[j], interface) by {
                    assert(rest[j] == ls[j + 1]);
                }
            }
        }
        if let Some(p) = port_scan(ls, current, interface) {
            if names_device(l, interface) {
                assert(!is_port_line(l));
                assert(p == current);
                assert(names_device(ls[0], interface));
            } else {
                assert(port_scan(ls, current, interface) == port_scan(rest, next, interface));
                let j = choose|j: int|
                    0 <= j < rest.len() && names_device(#[trigger] rest[j], interface) && (forall|k: int|
                        0 <= k < j ==> !names_device(#[trigger] rest[k], interface)) && ({
                        ||| (forall|k: int| 0 <= k < j ==> !is_port_line(#[trigger] rest[k])) && p == next
                        ||| exists|k: int|
                            0 <= k < j && is_port_line(#[trigger] rest[k]) && p == trim(
                                strip_prefix(rest[k], "Hardware Port:"@)->Some_0,
                            ) && forall|m: int| k < m < j ==> !is_port_line(#[trigger] rest[m])
                    });
                assert(names_device(ls[j + 1], interface));
                assert forall|k: int| 0 <= k < j + 1 implies !names_device(#[trigger] ls[k], interface) by {
                    if k > 0 {
                        assert(ls[k] == rest[k - 1]);
                    }
                }
                if forall|k: int| 0 <= k < j ==> !is_port_line(#[trigger] rest[k]) {
                    if is_port_line(l) {
                        assert(is_port_line(ls[0]));
                        assert forall|m: int| 0 < m < j + 1 implies !is_port_line(#[trigger] ls[m]) by {
                            assert(ls[m] == rest[m - 1]);
                        }
                    } else {
                        assert forall|k: int| 0 <= k < j + 1 implies !is_port_line(#[trigger] ls[k]) by {
                            if k > 0 {
                                assert(ls[k] == rest[k - 1]);
                            }
                        }
                    }
                } else {
                    let k = choose|k: int|
                        0 <= k < j && is_port_line(#[trigger] rest[k]) && p == trim(
                            strip_prefix(rest[k], "Hardware Port:"@)->Some_0,
                        ) && forall|m: int| k < m < j ==> !is_port_line(#[trigger] rest[m]);
                    assert(is_port_line(ls[k + 1]));
                    assert(ls[k + 1] == rest[k]);
                    assert forall|m: int| k + 1 < m < j + 1 implies !is_port_line(#[trigger] ls[m]) by {
                        assert(ls[m] == rest[m - 1]);
                    }
                }
            }
        }
    }
}

/// The network service on macOS is the hardware port listed above the first
/// `Device:` line that names the interface of the default route (the last
/// `Hardware Port:` line before it); there is none exactly when no `Device:`
/// line names that interface.
pub proof fn service_is_the_port_of_the_interface(out: Text, interface: Text)
    ensures
        hardware_port(out, interface) is None <==> forall|j: int|
            0 <= j < lines(out).len() ==> !names_device(#[trigger] lines(out)[j], interface),
        hardware_port(out, interface) matches Some(p) ==> exists|j: int|
            0 <= j < lines(out).len() && names_device(#[trigger] lines(out)[j], interface) && (forall|
                k: int,
            | 0 <= k < j ==> !names_device(#[trigger] lines(out)[k], interface)) && ({
                ||| (forall|k: int| 0 <= k < j ==> !is_port_line(#[trigger] lines(out)[k])) && p
                    == Seq::<char>::empty()
                ||| exists|k: int|
                    0 <= k < j && is_port_line(#[trigger] lines(out)[k]) && p == trim(
                        strip_prefix(lines(out)[k], "Hardware Port:"@)->Some_0,
                    ) && forall|m: int| k < m < j ==> !is_port_line(#[trigger] lines(out)[m])
            }),
{
    lemma_port_scan(lines(out), Seq::empty(), interface);
}

/// `find_interface_line` answers the first line that starts, after white
/// space, with `interface:`, and nothing exactly when there is none.
proof fn lemma_find_interface_line(ls: Seq<Text>)
    ensures
        find_interface_line(ls) is None <==> forall|j: int|
            0 <= j < ls.len() ==> !starts_with(trim(#[trigger] ls[j]), "interface:"@),
        find_interface_line(ls) matches Some(l) ==> exists|j: int|
            0 <= j < ls.len() && #[trigger] ls[j] == l && starts_with(trim(l), "interface:"@)
                && forall|k: int| 0 <= k < j ==> !starts_with(trim(#[trigger] ls[k]), "interface:"@),
    decreases ls.len(),
{
    if ls.len() > 0 {
        let rest = ls.drop_first();
        lemma_find_interface_line(rest);
        assert forall|j: int| 0 <= j < rest.len() implies rest[j] == ls[j + 1] by {}
        if !starts_with(trim(ls[0]), "interface:"@) {
            if find_interface_line(rest) is None {
                assert forall|j: int| 0 <= j < ls.len() implies !starts_with(
                    trim(#[trigger] ls[j]),
                    "interface:"@,
                ) by {
                    if j > 0 {
                        assert(ls[j] == rest[j - 1]);
                    }
                }
            } else {
                let l = find_interface_line(rest)->Some_0;
                let j = choose|j: int|
                    0 <= j < rest.len() && #[trigger] rest[j] == l && starts_with(trim(l), "interface:"@)
                        && forall|k: int| 0 <= k < j ==> !starts_with(trim(#[trigger] rest[k]), "interface:"@);
                assert(ls[j + 1] == l);
                assert forall|k: int| 0 <= k < j + 1 implies !starts_with(
                    trim(#[trigger] ls[k]),
                    "interface:"@,
                ) by {
                    if k > 0 {
                        assert(ls[k] == rest[k - 1]);
                    }
                }
            }
        }
    }
}

/// The interface of the default route on macOS is read from the first line of
/// `route -n get default` that starts (after white space) with `interface:`:
/// the text after that line's first `:`, up to any next `:`, trimmed, and
/// never empty.
pub proof fn route_interface_is_read_from_the_interface_line(out: Text)
    ensures
        route_interface(out) matches Some(i) ==> i.len() > 0 && exists|j: int|
            0 <= j < lines(out).len() && starts_with(trim(#[trigger] lines(out)[j]), "interface:"@)
                && (forall|k: int|
                0 <= k < j ==> !starts_with(trim(#[trigger] lines(out)[k]), "interface:"@))
                && second_field(lines(out)[j]) is Some && i == trim(second_field(lines(out)[j])->Some_0),
        (forall|j: int| 0 <= j < lines(out).len() ==> !starts_with(trim(#[trigger] lines(out)[j]), "interface:"@))
            ==> route_interface(out) is None,
{
    lemma_find_interface_line(lines(out));
}

/// On macOS the change is made on the service found for the interface of
/// the default route: after `route -n get default` names the interface, the
/// hardware ports are listed, and the port of that interface gets the new
/// servers (or `empty`, for a reset) through an administrator AppleScript
/// that runs `networksetup` with the service quoted, then flushes the cache;
/// the success message names the service. With no such port the fallback
/// services are probed, `Wi-Fi` first.
pub proof fn mac_change_names_the_service_of_the_route(
    platform: Platform,
    dns: Option<Text>,
    stdout: Text,
    r: CommandResult,
    interface: Text,
)
    requires
        r matches CommandResult::Finished { stdout: out, .. } && out@ == stdout,
    ensures
        route_interface(stdout) matches Some(i) ==> transition(
            platform,
            dns,
            PhaseView::MacRoute,
            DnsEvent::Ran(r),
        ) == (PhaseView::MacPorts(i), ActionView::Run("networksetup"@, seq!["-listallhardwareports"@])),
        route_interface(stdout) is None ==> transition(platform, dns, PhaseView::MacRoute, DnsEvent::Ran(r))
            == finish_err("No active network interface found"@),
        hardware_port(stdout, interface) matches Some(svc) ==> ({
            let servers = match dns {
                Some(d) => d,
                None => "empty"@,
            };
            let script = "networksetup -setdnsservers \""@ + escape_quoted(svc) + "\" "@ + servers
                + " && dscacheutil -flushcache && killall -HUP mDNSResponder"@;
            let message = match dns {
                Some(d) => "DNS set to "@ + d + " on "@ + svc,
                None => "DNS reset to automatic (DHCP) on "@ + svc,
            };
            transition(platform, dns, PhaseView::MacPorts(interface), DnsEvent::Ran(r)) == (
                PhaseView::Elevated(Runner::Osascript, message),
                ActionView::Run(
                    "osascript"@,
                    seq![
                        "-e"@,
                        "do shell script \""@ + escape_quoted(script) + "\" with administrator privileges"@,
                    ],
                ),
            )
        }),
        hardware_port(stdout, interface) is None ==> transition(
            platform,
            dns,
            PhaseView::MacPorts(interface),
            DnsEvent::Ran(r),
        ) == (
            PhaseView::MacProbe(0),
            ActionView::Run("networksetup"@, seq!["-getdnsservers"@, "Wi-Fi"@]),
        ),
{
    match dns {
        Some(d) => {},
        None => {
            reveal_strlit("empty");
            reveal_strlit("\" empty && dscacheutil -flushcache && killall -HUP mDNSResponder");
            reveal_strlit("\" ");
            reveal_strlit(" && dscacheutil -flushcache && killall -HUP mDNSResponder");
            let tail = "\" "@ + "empty"@ + " && dscacheutil -flushcache && killall -HUP mDNSResponder"@;
            assert(tail =~= "\" empty && dscacheutil -flushcache && killall -HUP mDNSResponder"@);
            if let Some(svc) = hardware_port(stdout, interface) {
                let head = "networksetup -setdnsservers \""@ + escape_quoted(svc);
                assert(head + "\" "@ + "empty"@ + " && dscacheutil -flushcache && killall -HUP mDNSResponder"@
                    =~= head + tail);
                assert(networksetup_script(dns, svc) == head + tail);
            }
        },
    }
}

} // verus!
