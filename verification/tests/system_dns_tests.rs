use bargozin::commands::CommandResult;
use bargozin::system_dns::{
    hardware_port_exec, ip_route_interface_exec, route_interface_exec, DnsAction, DnsEvent, Platform,
    SystemDnsTask,
};

fn run_of(a: &DnsAction) -> (String, Vec<String>) {
    match a {
        DnsAction::Run(c) => (c.program.clone(), c.args.clone()),
        _ => panic!("expected a command"),
    }
}

fn finished(a: DnsAction) -> Result<String, String> {
    match a {
        DnsAction::Finish(r) => r,
        _ => panic!("expected the end of the flow"),
    }
}

fn ok_output(stdout: &str) -> DnsEvent {
    DnsEvent::Ran(CommandResult::Finished { success: true, stdout: stdout.to_string(), stderr: String::new() })
}

fn failed_output(stderr: &str) -> DnsEvent {
    DnsEvent::Ran(CommandResult::Finished { success: false, stdout: String::new(), stderr: stderr.to_string() })
}

fn not_started(e: &str) -> DnsEvent {
    DnsEvent::Ran(CommandResult::NotStarted(e.to_string()))
}

fn strs(v: &[&str]) -> Vec<String> {
    v.iter().map(|s| s.to_string()).collect()
}

#[test]
fn set_checks_the_trimmed_address_first() {
    let (mut t, a) = SystemDnsTask::set_system_dns_sync(Platform::Linux, "  1.1.1.1 \n");
    match a {
        DnsAction::CheckIp(s) => assert_eq!(s, "1.1.1.1"),
        _ => panic!("expected an address check"),
    }
    let a = t.step(DnsEvent::IpChecked(false));
    assert_eq!(finished(a), Err("Invalid DNS address".to_string()));
    assert!(t.is_done());
}

#[test]
fn linux_set_through_nmcli() {
    let (mut t, _) = SystemDnsTask::set_system_dns_sync(Platform::Linux, "8.8.8.8");
    let a = t.step(DnsEvent::IpChecked(true));
    assert_eq!(run_of(&a), ("which".to_string(), strs(&["nmcli"])));
    let a = t.step(ok_output("/usr/bin/nmcli\n"));
    assert_eq!(run_of(&a), ("nmcli".to_string(), strs(&["-t", "-f", "NAME", "con", "show", "--active"])));
    let a = t.step(ok_output("\n  Wired connection 1  \nlo\n"));
    assert_eq!(
        run_of(&a),
        (
            "pkexec".to_string(),
            strs(&[
                "sh",
                "-c",
                "nmcli con mod \"Wired connection 1\" ipv4.dns \"8.8.8.8\" ipv4.ignore-auto-dns yes && nmcli con up \"Wired connection 1\"",
            ])
        )
    );
    let a = t.step(ok_output(""));
    assert_eq!(finished(a), Ok("DNS set to 8.8.8.8 on Wired connection 1".to_string()));
}

#[test]
fn linux_reset_through_nmcli() {
    let (mut t, a) = SystemDnsTask::reset_system_dns_sync(Platform::Linux);
    assert_eq!(run_of(&a).0, "which");
    t.step(ok_output(""));
    let a = t.step(ok_output("home\n"));
    assert_eq!(
        run_of(&a).1[2],
        "nmcli con mod \"home\" ipv4.dns \"\" ipv4.ignore-auto-dns no && nmcli con up \"home\""
    );
    let a = t.step(ok_output(""));
    assert_eq!(finished(a), Ok("DNS reset to automatic (DHCP) on home".to_string()));
}

#[test]
fn linux_nmcli_failures() {
    let (mut t, _) = SystemDnsTask::reset_system_dns_sync(Platform::Linux);
    t.step(ok_output(""));
    let a = t.step(not_started("No such file or directory (os error 2)"));
    assert_eq!(finished(a), Err("Failed to detect active connection: No such file or directory (os error 2)".to_string()));

    let (mut t, _) = SystemDnsTask::reset_system_dns_sync(Platform::Linux);
    t.step(ok_output(""));
    let a = t.step(ok_output("  \n"));
    assert_eq!(finished(a), Err("No active network connection found".to_string()));

    let (mut t, _) = SystemDnsTask::reset_system_dns_sync(Platform::Linux);
    t.step(ok_output(""));
    t.step(ok_output("home\n"));
    let a = t.step(failed_output("Error executing command as another user: Request dismissed\n"));
    assert_eq!(finished(a), Err("Operation cancelled or not authorized".to_string()));

    let (mut t, _) = SystemDnsTask::reset_system_dns_sync(Platform::Linux);
    t.step(ok_output(""));
    t.step(ok_output("home\n"));
    let a = t.step(failed_output("  Error: unknown connection \n"));
    assert_eq!(finished(a), Err("Failed to set DNS: Error: unknown connection".to_string()));

    let (mut t, _) = SystemDnsTask::reset_system_dns_sync(Platform::Linux);
    t.step(ok_output(""));
    t.step(ok_output("home\n"));
    let a = t.step(not_started("permission denied"));
    assert_eq!(finished(a), Err("Failed to run command: permission denied".to_string()));
}

#[test]
fn linux_set_through_resolvectl() {
    let (mut t, _) = SystemDnsTask::set_system_dns_sync(Platform::Linux, "9.9.9.9");
    t.step(DnsEvent::IpChecked(true));
    let a = t.step(failed_output(""));
    assert_eq!(run_of(&a), ("which".to_string(), strs(&["resolvectl"])));
    let a = t.step(ok_output("/usr/bin/resolvectl\n"));
    assert_eq!(run_of(&a), ("ip".to_string(), strs(&["route", "show", "default"])));
    let a = t.step(ok_output("default via 192.168.1.1 dev eth0 proto dhcp metric 100\n"));
    assert_eq!(run_of(&a).1[2], "resolvectl dns eth0 9.9.9.9 && resolvectl flush-caches");
    let a = t.step(ok_output(""));
    assert_eq!(finished(a), Ok("DNS set to 9.9.9.9 on eth0".to_string()));
}

#[test]
fn linux_reset_through_resolvectl_and_failures() {
    let (mut t, _) = SystemDnsTask::reset_system_dns_sync(Platform::Linux);
    t.step(not_started("x"));
    t.step(ok_output(""));
    let a = t.step(ok_output("default via 10.0.0.1 dev wlan0\n"));
    assert_eq!(run_of(&a).1[2], "resolvectl revert wlan0 && resolvectl flush-caches");
    let a = t.step(ok_output(""));
    assert_eq!(finished(a), Ok("DNS reset to automatic on wlan0".to_string()));

    let (mut t, _) = SystemDnsTask::reset_system_dns_sync(Platform::Linux);
    t.step(failed_output(""));
    t.step(ok_output(""));
    let a = t.step(ok_output("default via 10.0.0.1\n"));
    assert_eq!(finished(a), Err("No active network interface found".to_string()));

    let (mut t, _) = SystemDnsTask::reset_system_dns_sync(Platform::Linux);
    t.step(failed_output(""));
    let a = t.step(failed_output(""));
    assert_eq!(
        finished(a),
        Err("NetworkManager (nmcli) or systemd-resolved (resolvectl) is required".to_string())
    );
}

const ROUTE: &str = "   route to: default\ndestination: default\n       mask: default\n    gateway: 192.168.1.1\n  interface: en0\n      flags: <UP,GATEWAY,DONE,STATIC,PRCLONING>\n";
const PORTS: &str = "\nHardware Port: Ethernet\nDevice: en1\nEthernet Address: a0:ce:c8:00:00:01\n\nHardware Port: Wi-Fi\nDevice: en0\nEthernet Address: a0:ce:c8:00:00:02\n";

#[test]
fn mac_parsers() {
    assert_eq!(route_interface_exec(ROUTE), Some("en0".to_string()));
    assert_eq!(route_interface_exec("interface:\n  interface: en2\n"), None);
    assert_eq!(route_interface_exec("gateway: 1.2.3.4\n"), None);
    assert_eq!(hardware_port_exec(PORTS, "en0"), Some("Wi-Fi".to_string()));
    assert_eq!(hardware_port_exec(PORTS, "en1"), Some("Ethernet".to_string()));
    assert_eq!(hardware_port_exec(PORTS, "en9"), None);
    assert_eq!(hardware_port_exec("Device: en0\n", "en0"), Some(String::new()));
    assert_eq!(ip_route_interface_exec("default via 1.1.1.1 dev eth1"), Some("eth1".to_string()));
}

#[test]
fn mac_set_through_osascript() {
    let (mut t, _) = SystemDnsTask::set_system_dns_sync(Platform::MacOs, "1.0.0.1");
    let a = t.step(DnsEvent::IpChecked(true));
    assert_eq!(run_of(&a), ("route".to_string(), strs(&["-n", "get", "default"])));
    let a = t.step(ok_output(ROUTE));
    assert_eq!(run_of(&a), ("networksetup".to_string(), strs(&["-listallhardwareports"])));
    let a = t.step(ok_output(PORTS));
    assert_eq!(
        run_of(&a),
        (
            "osascript".to_string(),
            strs(&[
                "-e",
                "do shell script \"networksetup -setdnsservers \\\"Wi-Fi\\\" 1.0.0.1 && dscacheutil -flushcache && killall -HUP mDNSResponder\" with administrator privileges",
            ])
        )
    );
    let a = t.step(ok_output(""));
    assert_eq!(finished(a), Ok("DNS set to 1.0.0.1 on Wi-Fi".to_string()));
}

#[test]
fn mac_reset_with_fallback_services() {
    let (mut t, _) = SystemDnsTask::reset_system_dns_sync(Platform::MacOs);
    t.step(ok_output(ROUTE));
    let a = t.step(ok_output("Hardware Port: Thunderbolt\nDevice: en5\n"));
    assert_eq!(run_of(&a), ("networksetup".to_string(), strs(&["-getdnsservers", "Wi-Fi"])));
    let a = t.step(failed_output("Wi-Fi is not a recognized network service."));
    assert_eq!(run_of(&a), ("networksetup".to_string(), strs(&["-getdnsservers", "Ethernet"])));
    let a = t.step(ok_output("There aren't any DNS Servers set on Ethernet."));
    assert_eq!(
        run_of(&a).1[1],
        "do shell script \"networksetup -setdnsservers \\\"Ethernet\\\" empty && dscacheutil -flushcache && killall -HUP mDNSResponder\" with administrator privileges"
    );
    let a = t.step(failed_output("execution error: User canceled. (-128)"));
    assert_eq!(finished(a), Err("Operation cancelled by user".to_string()));

    let (mut t, _) = SystemDnsTask::reset_system_dns_sync(Platform::MacOs);
    t.step(ok_output(ROUTE));
    t.step(ok_output(""));
    t.step(failed_output(""));
    let a = t.step(not_started("gone"));
    assert_eq!(finished(a), Err("No supported network service found".to_string()));
}

#[test]
fn mac_failures() {
    let (mut t, _) = SystemDnsTask::reset_system_dns_sync(Platform::MacOs);
    let a = t.step(not_started("no route"));
    assert_eq!(finished(a), Err("Failed to detect network interface: no route".to_string()));

    let (mut t, _) = SystemDnsTask::reset_system_dns_sync(Platform::MacOs);
    let a = t.step(ok_output("gateway: 1.1.1.1\n"));
    assert_eq!(finished(a), Err("No active network interface found".to_string()));

    let (mut t, _) = SystemDnsTask::reset_system_dns_sync(Platform::MacOs);
    t.step(ok_output(ROUTE));
    let a = t.step(not_started("denied"));
    assert_eq!(finished(a), Err("Failed to list network services: denied".to_string()));

    let (mut t, _) = SystemDnsTask::reset_system_dns_sync(Platform::MacOs);
    t.step(ok_output(ROUTE));
    t.step(ok_output(PORTS));
    let a = t.step(failed_output(" some error \n"));
    assert_eq!(finished(a), Err("Failed to set DNS: some error".to_string()));
}

#[test]
fn mac_service_names_are_escaped_in_the_script() {
    let (mut t, _) = SystemDnsTask::set_system_dns_sync(Platform::MacOs, "8.8.4.4");
    t.step(DnsEvent::IpChecked(true));
    t.step(ok_output(ROUTE));
    let a = t.step(ok_output("Hardware Port: My \"Net\"\nDevice: en0\n"));
    assert_eq!(
        run_of(&a).1[1],
        "do shell script \"networksetup -setdnsservers \\\"My \\\\\\\"Net\\\\\\\"\\\" 8.8.4.4 && dscacheutil -flushcache && killall -HUP mDNSResponder\" with administrator privileges"
    );
    let a = t.step(ok_output(""));
    assert_eq!(finished(a), Ok("DNS set to 8.8.4.4 on My \"Net\"".to_string()));
}

#[test]
fn windows_powershell_flow() {
    let (mut t, _) = SystemDnsTask::set_system_dns_sync(Platform::Windows, "1.1.1.1");
    let a = t.step(DnsEvent::IpChecked(true));
    assert_eq!(
        run_of(&a),
        (
            "powershell".to_string(),
            strs(&[
                "-NoProfile",
                "-Command",
                "(Get-NetIPConfiguration | Where-Object { $_.IPv4DefaultGateway -ne $null } | Select-Object -First 1 -ExpandProperty InterfaceAlias)",
            ])
        )
    );
    let a = t.step(ok_output("Ethernet 2\r\n"));
    assert_eq!(
        run_of(&a).1[2],
        "Start-Process netsh -Verb RunAs -Wait -ArgumentList 'interface','ip','set','dns','name=Ethernet 2','static','1.1.1.1'; ipconfig /flushdns"
    );
    let a = t.step(ok_output(""));
    assert_eq!(finished(a), Ok("DNS set to 1.1.1.1 on Ethernet 2".to_string()));

    let (mut t, _) = SystemDnsTask::reset_system_dns_sync(Platform::Windows);
    let a = t.step(ok_output("Wi-Fi\n"));
    assert_eq!(
        run_of(&a).1[2],
        "Start-Process netsh -Verb RunAs -Wait -ArgumentList 'interface','ip','set','dns','name=Wi-Fi','dhcp'; ipconfig /flushdns"
    );
    let a = t.step(failed_output("Access denied\r\n"));
    assert_eq!(finished(a), Err("Failed to reset DNS: Access denied".to_string()));

    let (mut t, _) = SystemDnsTask::reset_system_dns_sync(Platform::Windows);
    let a = t.step(ok_output("  \r\n"));
    assert_eq!(finished(a), Err("No active network interface found".to_string()));
}

#[test]
fn other_platforms_are_unsupported() {
    let (t, a) = SystemDnsTask::reset_system_dns_sync(Platform::Other);
    assert!(t.is_done());
    assert_eq!(finished(a), Err("Unsupported operating system".to_string()));
    let (mut t, _) = SystemDnsTask::set_system_dns_sync(Platform::Other, "1.1.1.1");
    let a = t.step(DnsEvent::IpChecked(true));
    assert_eq!(finished(a), Err("Unsupported operating system".to_string()));
}

#[test]
fn every_flow_ends_within_nine_requests() {
    for platform in [Platform::Linux, Platform::MacOs, Platform::Windows, Platform::Other] {
        let (mut t, mut a) = SystemDnsTask::set_system_dns_sync(platform, "1.1.1.1");
        let mut n = 1;
        while !t.is_done() {
            let e = match a {
                DnsAction::CheckIp(_) => DnsEvent::IpChecked(true),
                _ => failed_output(""),
            };
            a = t.step(e);
            n += 1;
        }
        assert!(n <= 9);
        assert!(matches!(a, DnsAction::Finish(_)));
    }
}
