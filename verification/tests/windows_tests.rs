use bargozin::windows_dns::{
    is_usable_interface_name, netsh_params_exec, netsh_verdict_exec, select_interface, to_wide,
    AdapterInfo, NetshOutcome, WinAction, WinEvent, WindowsDnsTask, ERROR_CANCELLED,
};

fn adapter(up: bool, loopback: bool, gw: bool, metric: u32, name: &str) -> AdapterInfo {
    AdapterInfo { up, loopback, has_gateway: gw, metric, name: name.to_string() }
}

#[test]
fn usable_names() {
    assert!(is_usable_interface_name("Ethernet"));
    assert!(!is_usable_interface_name(""));
    assert!(!is_usable_interface_name("Eth\"ernet"));
    assert!(!is_usable_interface_name("Eth\0"));
}

#[test]
fn selects_lowest_metric_first_among_equals() {
    let list = vec![
        adapter(true, false, true, 50, "Wi-Fi"),
        adapter(false, false, true, 5, "Down"),
        adapter(true, true, true, 1, "Loopback"),
        adapter(true, false, false, 1, "No gateway"),
        adapter(true, false, true, 25, "Ethernet"),
        adapter(true, false, true, 25, "Ethernet 2"),
        adapter(true, false, true, 1, "Bad\"Name"),
    ];
    assert_eq!(select_interface(&list), Some("Ethernet".to_string()));
    assert_eq!(select_interface(&vec![adapter(false, false, true, 1, "x")]), None);
    assert_eq!(select_interface(&vec![]), None);
}

#[test]
fn wide_text_is_nul_terminated_utf16() {
    assert_eq!(to_wide("netsh"), "netsh".encode_utf16().chain(std::iter::once(0)).collect::<Vec<u16>>());
    assert_eq!(to_wide(""), vec![0]);
    assert_eq!(to_wide("é😀"), vec![0xE9, 0xD83D, 0xDE00, 0]);
}

#[test]
fn netsh_parameters() {
    assert_eq!(
        netsh_params_exec(&Some("1.1.1.1".to_string()), "Ethernet"),
        "interface ipv4 set dnsservers name=\"Ethernet\" source=static address=1.1.1.1 register=primary validate=no"
    );
    assert_eq!(
        netsh_params_exec(&None, "Wi-Fi"),
        "interface ipv4 set dnsservers name=\"Wi-Fi\" source=dhcp register=primary validate=no"
    );
}

#[test]
fn netsh_outcomes() {
    assert_eq!(netsh_verdict_exec(&NetshOutcome::NotStarted { error: ERROR_CANCELLED }), Err("Operation cancelled by user".to_string()));
    assert_eq!(netsh_verdict_exec(&NetshOutcome::NotStarted { error: 5 }), Err("Failed to start elevated netsh (error 5)".to_string()));
    assert_eq!(netsh_verdict_exec(&NetshOutcome::NoProcess), Ok(()));
    assert_eq!(netsh_verdict_exec(&NetshOutcome::Exited { code: None }), Err("Failed to read netsh result".to_string()));
    assert_eq!(netsh_verdict_exec(&NetshOutcome::Exited { code: Some(1) }), Err("Failed to set DNS (netsh exit code 1)".to_string()));
    assert_eq!(netsh_verdict_exec(&NetshOutcome::Exited { code: Some(0) }), Ok(()));
}

#[test]
fn windows_set_flow() {
    let (mut t, a) = WindowsDnsTask::set_dns_windows("8.8.8.8");
    assert!(matches!(a, WinAction::ListAdapters));
    let a = t.step(WinEvent::Adapters(Some(vec![adapter(true, false, true, 10, "Ethernet")])));
    match a {
        WinAction::ElevatedNetsh(p) => assert_eq!(
            p,
            "interface ipv4 set dnsservers name=\"Ethernet\" source=static address=8.8.8.8 register=primary validate=no"
        ),
        _ => panic!("expected netsh"),
    }
    let a = t.step(WinEvent::Netsh(NetshOutcome::Exited { code: Some(0) }));
    assert!(matches!(a, WinAction::FlushDnsCache));
    let a = t.step(WinEvent::Flushed);
    match a {
        WinAction::Finish(r) => assert_eq!(r, Ok("DNS set to 8.8.8.8 on Ethernet".to_string())),
        _ => panic!("expected the end"),
    }
    assert!(t.is_done());
}

#[test]
fn windows_reset_flow_and_failures() {
    let (mut t, _) = WindowsDnsTask::reset_dns_windows();
    t.step(WinEvent::Adapters(Some(vec![adapter(true, false, true, 10, "Wi-Fi")])));
    t.step(WinEvent::Netsh(NetshOutcome::NoProcess));
    match t.step(WinEvent::Flushed) {
        WinAction::Finish(r) => assert_eq!(r, Ok("DNS reset to automatic (DHCP) on Wi-Fi".to_string())),
        _ => panic!("expected the end"),
    }

    let (mut t, _) = WindowsDnsTask::reset_dns_windows();
    match t.step(WinEvent::Adapters(None)) {
        WinAction::Finish(r) => assert_eq!(r, Err("Failed to list network adapters".to_string())),
        _ => panic!("expected the end"),
    }

    let (mut t, _) = WindowsDnsTask::reset_dns_windows();
    match t.step(WinEvent::Adapters(Some(vec![]))) {
        WinAction::Finish(r) => assert_eq!(r, Err("No active network interface found".to_string())),
        _ => panic!("expected the end"),
    }

    let (mut t, _) = WindowsDnsTask::reset_dns_windows();
    t.step(WinEvent::Adapters(Some(vec![adapter(true, false, true, 10, "Wi-Fi")])));
    match t.step(WinEvent::Netsh(NetshOutcome::NotStarted { error: ERROR_CANCELLED })) {
        WinAction::Finish(r) => assert_eq!(r, Err("Operation cancelled by user".to_string())),
        _ => panic!("expected the end"),
    }
}
