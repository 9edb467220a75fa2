use bargozin::download::{
    DownloadAction, DownloadEvent, DownloadOutcome, DownloadTest, Elapsed, ResolveOutcome,
};

fn at(secs: u64, nanos: u32) -> Elapsed {
    Elapsed { secs, nanos }
}

fn finish(a: DownloadAction) -> Result<DownloadOutcome, String> {
    match a {
        DownloadAction::Finish(r) => r,
        _ => panic!("expected the end"),
    }
}

fn chunk(n: u64, cancelled: bool, secs: u64) -> DownloadEvent {
    DownloadEvent::Chunk { item: Some(Ok(n)), cancelled, elapsed: at(secs, 0) }
}

fn started(url: &str, timeout: u64) -> DownloadTest {
    let (t, a) = DownloadTest::download_with_custom_dns(url, "8.8.8.8", timeout);
    match a {
        DownloadAction::Resolve { nameserver, host, timeout_seconds } => {
            assert_eq!(nameserver, "8.8.8.8:53");
            assert_eq!(timeout_seconds, timeout);
            assert!(!host.is_empty());
        }
        _ => panic!("expected a resolution"),
    }
    t.unwrap()
}

#[test]
fn bad_urls_end_at_once() {
    let (t, a) = DownloadTest::download_with_custom_dns("not a url", "8.8.8.8", 10);
    assert!(t.is_none());
    assert_eq!(finish(a), Err("relative URL without a base".to_string()));
    let (t, a) = DownloadTest::download_with_custom_dns("mailto:a@b.c", "8.8.8.8", 10);
    assert!(t.is_none());
    assert_eq!(finish(a), Err("Invalid host".to_string()));
}

#[test]
fn full_download_counts_bytes() {
    let mut t = started("http://example.com/file.bin", 10);
    let a = t.step(DownloadEvent::Resolution(ResolveOutcome::Resolved { resolution: at(0, 42_500_000) }));
    assert!(matches!(a, DownloadAction::ReadClock));
    let a = t.step(DownloadEvent::Clock(at(0, 50_000_000)));
    assert!(matches!(a, DownloadAction::ReadClock));
    match t.step(DownloadEvent::Clock(at(1, 250_000_000))) {
        DownloadAction::Request { host, port, url, timeout } => {
            assert_eq!(host, "example.com");
            assert_eq!(port, 80);
            assert_eq!(url, "http://example.com/file.bin");
            assert_eq!(timeout, at(8, 750_000_000));
        }
        _ => panic!("expected a request"),
    }
    assert!(matches!(t.step(DownloadEvent::Responded), DownloadAction::NextChunk));
    assert!(matches!(t.step(chunk(1000, false, 2)), DownloadAction::NextChunk));
    assert!(matches!(t.step(chunk(24, false, 3)), DownloadAction::NextChunk));
    assert_eq!(t.downloaded_bytes(), 1024);
    let a = t.step(DownloadEvent::Chunk { item: None, cancelled: false, elapsed: at(3, 0) });
    assert!(matches!(a, DownloadAction::CheckCancelled));
    let r = finish(t.step(DownloadEvent::Cancelled(false)));
    assert_eq!(r, Ok(DownloadOutcome { downloaded_bytes: 1024, resolution_time_ms: 42 }));
    assert!(t.is_done());
}

#[test]
fn time_up_stops_reading_without_counting() {
    let mut t = started("https://example.com/", 5);
    t.step(DownloadEvent::Resolution(ResolveOutcome::Resolved { resolution: at(0, 0) }));
    t.step(DownloadEvent::Clock(at(0, 0)));
    match t.step(DownloadEvent::Clock(at(0, 0))) {
        DownloadAction::Request { port, timeout, .. } => {
            assert_eq!(port, 443);
            assert_eq!(timeout, at(5, 0));
        }
        _ => panic!("expected a request"),
    }
    t.step(DownloadEvent::Responded);
    t.step(chunk(10, false, 1));
    assert!(matches!(t.step(chunk(99, false, 5)), DownloadAction::CheckCancelled));
    assert_eq!(t.downloaded_bytes(), 10);
    let r = finish(t.step(DownloadEvent::Cancelled(false)));
    assert_eq!(r, Ok(DownloadOutcome { downloaded_bytes: 10, resolution_time_ms: 0 }));
}

#[test]
fn cancellation_ends_with_an_error() {
    let mut t = started("https://example.com/", 5);
    t.step(DownloadEvent::Resolution(ResolveOutcome::Resolved { resolution: at(0, 0) }));
    t.step(DownloadEvent::Clock(at(0, 0)));
    t.step(DownloadEvent::Clock(at(0, 0)));
    t.step(DownloadEvent::Responded);
    assert!(matches!(t.step(chunk(10, true, 1)), DownloadAction::CheckCancelled));
    assert_eq!(finish(t.step(DownloadEvent::Cancelled(true))), Err("Download cancelled".to_string()));
}

#[test]
fn each_failure_has_its_message() {
    let mut t = started("https://example.com/", 7);
    assert_eq!(
        finish(t.step(DownloadEvent::Resolution(ResolveOutcome::TimedOut))),
        Err("DNS resolution timed out after 7 seconds".to_string())
    );
    let mut t = started("https://example.com/", 7);
    assert_eq!(
        finish(t.step(DownloadEvent::Resolution(ResolveOutcome::Failed("no record".to_string())))),
        Err("DNS resolution failed: no record".to_string())
    );
    let mut t = started("https://example.com/", 7);
    t.step(DownloadEvent::Resolution(ResolveOutcome::Resolved { resolution: at(0, 0) }));
    assert_eq!(finish(t.step(DownloadEvent::Clock(at(7, 0)))), Err("Operation timed out during DNS resolution".to_string()));
    let mut t = started("ftp://example.com/x", 7);
    t.step(DownloadEvent::Resolution(ResolveOutcome::Resolved { resolution: at(0, 0) }));
    assert_eq!(finish(t.step(DownloadEvent::Clock(at(0, 0)))), Err("Unsupported scheme".to_string()));
    let mut t = started("https://example.com/", 7);
    t.step(DownloadEvent::Resolution(ResolveOutcome::Resolved { resolution: at(0, 0) }));
    t.step(DownloadEvent::Clock(at(6, 999_999_999)));
    assert_eq!(finish(t.step(DownloadEvent::Clock(at(7, 1)))), Err("Operation timed out before HTTP request".to_string()));
    let mut t = started("https://example.com/", 7);
    t.step(DownloadEvent::Resolution(ResolveOutcome::Resolved { resolution: at(0, 0) }));
    t.step(DownloadEvent::Clock(at(0, 0)));
    t.step(DownloadEvent::Clock(at(0, 0)));
    assert_eq!(finish(t.step(DownloadEvent::ClientFailed("builder error".to_string()))), Err("builder error".to_string()));
    let mut t = started("https://example.com/", 7);
    t.step(DownloadEvent::Resolution(ResolveOutcome::Resolved { resolution: at(0, 0) }));
    t.step(DownloadEvent::Clock(at(0, 0)));
    t.step(DownloadEvent::Clock(at(0, 0)));
    assert_eq!(finish(t.step(DownloadEvent::SendFailed("refused".to_string()))), Err("HTTP request failed: refused".to_string()));
    let mut t = started("https://example.com/", 7);
    t.step(DownloadEvent::Resolution(ResolveOutcome::Resolved { resolution: at(0, 0) }));
    t.step(DownloadEvent::Clock(at(0, 0)));
    t.step(DownloadEvent::Clock(at(0, 0)));
    t.step(DownloadEvent::Responded);
    let e = DownloadEvent::Chunk { item: Some(Err("reset".to_string())), cancelled: false, elapsed: at(1, 0) };
    assert_eq!(finish(t.step(e)), Err("Stream error: reset".to_string()));
}
