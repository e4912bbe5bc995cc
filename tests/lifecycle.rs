use devya::lifecycle::{root_for_proxy, CheckProxyRunningResp, ProxyStateInner, StartOutcome};

#[test]
fn fresh_record_reports_nothing_running() {
    let s: ProxyStateInner<u32> = ProxyStateInner::new();
    assert_eq!(s.check_proxy_running(), CheckProxyRunningResp { port: None, running_count: 0 });
}

#[test]
fn port_changeover_fires_the_old_sender_and_reports_the_new_port() {
    let mut s: ProxyStateInner<&str> = ProxyStateInner::new();
    assert!(!s.is_bound_to(8080));
    assert_eq!(s.begin_changeover(8080), None);
    s.register_proxy("first");
    assert!(s.is_bound_to(8080));
    assert!(!s.is_bound_to(9090));
    assert_eq!(s.begin_changeover(9090), Some("first"));
    s.register_proxy("second");
    let probe = s.check_proxy_running();
    assert_eq!(probe.port, Some(9090));
    assert_eq!(probe.running_count, 2);
    assert_eq!(s.shutdown_tx, Some("second"));
    s.proxy_exited();
    assert_eq!(s.check_proxy_running(), CheckProxyRunningResp { port: Some(9090), running_count: 1 });
}

#[test]
fn running_count_goes_up_once_and_down_once() {
    let mut s: ProxyStateInner<u8> = ProxyStateInner::new();
    s.begin_changeover(7777);
    s.register_proxy(1);
    assert_eq!(s.running_count, 1);
    s.proxy_exited();
    assert_eq!(s.running_count, 0);
}

#[test]
fn stopping_twice_fires_once() {
    let mut s: ProxyStateInner<u8> = ProxyStateInner::new();
    s.begin_changeover(7777);
    s.register_proxy(5);
    assert_eq!(s.stop_proxy(), Some(5));
    assert_eq!(s.stop_proxy(), None);
    assert_eq!(s.port, Some(7777));
    assert_eq!(s.running_count, 1);
}

#[test]
fn start_records_port_sender_and_count_at_once() {
    let mut s: ProxyStateInner<&str> = ProxyStateInner::new();
    assert!(matches!(s.start_proxy(8080, true, "a"), StartOutcome::Started(None)));
    assert!(matches!(s.start_proxy(9090, true, "b"), StartOutcome::Started(Some("a"))));
    assert_eq!(s.check_proxy_running(), CheckProxyRunningResp { port: Some(9090), running_count: 2 });
    assert_eq!(s.shutdown_tx, Some("b"));
}

#[test]
fn start_on_the_bound_port_changes_nothing() {
    let mut s: ProxyStateInner<&str> = ProxyStateInner::new();
    s.start_proxy(8080, true, "a");
    assert!(matches!(s.start_proxy(8080, true, "again"), StartOutcome::AlreadyRunning));
    assert_eq!(s.shutdown_tx, Some("a"));
    assert_eq!(s.check_proxy_running(), CheckProxyRunningResp { port: Some(8080), running_count: 1 });
}

#[test]
fn failed_bind_keeps_the_running_proxy() {
    let mut s: ProxyStateInner<&str> = ProxyStateInner::new();
    s.start_proxy(8080, true, "a");
    assert!(matches!(s.start_proxy(9090, false, "b"), StartOutcome::BindFailed));
    assert_eq!(s.shutdown_tx, Some("a"));
    assert_eq!(s.check_proxy_running(), CheckProxyRunningResp { port: Some(8080), running_count: 1 });
}

#[test]
fn proxy_gets_a_root_only_with_interception() {
    assert_eq!(root_for_proxy(true, Some(7)), Some(7));
    assert_eq!(root_for_proxy(true, None::<u8>), None);
    assert_eq!(root_for_proxy(false, Some(7)), None);
}
