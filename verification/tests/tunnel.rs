use charizhard::nvs::WgConfig;
use charizhard::wireguard::{build_tunnel_config, sync_systime, EndOutcome, NativeCall,
    StartOutcome, TunnelConfig, TunnelError, TunnelManager};

fn peer_config(endpoint: &str, port: &str) -> TunnelConfig {
    let cfg = WgConfig::from_fields(Some(endpoint), Some(port), Some("privkey"), Some("pubkey"));
    build_tunnel_config(&cfg).unwrap()
}

#[test]
fn tunnel_config_carries_the_stored_peer() {
    let c = peer_config("vpn.example.org", "51821");
    assert_eq!(c.endpoint.as_str(), "vpn.example.org");
    assert_eq!(c.port, 51821);
    assert_eq!(c.private_key.as_str(), "privkey");
    assert_eq!(c.public_key.as_str(), "pubkey");
    assert_eq!(c.listen_port, 51820);
    assert_eq!(c.persistent_keepalive, 20);
}

#[test]
fn tunnel_config_refuses_a_bad_port() {
    let cfg = WgConfig::from_fields(Some("host"), Some("fifty"), None, None);
    assert_eq!(build_tunnel_config(&cfg).unwrap_err(), TunnelError::BadPort);
    let cfg = WgConfig::from_fields(Some("host"), Some("70000"), None, None);
    assert_eq!(build_tunnel_config(&cfg).unwrap_err(), TunnelError::BadPort);
}

#[test]
fn start_succeeds_when_the_peer_answers() {
    let mut mgr = TunnelManager::new();
    let mut polls = vec![false; 10];
    polls[2] = true;
    let (outcome, trace) = mgr.start_tunnel(peer_config("host", "51820"), true, true, &polls, true);
    assert_eq!(outcome, StartOutcome::Started);
    assert_eq!(
        trace,
        vec![
            NativeCall::Init,
            NativeCall::Connect,
            NativeCall::PollPeer,
            NativeCall::PollPeer,
            NativeCall::PollPeer,
            NativeCall::SetDefaultRoute,
        ]
    );
    assert!(mgr.is_active());
    assert_eq!(mgr.status().unwrap().as_str(), "host");
}

#[test]
fn second_start_is_refused_without_native_calls() {
    let mut mgr = TunnelManager::new();
    let mut polls = vec![false; 10];
    polls[0] = true;
    let (first, _) = mgr.start_tunnel(peer_config("one", "1"), true, true, &polls, true);
    assert_eq!(first, StartOutcome::Started);
    // the second caller observes "already active" and performs no native call
    let (second, trace) = mgr.start_tunnel(peer_config("two", "2"), true, true, &polls, true);
    assert_eq!(second, StartOutcome::AlreadyActive);
    assert!(trace.is_empty());
    // the stored context is the first start's, untouched
    assert_eq!(mgr.status().unwrap().as_str(), "one");
}

#[test]
fn init_failure_propagates() {
    let mut mgr = TunnelManager::new();
    let polls = vec![false; 10];
    let (outcome, trace) = mgr.start_tunnel(peer_config("host", "1"), false, true, &polls, true);
    assert_eq!(outcome, StartOutcome::InitFailed);
    assert_eq!(trace, vec![NativeCall::Init]);
    assert!(!mgr.is_active());
}

#[test]
fn connect_failure_propagates() {
    let mut mgr = TunnelManager::new();
    let polls = vec![false; 10];
    let (outcome, trace) = mgr.start_tunnel(peer_config("host", "1"), true, false, &polls, true);
    assert_eq!(outcome, StartOutcome::ConnectFailed);
    assert_eq!(trace, vec![NativeCall::Init, NativeCall::Connect]);
    assert!(!mgr.is_active());
}

#[test]
fn route_failure_leaves_no_context() {
    let mut mgr = TunnelManager::new();
    let mut polls = vec![false; 10];
    polls[0] = true;
    let (outcome, trace) = mgr.start_tunnel(peer_config("host", "1"), true, true, &polls, false);
    assert_eq!(outcome, StartOutcome::RouteFailed);
    assert_eq!(
        trace,
        vec![NativeCall::Init, NativeCall::Connect, NativeCall::PollPeer,
            NativeCall::SetDefaultRoute]
    );
    assert!(!mgr.is_active());
}

#[test]
fn unreachable_peer_exhausts_and_cleans_up() {
    let mut mgr = TunnelManager::new();
    // the endpoint never answers: all ten polling attempts are spent
    let polls = vec![false; 10];
    let (outcome, trace) = mgr.start_tunnel(peer_config("dead", "1"), true, true, &polls, true);
    assert_eq!(outcome, StartOutcome::PeerUnreachable);
    let mut expected = vec![NativeCall::Init, NativeCall::Connect];
    expected.extend(vec![NativeCall::PollPeer; 10]);
    expected.push(NativeCall::Disconnect);
    assert_eq!(trace, expected);
    assert!(!mgr.is_active());

    // nothing leaked: a following start against a reachable peer succeeds
    let mut polls2 = vec![false; 10];
    polls2[0] = true;
    let (again, trace2) = mgr.start_tunnel(peer_config("alive", "2"), true, true, &polls2, true);
    assert_eq!(again, StartOutcome::Started);
    assert_eq!(
        trace2,
        vec![NativeCall::Init, NativeCall::Connect, NativeCall::PollPeer,
            NativeCall::SetDefaultRoute]
    );
    assert_eq!(mgr.status().unwrap().as_str(), "alive");
}

#[test]
fn end_on_absent_context_is_a_noop() {
    let mut mgr = TunnelManager::new();
    let (outcome, trace) = mgr.end_tunnel(true);
    assert_eq!(outcome, EndOutcome::NotActive);
    assert!(trace.is_empty());
    assert!(!mgr.is_active());
}

#[test]
fn end_tears_an_active_tunnel_down() {
    let mut mgr = TunnelManager::new();
    let mut polls = vec![false; 10];
    polls[0] = true;
    mgr.start_tunnel(peer_config("host", "1"), true, true, &polls, true);
    let (outcome, trace) = mgr.end_tunnel(true);
    assert_eq!(outcome, EndOutcome::Ended);
    assert_eq!(trace, vec![NativeCall::Disconnect]);
    assert!(!mgr.is_active());
    assert!(mgr.status().is_none());
}

#[test]
fn failed_disconnect_keeps_the_context() {
    let mut mgr = TunnelManager::new();
    let mut polls = vec![false; 10];
    polls[0] = true;
    mgr.start_tunnel(peer_config("host", "1"), true, true, &polls, true);
    let (outcome, trace) = mgr.end_tunnel(false);
    assert_eq!(outcome, EndOutcome::DisconnectFailed);
    assert_eq!(trace, vec![NativeCall::Disconnect]);
    assert!(mgr.is_active());
}

#[test]
fn time_sync_succeeds_on_any_reading() {
    let mut status = vec![false; 11];
    status[4] = true;
    assert!(sync_systime(&status).is_ok());
    let mut early = vec![false; 11];
    early[0] = true;
    assert!(sync_systime(&early).is_ok());
}

#[test]
fn time_sync_fails_after_the_budget() {
    let status = vec![false; 11];
    assert_eq!(sync_systime(&status).unwrap_err(), TunnelError::TimeSyncFailed);
}
