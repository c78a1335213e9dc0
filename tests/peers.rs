use btc_rpc_proxy::peers::{PeerAddr, PeerHandle, PeerInfo, PeerLookup, PeerPool, Peers};
use btc_rpc_proxy::rpc::RpcError;

fn v4(last: u8) -> PeerAddr {
    PeerAddr::V4 { ip: [10, 0, 0, last], port: 8333 }
}

fn handle(last: u8) -> PeerHandle {
    PeerHandle { addr: v4(last), services: 1 }
}

fn addr_last(h: &PeerHandle) -> u8 {
    match h.addr {
        PeerAddr::V4 { ip, .. } => ip[3],
        _ => 0,
    }
}

#[test]
fn snapshot_keeps_serving_peers_in_order() {
    let infos = vec![
        PeerInfo { addr: Some(v4(1)), services: 1 | 8 },
        PeerInfo { addr: Some(v4(2)), services: 1024 },
        PeerInfo { addr: None, services: 1 },
        PeerInfo { addr: Some(PeerAddr::Onion { name: [b'a'; 56], port: 9050 }), services: 9 },
        PeerInfo { addr: Some(v4(5)), services: 1 },
    ];
    let p = Peers::from_peer_info(&infos, 1234);
    assert_eq!(p.created, Some(1234));
    assert_eq!(p.handles.len(), 3);
    assert_eq!(addr_last(&p.handles[0]), 1);
    assert!(p.handles[1].addr.is_onion());
    assert_eq!(addr_last(&p.handles[2]), 5);
}

#[test]
fn staleness() {
    let p = Peers { handles: vec![handle(1)], created: Some(1000) };
    assert!(!p.stale(1999, 1000));
    assert!(p.stale(2000, 1000));
    assert!(!p.stale(500, 1000));
    assert!(Peers::new().stale(0, 1000));
    assert!(Peers::new().stale(u64::MAX, u64::MAX));
    assert!(!p.is_empty());
    assert!(Peers::new().is_empty());
}

#[test]
fn stale_nonempty_snapshot_returns_at_once() {
    let pool = PeerPool { current: Peers { handles: vec![handle(1), handle(2)], created: Some(0) } };
    match pool.lookup(5000, 1000) {
        PeerLookup::RefreshInBackground(h) => {
            assert_eq!(h.len(), 2);
            assert_eq!(addr_last(&h[1]), 2);
        }
        other => panic!("unexpected lookup {:?}", other),
    }
    assert!(matches!(pool.lookup(500, 1000), PeerLookup::Ready(_)));
}

#[test]
fn refresh_result_is_observed() {
    let mut pool = PeerPool::new();
    assert!(matches!(pool.lookup(10, 1000), PeerLookup::AwaitRefresh));
    assert!(matches!(pool.lookup(0, 0), PeerLookup::AwaitRefresh));
    let fresh = Peers { handles: vec![handle(9)], created: Some(2000) };
    let got = pool.complete_refresh(Ok(fresh)).unwrap();
    assert_eq!(got.len(), 1);
    match pool.lookup(2500, 1000) {
        PeerLookup::Ready(h) => assert_eq!(addr_last(&h[0]), 9),
        other => panic!("unexpected lookup {:?}", other),
    }
}

#[test]
fn failed_refresh_keeps_snapshot() {
    let mut pool = PeerPool { current: Peers { handles: vec![handle(4)], created: Some(0) } };
    let e = pool.complete_refresh(Err(RpcError::misc("down".to_string()))).unwrap_err();
    assert_eq!(e.message, "down");
    assert_eq!(pool.current.handles.len(), 1);
    assert_eq!(addr_last(&pool.current.handles[0]), 4);
}

#[test]
fn empty_snapshot_forces_blocking_refresh() {
    let mut pool = PeerPool::new();
    assert!(matches!(pool.lookup(1000, 1000), PeerLookup::AwaitRefresh));
    // a second caller during the refresh sees the same decision
    assert!(matches!(pool.lookup(1001, 1000), PeerLookup::AwaitRefresh));
    let shared = pool.complete_refresh(Ok(Peers { handles: vec![handle(1), handle(2)], created: Some(1002) })).unwrap();
    assert_eq!(shared.len(), 2);
    match pool.lookup(1003, 1000) {
        PeerLookup::Ready(h) => assert_eq!(h.len(), 2),
        other => panic!("unexpected lookup {:?}", other),
    }
}
