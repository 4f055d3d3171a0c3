use ahash::AHashSet;
use beetle::peer_manager::{PeerAction, PeerManager, PeerState, PeerStateChange};
use beetle::protocol::ProtocolId;

fn ids(list: &[u64]) -> AHashSet<u64> {
    list.iter().copied().collect()
}

#[test]
fn test_basic_connect_disconnect() {
    let mut pm = PeerManager::new();
    let peers: Vec<u64> = (0..10).map(|i| 1000 + i).collect();

    // Ensure no state is known
    for i in 0..10 {
        assert_eq!(pm.get_peer_state(peers[i]), None);
    }

    // 5 new connections
    for i in 0..5 {
        assert_eq!(pm.set_peer_state(peers[i], PeerStateChange::Connected(i as u64)), None);
    }
    // disconnect 3
    for i in 0..3 {
        assert_eq!(
            pm.set_peer_state(peers[i], PeerStateChange::Disconnected(i as u64)),
            Some(PeerAction::Disconnected)
        );
    }

    // identify 2
    for i in 3..5 {
        assert_eq!(
            pm.set_peer_state(peers[i], PeerStateChange::Responsive(Some(i as u64), ProtocolId::Bitswap120)),
            Some(PeerAction::Connected)
        );
    }

    // reconnect one
    assert_eq!(
        pm.set_peer_state(peers[1], PeerStateChange::Responsive(Some(1), ProtocolId::Bitswap120)),
        Some(PeerAction::Connected)
    );

    // check status
    assert_eq!(pm.get_peer_state(peers[0]), None); // Disconnected
    assert_eq!(
        pm.get_peer_state(peers[1]),
        Some(PeerState::Responsive(ids(&[1]), ProtocolId::Bitswap120))
    );
    assert_eq!(pm.get_peer_state(peers[2]), None); // Disconnected
    for i in 3..5 {
        assert_eq!(
            pm.get_peer_state(peers[i]),
            Some(PeerState::Responsive(ids(&[i as u64]), ProtocolId::Bitswap120))
        );
    }
    for i in 5..10 {
        assert_eq!(pm.get_peer_state(peers[i]), None); // Disconnected
    }
}

#[test]
fn test_multiple_connections() {
    let mut pm = PeerManager::new();
    let peers: Vec<u64> = vec![7, 8];

    // Ensure no state is known
    for i in 0..2 {
        assert_eq!(pm.get_peer_state(peers[i]), None);
    }

    // 3 new connections for peer0
    for i in 0..3 {
        assert_eq!(pm.set_peer_state(peers[0], PeerStateChange::Connected(i * 100)), None);
    }
    assert_eq!(pm.get_peer_state(peers[0]), Some(PeerState::Connected(ids(&[0, 100, 200]))));

    // Insert double
    assert_eq!(pm.set_peer_state(peers[0], PeerStateChange::Connected(0)), None);
    assert_eq!(pm.get_peer_state(peers[0]), Some(PeerState::Connected(ids(&[0, 100, 200]))));

    // Responsive, moves all ids, including the new one
    assert_eq!(
        pm.set_peer_state(peers[0], PeerStateChange::Responsive(Some(400), ProtocolId::Bitswap120)),
        Some(PeerAction::Connected),
    );
    assert_eq!(
        pm.get_peer_state(peers[0]),
        Some(PeerState::Responsive(ids(&[0, 100, 200, 400]), ProtocolId::Bitswap120))
    );

    // disconnecting one, doesn't emit a disconnect
    assert_eq!(pm.set_peer_state(peers[0], PeerStateChange::Disconnected(0)), None);
    assert_eq!(
        pm.get_peer_state(peers[0]),
        Some(PeerState::Responsive(ids(&[100, 200, 400]), ProtocolId::Bitswap120))
    );
}

#[test]
fn failures_and_unresponsive_peers() {
    let mut pm = PeerManager::new();
    // an unknown peer that failed to dial is recorded
    assert_eq!(pm.set_peer_state(1, PeerStateChange::DialFailure), None);
    assert!(matches!(pm.get_peer_state(1), Some(PeerState::DialFailure(_))));
    // reports about unknown peers are ignored
    assert_eq!(pm.set_peer_state(2, PeerStateChange::Unresponsive), None);
    assert_eq!(pm.set_peer_state(2, PeerStateChange::Disconnected(5)), None);
    assert_eq!(pm.set_peer_state(2, PeerStateChange::Responsive(None, ProtocolId::Legacy)), None);
    assert_eq!(pm.get_peer_state(2), None);
    // a failed peer that connects is connected
    assert_eq!(pm.set_peer_state(1, PeerStateChange::Connected(3)), None);
    assert_eq!(pm.get_peer_state(1), Some(PeerState::Connected(ids(&[3]))));
    // a connected peer that turns unresponsive is reported, but kept
    assert_eq!(pm.set_peer_state(1, PeerStateChange::Unresponsive), Some(PeerAction::Disconnected));
    assert_eq!(pm.get_peer_state(1), Some(PeerState::Connected(ids(&[3]))));
    assert_eq!(pm.set_peer_state(1, PeerStateChange::DialFailure), Some(PeerAction::Disconnected));
    // a responsive peer changes protocol without a new report
    assert_eq!(pm.set_peer_state(1, PeerStateChange::Responsive(None, ProtocolId::Bitswap100)), Some(PeerAction::Connected));
    assert_eq!(pm.set_peer_state(1, PeerStateChange::Responsive(None, ProtocolId::Bitswap110)), None);
    assert_eq!(pm.get_peer_state(1), Some(PeerState::Responsive(ids(&[3]), ProtocolId::Bitswap110)));
    assert_eq!(pm.set_peer_state(1, PeerStateChange::Disconnected(3)), Some(PeerAction::Disconnected));
    assert_eq!(pm.get_peer_state(1), None);
}

#[test]
fn defaults_and_clones() {
    assert_eq!(PeerState::default(), PeerState::Disconnected);
    let pm = PeerManager::default();
    assert!(pm.get_peer_state(1).is_none());
    let mut pm = PeerManager::new();
    pm.set_peer_state(1, PeerStateChange::Connected(7));
    let copy = pm.clone();
    pm.set_peer_state(1, PeerStateChange::Disconnected(7));
    assert!(pm.get_peer_state(1).is_none());
    assert_eq!(copy.get_peer_state(1), Some(PeerState::Connected(ids(&[7]))));
    let s = PeerState::Responsive(ids(&[3, 4]), ProtocolId::Bitswap120);
    assert_eq!(s.clone(), s);
}
