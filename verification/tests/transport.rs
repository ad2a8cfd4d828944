use locutus_node::conn_manager::in_memory::{
    Fabric, InMemoryTransport, MemoryConnManager, PollAction,
};
use locutus_node::conn_manager::wire::{MessageOnTransit, SendOutcome, WireEvent};
use locutus_node::conn_manager::{ConnError, PeerKey, PeerKeyLocation, Transport};
use locutus_node::message::{Message, Transaction, TransactionTypeId};
use locutus_node::ring::Location;

fn at(peer: u64, position: u64) -> PeerKeyLocation {
    PeerKeyLocation { peer: PeerKey::new(peer), location: Some(Location::new(position)) }
}

fn payload(len: usize) -> Vec<u8> {
    (0..len).map(|i| (i % 251) as u8).collect()
}

#[test]
fn send_without_location_is_refused_and_leaves_fabric_empty() {
    let fabric = Fabric::new();
    let sender = MemoryConnManager::new(true, PeerKey::new(1), Some(Location::new(10)), &fabric);
    let mut target = MemoryConnManager::new(false, PeerKey::new(2), None, &fabric);

    let unresolved = PeerKeyLocation { peer: PeerKey::new(2), location: None };
    assert_eq!(sender.send(&unresolved, vec![1, 2, 3]), Err(ConnError::LocationUnknown));

    assert_eq!(target.transport.poll_network(), PollAction::Wait);
    assert_eq!(target.next_inbound(), None);
    assert_eq!(target.try_recv(), None);

    assert_eq!(sender.send(&at(2, 20), vec![4, 5]), Ok(()));
    assert_eq!(target.transport.poll_network(), PollAction::Again);
    assert_eq!(target.next_inbound(), Some(vec![4, 5]));
}

#[test]
fn message_goes_from_sender_to_target_unchanged() {
    for len in [0usize, 1, 17, 1_000, 100_000] {
        let fabric = Fabric::new();
        let x = MemoryConnManager::new(true, PeerKey::new(1), Some(Location::new(10)), &fabric);
        let mut y = MemoryConnManager::new(true, PeerKey::new(2), Some(Location::new(20)), &fabric);

        let sent = Message::new(Transaction::new(len as u64, TransactionTypeId::Get), payload(len));
        assert_eq!(x.send(&at(2, 20), sent.payload.clone()), Ok(()));

        assert_eq!(y.try_recv(), None);
        assert_eq!(y.transport.poll_network(), PollAction::Again);
        assert_eq!(y.transport.poll_network(), PollAction::Wait);
        let data = y.next_inbound().unwrap();
        assert_eq!(data, payload(len));
        assert_eq!(y.next_inbound(), None);

        y.deliver(Message::new(sent.transaction, data));
        let received = y.try_recv().unwrap();
        assert_eq!(received.transaction.id, len as u64);
        assert_eq!(received.transaction.tx_type(), TransactionTypeId::Get);
        assert_eq!(received.payload, payload(len));
        assert_eq!(received, sent);
        assert_eq!(y.try_recv(), None);
    }
}

#[test]
fn envelope_for_another_peer_is_dropped() {
    let fabric = Fabric::new();
    let x = MemoryConnManager::new(true, PeerKey::new(1), Some(Location::new(10)), &fabric);
    let mut y = MemoryConnManager::new(true, PeerKey::new(2), Some(Location::new(20)), &fabric);
    let mut z = MemoryConnManager::new(true, PeerKey::new(3), Some(Location::new(30)), &fabric);

    assert_eq!(x.send(&at(2, 20), vec![9]), Ok(()));
    assert_eq!(z.transport.poll_network(), PollAction::Wait);
    assert_eq!(z.next_inbound(), None);
    assert_eq!(z.try_recv(), None);
    assert_eq!(y.transport.poll_network(), PollAction::Wait);
    assert_eq!(y.next_inbound(), None);
}

#[test]
fn each_peer_receives_only_its_own_messages() {
    let fabric = Fabric::new();
    let keys = [1u64, 2, 3, 4];
    let mut peers: Vec<MemoryConnManager> = keys
        .iter()
        .map(|k| MemoryConnManager::new(true, PeerKey::new(*k), Some(Location::new(*k * 10)), &fabric))
        .collect();

    let mut expected: Vec<Vec<Vec<u8>>> = vec![Vec::new(); keys.len()];
    for round in 0..5u8 {
        for (from, _) in keys.iter().enumerate() {
            for (to, key) in keys.iter().enumerate() {
                if from == to {
                    continue;
                }
                let bytes = vec![round, from as u8, to as u8];
                assert_eq!(peers[from].send(&at(*key, *key * 10), bytes.clone()), Ok(()));
                assert_eq!(peers[to].transport.poll_network(), PollAction::Again);
                expected[to].push(bytes);
            }
        }
    }

    for (index, peer) in peers.iter_mut().enumerate() {
        assert_eq!(peer.transport.poll_network(), PollAction::Wait);
        let mut got: Vec<Vec<u8>> = Vec::new();
        while let Some(data) = peer.next_inbound() {
            assert_eq!(data[2], index as u8);
            got.push(data);
        }
        got.reverse();
        assert_eq!(got, expected[index]);
    }
}

#[test]
fn envelope_names_sender_its_location_and_target() {
    let fabric = Fabric::new();
    let unjoined = InMemoryTransport::new(true, PeerKey::new(5), None, &fabric);
    assert_eq!(
        unjoined.envelope(PeerKey::new(6), vec![1, 2, 3]),
        MessageOnTransit {
            origin: PeerKey::new(5),
            origin_loc: None,
            target: PeerKey::new(6),
            data: vec![1, 2, 3],
        }
    );
    let joined = InMemoryTransport::new(true, PeerKey::new(7), Some(Location::new(70)), &fabric);
    assert_eq!(
        joined.envelope(PeerKey::new(6), vec![]),
        MessageOnTransit {
            origin: PeerKey::new(7),
            origin_loc: Some(Location::new(70)),
            target: PeerKey::new(6),
            data: vec![],
        }
    );
}

#[test]
fn transport_send_reaches_the_target_inbox() {
    let fabric = Fabric::new();
    let sender = InMemoryTransport::new(true, PeerKey::new(5), None, &fabric);
    let mut target = InMemoryTransport::new(false, PeerKey::new(6), Some(Location::new(60)), &fabric);
    assert_eq!(sender.send(PeerKey::new(6), Location::new(60), vec![7, 8]), Ok(()));
    assert_eq!(target.poll_network(), PollAction::Again);
    assert_eq!(
        target.take_inbound(),
        Some(MessageOnTransit {
            origin: PeerKey::new(5),
            origin_loc: None,
            target: PeerKey::new(6),
            data: vec![7, 8],
        })
    );
    assert_eq!(target.take_inbound(), None);
}

#[test]
fn sent_envelope_carries_the_senders_location_not_the_targets() {
    let fabric = Fabric::new();
    let sender = MemoryConnManager::new(true, PeerKey::new(1), Some(Location::new(10)), &fabric);
    let mut target = MemoryConnManager::new(true, PeerKey::new(2), Some(Location::new(20)), &fabric);
    assert_eq!(sender.send(&at(2, 20), vec![1]), Ok(()));
    assert_eq!(target.poll_network(), PollAction::Again);
    let envelope = target.transport.take_inbound().unwrap();
    assert_eq!(envelope.origin, PeerKey::new(1));
    assert_eq!(envelope.origin_loc, Some(Location::new(10)));
    assert_eq!(envelope.target, PeerKey::new(2));
    assert_eq!(envelope.data, vec![1]);
}

#[test]
fn outbound_is_an_envelope_only_for_a_located_target() {
    let fabric = Fabric::new();
    let manager = MemoryConnManager::new(true, PeerKey::new(1), Some(Location::new(10)), &fabric);
    let unresolved = PeerKeyLocation { peer: PeerKey::new(2), location: None };
    assert_eq!(manager.outbound(&unresolved, vec![1, 2]), Err(ConnError::LocationUnknown));
    assert_eq!(manager.outbound(&unresolved, vec![]), Err(ConnError::LocationUnknown));
    assert_eq!(
        manager.outbound(&at(2, 20), vec![1, 2]),
        Ok(MessageOnTransit {
            origin: PeerKey::new(1),
            origin_loc: Some(Location::new(10)),
            target: PeerKey::new(2),
            data: vec![1, 2],
        })
    );
    let unjoined = MemoryConnManager::new(false, PeerKey::new(3), None, &fabric);
    assert_eq!(
        unjoined.outbound(&at(2, 20), vec![9]),
        Ok(MessageOnTransit {
            origin: PeerKey::new(3),
            origin_loc: None,
            target: PeerKey::new(2),
            data: vec![9],
        })
    );
}

#[test]
fn manager_polls_for_its_own_peer() {
    let fabric = Fabric::new();
    let x = MemoryConnManager::new(true, PeerKey::new(1), None, &fabric);
    let mut y = MemoryConnManager::new(true, PeerKey::new(2), Some(Location::new(20)), &fabric);
    let waiting = Message::new(Transaction::new(1, TransactionTypeId::Put), vec![4]);
    y.deliver(waiting.clone());

    assert_eq!(y.poll_network(), PollAction::Wait);
    assert_eq!(x.send(&at(3, 30), vec![3]), Ok(()));
    assert_eq!(y.poll_network(), PollAction::Wait);
    assert_eq!(y.next_inbound(), None);
    assert_eq!(x.send(&at(2, 20), vec![2]), Ok(()));
    assert_eq!(y.poll_network(), PollAction::Again);
    assert_eq!(y.poll_network(), PollAction::Wait);
    assert_eq!(y.next_inbound(), Some(vec![2]));
    assert_eq!(y.try_recv(), Some(waiting));
}

#[test]
fn peer_receives_what_it_sends_to_itself() {
    let fabric = Fabric::new();
    let mut peer = InMemoryTransport::new(true, PeerKey::new(5), Some(Location::new(1)), &fabric);
    assert_eq!(peer.send(PeerKey::new(5), Location::new(1), vec![3]), Ok(()));
    assert_eq!(peer.poll_network(), PollAction::Again);
    assert_eq!(peer.take_inbound().map(|e| e.data), Some(vec![3]));
}

#[test]
fn fabrics_do_not_leak_into_each_other() {
    let first = Fabric::new();
    let second = Fabric::new();
    let sender = InMemoryTransport::new(true, PeerKey::new(1), None, &first);
    let mut elsewhere = InMemoryTransport::new(true, PeerKey::new(2), None, &second);
    let mut target = InMemoryTransport::new(true, PeerKey::new(2), None, &first);
    assert_eq!(sender.send(PeerKey::new(2), Location::new(0), vec![1]), Ok(()));
    assert_eq!(elsewhere.poll_network(), PollAction::Wait);
    assert_eq!(elsewhere.take_inbound(), None);
    assert_eq!(target.poll_network(), PollAction::Again);
}

#[test]
fn wire_event_decides_the_step() {
    let fabric = Fabric::new();
    let mut transport = InMemoryTransport::new(true, PeerKey::new(1), None, &fabric);
    let own = MessageOnTransit {
        origin: PeerKey::new(2),
        origin_loc: None,
        target: PeerKey::new(1),
        data: vec![1],
    };
    let foreign = MessageOnTransit {
        origin: PeerKey::new(3),
        origin_loc: Some(Location::new(3)),
        target: PeerKey::new(2),
        data: vec![2],
    };
    assert_eq!(transport.on_wire_event(WireEvent::Empty), PollAction::Wait);
    assert_eq!(transport.on_wire_event(WireEvent::Disconnected), PollAction::Stop);
    assert_eq!(transport.on_wire_event(WireEvent::Envelope(foreign)), PollAction::Wait);
    assert_eq!(transport.take_inbound(), None);
    assert_eq!(transport.on_wire_event(WireEvent::Envelope(own.clone())), PollAction::Again);
    assert_eq!(transport.take_inbound(), Some(own));
    assert_eq!(transport.take_inbound(), None);
}

#[test]
fn inbox_hands_out_the_latest_first() {
    let fabric = Fabric::new();
    let mut transport = InMemoryTransport::new(true, PeerKey::new(1), None, &fabric);
    for n in 0..3u8 {
        let envelope = MessageOnTransit {
            origin: PeerKey::new(2),
            origin_loc: None,
            target: PeerKey::new(1),
            data: vec![n],
        };
        assert_eq!(transport.on_wire_event(WireEvent::Envelope(envelope)), PollAction::Again);
    }
    assert_eq!(transport.take_inbound().map(|e| e.data), Some(vec![2]));
    assert_eq!(transport.take_inbound().map(|e| e.data), Some(vec![1]));
    assert_eq!(transport.take_inbound().map(|e| e.data), Some(vec![0]));
    assert_eq!(transport.take_inbound(), None);
}

#[test]
fn receive_queue_hands_out_the_latest_first() {
    let fabric = Fabric::new();
    let mut manager = MemoryConnManager::new(true, PeerKey::new(1), None, &fabric);
    let first = Message::new(Transaction::new(1, TransactionTypeId::Put), vec![1]);
    let second = Message::new(Transaction::new(2, TransactionTypeId::JoinRing), vec![]);
    manager.deliver(first.clone());
    manager.deliver(second.clone());
    assert_eq!(manager.try_recv(), Some(second));
    assert_eq!(manager.try_recv(), Some(first));
    assert_eq!(manager.try_recv(), None);
}

#[test]
fn send_outcome_becomes_result() {
    assert_eq!(SendOutcome::Sent.into_result(), Ok(()));
    assert_eq!(SendOutcome::Disconnected.into_result(), Err(ConnError::TransportClosed));
    assert_eq!(SendOutcome::Full.into_result(), Err(ConnError::TransportClosed));
}

#[test]
fn transport_reports_openness_and_location() {
    let fabric = Fabric::new();
    let open = InMemoryTransport::new(true, PeerKey::new(1), Some(Location::new(8)), &fabric);
    let closed = InMemoryTransport::new(false, PeerKey::new(2), None, &fabric);
    assert!(open.is_open());
    assert_eq!(open.location(), Some(Location::new(8)));
    assert!(!closed.is_open());
    assert_eq!(closed.location(), None);

    let manager = MemoryConnManager::new(false, PeerKey::new(3), Some(Location::new(1)), &fabric);
    assert!(!manager.transport.is_open());
    assert_eq!(manager.transport.location(), Some(Location::new(1)));
    assert!(!manager.is_open());
    assert_eq!(manager.location(), Some(Location::new(1)));
    let bootstrap = MemoryConnManager::new(true, PeerKey::new(4), None, &fabric);
    assert!(bootstrap.is_open());
    assert_eq!(bootstrap.location(), None);
}

#[test]
fn add_connection_changes_nothing() {
    let fabric = Fabric::new();
    let mut manager = MemoryConnManager::new(true, PeerKey::new(1), None, &fabric);
    let waiting = Message::new(Transaction::new(1, TransactionTypeId::Get), vec![5]);
    manager.deliver(waiting.clone());
    manager.add_connection(at(2, 20), true);
    manager.add_connection(PeerKeyLocation { peer: PeerKey::new(3), location: None }, false);
    assert_eq!(manager.next_inbound(), None);
    assert_eq!(manager.try_recv(), Some(waiting));
    assert_eq!(manager.try_recv(), None);
}

#[test]
fn many_envelopes_never_fill_the_fabric() {
    let fabric = Fabric::new();
    let sender = InMemoryTransport::new(true, PeerKey::new(1), None, &fabric);
    let mut target = InMemoryTransport::new(true, PeerKey::new(2), None, &fabric);
    for n in 0..10_000u32 {
        assert_eq!(sender.send(PeerKey::new(2), Location::new(0), n.to_le_bytes().to_vec()), Ok(()));
    }
    let mut seen = 0u32;
    while target.poll_network() == PollAction::Again {
        seen += 1;
    }
    assert_eq!(seen, 10_000);
}
