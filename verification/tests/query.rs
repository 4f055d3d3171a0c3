use ahash::AHashMap;
use beetle::query::{Block, PeerMessage, QueryManager, QueryResult, QueryError};

const CID: u64 = 0xbeef;

fn providers(list: &[(u64, Vec<u64>)]) -> AHashMap<u64, Vec<u64>> {
    list.iter().cloned().collect()
}

#[test]
fn test_want_success() {
    let mut queries = QueryManager::new();
    let data = b"hello world".to_vec();
    let provider_id_1 = 11;
    let provider_id_2 = 12;
    let providers = providers(&[(CID, vec![provider_id_1, provider_id_2])]);

    assert!(queries.poll_peer(provider_id_1, &providers).is_none());
    let query_id = queries.want(CID, 100);

    // sent wantlist
    let msg = queries.poll_peer(provider_id_1, &providers).unwrap();
    assert_eq!(msg.wants, vec![(CID, 100)]);

    // inject received block
    let qid = queries.process_block(provider_id_1, &Block { cid: CID, data });
    assert_eq!(qid, vec![query_id]);
}

#[test]
fn test_want_fail() {
    let mut queries = QueryManager::new();
    let provider_id_1 = 11;
    let provider_id_2 = 12;
    let providers = providers(&[(CID, vec![provider_id_1, provider_id_2])]);

    assert!(queries.poll_peer(provider_id_1, &providers).is_none());

    let query_id = queries.want(CID, 100);

    // send wantlist
    let msg = queries.poll_peer(provider_id_1, &providers).unwrap();
    assert_eq!(msg.wants, vec![(CID, 100)]);

    let msg = queries.poll_peer(provider_id_2, &providers).unwrap();
    assert_eq!(msg.wants, vec![(CID, 100)]);

    // inject disconnects
    queries.disconnected(provider_id_1);
    queries.disconnected(provider_id_2);

    let done = queries.poll_all(&AHashMap::new()).unwrap();
    assert_eq!(done.id, query_id);
    assert_eq!(done.result, QueryResult::Want(QueryError::Timeout));
}

#[test]
fn wants_are_sent_once_per_peer() {
    let mut queries = QueryManager::new();
    let providers = providers(&[(CID, vec![1, 2])]);
    queries.want(CID, 5);
    assert!(queries.poll_peer(1, &providers).is_some());
    assert!(queries.poll_peer(1, &providers).is_none());
    // a peer that provides nothing gets nothing
    assert!(queries.poll_peer(3, &providers).is_none());
    // while a provider is left, the want is not over
    assert!(queries.poll_all(&providers).is_none());
}

#[test]
fn block_cancels_the_other_peers() {
    let mut queries = QueryManager::new();
    let providers = providers(&[(CID, vec![1, 2])]);
    let want = queries.want(CID, 5);
    queries.poll_peer(1, &providers).unwrap();
    queries.poll_peer(2, &providers).unwrap();
    // the block arrives from peer 1: peer 2 gets a cancel
    assert_eq!(queries.process_block(1, &Block { cid: CID, data: vec![1] }), vec![want]);
    assert!(queries.poll_peer(1, &providers).is_none());
    let msg = queries.poll_peer(2, &providers).unwrap();
    assert_eq!(msg, PeerMessage { wants: vec![], cancels: vec![CID], blocks: vec![] });
    // a cancel that went out and whose peer went away is over
    queries.dial_failure(2);
    let done = queries.poll_all(&providers).unwrap();
    assert_eq!(done.result, QueryResult::Cancel(QueryError::Timeout));
    assert!(queries.is_empty());
}

#[test]
fn explicit_cancel() {
    let mut queries = QueryManager::new();
    let providers = providers(&[(CID, vec![1])]);
    // a want that was never sent needs no cancel
    let first = queries.want(CID, 1);
    assert_eq!(queries.cancel(CID), None);
    assert!(queries.is_empty());
    let second = queries.want(CID, 1);
    assert_eq!(second.0, first.0 + 1);
    queries.poll_peer(1, &providers).unwrap();
    let cancel = queries.cancel(CID).unwrap();
    assert_eq!(cancel.0, second.0 + 1);
    let msg = queries.poll_peer(1, &providers).unwrap();
    assert_eq!(msg.cancels, vec![CID]);
}

#[test]
fn sends_are_delivered_once() {
    let mut queries = QueryManager::new();
    let providers = AHashMap::new();
    let id = queries.send(4, &[40, 41], 77, vec![1, 2, 3]);
    assert!(queries.poll_peer(5, &providers).is_none());
    let msg = queries.poll_peer(4, &providers).unwrap();
    assert_eq!(msg.blocks, vec![Block { cid: 77, data: vec![1, 2, 3] }]);
    // the next poll of the receiver finds it delivered and drops it
    assert!(queries.poll_peer(4, &providers).is_none());
    assert!(queries.is_empty());
    assert!(queries.poll_all(&providers).is_none());
    let _ = id;
}

#[test]
fn send_times_out_when_receiver_fails() {
    let mut queries = QueryManager::new();
    let providers = AHashMap::new();
    let id = queries.send(4, &[], 77, vec![9]);
    queries.poll_peer(4, &providers).unwrap();
    queries.dial_failure(4);
    let done = queries.poll_all(&providers).unwrap();
    assert_eq!(done.id, id);
    assert_eq!(done.result, QueryResult::Send(QueryError::Timeout));
}
