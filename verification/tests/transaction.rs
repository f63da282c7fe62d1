use dgraph::{Dgraph, Error, Mutation, ReadVector, Response, Transaction, TxnContext};
use dgraph::Assigned;
use dgraph::transaction::{commit_response, discard_response};

fn server_ctx(start_ts: u64, keys: Vec<Vec<u8>>, groups: &[(u64, u64)]) -> TxnContext {
    let mut rv = ReadVector::new();
    for (g, t) in groups {
        rv.insert(*g, *t);
    }
    TxnContext { start_ts, keys, aborted: false, lin_read: Some(rv) }
}

#[test]
fn fresh_transaction_is_active_and_unpinned() {
    let pool = Dgraph::new(1);
    let txn = Transaction::new(&pool);
    assert!(!txn.is_finished());
    assert!(!txn.is_mutated());
    assert_eq!(txn.start_ts(), 0);
}

#[test]
fn finished_transaction_refuses_every_operation() {
    let pool = Dgraph::new(1);
    let mut txn = Transaction::new(&pool);
    assert!(txn.discard_request().is_none());
    assert!(txn.is_finished());
    assert_eq!(txn.query_request("{ q }").unwrap_err(), Error::Finished);
    let mut mu = Mutation::new();
    assert_eq!(txn.mutate_request(&mut mu).unwrap_err(), Error::Finished);
    assert_eq!(txn.commit_request().unwrap_err(), Error::Finished);
    // discard stays idempotent: success, nothing to send, no state change
    assert!(txn.discard_request().is_none());
    assert!(txn.is_finished());
}

#[test]
fn timestamp_mismatch_is_fatal() {
    let pool = Dgraph::new(1);
    let mut txn = Transaction::new(&pool);
    txn.merge_context(&server_ctx(100, vec![], &[(1, 4)])).unwrap();
    assert_eq!(txn.start_ts(), 100);
    let err = txn.merge_context(&server_ctx(101, vec![], &[(1, 5)])).unwrap_err();
    assert_eq!(err, Error::TransactionTs(100, 101));
}

#[test]
fn merge_without_read_vector_is_a_no_op() {
    let pool = Dgraph::new(1);
    let mut txn = Transaction::new(&pool);
    let bare = TxnContext { start_ts: 55, keys: vec![], aborted: false, lin_read: None };
    txn.merge_context(&bare).unwrap();
    assert_eq!(txn.start_ts(), 0);
}

#[test]
fn read_only_commit_and_discard_need_no_network() {
    let pool = Dgraph::new(1);
    let mut txn = Transaction::new(&pool);
    assert!(txn.commit_request().unwrap().is_none());
    let mut other = Transaction::new(&pool);
    assert!(other.discard_request().is_none());
    assert!(other.is_finished());
}

#[test]
fn conflict_keys_accumulate_in_order_with_duplicates() {
    let pool = Dgraph::new(1);
    let mut txn = Transaction::new(&pool);
    let mut mu = Mutation::new();
    txn.mutate_request(&mut mu).unwrap();
    txn.merge_context(&server_ctx(7, vec![b"k1".to_vec()], &[(1, 1)])).unwrap();
    txn.merge_context(&server_ctx(7, vec![b"k2".to_vec(), b"k1".to_vec()], &[(1, 2)])).unwrap();
    let sent = txn.commit_request().unwrap().expect("a mutated transaction sends its context");
    assert_eq!(sent.start_ts, 7);
    assert!(!sent.aborted);
    assert_eq!(sent.keys, vec![b"k1".to_vec(), b"k2".to_vec(), b"k1".to_vec()]);
}

#[test]
fn query_request_carries_the_consistency_point() {
    let pool = Dgraph::new(1);
    let mut seed = ReadVector::new();
    seed.insert(2, 6);
    pool.merge_lin_read(&seed);
    let txn = Transaction::new(&pool);
    let req = txn.query_request("{ q }").unwrap();
    assert_eq!(req.query, "{ q }");
    assert_eq!(req.start_ts, 0);
    assert!(req.vars.is_empty());
    assert_eq!(req.lin_read.get(2), Some(6));
}

#[test]
fn query_response_merges_and_propagates_to_the_pool() {
    let pool = Dgraph::new(1);
    let mut txn = Transaction::new(&pool);
    let resp = Response { json: b"{}".to_vec(), txn: Some(server_ctx(42, vec![], &[(3, 9)])) };
    let out = txn.query_response(Ok(resp)).unwrap();
    assert_eq!(out.json, b"{}".to_vec());
    assert_eq!(txn.start_ts(), 42);
    assert_eq!(pool.get_lin_read().get(3), Some(9));
}

#[test]
fn query_transport_failure_is_wrapped_and_harmless() {
    let pool = Dgraph::new(1);
    let mut txn = Transaction::new(&pool);
    let err = txn.query_response(Err("connection reset".to_string())).unwrap_err();
    assert_eq!(err, Error::GrpcError("connection reset".to_string()));
    assert!(!txn.is_finished());
    assert_eq!(txn.start_ts(), 0);
}

#[test]
fn query_merge_mismatch_surfaces_the_typed_error() {
    let pool = Dgraph::new(1);
    let mut txn = Transaction::new(&pool);
    txn.merge_context(&server_ctx(100, vec![], &[(1, 1)])).unwrap();
    let resp = Response { json: vec![], txn: Some(server_ctx(101, vec![], &[(1, 2)])) };
    let err = txn.query_response(Ok(resp)).unwrap_err();
    assert_eq!(err, Error::TransactionTs(100, 101));
}

#[test]
fn mutation_with_commit_now_finalizes() {
    let pool = Dgraph::new(1);
    let mut txn = Transaction::new(&pool);
    let mut mu = Mutation::new();
    mu.commit_now = true;
    txn.mutate_request(&mut mu).unwrap();
    assert!(txn.is_mutated());
    let ag = Assigned { uids: vec![], context: Some(server_ctx(9, vec![], &[(1, 1)])) };
    txn.mutate_success(mu.commit_now, ag).unwrap();
    assert!(txn.is_finished());
    assert_eq!(txn.query_request("{ q }").unwrap_err(), Error::Finished);
    assert_eq!(txn.commit_request().unwrap_err(), Error::Finished);
}

#[test]
fn mutation_failure_discards_best_effort() {
    let pool = Dgraph::new(1);
    let mut txn = Transaction::new(&pool);
    let mut mu = Mutation::new();
    txn.mutate_request(&mut mu).unwrap();
    assert_eq!(mu.start_ts, 0);
    let (send, err) = txn.mutate_failure("node down".to_string());
    assert_eq!(err, Error::Mutation("node down".to_string()));
    let ctx = send.expect("a mutated transaction sends its abort");
    assert!(ctx.aborted);
    assert!(txn.is_finished());
}

#[test]
fn finalize_response_mappings() {
    assert!(commit_response(Ok(())).is_ok());
    assert_eq!(
        commit_response(Err("boom".to_string())).unwrap_err(),
        Error::Commit("boom".to_string())
    );
    assert!(discard_response(Ok(())).is_ok());
    assert_eq!(
        discard_response(Err("boom".to_string())).unwrap_err(),
        Error::Discard("boom".to_string())
    );
}

#[test]
fn query_request_passes_variable_bindings_through() {
    let pool = Dgraph::new(1);
    let txn = Transaction::new(&pool);
    let vars = vec![("$a".to_string(), "Alice".to_string())];
    let req = txn.query_with_vars_request("{ q }", vars.clone()).unwrap();
    assert_eq!(req.vars, vars);
}

#[test]
fn discarding_a_mutated_transaction_sends_its_aborted_context() {
    let pool = Dgraph::new(1);
    let mut txn = Transaction::new(&pool);
    let mut mu = Mutation::new();
    txn.mutate_request(&mut mu).unwrap();
    txn.merge_context(&server_ctx(3, vec![b"k".to_vec()], &[(1, 1)])).unwrap();
    let ctx = txn.discard_request().expect("a mutated transaction sends an abort");
    assert!(ctx.aborted);
    assert_eq!(ctx.start_ts, 3);
    assert_eq!(ctx.keys, vec![b"k".to_vec()]);
}
