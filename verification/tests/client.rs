use dgraph::{Dgraph, Error, Mutation, NodeId, ReadVector};
use dgraph::client::{alter_response, uid_query};

#[test]
fn blank_nodes_from_one_pool_are_distinct() {
    let pool = Dgraph::new(1);
    let a = pool.get_blank();
    let b = pool.get_blank();
    let c = pool.get_blank();
    assert_ne!(a, b);
    assert_ne!(a, c);
    assert_ne!(b, c);
}

#[test]
fn blank_nodes_count_up_from_zero() {
    let pool = Dgraph::new(1);
    assert_eq!(pool.get_blank(), NodeId::Blank("_:blank-0".to_string()));
    assert_eq!(pool.get_blank(), NodeId::Blank("_:blank-1".to_string()));
    assert_eq!(pool.get_blank(), NodeId::Blank("_:blank-2".to_string()));
}

#[test]
fn blank_node_renders_large_counters() {
    let n = dgraph::client::blank_node(1234567890123456789);
    assert_eq!(n, NodeId::Blank("_:blank-1234567890123456789".to_string()));
}

#[test]
fn any_client_stays_in_range() {
    let one = Dgraph::new(1);
    assert_eq!(one.any_client(), 0);
    let five = Dgraph::new(5);
    for _ in 0..50 {
        assert!(five.any_client() < 5);
    }
}

#[test]
fn pool_vector_accumulates_merges() {
    let pool = Dgraph::new(2);
    let mut a = ReadVector::new();
    a.insert(1, 5);
    pool.merge_lin_read(&a);
    let mut b = ReadVector::new();
    b.insert(1, 3);
    b.insert(2, 8);
    pool.merge_lin_read(&b);
    let shared = pool.get_lin_read();
    assert_eq!(shared.get(1), Some(5));
    assert_eq!(shared.get(2), Some(8));
}

#[test]
fn uid_query_text_is_exact() {
    let q = uid_query("name", "Alice");
    assert_eq!(q, "{\n\tq(func: eq(name, Alice), first: 1) {\n\t\tuid\n\t\tname\n\t}\n}");
}

#[test]
fn resolve_uid_hit_returns_server_uid() {
    let pool = Dgraph::new(1);
    let r = pool.resolve_uid("name", "Alice", Ok(Some(("Alice".to_string(), "0x12".to_string()))));
    assert_eq!(r.unwrap(), NodeId::UID("0x12".to_string()));
}

#[test]
fn resolve_uid_miss_mints_blank() {
    let pool = Dgraph::new(1);
    let r = pool.resolve_uid("name", "Alice", Ok(None)).unwrap();
    assert_eq!(r, NodeId::Blank("_:blank-0".to_string()));
}

#[test]
fn resolve_uid_failure_reports_triple() {
    let pool = Dgraph::new(1);
    let r = pool.resolve_uid("name", "Alice", Err("no reply".to_string()));
    assert_eq!(r.unwrap_err(), Error::UID("<?> <name> \"Alice\"".to_string()));
}

#[test]
fn delete_edges_appends_one_wildcard_statement_per_predicate() {
    let pool = Dgraph::new(1);
    let mut mu = Mutation::new();
    pool.delete_edges(&mut mu, "0x1", vec!["friend".to_string(), "age".to_string()]);
    assert_eq!(mu.del.len(), 2);
    assert_eq!(mu.del[0].subject, "0x1");
    assert_eq!(mu.del[0].predicate, "friend");
    assert_eq!(mu.del[0].object_value, "_STAR_ALL_");
    assert_eq!(mu.del[1].subject, "0x1");
    assert_eq!(mu.del[1].predicate, "age");
    assert_eq!(mu.del[1].object_value, "_STAR_ALL_");
    assert_eq!(mu.set.len(), 0);
}

#[test]
fn alter_response_wraps_transport_errors() {
    assert!(alter_response(Ok(())).is_ok());
    assert_eq!(
        alter_response(Err("channel closed".to_string())).unwrap_err(),
        Error::GrpcError("channel closed".to_string())
    );
}

#[test]
fn error_messages_render_exactly() {
    assert_eq!(
        Error::Finished.message(),
        "Transaction has already been committed or discarded"
    );
    assert_eq!(
        Error::TransactionTs(100, 101).message(),
        "`start_ts` of transaction (100) does not match that of source (101)"
    );
    assert_eq!(
        Error::GrpcError("boom".to_string()).message(),
        "gRPC error: boom"
    );
    assert_eq!(
        Error::Discard("boom".to_string()).message(),
        "Error discarding transaction: boom"
    );
    assert_eq!(Error::Mutation("boom".to_string()).message(), "Mutation error: boom");
    assert_eq!(Error::Commit("boom".to_string()).message(), "Commit error: boom");
    assert_eq!(
        Error::UID("<?> <p> \"o\"".to_string()).message(),
        "UID resolution error: <?> <p> \"o\""
    );
}

#[test]
fn blank_node_renders_the_largest_counter() {
    let n = dgraph::client::blank_node(u64::MAX);
    assert_eq!(n, NodeId::Blank("_:blank-18446744073709551615".to_string()));
}
