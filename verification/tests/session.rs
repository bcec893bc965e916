//! Session-level behavior: executor caching, cursor lifecycle, statement
//! planning and output translation.

use nexus_session::dispatch::{DispatchPlan, ExecutionTarget, NexusBackend};
use nexus_session::stmt::{Association, CursorEvent, Peer, PeerConfig, PeerDdl, Statement};
use nexus_session::translate::{CursorModification, QueryOutput, Schema, SessionResponse};

fn bq_peer(name: &str) -> Peer {
    Peer {
        name: name.to_owned(),
        config: PeerConfig::BigQuery { settings: "project=analytics".to_owned() },
    }
}

fn pg_peer(name: &str) -> Peer {
    Peer {
        name: name.to_owned(),
        config: PeerConfig::Postgres { settings: "host=db".to_owned() },
    }
}

#[test]
fn resolve_twice_yields_same_executor() {
    let mut backend = NexusBackend::new();
    let peer = bq_peer("warehouse");

    // first resolution: a miss that plans a construction
    match backend.resolve_peer(peer.clone()) {
        Ok(ExecutionTarget::NewPeer { peer: p }) => assert_eq!(p.name, "warehouse"),
        _ => panic!("first resolution must plan a construction"),
    }
    // the caller constructs and installs handle 7
    backend.executors.install("warehouse".to_owned(), 7);

    // both later resolutions return the identical handle
    for _ in 0..2 {
        match backend.resolve_peer(peer.clone()) {
            Ok(ExecutionTarget::CachedPeer { name, handle }) => {
                assert_eq!(name, "warehouse");
                assert_eq!(handle, 7);
            }
            _ => panic!("later resolutions must hit the cache"),
        }
    }
}

#[test]
fn created_peer_resolves_for_later_query() {
    let backend = NexusBackend::new();
    let peer = pg_peer("fresh");

    // a successful creation acknowledges and touches no session state
    let responses = NexusBackend::create_peer_responses(Ok(()));
    assert_eq!(responses.len(), 1);
    match &responses[0] {
        SessionResponse::Execution { tag, rows } => {
            assert_eq!(tag, "OK");
            assert_eq!(*rows, None);
        }
        _ => panic!("creation must acknowledge"),
    }

    // a later query associated with the fresh name resolves to it
    let stmt = Statement::PeerQuery {
        stmt: "SELECT 1".to_owned(),
        assoc: Association::Peer(peer),
    };
    match backend.plan_statement(stmt) {
        Ok(DispatchPlan::Execute { target: ExecutionTarget::NewPeer { peer: p }, stmt }) => {
            assert_eq!(p.name, "fresh");
            assert_eq!(stmt, "SELECT 1");
        }
        _ => panic!("the query must target the created peer"),
    }
}

#[test]
fn failed_creation_surfaces_cause() {
    let responses = NexusBackend::create_peer_responses(Err("connection refused".to_owned()));
    assert_eq!(responses.len(), 1);
    match &responses[0] {
        SessionResponse::Error { severity, code, message } => {
            assert_eq!(severity, "ERROR");
            assert_eq!(code, "internal_error");
            assert_eq!(message, "connection refused");
        }
        _ => panic!("a failed creation must surface an error"),
    }
}

#[test]
fn fetch_follows_declared_cursor() {
    let mut backend = NexusBackend::new();
    let owner = bq_peer("warehouse");

    // the executor reported a declared cursor; the statement carried the peer
    let out = QueryOutput::Cursor(CursorModification::Created("cur1".to_owned()));
    let responses = backend.translate_output(out, Some(owner)).unwrap();
    match &responses[0] {
        SessionResponse::Execution { tag, rows } => {
            assert_eq!(tag, "DECLARE CURSOR");
            assert_eq!(*rows, None);
        }
        _ => panic!("declaring must acknowledge"),
    }

    // a fetch on the cursor name routes to the owner, with no association
    let fetch = Statement::PeerCursor {
        stmt: "FETCH 10 FROM cur1".to_owned(),
        cursor: CursorEvent::Fetch("cur1".to_owned(), 10),
    };
    match backend.plan_statement(fetch) {
        Ok(DispatchPlan::Execute { target: ExecutionTarget::NewPeer { peer }, .. }) => {
            assert_eq!(peer.name, "warehouse");
        }
        _ => panic!("the fetch must route to the cursor's owner"),
    }
}

#[test]
fn closed_cursor_falls_back_to_catalog() {
    let mut backend = NexusBackend::new();
    let owner = bq_peer("warehouse");
    let declared = QueryOutput::Cursor(CursorModification::Created("cur1".to_owned()));
    backend.translate_output(declared, Some(owner)).unwrap();

    let closed = QueryOutput::Cursor(CursorModification::Closed(vec!["cur1".to_owned()]));
    let responses = backend.translate_output(closed, None).unwrap();
    match &responses[0] {
        SessionResponse::Execution { tag, rows } => {
            assert_eq!(tag, "CLOSE CURSOR");
            assert_eq!(*rows, None);
        }
        _ => panic!("closing must acknowledge"),
    }

    // the documented choice: a fetch on the closed name goes to the catalog
    let fetch = Statement::PeerCursor {
        stmt: "FETCH 10 FROM cur1".to_owned(),
        cursor: CursorEvent::Fetch("cur1".to_owned(), 10),
    };
    match backend.plan_statement(fetch) {
        Ok(DispatchPlan::Execute { target: ExecutionTarget::Catalog, .. }) => {}
        _ => panic!("a fetch on a closed cursor must fall back to the catalog"),
    }
}

#[test]
fn redeclared_cursor_rebinds_owner() {
    let mut backend = NexusBackend::new();
    let first = QueryOutput::Cursor(CursorModification::Created("cur1".to_owned()));
    backend.translate_output(first, Some(bq_peer("old_owner"))).unwrap();
    let second = QueryOutput::Cursor(CursorModification::Created("cur1".to_owned()));
    backend.translate_output(second, Some(pg_peer("new_owner"))).unwrap();

    let owner = backend.peer_cursors.get_peer(&"cur1".to_owned()).unwrap();
    assert_eq!(owner.name, "new_owner");
}

#[test]
fn close_all_empties_the_table() {
    let mut backend = NexusBackend::new();
    for name in ["cur1", "cur2"] {
        let out = QueryOutput::Cursor(CursorModification::Created(name.to_owned()));
        backend.translate_output(out, Some(bq_peer("warehouse"))).unwrap();
    }

    let (closed, responses) = backend.close_all_cursors();
    let mut names: Vec<String> = closed.iter().map(|(n, _)| n.clone()).collect();
    names.sort();
    assert_eq!(names, vec!["cur1".to_owned(), "cur2".to_owned()]);
    for (_, owner) in &closed {
        assert_eq!(owner.name, "warehouse");
    }
    match &responses[0] {
        SessionResponse::Execution { tag, .. } => assert_eq!(tag, "CLOSE CURSOR"),
        _ => panic!("closing all must acknowledge"),
    }

    assert!(backend.peer_cursors.get_peer(&"cur1".to_owned()).is_none());
    assert!(backend.peer_cursors.get_peer(&"cur2".to_owned()).is_none());
}

#[test]
fn cursor_without_peer_is_typed_error() {
    let mut backend = NexusBackend::new();
    let out = QueryOutput::Cursor(CursorModification::Created("cur1".to_owned()));
    let r = backend.translate_output(out, None);
    assert!(matches!(r, Err(nexus_session::error::NexusError::CursorWithoutPeer)));
    // the failing request corrupted nothing
    assert!(backend.peer_cursors.get_peer(&"cur1".to_owned()).is_none());
}

#[test]
fn unsupported_peer_type_is_typed_error() {
    let backend = NexusBackend::new();
    let odd = Peer {
        name: "queuepeer".to_owned(),
        config: PeerConfig::Other {
            kind: "EVENTHUB".to_owned(),
            settings: String::new(),
        },
    };
    match backend.resolve_peer(odd) {
        Err(nexus_session::error::NexusError::UnsupportedPeerType { kind }) => {
            assert_eq!(kind, "EVENTHUB");
        }
        _ => panic!("an unsupported variant must be a typed error"),
    }
}

#[test]
fn affected_rows_reports_exact_count() {
    let mut backend = NexusBackend::new();
    let responses = backend.translate_output(QueryOutput::AffectedRows(7), None).unwrap();
    assert_eq!(responses.len(), 1);
    match &responses[0] {
        SessionResponse::Execution { tag, rows } => {
            assert_eq!(tag, "OK");
            assert_eq!(*rows, Some(7));
        }
        _ => panic!("affected rows must acknowledge with the count"),
    }
}

#[test]
fn empty_stream_keeps_schema() {
    let mut backend = NexusBackend::new();
    let schema = Schema { columns: vec!["id".to_owned(), "name".to_owned()] };
    let out = QueryOutput::Stream { schema, stream: 3 };
    let responses = backend.translate_output(out, None).unwrap();
    match &responses[0] {
        SessionResponse::Stream { schema, stream } => {
            assert_eq!(*stream, 3);
            assert!(!schema.columns.is_empty());
            assert_eq!(schema.columns, vec!["id".to_owned(), "name".to_owned()]);
        }
        _ => panic!("a stream must pass through with its schema"),
    }
}

#[test]
fn records_pass_through() {
    let mut backend = NexusBackend::new();
    let schema = Schema { columns: vec!["id".to_owned()] };
    let rows = vec![vec!["1".to_owned()], vec!["2".to_owned()]];
    let out = QueryOutput::Records { schema, rows: rows.clone() };
    let responses = backend.translate_output(out, None).unwrap();
    match &responses[0] {
        SessionResponse::Records { records: got, .. } => assert_eq!(*got, rows),
        _ => panic!("records must pass through"),
    }
}

#[test]
fn ddl_plans_peer_creation() {
    let backend = NexusBackend::new();
    let stmt = Statement::PeerDdl {
        ddl: PeerDdl::CreatePeer { peer: pg_peer("newpeer"), if_not_exists: false },
    };
    match backend.plan_statement(stmt) {
        Ok(DispatchPlan::CreatePeer { peer, if_not_exists }) => {
            assert_eq!(peer.name, "newpeer");
            assert!(!if_not_exists);
        }
        _ => panic!("a creation statement must plan a creation"),
    }
}

#[test]
fn catalog_query_targets_catalog() {
    let backend = NexusBackend::new();
    let stmt = Statement::PeerQuery {
        stmt: "SELECT * FROM peers".to_owned(),
        assoc: Association::Catalog,
    };
    match backend.plan_statement(stmt) {
        Ok(DispatchPlan::Execute { target: ExecutionTarget::Catalog, stmt }) => {
            assert_eq!(stmt, "SELECT * FROM peers");
        }
        _ => panic!("a catalog query must target the catalog"),
    }
}

#[test]
fn close_all_statement_plans_close_all() {
    let backend = NexusBackend::new();
    let stmt = Statement::PeerCursor {
        stmt: "CLOSE ALL".to_owned(),
        cursor: CursorEvent::CloseAll,
    };
    assert!(matches!(backend.plan_statement(stmt), Ok(DispatchPlan::CloseAllCursors)));
}
