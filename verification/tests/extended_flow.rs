//! Extended-flow behavior: parameter rendering, placeholder substitution,
//! describe, authentication material and the fatal frame.

use nexus_session::auth::{password_challenge, random_salt};
use nexus_session::dispatch::{DescribePlan, DispatchPlan, ExecutionTarget, NexusBackend};
use nexus_session::error::NexusError;
use nexus_session::extended::{
    first_response, i64_literal, parameter_to_string, render_query, substitute_placeholders,
    BoundParam,
};
use nexus_session::frame::fatal_catalog_frame;
use nexus_session::params::NexusServerParameterProvider;
use nexus_session::stmt::{Association, CursorEvent, PeerDdl, Statement, Peer, PeerConfig};
use nexus_session::translate::SessionResponse;

#[test]
fn extended_execute_matches_simple_flow_text() {
    let params = vec![BoundParam::Int4(Some(42))];
    let rendered = render_query("SELECT * FROM t WHERE id = $1", &params).unwrap();
    // the extended execute runs exactly the simple-flow statement, so the
    // dispatcher sees one and the same text and returns one and the same
    // output for both flows
    assert_eq!(rendered, "SELECT * FROM t WHERE id = 42");

    let backend = NexusBackend::new();
    let simple = backend.plan_statement(Statement::PeerQuery {
        stmt: "SELECT * FROM t WHERE id = 42".to_owned(),
        assoc: Association::Catalog,
    });
    let extended = backend.plan_statement(Statement::PeerQuery {
        stmt: rendered,
        assoc: Association::Catalog,
    });
    match (simple, extended) {
        (
            Ok(DispatchPlan::Execute { target: ExecutionTarget::Catalog, stmt: a }),
            Ok(DispatchPlan::Execute { target: ExecutionTarget::Catalog, stmt: b }),
        ) => assert_eq!(a, b),
        _ => panic!("both flows must dispatch the same statement"),
    }
}

#[test]
fn text_parameter_is_quoted_and_escaped() {
    let p = BoundParam::Text(Some("O'Brien".to_owned()));
    assert_eq!(parameter_to_string(&p).unwrap(), "'O''Brien'");
    let none = BoundParam::Text(None);
    assert_eq!(parameter_to_string(&none).unwrap(), "''");
}

#[test]
fn scalar_parameters_render_plain() {
    assert_eq!(parameter_to_string(&BoundParam::Bool(Some(true))).unwrap(), "true");
    assert_eq!(parameter_to_string(&BoundParam::Bool(Some(false))).unwrap(), "false");
    assert_eq!(parameter_to_string(&BoundParam::Bool(None)).unwrap(), "");
    assert_eq!(parameter_to_string(&BoundParam::Int4(Some(-17))).unwrap(), "-17");
    assert_eq!(parameter_to_string(&BoundParam::Int8(Some(0))).unwrap(), "0");
    assert_eq!(
        parameter_to_string(&BoundParam::Float8(Some("2.5e3".to_owned()))).unwrap(),
        "2.5e3"
    );
}

#[test]
fn unsupported_parameter_is_fixed_error() {
    match parameter_to_string(&BoundParam::Unsupported) {
        Err(e @ NexusError::UnsupportedParameterValue) => {
            assert_eq!(e.code(), "22023");
            assert_eq!(e.message(), "unsupported_parameter_value");
        }
        _ => panic!("an unsupported type must be the fixed error"),
    }
}

#[test]
fn malformed_float_text_is_rejected() {
    let p = BoundParam::Float4(Some("1; DROP TABLE t".to_owned()));
    assert!(matches!(p, BoundParam::Float4(_)));
    assert!(matches!(
        parameter_to_string(&p),
        Err(NexusError::UnsupportedParameterValue)
    ));
}

#[test]
fn decimal_rendering_is_exact() {
    assert_eq!(i64_literal(0), "0");
    assert_eq!(i64_literal(42), "42");
    assert_eq!(i64_literal(-123), "-123");
    assert_eq!(i64_literal(i64::MAX), "9223372036854775807");
    assert_eq!(i64_literal(i64::MIN), "-9223372036854775808");
}

#[test]
fn substitution_leaves_unknown_placeholders() {
    let params = vec!["a".to_owned(), "b".to_owned()];
    let out = substitute_placeholders("$1 $2 $x $3 $ $0", &params);
    assert_eq!(out, "a b $x $3 $ $0");
}

#[test]
fn substituted_text_is_not_rescanned() {
    // a parameter value that names another placeholder stays literal text
    let params = vec!["$2".to_owned(), "b".to_owned()];
    let out = substitute_placeholders("$1", &params);
    assert_eq!(out, "$2");
}

#[test]
fn quoted_parameter_cannot_break_out() {
    // the quote inside the value is doubled, so the statement keeps one
    // single literal and the trailing text stays inside it
    let params = vec![BoundParam::Text(Some("x' OR '1'='1".to_owned()))];
    let rendered = render_query("SELECT * FROM t WHERE name = $1", &params).unwrap();
    assert_eq!(rendered, "SELECT * FROM t WHERE name = 'x'' OR ''1''=''1'");
}

#[test]
fn render_query_aborts_on_unsupported_parameter() {
    let params = vec![BoundParam::Int4(Some(1)), BoundParam::Unsupported];
    assert!(matches!(
        render_query("SELECT $1, $2", &params),
        Err(NexusError::UnsupportedParameterValue)
    ));
}

#[test]
fn describe_ddl_and_cursor_report_no_data() {
    let backend = NexusBackend::new();
    let ddl = Statement::PeerDdl {
        ddl: PeerDdl::CreatePeer {
            peer: Peer {
                name: "p".to_owned(),
                config: PeerConfig::Postgres { settings: String::new() },
            },
            if_not_exists: true,
        },
    };
    assert!(matches!(backend.plan_describe(&ddl), Ok(DescribePlan::NoData)));

    let cur = Statement::PeerCursor {
        stmt: "FETCH 1 FROM c".to_owned(),
        cursor: CursorEvent::Fetch("c".to_owned(), 1),
    };
    assert!(matches!(backend.plan_describe(&cur), Ok(DescribePlan::NoData)));

    // no observable side effect: the session still tracks nothing
    assert!(backend.peer_cursors.get_peer(&"c".to_owned()).is_none());
    assert!(backend.executors.lookup(&"p".to_owned()).is_none());
}

#[test]
fn describe_query_resolves_without_executing() {
    let backend = NexusBackend::new();
    let q = Statement::PeerQuery {
        stmt: "SELECT 1".to_owned(),
        assoc: Association::Catalog,
    };
    assert!(matches!(
        backend.plan_describe(&q),
        Ok(DescribePlan::DescribeTarget { target: ExecutionTarget::Catalog })
    ));
}

#[test]
fn first_response_of_empty_is_empty_query() {
    assert!(matches!(first_response(Vec::new()), SessionResponse::EmptyQuery));
    let r = first_response(vec![
        SessionResponse::Execution { tag: "OK".to_owned(), rows: Some(1) },
        SessionResponse::EmptyQuery,
    ]);
    match r {
        SessionResponse::Execution { tag, rows } => {
            assert_eq!(tag, "OK");
            assert_eq!(rows, Some(1));
        }
        _ => panic!("the first response must come back"),
    }
}

#[test]
fn password_challenge_hashes_credential() {
    let salt = vec![20u8, 247, 107, 249];
    let user = "zmjiang".to_owned();
    let challenge = password_challenge(Some(&user), salt.clone());
    assert_eq!(challenge.salt, salt);
    let expected = pgwire::api::auth::md5pass::hash_md5_password("zmjiang", "peerdb", &salt);
    assert_eq!(challenge.hashed, expected);
    // the hash really digests its inputs
    assert_ne!(challenge.hashed, "peerdb");
    assert!(challenge.hashed.starts_with("md5"));
}

#[test]
fn salt_has_four_bytes() {
    assert_eq!(random_salt().len(), 4);
}

#[test]
fn fatal_frame_has_exact_layout() {
    let frame = fatal_catalog_frame("no catalog");
    let mut expected: Vec<u8> = Vec::new();
    expected.push(b'E');
    expected.extend_from_slice(&[0, 0, 0, 0]);
    expected.extend_from_slice(b"FATAL");
    expected.push(0);
    expected.extend_from_slice(b"no catalog");
    expected.push(0);
    expected.push(0);
    assert_eq!(frame, expected);
}

#[test]
fn server_parameters_are_fixed() {
    let provider = NexusServerParameterProvider;
    let params = provider.server_parameters();
    let expected = vec![
        ("server_version", "14"),
        ("server_encoding", "UTF8"),
        ("client_encoding", "UTF8"),
        ("DateStyle", "ISO YMD"),
        ("integer_datetimes", "on"),
    ];
    assert_eq!(params.len(), expected.len());
    for ((name, value), (en, ev)) in params.iter().zip(expected.iter()) {
        assert_eq!(name, en);
        assert_eq!(value, ev);
    }
}
