use mindmap::database::insert_many;
use mindmap::database::start;
use mindmap::database::EmbeddedSentence;
use mindmap::formatter::OutputFormat;
use mindmap::search::EmbeddingTree;
use mindmap::server::rebuild_request;
use mindmap::server::server_addr;
use mindmap::server::ProtocolError;
use mindmap::server::RequestType;
use mindmap::server::Server;

fn parse(bytes: &[u8]) -> Result<RequestType, ProtocolError> {
    Server::parse_request(&bytes.to_vec())
}

#[test]
fn rebuild_path_is_recognised() {
    match parse(b"GET /rebuild HTTP/1.1\r\nHost: x\r\n\r\n") {
        Ok(RequestType::Rebuild) => {}
        _ => panic!("expected a rebuild request"),
    }
}

#[test]
fn search_request_carries_query_and_format() {
    match parse(b"GET /?q=hello&format=list HTTP/1.1\r\nHost: x\r\n\r\n") {
        Ok(RequestType::Search(q, f)) => {
            assert_eq!(q, "hello");
            assert_eq!(f, OutputFormat::List);
        }
        _ => panic!("expected a search request"),
    }
}

#[test]
fn format_defaults_to_raw() {
    match parse(b"GET /?q=hello HTTP/1.1\r\n\r\n") {
        Ok(RequestType::Search(_, f)) => assert_eq!(f, OutputFormat::Raw),
        _ => panic!("expected a search request"),
    }
    match parse(b"GET /?q=hello&format=bogus HTTP/1.1\r\n\r\n") {
        Ok(RequestType::Search(_, f)) => assert_eq!(f, OutputFormat::Raw),
        _ => panic!("expected a search request"),
    }
}

#[test]
fn query_is_percent_decoded() {
    match parse(b"GET /?q=hello%20world HTTP/1.1\r\n\r\n") {
        Ok(RequestType::Search(q, _)) => assert_eq!(q, "hello world"),
        _ => panic!("expected a search request"),
    }
}

#[test]
fn later_duplicate_key_wins() {
    match parse(b"GET /?q=first&q=second HTTP/1.1\r\n\r\n") {
        Ok(RequestType::Search(q, _)) => assert_eq!(q, "second"),
        _ => panic!("expected a search request"),
    }
}

#[test]
fn missing_query_is_refused_with_nonempty_body() {
    let err = match parse(b"GET /?format=raw HTTP/1.1\r\nHost: x\r\n\r\n") {
        Err(e) => e,
        Ok(_) => panic!("expected a refusal"),
    };
    assert!(matches!(err, ProtocolError::MissingQuery));
    let body = err.message();
    assert!(!body.is_empty());
    let response = Server::format_response(400, &body);
    assert!(response.starts_with("HTTP/1.1 400\r\n"));
    assert!(response.ends_with(&body));
}

#[test]
fn unparsable_bytes_are_malformed() {
    assert!(matches!(parse(b"\xff\xfe nonsense"), Err(ProtocolError::Malformed)));
    assert!(!ProtocolError::Malformed.message().is_empty());
}

#[test]
fn response_framing_is_exact() {
    let r = Server::format_response(200, "Rebuilt");
    assert_eq!(
        r,
        "HTTP/1.1 200\r\nAccess-Control-Allow-Origin: *\r\nAccess-Control-Allow-Methods: GET\r\nContent-Length: 7\r\n\r\nRebuilt"
    );
}

#[test]
fn content_length_counts_bytes() {
    let r = Server::format_response(200, "héllo");
    assert!(r.contains("Content-Length: 6\r\n"));
}

#[test]
fn rebuild_notification_line_is_exact() {
    assert_eq!(
        rebuild_request("127.0.0.1", 5001),
        "GET /rebuild HTTP/1.1\r\nHost: 127.0.0.1:5001\r\n\r\n"
    );
    assert_eq!(server_addr("127.0.0.1", 5001), "127.0.0.1:5001");
}

#[test]
fn handle_rebuild_reloads_the_corpus() {
    let mut store = start(":memory:").unwrap();
    insert_many(
        &mut store,
        &vec![EmbeddedSentence {
            path: "notes/a.md".to_string(),
            start_line_no: 1,
            end_line_no: 2,
            embedding: vec![1.0f32.to_bits()],
        }],
    )
    .unwrap();
    let mut tree = EmbeddingTree::new(vec![]);
    let body = Server::handle_rebuild(&mut tree, &mut store).unwrap();
    assert_eq!(body, "Rebuilt");
    assert_eq!(tree.rows.len(), 1);
    assert_eq!(tree.rows[0].path, "notes/a.md");
    assert_eq!(tree.rows[0].embedding, vec![1.0f32.to_bits()]);
}

#[test]
fn rebuild_sees_another_connections_writes() {
    let uri = "file:rebuild_concurrent_case?mode=memory&cache=shared";
    let mut server_store = start(uri).unwrap();
    let mut tree = EmbeddingTree::new(vec![]);
    assert_eq!(Server::handle_rebuild(&mut tree, &mut server_store).unwrap(), "Rebuilt");
    assert_eq!(tree.rows.len(), 0);

    // Another process's connection commits a write; the next rebuild on the
    // server's own handle must observe it.
    let mut writer_store = start(uri).unwrap();
    insert_many(
        &mut writer_store,
        &vec![EmbeddedSentence {
            path: "notes/new.md".to_string(),
            start_line_no: 3,
            end_line_no: 3,
            embedding: vec![0.5f32.to_bits()],
        }],
    )
    .unwrap();

    assert_eq!(Server::handle_rebuild(&mut tree, &mut server_store).unwrap(), "Rebuilt");
    assert_eq!(tree.rows.len(), 1);
    assert_eq!(tree.rows[0].path, "notes/new.md");
    assert_eq!(tree.rows[0].embedding, vec![0.5f32.to_bits()]);
}
