use go_objstore::http::{
    append_chunk, check_status, delete_outcome, exists_from_status, health_from_record,
    health_from_status, list_query, listing_from_record, metadata_from_body,
    metadata_from_headers, metadata_from_record, metadata_record, put_outcome, HealthRecord,
    ListRecord, ObjectRecord,
};
use go_objstore::text::decimal_string;
use go_objstore::wire::{
    apply_reply, assemble_chunks, health_from_wire, lifecycle_from_wire, lifecycle_to_wire,
    list_request_to_wire, listing_from_wire, metadata_from_wire, metadata_reply,
    metadata_to_wire, put_response_from_wire, replication_policy_from_wire,
    replication_policy_reply, replication_policy_to_wire, replication_status_reply,
    sync_result_reply, timestamp_from_wire, ObjectAssembly, WireChunk, WireListResponse,
    WireMetadata, WireObjectInfo, WireTimestamp,
};
use go_objstore::{
    extended_gate, quic_setup, Error, ExtendedOperation, HealthStatus, HttpMethod, HttpStatus,
    LifecyclePolicy, ListRequest, Metadata, ObjectCall, Protocol, QuicRoutes, ReplicationMode,
    ReplicationPolicy, RestRoutes, Timestamp, TlsVerification,
};
use std::collections::HashMap;

fn status(code: u16) -> HttpStatus {
    HttpStatus::new(code).unwrap()
}

fn failed_message(e: Error) -> String {
    match e {
        Error::OperationFailed(m) => m,
        other => panic!("expected an operation failure, got {:?}", other),
    }
}

fn author_map() -> HashMap<String, String> {
    let mut custom = HashMap::new();
    custom.insert("author".to_string(), "x".to_string());
    custom
}

#[test]
fn keys_are_percent_encoded_in_paths() {
    let routes = QuicRoutes::new("h".to_string());
    let none = ListRequest::default();
    let target = |key: &str| routes.plan(ObjectCall::Get, key, &none).target;
    assert_eq!(target("path/to/file with spaces.txt"), "https://h/objects/path%2Fto%2Ffile%20with%20spaces.txt");
    assert_eq!(target("a-b_c.d~e09AZ"), "https://h/objects/a-b_c.d~e09AZ");
    assert_eq!(target("é&"), "https://h/objects/%C3%A9%26");
    assert_eq!(target(""), "https://h/objects/");
}

#[test]
fn decimal_string_formats_integers() {
    assert_eq!(decimal_string(0), "0");
    assert_eq!(decimal_string(100), "100");
    assert_eq!(decimal_string(-42), "-42");
    assert_eq!(decimal_string(i64::MIN), "-9223372036854775808");
    assert_eq!(decimal_string(i64::MAX), "9223372036854775807");
}

#[test]
fn list_query_sets_only_present_parameters() {
    assert_eq!(list_query(&ListRequest::default()), "");
    let by_prefix = ListRequest { prefix: Some("p/".to_string()), ..Default::default() };
    assert_eq!(list_query(&by_prefix), "?prefix=p%2F");
    let capped = ListRequest { max_results: Some(3), ..Default::default() };
    assert_eq!(list_query(&capped), "?limit=3");
    let all = ListRequest {
        prefix: Some("b/".to_string()),
        delimiter: Some("/".to_string()),
        max_results: Some(50),
        continue_from: Some("t k".to_string()),
    };
    assert_eq!(list_query(&all), "?prefix=b%2F&delimiter=%2F&limit=50&token=t%20k");
}

#[test]
fn http_status_holds_three_digit_codes_only() {
    assert!(HttpStatus::new(99).is_none());
    assert!(HttpStatus::new(1000).is_none());
    assert_eq!(status(404).code(), 404);
    assert!(status(204).is_success());
    assert!(!status(301).is_success());
    assert_eq!(status(404).text(), "404 Not Found");
}

#[test]
fn put_requires_exactly_created() {
    let e = put_outcome(status(200), None).unwrap_err();
    assert_eq!(failed_message(e), "Failed to put object: 200 OK");
    let e = put_outcome(status(500), None).unwrap_err();
    assert_eq!(failed_message(e), "Failed to put object: 500 Internal Server Error");
    let ok = put_outcome(status(201), Some("\"e1\"".to_string())).unwrap();
    assert!(ok.success);
    assert_eq!(ok.etag, Some("\"e1\"".to_string()));
    assert!(ok.message.is_none());
    assert_eq!(put_outcome(status(201), Some(String::new())).unwrap().etag, None);
}

#[test]
fn exists_is_exactly_status_200() {
    assert!(exists_from_status(status(200)));
    assert!(!exists_from_status(status(500)));
    assert!(!exists_from_status(status(404)));
    assert!(!exists_from_status(status(204)));
}

#[test]
fn missing_key_reads_as_not_found() {
    for op in [ObjectCall::Get, ObjectCall::GetMetadata, ObjectCall::UpdateMetadata, ObjectCall::Delete] {
        match check_status(op, status(404), "never-put") {
            Err(Error::NotFound(k)) => assert_eq!(k, "never-put"),
            other => panic!("expected not found, got {:?}", other),
        }
    }
    match delete_outcome(status(404), "gone") {
        Err(Error::NotFound(k)) => assert_eq!(k, "gone"),
        other => panic!("expected not found, got {:?}", other),
    }
}

#[test]
fn other_statuses_fail_with_operation_and_status() {
    let e = check_status(ObjectCall::List, status(404), "").unwrap_err();
    assert_eq!(failed_message(e), "Failed to list objects: 404 Not Found");
    let e = check_status(ObjectCall::Get, status(500), "k").unwrap_err();
    assert_eq!(failed_message(e), "Failed to get object: 500 Internal Server Error");
    let e = check_status(ObjectCall::Health, status(503), "").unwrap_err();
    assert_eq!(failed_message(e), "Health check failed: 503 Service Unavailable");
    let e = delete_outcome(status(400), "k").unwrap_err();
    assert_eq!(failed_message(e), "Failed to delete object: 400 Bad Request");
    assert!(delete_outcome(status(204), "k").unwrap().success);
    assert!(check_status(ObjectCall::UpdateMetadata, status(200), "k").is_ok());
}

#[test]
fn health_mappings() {
    let up = health_from_status(status(200)).unwrap();
    assert_eq!(up.status, HealthStatus::Serving);
    assert!(up.message.is_none());
    let down = health_from_status(status(503)).unwrap_err();
    assert_eq!(failed_message(down), "Health check failed: 503 Service Unavailable");
    let down = health_from_status(status(500)).unwrap_err();
    assert_eq!(failed_message(down), "Health check failed: 500 Internal Server Error");

    let rec = HealthRecord { status: "healthy".to_string(), version: Some("1.0.0".to_string()) };
    let h = health_from_record(&rec);
    assert_eq!(h.status, HealthStatus::Serving);
    assert_eq!(h.message, Some("1.0.0".to_string()));
    let rec = HealthRecord { status: "serving".to_string(), version: None };
    assert_eq!(health_from_record(&rec).status, HealthStatus::Serving);
    let rec = HealthRecord { status: "Healthy".to_string(), version: None };
    assert_eq!(health_from_record(&rec).status, HealthStatus::NotServing);

    assert_eq!(health_from_wire(1, String::new()).status, HealthStatus::Serving);
    assert_eq!(health_from_wire(2, String::new()).status, HealthStatus::NotServing);
    assert_eq!(health_from_wire(0, String::new()).status, HealthStatus::Unknown);
    assert_eq!(health_from_wire(3, String::new()).status, HealthStatus::Unknown);
    assert_eq!(health_from_wire(1, "up".to_string()).message, Some("up".to_string()));
    assert_eq!(health_from_wire(1, String::new()).message, None);
}

#[test]
fn rest_routes_build_targets() {
    let routes = RestRoutes::new("http://localhost:8080".to_string());
    let none = ListRequest::default();
    let meta = Metadata { content_type: Some("text/plain".to_string()), ..Default::default() };
    let put = routes.plan(ObjectCall::Put, "a b.txt", &none, &Some(meta));
    assert_eq!(put.method, HttpMethod::Put);
    assert_eq!(put.target, "http://localhost:8080/objects/a%20b.txt");
    assert_eq!(put.content_type, Some("text/plain".to_string()));
    let head = routes.plan(ObjectCall::Exists, "k", &none, &None);
    assert_eq!(head.method, HttpMethod::Head);
    assert_eq!(head.target, "http://localhost:8080/objects/k");
    let meta_read = routes.plan(ObjectCall::GetMetadata, "dir/k", &none, &None);
    assert_eq!(meta_read.target, "http://localhost:8080/metadata/dir%2Fk");
    let update = routes.plan(ObjectCall::UpdateMetadata, "k", &none, &None);
    assert_eq!(update.method, HttpMethod::Put);
    assert_eq!(update.content_type, Some("application/json".to_string()));
    let listing = ListRequest { prefix: Some("p/".to_string()), ..Default::default() };
    let list = routes.plan(ObjectCall::List, "", &listing, &None);
    assert_eq!(list.target, "http://localhost:8080/objects?prefix=p%2F");
    assert_eq!(routes.plan(ObjectCall::Health, "", &none, &None).target, "http://localhost:8080/health");
    assert_eq!(routes.plan(ObjectCall::Delete, "k", &none, &None).method, HttpMethod::Delete);
}

#[test]
fn quic_routes_build_targets() {
    let routes = QuicRoutes::new("localhost".to_string());
    let none = ListRequest::default();
    let put = routes.plan(ObjectCall::Put, "k", &none);
    assert_eq!(put.target, "https://localhost/objects/k");
    assert_eq!(put.content_type, Some("application/octet-stream".to_string()));
    let meta = routes.plan(ObjectCall::GetMetadata, "k", &none);
    assert_eq!(meta.target, "https://localhost/objects/k/metadata");
    assert_eq!(meta.method, HttpMethod::Get);
    let capped = ListRequest { max_results: Some(3), ..Default::default() };
    assert_eq!(routes.plan(ObjectCall::List, "", &capped).target, "https://localhost/objects?limit=3");
    assert_eq!(routes.plan(ObjectCall::Health, "", &none).target, "https://localhost/health");
}

#[test]
fn custom_metadata_round_trips_through_json_records() {
    let m = Metadata { custom: author_map(), ..Default::default() };
    let rec = metadata_record(&m);
    assert_eq!(rec.custom.clone().unwrap().get("author"), Some(&"x".to_string()));
    let stored = ObjectRecord {
        key: "k".to_string(),
        size: 0,
        modified: None,
        etag: None,
        metadata: rec.custom,
    };
    let read = metadata_from_record(&stored);
    assert_eq!(read.custom.get("author"), Some(&"x".to_string()));
    assert!(metadata_record(&Metadata::default()).custom.is_none());
}

#[test]
fn metadata_record_writes_rfc3339() {
    let m = Metadata { last_modified: Timestamp::from_unix(0, 0), size: 7, ..Default::default() };
    let rec = metadata_record(&m);
    assert_eq!(rec.last_modified, Some("1970-01-01T00:00:00+00:00".to_string()));
    assert_eq!(rec.size, 7);
}

#[test]
fn object_record_reads_rfc3339_and_normalizes() {
    let o = ObjectRecord {
        key: "k".to_string(),
        size: 5,
        modified: Some("1970-01-01T00:00:01.5Z".to_string()),
        etag: Some(String::new()),
        metadata: Some(author_map()),
    };
    let m = metadata_from_record(&o);
    assert_eq!(m.size, 5);
    let t = m.last_modified.unwrap();
    assert_eq!((t.seconds(), t.nanos()), (1, 500_000_000));
    assert_eq!(m.etag, None);
    assert_eq!(m.custom.len(), 1);
    let bad = ObjectRecord { modified: Some("yesterday".to_string()), ..o };
    assert!(metadata_from_record(&bad).last_modified.is_none());
}

#[test]
fn listing_record_keeps_order_and_keys() {
    let obj = |k: &str| ObjectRecord { key: k.to_string(), size: 1, modified: None, etag: None, metadata: None };
    let rec = ListRecord {
        objects: vec![obj("p/a"), obj("p/b"), obj("p/c")],
        common_prefixes: None,
        next_token: Some(String::new()),
        truncated: true,
    };
    let page = listing_from_record(&rec);
    let keys: Vec<&str> = page.objects.iter().map(|o| o.key.as_str()).collect();
    assert_eq!(keys, vec!["p/a", "p/b", "p/c"]);
    assert!(page.common_prefixes.is_empty());
    assert_eq!(page.next_token, None);
    assert!(page.truncated);
}

#[test]
fn headers_give_metadata() {
    let m = metadata_from_headers(
        Some("text/plain".to_string()),
        Some("1024".to_string()),
        Some("\"e\"".to_string()),
        Some("Tue, 15 Nov 1994 08:12:31 GMT".to_string()),
    );
    assert_eq!(m.content_type, Some("text/plain".to_string()));
    assert_eq!(m.size, 1024);
    assert_eq!(m.etag, Some("\"e\"".to_string()));
    assert_eq!(m.last_modified.unwrap().seconds(), 784887151);
    let m = metadata_from_headers(Some(String::new()), Some("abc".to_string()), None, Some("nope".to_string()));
    assert_eq!(m.content_type, None);
    assert_eq!(m.size, 0);
    assert!(m.last_modified.is_none());
    assert_eq!(metadata_from_headers(None, Some("-12".to_string()), None, None).size, -12);
    let m = metadata_from_body(Some("application/octet-stream".to_string()), None, &vec![1u8, 2, 3]);
    assert_eq!(m.size, 3);
}

#[test]
fn chunks_accumulate_in_order() {
    let mut body = Vec::new();
    append_chunk(&mut body, &[1, 2]);
    append_chunk(&mut body, &[]);
    append_chunk(&mut body, &[3]);
    assert_eq!(body, vec![1, 2, 3]);
}

#[test]
fn multi_megabyte_body_survives_chunking() {
    let payload: Vec<u8> = (0..3 * 1024 * 1024u32).map(|i| (i % 251) as u8).collect();
    let mut body = Vec::new();
    for piece in payload.chunks(65536) {
        append_chunk(&mut body, piece);
    }
    assert_eq!(body, payload);
    let chunks: Vec<WireChunk> = payload
        .chunks(100_000)
        .map(|c| WireChunk { data: c.to_vec(), metadata: None })
        .collect();
    assert_eq!(assemble_chunks(&chunks).0, payload);
}

fn wire_meta(content_type: &str) -> WireMetadata {
    WireMetadata {
        content_type: content_type.to_string(),
        content_encoding: String::new(),
        size: 4,
        last_modified: None,
        etag: String::new(),
        custom: HashMap::new(),
    }
}

#[test]
fn stream_keeps_first_metadata() {
    let chunks = vec![
        WireChunk { data: b"ab".to_vec(), metadata: Some(wire_meta("a/1")) },
        WireChunk { data: Vec::new(), metadata: None },
        WireChunk { data: b"cd".to_vec(), metadata: Some(wire_meta("b/2")) },
    ];
    let (data, meta) = assemble_chunks(&chunks);
    assert_eq!(data, b"abcd".to_vec());
    assert_eq!(meta.content_type, Some("a/1".to_string()));

    let plain = vec![WireChunk { data: b"z".to_vec(), metadata: None }];
    let (data, meta) = assemble_chunks(&plain);
    assert_eq!(data, b"z".to_vec());
    assert_eq!(meta, Metadata::default());

    let mut assembly = ObjectAssembly::new();
    assembly.push(&chunks[1]);
    assembly.push(&chunks[2]);
    assembly.push(&chunks[0]);
    let (data, meta) = assembly.finish();
    assert_eq!(data, b"cdab".to_vec());
    assert_eq!(meta.content_type, Some("b/2".to_string()));
    assert_eq!(assemble_chunks(&Vec::new()).0, Vec::<u8>::new());
}

#[test]
fn metadata_round_trips_through_wire() {
    let m = Metadata {
        content_type: Some("text/plain".to_string()),
        content_encoding: None,
        size: 12,
        last_modified: Timestamp::from_unix(1_700_000_000, 123),
        etag: Some("e".to_string()),
        custom: author_map(),
    };
    let w = metadata_to_wire(&m);
    assert_eq!(w.content_encoding, "");
    assert_eq!(w.last_modified, Some(WireTimestamp { seconds: 1_700_000_000, nanos: 123 }));
    let back = metadata_from_wire(&w);
    assert_eq!(back, m);
}

#[test]
fn wire_timestamps_outside_range_read_as_epoch() {
    let t = timestamp_from_wire(WireTimestamp { seconds: 5, nanos: 7 });
    assert_eq!((t.seconds(), t.nanos()), (5, 7));
    let t = timestamp_from_wire(WireTimestamp { seconds: 5, nanos: -1 });
    assert_eq!((t.seconds(), t.nanos()), (0, 0));
    let t = timestamp_from_wire(WireTimestamp { seconds: i64::MAX, nanos: 0 });
    assert_eq!((t.seconds(), t.nanos()), (0, 0));
}

#[test]
fn timestamps_follow_the_calendar_range() {
    assert!(Timestamp::from_unix(0, 2_000_000_000).is_none());
    assert!(Timestamp::from_unix(59, 1_500_000_000).is_some());
    assert!(Timestamp::from_unix(58, 1_500_000_000).is_none());
    assert!(Timestamp::from_unix(i64::MAX, 0).is_none());
}

#[test]
fn grpc_listing_conversions() {
    let w = list_request_to_wire(&ListRequest::default());
    assert_eq!(w.max_results, 100);
    assert_eq!(w.prefix, "");
    let w = list_request_to_wire(&ListRequest { max_results: Some(3), ..Default::default() });
    assert_eq!(w.max_results, 3);
    let resp = WireListResponse {
        objects: vec![
            WireObjectInfo { key: "a".to_string(), metadata: None },
            WireObjectInfo { key: "b".to_string(), metadata: Some(wire_meta("x/y")) },
        ],
        common_prefixes: vec!["p/".to_string()],
        next_token: String::new(),
        truncated: false,
    };
    let page = listing_from_wire(&resp);
    assert_eq!(page.objects[0].metadata, Metadata::default());
    assert_eq!(page.objects[1].metadata.content_type, Some("x/y".to_string()));
    assert_eq!(page.common_prefixes, vec!["p/".to_string()]);
    assert_eq!(page.next_token, None);
}

#[test]
fn grpc_replies_map_failures() {
    let e = metadata_reply(false, &String::new(), &None).unwrap_err();
    assert_eq!(failed_message(e), "Failed to get metadata");
    let e = metadata_reply(false, &"file not found".to_string(), &None).unwrap_err();
    assert_eq!(failed_message(e), "file not found");
    assert_eq!(metadata_reply(true, &String::new(), &None).unwrap(), Metadata::default());
    assert_eq!(apply_reply(true, &String::new(), 3, 10).unwrap(), (3, 10));
    assert_eq!(failed_message(apply_reply(false, &String::new(), 0, 0).unwrap_err()), "Failed to apply policies");
    match sync_result_reply(true, &String::new(), &None) {
        Err(Error::InvalidResponse(m)) => assert_eq!(m, "Missing sync result"),
        other => panic!("expected invalid response, got {:?}", other),
    }
    let e = sync_result_reply(false, &String::new(), &None).unwrap_err();
    assert_eq!(failed_message(e), "Failed to trigger replication");
    match replication_status_reply(true, &String::new(), &None) {
        Err(Error::InvalidResponse(m)) => assert_eq!(m, "Missing replication status"),
        other => panic!("expected invalid response, got {:?}", other),
    }
    match replication_policy_reply(&None) {
        Err(Error::NotFound(m)) => assert_eq!(m, "Replication policy not found"),
        other => panic!("expected not found, got {:?}", other),
    }
    let put = put_response_from_wire(true, String::new(), "e".to_string()).unwrap();
    assert!(put.success && put.message.is_none());
    assert_eq!(put.etag, Some("e".to_string()));
    let e = put_response_from_wire(false, String::new(), String::new()).unwrap_err();
    assert_eq!(failed_message(e), "Failed to put object");
    let e = go_objstore::wire::delete_response_from_wire(false, "disk full".to_string()).unwrap_err();
    assert_eq!(failed_message(e), "disk full");
    assert!(go_objstore::wire::delete_response_from_wire(true, String::new()).unwrap().success);
}

#[test]
fn grpc_policy_conversions() {
    let policy = ReplicationPolicy {
        id: "r".to_string(),
        source_backend: "local".to_string(),
        source_settings: HashMap::new(),
        source_prefix: String::new(),
        destination_backend: "s3".to_string(),
        destination_settings: author_map(),
        check_interval_seconds: 60,
        last_sync_time: Timestamp::from_unix(10, 0),
        enabled: false,
        encryption: None,
        replication_mode: ReplicationMode::Opaque,
    };
    let w = replication_policy_to_wire(&policy);
    assert_eq!(w.replication_mode, 1);
    let back = replication_policy_from_wire(&w);
    assert_eq!(back.replication_mode, ReplicationMode::Opaque);
    assert_eq!(back.last_sync_time, policy.last_sync_time);
    assert_eq!(back.destination_settings, policy.destination_settings);
    let odd = go_objstore::wire::WireReplicationPolicy { replication_mode: 7, ..w };
    assert_eq!(replication_policy_from_wire(&odd).replication_mode, ReplicationMode::Transparent);

    let lp = LifecyclePolicy {
        id: "l".to_string(),
        prefix: "logs/".to_string(),
        retention_seconds: 86400,
        action: "delete".to_string(),
        destination_type: None,
        destination_settings: HashMap::new(),
    };
    let wl = lifecycle_to_wire(&lp);
    assert_eq!(wl.destination_type, "");
    assert_eq!(lifecycle_from_wire(&wl).destination_type, None);
}

#[test]
fn extended_operations_need_grpc() {
    let ops = [
        ExtendedOperation::Archive,
        ExtendedOperation::AddPolicy,
        ExtendedOperation::RemovePolicy,
        ExtendedOperation::GetPolicies,
        ExtendedOperation::ApplyPolicies,
        ExtendedOperation::AddReplicationPolicy,
        ExtendedOperation::RemoveReplicationPolicy,
        ExtendedOperation::GetReplicationPolicies,
        ExtendedOperation::GetReplicationPolicy,
        ExtendedOperation::TriggerReplication,
        ExtendedOperation::GetReplicationStatus,
    ];
    for op in ops {
        assert!(extended_gate(Protocol::Grpc, op).is_ok());
        for p in [Protocol::Rest, Protocol::Quic] {
            assert!(matches!(extended_gate(p, op), Err(Error::Unsupported(_))));
        }
    }
    match extended_gate(Protocol::Rest, ExtendedOperation::AddPolicy) {
        Err(Error::Unsupported(m)) => assert_eq!(m, "Lifecycle policies only supported on gRPC client"),
        other => panic!("expected unsupported, got {:?}", other),
    }
    match extended_gate(Protocol::Quic, ExtendedOperation::Archive) {
        Err(e) => assert_eq!(e.message(), "Unsupported operation: Archive only supported on gRPC client"),
        Ok(()) => panic!("archive must not run over QUIC"),
    }
}

#[test]
fn error_messages_name_their_kind() {
    assert_eq!(Error::InvalidResponse("x".to_string()).message(), "Invalid response: x");
    assert_eq!(Error::Http("x".to_string()).message(), "HTTP error: x");
    assert_eq!(Error::GrpcStatus("x".to_string()).message(), "gRPC status error: x");
    assert_eq!(Error::QuicConnection("x".to_string()).message(), "QUIC connection error: x");
    assert_eq!(Error::Tls("x".to_string()).message(), "TLS error: x");
    assert_eq!(Error::Generic("x".to_string()).message(), "x");
    let from_owned: Error = String::from("owned").into();
    assert_eq!(from_owned.message(), "owned");
}

#[test]
fn quic_setup_defaults_to_verification() {
    assert_eq!(TlsVerification::default(), TlsVerification::Enabled);
    let s = quic_setup(TlsVerification::Enabled);
    assert!(s.verify_certificates);
    assert!(s.warning.is_none());
    assert_eq!(s.alpn, b"h3".to_vec());
    assert_eq!(s.idle_timeout_seconds, 30);
    let s = quic_setup(TlsVerification::Disabled);
    assert!(s.warning.unwrap().contains("DISABLED"));
    assert_eq!(Protocol::Grpc.name(), "gRPC");
}

#[test]
fn a_continuation_token_marks_the_page_truncated() {
    let rec = ListRecord { objects: vec![], common_prefixes: Some(vec!["p/".to_string()]), next_token: Some("t".to_string()), truncated: false };
    let page = listing_from_record(&rec);
    assert!(page.truncated);
    assert_eq!(page.next_token, Some("t".to_string()));
    assert_eq!(page.common_prefixes, vec!["p/".to_string()]);
    let rec = ListRecord { objects: vec![], common_prefixes: None, next_token: None, truncated: false };
    assert!(!listing_from_record(&rec).truncated);
    let wire = WireListResponse { objects: vec![], common_prefixes: vec![], next_token: "n".to_string(), truncated: false };
    assert!(listing_from_wire(&wire).truncated);
}
