use librarian::archive_api::{
    backoff, bulk_search_query, check_details_response, classify_status, collect_files,
    fetch_item_details, file_name_of_key, get_first_string, get_string_array, metadata_url,
    status_is_success, trim_jsonp, ArchiveDoc, BulkAttempt, BulkFailure, BulkFetch, BulkFetchError,
    BulkStep, DetailsFailure, FetchDetailsErrorKind, FileDetailsInternal, FilesField,
    ItemMetadataResponse, JsonValue, MetadataDetails, NamedFile, SendFailure, MAX_FETCH_RETRIES,
};
use librarian::archive_org::ArchiveOrgClient;

fn text(s: &str) -> JsonValue {
    JsonValue::Text(s.to_string())
}

fn record(format: &str) -> FileDetailsInternal {
    FileDetailsInternal {
        source: Some("derivative".to_string()),
        format: Some(format.to_string()),
        size: Some("123".to_string()),
        md5: None,
    }
}

fn metadata() -> MetadataDetails {
    MetadataDetails {
        identifier: "enrmp270_litmus_-_perception_of_light".to_string(),
        title: Some(text("Litmus - Perception Of Light [enrmp270]")),
        creator: Some(JsonValue::Array(vec![text("Litmus"), text("Other")])),
        description: Some(JsonValue::Number("7".to_string())),
        date: Some("2008-01-01".to_string()),
        publicdate: None,
        mediatype: Some("audio".to_string()),
        uploader: None,
        collection: Some(JsonValue::Array(vec![
            text("enough_records"),
            JsonValue::Null,
            text("netlabels"),
        ])),
    }
}

#[test]
fn details_from_reply_with_file_array() {
    let raw = ItemMetadataResponse {
        metadata: Some(metadata()),
        files: Some(FilesField::Array(vec![
            Some(NamedFile { name: "01.mp3".to_string(), details: record("VBR MP3") }),
            None,
            Some(NamedFile { name: "cover.jpg".to_string(), details: record("JPEG") }),
        ])),
        server: Some("ia800.us.archive.org".to_string()),
        dir: Some("/3/items/x".to_string()),
    };
    let d = fetch_item_details("enrmp270_litmus_-_perception_of_light", Ok(raw)).unwrap();
    assert_eq!(d.identifier, "enrmp270_litmus_-_perception_of_light");
    assert_eq!(d.title.as_deref(), Some("Litmus - Perception Of Light [enrmp270]"));
    assert_eq!(d.creator.as_deref(), Some("Litmus"));
    assert_eq!(d.description, None);
    assert_eq!(d.date.as_deref(), Some("2008-01-01"));
    assert_eq!(d.mediatype.as_deref(), Some("audio"));
    assert_eq!(d.collections, vec!["enough_records".to_string(), "netlabels".to_string()]);
    assert_eq!(d.files.len(), 2);
    assert_eq!(d.files[0].name, "01.mp3");
    assert_eq!(d.files[0].format.as_deref(), Some("VBR MP3"));
    assert_eq!(d.files[1].name, "cover.jpg");
    assert_eq!(d.download_base_url.as_deref(), Some("https://ia800.us.archive.org//3/items/x"));
}

#[test]
fn details_from_reply_with_file_object() {
    let raw = ItemMetadataResponse {
        metadata: None,
        files: Some(FilesField::Object(vec![
            ("/a.flac".to_string(), Some(record("Flac"))),
            ("b.txt".to_string(), None),
            ("//c.mp3".to_string(), Some(record("MP3"))),
        ])),
        server: Some("s".to_string()),
        dir: None,
    };
    let d = fetch_item_details("id", Ok(raw)).unwrap();
    assert_eq!(d.title, None);
    assert!(d.collections.is_empty());
    assert_eq!(d.files.len(), 2);
    assert_eq!(d.files[0].name, "a.flac");
    assert_eq!(d.files[0].source.as_deref(), Some("derivative"));
    assert_eq!(d.files[1].name, "/c.mp3");
    assert_eq!(d.download_base_url, None);
}

#[test]
fn details_of_empty_reply_is_not_found() {
    let raw = ItemMetadataResponse { metadata: None, files: None, server: Some("s".to_string()), dir: None };
    let e = fetch_item_details("missing", Ok(raw)).unwrap_err();
    assert_eq!(e.kind, FetchDetailsErrorKind::NotFound);
    assert!(matches!(e.source, DetailsFailure::MissingMetadataAndFiles));
    assert_eq!(e.identifier, "missing");
}

#[test]
fn details_with_other_files_value_have_no_files() {
    let raw = ItemMetadataResponse {
        metadata: Some(metadata()),
        files: Some(FilesField::Other),
        server: None,
        dir: None,
    };
    let d = fetch_item_details("x", Ok(raw)).unwrap();
    assert!(d.files.is_empty());
}

#[test]
fn details_parse_error() {
    let e = fetch_item_details("x", Err("expected value at line 1".to_string())).unwrap_err();
    assert_eq!(e.kind, FetchDetailsErrorKind::ParseError);
    assert!(matches!(e.source, DetailsFailure::Parse(ref m) if m == "expected value at line 1"));
}

#[test]
fn details_response_status_classification() {
    assert!(check_details_response("x", Ok(200)).is_ok());
    assert!(check_details_response("x", Ok(204)).is_ok());
    let e = check_details_response("this_item_definitely_does_not_exist_98765", Ok(404)).unwrap_err();
    assert_eq!(e.kind, FetchDetailsErrorKind::NotFound);
    assert_eq!(e.identifier, "this_item_definitely_does_not_exist_98765");
    assert!(matches!(e.source, DetailsFailure::Status(404)));
    assert_eq!(classify_status(429), FetchDetailsErrorKind::RateLimitExceeded);
    assert_eq!(classify_status(403), FetchDetailsErrorKind::ClientError(403));
    assert_eq!(classify_status(503), FetchDetailsErrorKind::ServerError(503));
    assert_eq!(classify_status(302), FetchDetailsErrorKind::Other);
    assert!(status_is_success(299));
    assert!(!status_is_success(300));
}

#[test]
fn details_send_failures() {
    let f = SendFailure { is_timeout: true, is_connect_or_request: false, message: "timed out".to_string() };
    let e = check_details_response("x", Err(f)).unwrap_err();
    assert_eq!(e.kind, FetchDetailsErrorKind::NetworkError);
    assert!(matches!(e.source, DetailsFailure::Send(ref m) if m == "timed out"));
    let f = SendFailure { is_timeout: false, is_connect_or_request: true, message: "refused".to_string() };
    assert_eq!(check_details_response("x", Err(f)).unwrap_err().kind, FetchDetailsErrorKind::NetworkError);
    let f = SendFailure { is_timeout: false, is_connect_or_request: false, message: "other".to_string() };
    assert_eq!(check_details_response("x", Err(f)).unwrap_err().kind, FetchDetailsErrorKind::Other);
}

#[test]
fn json_field_helpers() {
    assert_eq!(get_first_string(&Some(text("a"))), Some("a".to_string()));
    assert_eq!(get_first_string(&Some(JsonValue::Array(vec![JsonValue::Bool(true), text("b")]))), None);
    assert_eq!(get_first_string(&Some(JsonValue::Array(vec![]))), None);
    assert_eq!(get_first_string(&None), None);
    assert_eq!(get_string_array(&Some(text("a"))), vec!["a".to_string()]);
    assert_eq!(
        get_string_array(&Some(JsonValue::Array(vec![text("a"), JsonValue::Number("1".to_string()), text("b")]))),
        vec!["a".to_string(), "b".to_string()]
    );
    assert!(get_string_array(&Some(JsonValue::Object(vec![]))).is_empty());
    assert_eq!(file_name_of_key(&"/x/y".to_string()), "x/y");
    assert_eq!(file_name_of_key(&"x".to_string()), "x");
    assert!(collect_files(None).is_empty());
}

#[test]
fn metadata_and_search_urls() {
    assert_eq!(metadata_url("abc"), "https://archive.org/metadata/abc");
    let c = ArchiveOrgClient::new();
    assert_eq!(c.item_metadata_url("abc"), "https://archive.org/metadata/abc");
    assert_eq!(c.get_thumbnail_url("abc"), "https://archive.org/services/img/abc");
    assert_eq!(
        c.search_audio_collections_url(2, 50),
        "https://archive.org/advancedsearch.php?q=mediatype:audio+AND+collection:*&fl=identifier,title,creator,date,mediatype,downloads,item_size,publicdate,description&output=json&rows=50&page=2"
    );
}

#[test]
fn bulk_query_parameters() {
    let q = bulk_search_query("enough_records");
    let expected: Vec<(String, String)> = vec![
        ("q".to_string(), "collection:\"enough_records\"".to_string()),
        ("fl[]".to_string(), "identifier".to_string()),
        ("rows".to_string(), "1000000".to_string()),
        ("output".to_string(), "json".to_string()),
        ("callback".to_string(), "callback".to_string()),
    ];
    assert_eq!(q, expected);
}

#[test]
fn jsonp_trimming() {
    assert_eq!(trim_jsonp("callback({\"a\":1})"), "{\"a\":1}");
    assert_eq!(trim_jsonp("callback()"), "");
    assert_eq!(trim_jsonp("callback("), "callback(");
    assert_eq!(trim_jsonp("callback({}"), "callback({}");
    assert_eq!(trim_jsonp("{\"a\":1}"), "{\"a\":1}");
    assert_eq!(trim_jsonp("xallback(1)"), "xallback(1)");
}

#[test]
fn bulk_fetch_succeeds_first_time() {
    let mut f = BulkFetch::new();
    assert_eq!(f.attempt(), 1);
    let docs = vec![ArchiveDoc { identifier: "a".to_string() }];
    match f.step(BulkAttempt::Parsed(docs, 120)) {
        BulkStep::Finished(Ok((d, total))) => {
            assert_eq!(d.len(), 1);
            assert_eq!(d[0].identifier, "a");
            assert_eq!(total, 120);
        }
        other => panic!("unexpected {:?}", other),
    }
}

#[test]
fn bulk_fetch_of_unknown_collection_is_empty() {
    let mut f = BulkFetch::new();
    match f.step(BulkAttempt::Parsed(Vec::new(), 0)) {
        BulkStep::Finished(Ok((d, total))) => {
            assert!(d.is_empty());
            assert_eq!(total, 0);
        }
        other => panic!("unexpected {:?}", other),
    }
}

#[test]
fn bulk_fetch_retries_server_errors_with_backoff() {
    let mut f = BulkFetch::new();
    assert!(matches!(f.step(BulkAttempt::Status(503)), BulkStep::RetryAfter(1)));
    assert_eq!(f.attempt(), 2);
    assert!(matches!(f.step(BulkAttempt::SendFailed("reset".to_string())), BulkStep::RetryAfter(2)));
    assert_eq!(f.attempt(), 3);
    match f.step(BulkAttempt::Status(500)) {
        BulkStep::Finished(Err(e)) => {
            assert_eq!(e, BulkFetchError { attempt: 3, failure: BulkFailure::Status(500) });
        }
        other => panic!("unexpected {:?}", other),
    }
    assert_eq!(f.attempt(), MAX_FETCH_RETRIES);
}

#[test]
fn bulk_fetch_does_not_retry_permanent_failures() {
    let mut f = BulkFetch::new();
    assert!(matches!(
        f.step(BulkAttempt::Status(404)),
        BulkStep::Finished(Err(BulkFetchError { attempt: 1, failure: BulkFailure::Status(404) }))
    ));
    let mut f = BulkFetch::new();
    assert!(matches!(
        f.step(BulkAttempt::Malformed("eof".to_string())),
        BulkStep::Finished(Err(BulkFetchError { attempt: 1, failure: BulkFailure::Parse(_) }))
    ));
    let mut f = BulkFetch::new();
    assert!(matches!(
        f.step(BulkAttempt::BodyUnreadable("cut".to_string())),
        BulkStep::Finished(Err(BulkFetchError { attempt: 1, failure: BulkFailure::Body(_) }))
    ));
    let mut f = BulkFetch::new();
    assert!(matches!(
        f.step(BulkAttempt::NotClonable),
        BulkStep::Finished(Err(BulkFetchError { attempt: 1, failure: BulkFailure::NotClonable }))
    ));
}

#[test]
fn backoff_doubles() {
    assert_eq!(backoff(1), 1);
    assert_eq!(backoff(2), 2);
    assert_eq!(backoff(3), 4);
}
