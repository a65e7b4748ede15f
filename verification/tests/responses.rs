//! Classifier tests: the canonical response fixtures, one per wire shape,
//! fed through the per-type parse functions.

use elastic::error::ApiError;
use elastic::responses::{
    parse_command, parse_delete, parse_index, parse_index_exists, parse_ping, Outcome,
};

fn acknowledged_body() -> Vec<u8> {
    br#"{ "acknowledged" : true }"#.to_vec()
}

fn delete_found_body() -> Vec<u8> {
    br#"{
        "found": true,
        "_index": "testindex",
        "_type": "testtype",
        "_id": "1",
        "_version": 8,
        "result": "deleted"
    }"#
    .to_vec()
}

fn delete_not_found_body() -> Vec<u8> {
    br#"{
        "found": false,
        "_index": "testindex",
        "_type": "testtype",
        "_id": "1",
        "_version": 8,
        "result": "not_found"
    }"#
    .to_vec()
}

fn index_success_body() -> Vec<u8> {
    br#"{
        "_index": "testindex",
        "_type": "testtype",
        "_id": "1",
        "_version": 1,
        "created": true,
        "result": "created"
    }"#
    .to_vec()
}

fn error_index_already_exists_body() -> Vec<u8> {
    br#"{
        "error": {
            "type": "index_already_exists_exception",
            "reason": "index [carrots/uuid] already exists",
            "index": "carrots"
        },
        "status": 400
    }"#
    .to_vec()
}

fn ping_success_body() -> Vec<u8> {
    br#"{
        "name": "Scorcher",
        "cluster_name": "elasticsearch",
        "version": { "number": "5.0.0" },
        "tagline": "You Know, for Search"
    }"#
    .to_vec()
}

#[test]
fn command_success_parse_command_response() {
    let deserialized = match parse_command(200, &acknowledged_body()) {
        Outcome::Success(v) => v,
        _ => panic!("expected success"),
    };

    assert!(deserialized.acknowledged());
}

#[test]
fn mod_success_parse_command_response() {
    let deserialized = match parse_command(200, &acknowledged_body()) {
        Outcome::Success(v) => v,
        _ => panic!("expected success"),
    };

    assert!(deserialized.acknowledged());
}

#[test]
fn document_delete_success_parse_found_response() {
    let deserialized = match parse_delete(200, &delete_found_body()) {
        Outcome::Success(v) => v,
        _ => panic!("expected success"),
    };

    assert_eq!("testindex", deserialized.index());
    assert_eq!("testtype", deserialized.ty());
    assert_eq!("1", deserialized.id());
    assert_eq!(Some(8), deserialized.version());

    assert!(deserialized.deleted());
}

#[test]
fn document_delete_success_parse_not_found_response() {
    let deserialized = match parse_delete(404, &delete_not_found_body()) {
        Outcome::Success(v) => v,
        _ => panic!("expected success"),
    };

    assert!(!deserialized.deleted());
}

#[test]
fn mod_success_parse_found_response() {
    let deserialized = match parse_delete(200, &delete_found_body()) {
        Outcome::Success(v) => v,
        _ => panic!("expected success"),
    };

    assert_eq!("testindex", deserialized.index());
    assert_eq!("testtype", deserialized.ty());
    assert_eq!("1", deserialized.id());
    assert_eq!(Some(8), deserialized.version());

    assert!(deserialized.deleted());
}

#[test]
fn mod_success_parse_not_found_response() {
    let deserialized = match parse_delete(404, &delete_not_found_body()) {
        Outcome::Success(v) => v,
        _ => panic!("expected success"),
    };

    assert!(!deserialized.deleted());
}

#[test]
fn success_parse_response() {
    let deserialized = match parse_index(200, &index_success_body()) {
        Outcome::Success(v) => v,
        _ => panic!("expected success"),
    };

    assert!(deserialized.created());
    assert_eq!("testindex", deserialized.index());
    assert_eq!("testtype", deserialized.ty());
    assert_eq!("1", deserialized.id());
    assert_eq!(Some(1), deserialized.version());
}

#[test]
fn error_parse_index_already_exists() {
    let deserialized = match parse_index(400, &error_index_already_exists_body()) {
        Outcome::Api(e) => e,
        _ => panic!("expected a domain error"),
    };

    let valid = match deserialized {
        ApiError::IndexAlreadyExists { ref index } if index == "carrots" => true,
        _ => false,
    };

    assert!(valid);
}

#[test]
fn ping_success_parse_ping_response() {
    let deserialized = match parse_ping(200, &ping_success_body()) {
        Outcome::Success(v) => v,
        _ => panic!("expected success"),
    };

    assert_eq!("Scorcher", deserialized.name());
}

#[test]
fn mod_success_parse_ping_response() {
    let deserialized = match parse_ping(200, &ping_success_body()) {
        Outcome::Success(v) => v,
        _ => panic!("expected success"),
    };

    assert_eq!("Scorcher", deserialized.name());
}

#[test]
fn status_only_true_false_and_failure() {
    let body = acknowledged_body();

    let up = match parse_index_exists(200, &body) {
        Outcome::Success(v) => v,
        _ => panic!("expected success"),
    };
    assert!(up.present());

    let gone = match parse_index_exists(404, &body) {
        Outcome::Success(v) => v,
        _ => panic!("expected success"),
    };
    assert!(!gone.present());

    match parse_index_exists(503, &body) {
        Outcome::Fail(f) => {
            assert_eq!(503, f.status);
            // Status-only mode never reads the body, so nothing of it is kept.
            assert!(f.excerpt.is_empty());
        },
        _ => panic!("expected a classification failure"),
    }
}

#[test]
fn invalid_json_is_a_parse_failure_with_excerpt() {
    let body = b"{not valid json".to_vec();

    match parse_command(200, &body) {
        Outcome::Fail(f) => {
            assert_eq!(200, f.status);
            assert!(!f.excerpt.is_empty());
            assert_eq!(&body[..], &f.excerpt[..]);
        },
        _ => panic!("expected a parse failure"),
    }
}

#[test]
fn long_body_excerpt_is_bounded() {
    let mut body = vec![b'x'; 500];
    body[0] = b'{';

    match parse_command(200, &body) {
        Outcome::Fail(f) => {
            assert_eq!(200, f.status);
            assert_eq!(64, f.excerpt.len());
            assert_eq!(&body[..64], &f.excerpt[..]);
        },
        _ => panic!("expected a parse failure"),
    }
}

#[test]
fn embedded_error_string_takes_precedence_over_success_status() {
    let body = br#"{ "error": "simple string failure", "acknowledged": true }"#.to_vec();

    let err = match parse_command(200, &body) {
        Outcome::Api(e) => e,
        _ => panic!("expected a domain error"),
    };

    match err {
        ApiError::Unknown { kind, reason } => {
            assert!(kind.is_none());
            assert_eq!("simple string failure", reason);
        },
        _ => panic!("expected an unknown error"),
    }
}

#[test]
fn error_parse_index_not_found() {
    let body = br#"{ "error": { "type": "index_not_found_exception", "reason": "no such index", "index": "carrots" } }"#.to_vec();

    match parse_command(404, &body) {
        Outcome::Api(ApiError::IndexNotFound { index }) => assert_eq!("carrots", index),
        _ => panic!("expected index not found"),
    }
}

#[test]
fn error_parse_document_missing() {
    let body = br#"{ "error": { "type": "document_missing_exception", "reason": "[testtype][1]: document missing", "index": "testindex" } }"#.to_vec();

    match parse_index(404, &body) {
        Outcome::Api(ApiError::DocumentMissing { index }) => assert_eq!("testindex", index),
        _ => panic!("expected document missing"),
    }
}

#[test]
fn error_parse_version_conflict() {
    let body = br#"{ "error": { "type": "version_conflict_engine_exception", "reason": "[testtype][1]: version conflict" } }"#.to_vec();

    match parse_index(409, &body) {
        Outcome::Api(ApiError::VersionConflict { reason }) => {
            assert_eq!("[testtype][1]: version conflict", reason)
        },
        _ => panic!("expected version conflict"),
    }
}

#[test]
fn error_parse_mapper_parsing() {
    let body =
        br#"{ "error": { "type": "mapper_parsing_exception", "reason": "failed to parse" } }"#
            .to_vec();

    match parse_index(400, &body) {
        Outcome::Api(ApiError::MapperParsing { reason }) => {
            assert_eq!("failed to parse", reason)
        },
        _ => panic!("expected mapper parsing"),
    }
}

#[test]
fn error_parse_unrecognized_kind_is_unknown() {
    let body = br#"{ "error": { "type": "shiny_new_exception", "reason": "what is this" } }"#
        .to_vec();

    match parse_command(500, &body) {
        Outcome::Api(ApiError::Unknown { kind, reason }) => {
            assert_eq!(Some("shiny_new_exception".to_string()), kind);
            assert_eq!("what is this", reason);
        },
        _ => panic!("expected an unknown error"),
    }
}

#[test]
fn wrong_shape_under_success_status_is_a_parse_failure() {
    let body = br#"{ "unexpected": 1 }"#.to_vec();

    match parse_command(200, &body) {
        Outcome::Fail(f) => assert_eq!(200, f.status),
        _ => panic!("expected a parse failure"),
    }
}

#[test]
fn failure_status_without_error_envelope_is_a_parse_failure() {
    let body = acknowledged_body();

    match parse_command(500, &body) {
        Outcome::Fail(f) => assert_eq!(500, f.status),
        _ => panic!("expected a parse failure"),
    }
}
