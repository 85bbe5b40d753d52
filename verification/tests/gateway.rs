use arango_load::arangodb::{
    collection_exists_outcome, collection_exists_request, create_collection_outcome,
    create_collection_request, create_database_outcome, create_database_request,
    database_exists_outcome, database_exists_request, drop_database_outcome,
    drop_database_request, flag_field, insert_documents_endpoint, insert_documents_outcome,
    insert_documents_request, integer_field, invalid_response_error, text_field, ArangoError,
    Document, Field, FieldValue, HttpRequest, HttpResponse, HttpStatus, Method, Payload, Reply,
};
use arango_load::config::DatabaseConfig;

fn config() -> DatabaseConfig {
    DatabaseConfig {
        endpoints: vec!["http://localhost:8529".to_string(), "http://other:8529".to_string()],
        username: "root".to_string(),
        password: "".to_string(),
        prefix: "test_".to_string(),
    }
}

fn response(code: u16, body: &str) -> Reply {
    Reply::Response(HttpResponse {
        status: HttpStatus::from_u16(code).unwrap(),
        body: body.to_string(),
    })
}

#[test]
fn status_accepts_three_digits_only() {
    assert!(HttpStatus::from_u16(99).is_none());
    assert!(HttpStatus::from_u16(1000).is_none());
    assert!(HttpStatus::from_u16(0).is_none());
    assert_eq!(HttpStatus::from_u16(100).unwrap().as_u16(), 100);
    assert_eq!(HttpStatus::from_u16(999).unwrap().as_u16(), 999);
    assert_eq!(HttpStatus::from_u16(404).unwrap().as_u16(), 404);
}

#[test]
fn status_success_is_the_two_hundreds() {
    assert!(!HttpStatus::from_u16(199).unwrap().is_success());
    assert!(HttpStatus::from_u16(200).unwrap().is_success());
    assert!(HttpStatus::from_u16(201).unwrap().is_success());
    assert!(HttpStatus::from_u16(299).unwrap().is_success());
    assert!(!HttpStatus::from_u16(300).unwrap().is_success());
    assert!(!HttpStatus::from_u16(404).unwrap().is_success());
}

#[test]
fn status_display_has_code_and_reason() {
    assert_eq!(HttpStatus::from_u16(200).unwrap().display(), "200 OK");
    assert_eq!(HttpStatus::from_u16(404).unwrap().display(), "404 Not Found");
    assert_eq!(HttpStatus::from_u16(409).unwrap().display(), "409 Conflict");
    assert_eq!(HttpStatus::from_u16(500).unwrap().display(), "500 Internal Server Error");
    assert_eq!(HttpStatus::from_u16(999).unwrap().display(), "999 <unknown status code>");
}

#[test]
fn error_messages() {
    assert_eq!(
        ArangoError::DatabaseExists("db".to_string()).message(),
        "Database already exists: db"
    );
    assert_eq!(
        ArangoError::DatabaseNotFound("db".to_string()).message(),
        "Database does not exist: db"
    );
    assert_eq!(
        ArangoError::CollectionExists("c1".to_string()).message(),
        "Collection already exists: c1"
    );
    assert_eq!(
        ArangoError::RequestError("connection refused".to_string()).message(),
        "HTTP request failed: connection refused"
    );
    assert_eq!(
        ArangoError::InvalidResponse("what".to_string()).message(),
        "Invalid response: what"
    );
}

#[test]
fn error_clone_is_equal() {
    let errors = vec![
        ArangoError::DatabaseExists("a".to_string()),
        ArangoError::DatabaseNotFound("b".to_string()),
        ArangoError::CollectionExists("c".to_string()),
        ArangoError::RequestError("d".to_string()),
        ArangoError::InvalidResponse("e".to_string()),
    ];
    for error in errors.iter() {
        assert_eq!(&error.clone(), error);
    }
}

#[test]
fn invalid_response_error_text() {
    assert_eq!(
        invalid_response_error("Failed to create database", "500 Internal Server Error", "boom"),
        ArangoError::InvalidResponse(
            "Failed to create database: 500 Internal Server Error - boom".to_string()
        )
    );
    assert_eq!(
        invalid_response_error("", "", ""),
        ArangoError::InvalidResponse(":  - ".to_string())
    );
}

#[test]
fn field_builders() {
    assert_eq!(
        text_field("name", "x"),
        Field { name: "name".to_string(), value: FieldValue::Text("x".to_string()) }
    );
    assert_eq!(
        integer_field("n", -7),
        Field { name: "n".to_string(), value: FieldValue::Integer(-7) }
    );
    assert_eq!(
        flag_field("b", true),
        Field { name: "b".to_string(), value: FieldValue::Flag(true) }
    );
}

#[test]
fn database_exists_request_shape() {
    let request = database_exists_request(&config(), "mydb");
    assert_eq!(
        request,
        HttpRequest {
            method: Method::Get,
            url: "http://localhost:8529/_db/mydb/_api/database/current".to_string(),
            payload: Payload::Empty,
        }
    );
}

#[test]
fn collection_exists_request_shape() {
    let request = collection_exists_request(&config(), "mydb", "c7");
    assert_eq!(
        request,
        HttpRequest {
            method: Method::Get,
            url: "http://localhost:8529/_db/mydb/_api/collection/c7".to_string(),
            payload: Payload::Empty,
        }
    );
}

#[test]
fn create_database_request_shape() {
    let request = create_database_request(&config(), "mydb");
    assert_eq!(
        request,
        HttpRequest {
            method: Method::Post,
            url: "http://localhost:8529/_api/database".to_string(),
            payload: Payload::Object(Document { fields: vec![text_field("name", "mydb")] }),
        }
    );
}

#[test]
fn drop_database_request_shape() {
    let request = drop_database_request(&config(), "mydb");
    assert_eq!(
        request,
        HttpRequest {
            method: Method::Delete,
            url: "http://localhost:8529/_api/database/mydb".to_string(),
            payload: Payload::Empty,
        }
    );
}

#[test]
fn create_collection_request_shape() {
    let request = create_collection_request(&config(), "mydb", "c1", 3, 2);
    assert_eq!(
        request,
        HttpRequest {
            method: Method::Post,
            url: "http://localhost:8529/_db/mydb/_api/collection".to_string(),
            payload: Payload::Object(Document {
                fields: vec![
                    text_field("name", "c1"),
                    integer_field("numberOfShards", 3),
                    integer_field("replicationFactor", 2),
                ]
            }),
        }
    );
}

#[test]
fn create_collection_request_takes_largest_counts() {
    let request = create_collection_request(&config(), "d", "c", u32::MAX, 0);
    match request.payload {
        Payload::Object(body) => {
            assert_eq!(body.fields[1], integer_field("numberOfShards", 4294967295));
            assert_eq!(body.fields[2], integer_field("replicationFactor", 0));
        }
        _ => panic!("the body is an object"),
    }
}

#[test]
fn insert_documents_request_shape() {
    let url = insert_documents_endpoint("http://other:8529", "mydb", "c2");
    assert_eq!(url, "http://other:8529/_db/mydb/_api/document/c2");
    let documents = vec![
        Document { fields: vec![text_field("_key", "K1")] },
        Document { fields: vec![text_field("_key", "K2")] },
    ];
    let request = insert_documents_request(url.clone(), documents.clone());
    assert_eq!(
        request,
        HttpRequest { method: Method::Post, url, payload: Payload::Array(documents) }
    );
}

#[test]
fn existence_is_success_status_only() {
    assert!(database_exists_outcome(&response(200, "")));
    assert!(database_exists_outcome(&response(204, "")));
    assert!(!database_exists_outcome(&response(404, "not found")));
    assert!(!database_exists_outcome(&response(500, "broken")));
    assert!(!database_exists_outcome(&response(301, "")));
    assert!(!database_exists_outcome(&Reply::Failure("no route".to_string())));
    assert!(collection_exists_outcome(&response(200, "")));
    assert!(!collection_exists_outcome(&response(404, "")));
    assert!(!collection_exists_outcome(&response(503, "")));
    assert!(!collection_exists_outcome(&Reply::Failure("timeout".to_string())));
}

#[test]
fn create_database_outcomes() {
    assert_eq!(create_database_outcome("db", &response(201, "")), Ok(()));
    assert_eq!(create_database_outcome("db", &response(200, "duplicate")), Ok(()));
    assert_eq!(
        create_database_outcome("db", &response(409, "{\"errorMessage\":\"duplicate name\"}")),
        Err(ArangoError::DatabaseExists("db".to_string()))
    );
    assert_eq!(
        create_database_outcome("db", &response(409, "conflict of another kind")),
        Err(ArangoError::InvalidResponse(
            "Failed to create database: 409 Conflict - conflict of another kind".to_string()
        ))
    );
    assert_eq!(
        create_database_outcome("db", &response(400, "duplicate")),
        Err(ArangoError::InvalidResponse(
            "Failed to create database: 400 Bad Request - duplicate".to_string()
        ))
    );
    assert_eq!(
        create_database_outcome("db", &Reply::Failure("connection refused".to_string())),
        Err(ArangoError::RequestError("connection refused".to_string()))
    );
}

#[test]
fn drop_database_outcomes() {
    assert_eq!(drop_database_outcome("db", &response(200, "")), Ok(()));
    assert_eq!(
        drop_database_outcome("db", &response(404, "whatever")),
        Err(ArangoError::DatabaseNotFound("db".to_string()))
    );
    assert_eq!(
        drop_database_outcome("db", &response(403, "forbidden")),
        Err(ArangoError::InvalidResponse(
            "Failed to delete database: 403 Forbidden - forbidden".to_string()
        ))
    );
    assert_eq!(
        drop_database_outcome("db", &Reply::Failure("reset".to_string())),
        Err(ArangoError::RequestError("reset".to_string()))
    );
}

#[test]
fn create_collection_outcomes() {
    assert_eq!(create_collection_outcome("c1", &response(200, "")), Ok(()));
    assert_eq!(
        create_collection_outcome("c1", &response(409, "duplicate")),
        Err(ArangoError::CollectionExists("c1".to_string()))
    );
    assert_eq!(
        create_collection_outcome("c1", &response(409, "Duplicate")),
        Err(ArangoError::InvalidResponse(
            "Failed to create collection: 409 Conflict - Duplicate".to_string()
        ))
    );
    assert_eq!(
        create_collection_outcome("c1", &response(404, "database not found")),
        Err(ArangoError::InvalidResponse(
            "Failed to create collection: 404 Not Found - database not found".to_string()
        ))
    );
    assert_eq!(
        create_collection_outcome("c1", &Reply::Failure("dns".to_string())),
        Err(ArangoError::RequestError("dns".to_string()))
    );
}

#[test]
fn insert_documents_outcomes() {
    assert_eq!(insert_documents_outcome(&response(202, "[]")), Ok(()));
    assert_eq!(
        insert_documents_outcome(&response(500, "out of memory")),
        Err(ArangoError::InvalidResponse(
            "Failed to insert documents: 500 Internal Server Error - out of memory".to_string()
        ))
    );
    assert_eq!(
        insert_documents_outcome(&response(409, "duplicate")),
        Err(ArangoError::InvalidResponse(
            "Failed to insert documents: 409 Conflict - duplicate".to_string()
        ))
    );
    assert_eq!(
        insert_documents_outcome(&Reply::Failure("broken pipe".to_string())),
        Err(ArangoError::RequestError("broken pipe".to_string()))
    );
}

#[test]
fn duplicate_marker_is_found_anywhere_in_the_body() {
    for body in ["duplicate", "xduplicate", "duplicatex", "a duplicate b", "dupduplicate"] {
        assert_eq!(
            create_database_outcome("db", &response(409, body)),
            Err(ArangoError::DatabaseExists("db".to_string()))
        );
    }
    for body in ["", "duplicat", "uplicate", "dup licate", "DUPLICATE", "d\u{fc}plicate"] {
        assert!(matches!(
            create_database_outcome("db", &response(409, body)),
            Err(ArangoError::InvalidResponse(_))
        ));
    }
    assert_eq!(
        create_database_outcome("db", &response(409, "\u{e9}\u{4e16} duplicate \u{1f600}")),
        Err(ArangoError::DatabaseExists("db".to_string()))
    );
}
