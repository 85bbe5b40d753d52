//! The cluster gateway's wire protocol: which request asks for each
//! operation, and what each reply means.
//!
//! Sending is left to the driver. It hands back a [`Reply`]: the status and
//! body of the HTTP response, or the transport's account of why there was
//! none.

use crate::config::DatabaseConfig;
use crate::text::{contains, occurs_in};
use vstd::prelude::*;

verus! {

/// Why a gateway operation failed.
#[derive(Debug, PartialEq, Eq)]
pub enum ArangoError {
    /// The database to create is already there; holds its name.
    DatabaseExists(String),
    /// The database to drop is not there; holds its name.
    DatabaseNotFound(String),
    /// The collection to create is already there; holds its name.
    CollectionExists(String),
    /// No HTTP response came back; holds the transport's description.
    RequestError(String),
    /// The response had a status that the operation does not expect; holds
    /// what was attempted, the status and the body.
    InvalidResponse(String),
}

pub enum ArangoErrorView {
    DatabaseExists(Seq<char>),
    DatabaseNotFound(Seq<char>),
    CollectionExists(Seq<char>),
    RequestError(Seq<char>),
    InvalidResponse(Seq<char>),
}

impl View for ArangoError {
    type V = ArangoErrorView;

    open spec fn view(&self) -> ArangoErrorView {
        match self {
            ArangoError::DatabaseExists(name) => ArangoErrorView::DatabaseExists(name@),
            ArangoError::DatabaseNotFound(name) => ArangoErrorView::DatabaseNotFound(name@),
            ArangoError::CollectionExists(name) => ArangoErrorView::CollectionExists(name@),
            ArangoError::RequestError(cause) => ArangoErrorView::RequestError(cause@),
            ArangoError::InvalidResponse(detail) => ArangoErrorView::InvalidResponse(detail@),
        }
    }
}

impl ArangoErrorView {
    /// The line a user reads for this error.
    pub open spec fn message(self) -> Seq<char> {
        match self {
            ArangoErrorView::DatabaseExists(name) => "Database already exists: "@ + name,
            ArangoErrorView::DatabaseNotFound(name) => "Database does not exist: "@ + name,
            ArangoErrorView::CollectionExists(name) => "Collection already exists: "@ + name,
            ArangoErrorView::RequestError(cause) => "HTTP request failed: "@ + cause,
            ArangoErrorView::InvalidResponse(detail) => "Invalid response: "@ + detail,
        }
    }
}

impl Clone for ArangoError {
    fn clone(&self) -> (copy: Self)
        ensures
            copy@ == self@,
    {
        match self {
            ArangoError::DatabaseExists(name) => ArangoError::DatabaseExists(name.clone()),
            ArangoError::DatabaseNotFound(name) => ArangoError::DatabaseNotFound(name.clone()),
            ArangoError::CollectionExists(name) => ArangoError::CollectionExists(name.clone()),
            ArangoError::RequestError(cause) => ArangoError::RequestError(cause.clone()),
            ArangoError::InvalidResponse(detail) => ArangoError::InvalidResponse(detail.clone()),
        }
    }
}

impl ArangoError {
    /// The line a user reads for this error.
    pub fn message(&self) -> (line: String)
        ensures
            line@ == self@.message(),
    {
        match self {
            ArangoError::DatabaseExists(name) => "Database already exists: ".to_owned().concat(
                name.as_str(),
            ),
            ArangoError::DatabaseNotFound(name) => "Database does not exist: ".to_owned().concat(
                name.as_str(),
            ),
            ArangoError::CollectionExists(name) => "Collection already exists: ".to_owned().concat(
                name.as_str(),
            ),
            ArangoError::RequestError(cause) => "HTTP request failed: ".to_owned().concat(
                cause.as_str(),
            ),
            ArangoError::InvalidResponse(detail) => "Invalid response: ".to_owned().concat(
                detail.as_str(),
            ),
        }
    }
}

/// What an operation without a result value came to, by view.
pub open spec fn outcome_view(outcome: Result<(), ArangoError>) -> Result<(), ArangoErrorView> {
    match outcome {
        Ok(_) => Ok(()),
        Err(error) => Err(error@),
    }
}

/// An HTTP status code: a number of three digits.
#[derive(Debug, Clone, Copy, PartialEq, Eq)]
pub struct HttpStatus {
    code: u16,
}

impl View for HttpStatus {
    type V = u16;

    closed spec fn view(&self) -> u16 {
        self.code
    }
}

/// The status codes that report success.
pub open spec fn is_success_code(code: u16) -> bool {
    200 <= code < 300
}

/// What `reqwest::StatusCode` displays for the status with this code. It
/// depends on the code alone.
pub uninterp spec fn status_line(code: u16) -> Seq<char>;

/// Calls `reqwest::StatusCode::from_u16` and then the `Display` of the
/// status: the text is `None` exactly when the code is outside 100..=999,
/// where `from_u16` refuses it; else it is the displayed status, which has
/// the name [`status_line`] here.
#[verifier::external_body]
fn status_display(code: u16) -> (text: Option<String>)
    ensures
        text is Some <==> 100 <= code <= 999,
        text matches Some(line) ==> line@ == status_line(code),
{
    match reqwest::StatusCode::from_u16(code) {
        Ok(status) => Some(status.to_string()),
        Err(_) => None,
    }
}

impl HttpStatus {
    #[verifier::type_invariant]
    spec fn three_digits(self) -> bool {
        100 <= self.code <= 999
    }

    /// The status with this code, if the code has three digits.
    pub fn from_u16(code: u16) -> (status: Option<HttpStatus>)
        ensures
            status is Some <==> 100 <= code <= 999,
            status matches Some(s) ==> s@ == code,
    {
        if 100 <= code && code <= 999 {
            Some(HttpStatus { code })
        } else {
            None
        }
    }

    pub fn as_u16(&self) -> (code: u16)
        ensures
            code == self@,
            100 <= code <= 999,
    {
        proof {
            use_type_invariant(self);
        }
        self.code
    }

    /// Whether the status reports success: a code from 200 to 299.
    pub fn is_success(&self) -> (ok: bool)
        ensures
            ok == is_success_code(self@),
    {
        200 <= self.code && self.code < 300
    }

    /// The status as it is displayed: the code and its reason phrase.
    pub fn display(&self) -> (line: String)
        ensures
            line@ == status_line(self@),
    {
        proof {
            use_type_invariant(self);
        }
        match status_display(self.code) {
            Some(line) => line,
            // Not reached: a status has three digits.
            None => String::new(),
        }
    }
}

/// The HTTP methods that the gateway uses.
#[derive(Debug, Clone, Copy, PartialEq, Eq, Structural)]
pub enum Method {
    Get,
    Post,
    Delete,
}

/// A scalar of a JSON object.
#[derive(Debug, Clone, PartialEq, Eq)]
pub enum FieldValue {
    Text(String),
    Integer(i64),
    Flag(bool),
}

pub enum FieldValueView {
    Text(Seq<char>),
    Integer(int),
    Flag(bool),
}

impl View for FieldValue {
    type V = FieldValueView;

    open spec fn view(&self) -> FieldValueView {
        match self {
            FieldValue::Text(text) => FieldValueView::Text(text@),
            FieldValue::Integer(number) => FieldValueView::Integer(*number as int),
            FieldValue::Flag(flag) => FieldValueView::Flag(*flag),
        }
    }
}

/// One member of a JSON object.
#[derive(Debug, Clone, PartialEq, Eq)]
pub struct Field {
    pub name: String,
    pub value: FieldValue,
}

pub struct FieldView {
    pub name: Seq<char>,
    pub value: FieldValueView,
}

impl View for Field {
    type V = FieldView;

    open spec fn view(&self) -> FieldView {
        FieldView { name: self.name@, value: self.value@ }
    }
}

/// A flat JSON object: named scalars, in the order in which they are written.
#[derive(Debug, Clone, PartialEq, Eq)]
pub struct Document {
    pub fields: Vec<Field>,
}

impl View for Document {
    type V = Seq<FieldView>;

    open spec fn view(&self) -> Seq<FieldView> {
        Seq::new(self.fields@.len(), |i: int| self.fields@[i]@)
    }
}

/// The views of a run of documents.
pub open spec fn documents_view(documents: Seq<Document>) -> Seq<Seq<FieldView>> {
    Seq::new(documents.len(), |i: int| documents[i]@)
}

/// What a request carries as its JSON body.
#[derive(Debug, Clone, PartialEq, Eq)]
pub enum Payload {
    Empty,
    Object(Document),
    Array(Vec<Document>),
}

pub enum PayloadView {
    Empty,
    Object(Seq<FieldView>),
    Array(Seq<Seq<FieldView>>),
}

impl View for Payload {
    type V = PayloadView;

    open spec fn view(&self) -> PayloadView {
        match self {
            Payload::Empty => PayloadView::Empty,
            Payload::Object(document) => PayloadView::Object(document@),
            Payload::Array(documents) => PayloadView::Array(documents_view(documents@)),
        }
    }
}

/// A request for the driver to send.
#[derive(Debug, Clone, PartialEq, Eq)]
pub struct HttpRequest {
    pub method: Method,
    pub url: String,
    pub payload: Payload,
}

pub struct HttpRequestView {
    pub method: Method,
    pub url: Seq<char>,
    pub payload: PayloadView,
}

impl View for HttpRequest {
    type V = HttpRequestView;

    open spec fn view(&self) -> HttpRequestView {
        HttpRequestView { method: self.method, url: self.url@, payload: self.payload@ }
    }
}

/// Status and body of an HTTP response.
#[derive(Debug, Clone, PartialEq, Eq)]
pub struct HttpResponse {
    pub status: HttpStatus,
    pub body: String,
}

/// What came back for a request: a response, whatever its status, or the
/// transport's description of why none came.
#[derive(Debug, Clone, PartialEq, Eq)]
pub enum Reply {
    Response(HttpResponse),
    Failure(String),
}

pub enum ReplyView {
    Response { status: u16, body: Seq<char> },
    Failure(Seq<char>),
}

impl View for Reply {
    type V = ReplyView;

    open spec fn view(&self) -> ReplyView {
        match self {
            Reply::Response(response) => ReplyView::Response {
                status: response.status@,
                body: response.body@,
            },
            Reply::Failure(cause) => ReplyView::Failure(cause@),
        }
    }
}

impl ReplyView {
    /// A response arrived and its status reports success.
    pub open spec fn succeeded(self) -> bool {
        self matches ReplyView::Response { status, .. } && is_success_code(status)
    }
}

/// The error for a response whose status the operation does not expect.
pub open spec fn invalid_response(
    attempt: Seq<char>,
    status_line: Seq<char>,
    body: Seq<char>,
) -> ArangoErrorView {
    ArangoErrorView::InvalidResponse(attempt + ": "@ + status_line + " - "@ + body)
}

/// Builds the error for a response whose status the operation does not
/// expect, from what was attempted, the displayed status and the body.
pub fn invalid_response_error(attempt: &str, status_line: &str, body: &str) -> (error: ArangoError)
    ensures
        error@ == invalid_response(attempt@, status_line@, body@),
{
    let mut detail = attempt.to_owned();
    detail.append(": ");
    detail.append(status_line);
    detail.append(" - ");
    detail.append(body);
    ArangoError::InvalidResponse(detail)
}

fn unexpected_status(attempt: &str, response: &HttpResponse) -> (error: ArangoError)
    ensures
        error@ == invalid_response(attempt@, status_line(response.status@), response.body@),
{
    let line = response.status.display();
    invalid_response_error(attempt, line.as_str(), response.body.as_str())
}

/// The member `name: text` of a JSON object.
pub fn text_field(name: &str, text: &str) -> (field: Field)
    ensures
        field@ == (FieldView { name: name@, value: FieldValueView::Text(text@) }),
{
    Field { name: name.to_owned(), value: FieldValue::Text(text.to_owned()) }
}

/// The member `name: number` of a JSON object.
pub fn integer_field(name: &str, number: i64) -> (field: Field)
    ensures
        field@ == (FieldView { name: name@, value: FieldValueView::Integer(number as int) }),
{
    Field { name: name.to_owned(), value: FieldValue::Integer(number) }
}

/// The member `name: flag` of a JSON object.
pub fn flag_field(name: &str, flag: bool) -> (field: Field)
    ensures
        field@ == (FieldView { name: name@, value: FieldValueView::Flag(flag) }),
{
    Field { name: name.to_owned(), value: FieldValue::Flag(flag) }
}

// ---------------------------------------------------------------------
// Database existence

pub open spec fn database_exists_url(endpoint: Seq<char>, db_name: Seq<char>) -> Seq<char> {
    endpoint + "/_db/"@ + db_name + "/_api/database/current"@
}

/// The request that probes whether a database exists.
pub fn database_exists_request(config: &DatabaseConfig, db_name: &str) -> (request: HttpRequest)
    requires
        config.well_formed(),
    ensures
        request@ == (HttpRequestView {
            method: Method::Get,
            url: database_exists_url(config.endpoints@[0]@, db_name@),
            payload: PayloadView::Empty,
        }),
{
    let mut url = config.endpoints[0].clone();
    url.append("/_db/");
    url.append(db_name);
    url.append("/_api/database/current");
    HttpRequest { method: Method::Get, url, payload: Payload::Empty }
}

/// What the probe of a database showed: it exists exactly when a response
/// came back with a success status. Every other status, and a request that
/// got no response, counts as absence.
pub fn database_exists_outcome(reply: &Reply) -> (exists: bool)
    ensures
        exists == reply@.succeeded(),
{
    match reply {
        Reply::Response(response) => response.status.is_success(),
        Reply::Failure(_) => false,
    }
}

// ---------------------------------------------------------------------
// Collection existence

pub open spec fn collection_exists_url(
    endpoint: Seq<char>,
    db_name: Seq<char>,
    collection_name: Seq<char>,
) -> Seq<char> {
    endpoint + "/_db/"@ + db_name + "/_api/collection/"@ + collection_name
}

/// The request that probes whether a collection exists in a database.
pub fn collection_exists_request(
    config: &DatabaseConfig,
    db_name: &str,
    collection_name: &str,
) -> (request: HttpRequest)
    requires
        config.well_formed(),
    ensures
        request@ == (HttpRequestView {
            method: Method::Get,
            url: collection_exists_url(config.endpoints@[0]@, db_name@, collection_name@),
            payload: PayloadView::Empty,
        }),
{
    let mut url = config.endpoints[0].clone();
    url.append("/_db/");
    url.append(db_name);
    url.append("/_api/collection/");
    url.append(collection_name);
    HttpRequest { method: Method::Get, url, payload: Payload::Empty }
}

/// What the probe of a collection showed, by the rule of
/// [`database_exists_outcome`].
pub fn collection_exists_outcome(reply: &Reply) -> (exists: bool)
    ensures
        exists == reply@.succeeded(),
{
    match reply {
        Reply::Response(response) => response.status.is_success(),
        Reply::Failure(_) => false,
    }
}

// ---------------------------------------------------------------------
// Database creation

pub open spec fn create_database_url(endpoint: Seq<char>) -> Seq<char> {
    endpoint + "/_api/database"@
}

pub open spec fn create_database_body(db_name: Seq<char>) -> Seq<FieldView> {
    seq![FieldView { name: "name"@, value: FieldValueView::Text(db_name) }]
}

/// The request that creates a database.
pub fn create_database_request(config: &DatabaseConfig, db_name: &str) -> (request: HttpRequest)
    requires
        config.well_formed(),
    ensures
        request@ == (HttpRequestView {
            method: Method::Post,
            url: create_database_url(config.endpoints@[0]@),
            payload: PayloadView::Object(create_database_body(db_name@)),
        }),
{
    let mut url = config.endpoints[0].clone();
    url.append("/_api/database");
    let mut fields: Vec<Field> = Vec::new();
    fields.push(text_field("name", db_name));
    let body = Document { fields };
    assert(body@ =~= create_database_body(db_name@));
    HttpRequest { method: Method::Post, url, payload: Payload::Object(body) }
}

/// The status with which the cluster refuses to create what is there already.
pub open spec fn is_duplicate(status: u16, body: Seq<char>) -> bool {
    status == 409 && occurs_in(body, "duplicate"@)
}

pub open spec fn create_database_result(db_name: Seq<char>, reply: ReplyView) -> Result<
    (),
    ArangoErrorView,
> {
    match reply {
        ReplyView::Failure(cause) => Err(ArangoErrorView::RequestError(cause)),
        ReplyView::Response { status, body } => if is_success_code(status) {
            Ok(())
        } else if is_duplicate(status, body) {
            Err(ArangoErrorView::DatabaseExists(db_name))
        } else {
            Err(invalid_response("Failed to create database"@, status_line(status), body))
        },
    }
}

/// What creating a database came to.
pub fn create_database_outcome(db_name: &str, reply: &Reply) -> (outcome: Result<(), ArangoError>)
    ensures
        outcome_view(outcome) == create_database_result(db_name@, reply@),
{
    match reply {
        Reply::Failure(cause) => Err(ArangoError::RequestError(cause.clone())),
        Reply::Response(response) => {
            if response.status.is_success() {
                Ok(())
            } else if response.status.as_u16() == 409 && contains(
                response.body.as_str(),
                "duplicate",
            ) {
                Err(ArangoError::DatabaseExists(db_name.to_owned()))
            } else {
                Err(unexpected_status("Failed to create database", response))
            }
        },
    }
}

// ---------------------------------------------------------------------
// Database removal

pub open spec fn drop_database_url(endpoint: Seq<char>, db_name: Seq<char>) -> Seq<char> {
    endpoint + "/_api/database/"@ + db_name
}

/// The request that drops a database.
pub fn drop_database_request(config: &DatabaseConfig, db_name: &str) -> (request: HttpRequest)
    requires
        config.well_formed(),
    ensures
        request@ == (HttpRequestView {
            method: Method::Delete,
            url: drop_database_url(config.endpoints@[0]@, db_name@),
            payload: PayloadView::Empty,
        }),
{
    let mut url = config.endpoints[0].clone();
    url.append("/_api/database/");
    url.append(db_name);
    HttpRequest { method: Method::Delete, url, payload: Payload::Empty }
}

pub open spec fn drop_database_result(db_name: Seq<char>, reply: ReplyView) -> Result<
    (),
    ArangoErrorView,
> {
    match reply {
        ReplyView::Failure(cause) => Err(ArangoErrorView::RequestError(cause)),
        ReplyView::Response { status, body } => if is_success_code(status) {
            Ok(())
        } else if status == 404 {
            Err(ArangoErrorView::DatabaseNotFound(db_name))
        } else {
            Err(invalid_response("Failed to delete database"@, status_line(status), body))
        },
    }
}

/// What dropping a database came to.
pub fn drop_database_outcome(db_name: &str, reply: &Reply) -> (outcome: Result<(), ArangoError>)
    ensures
        outcome_view(outcome) == drop_database_result(db_name@, reply@),
{
    match reply {
        Reply::Failure(cause) => Err(ArangoError::RequestError(cause.clone())),
        Reply::Response(response) => {
            if response.status.is_success() {
                Ok(())
            } else if response.status.as_u16() == 404 {
                Err(ArangoError::DatabaseNotFound(db_name.to_owned()))
            } else {
                Err(unexpected_status("Failed to delete database", response))
            }
        },
    }
}

// ---------------------------------------------------------------------
// Collection creation

pub open spec fn create_collection_url(endpoint: Seq<char>, db_name: Seq<char>) -> Seq<char> {
    endpoint + "/_db/"@ + db_name + "/_api/collection"@
}

pub open spec fn create_collection_body(
    collection_name: Seq<char>,
    number_of_shards: u32,
    replication_factor: u32,
) -> Seq<FieldView> {
    seq![
        FieldView { name: "name"@, value: FieldValueView::Text(collection_name) },
        FieldView {
            name: "numberOfShards"@,
            value: FieldValueView::Integer(number_of_shards as int),
        },
        FieldView {
            name: "replicationFactor"@,
            value: FieldValueView::Integer(replication_factor as int),
        },
    ]
}

/// The request that creates a collection in a database.
pub fn create_collection_request(
    config: &DatabaseConfig,
    db_name: &str,
    collection_name: &str,
    number_of_shards: u32,
    replication_factor: u32,
) -> (request: HttpRequest)
    requires
        config.well_formed(),
    ensures
        request@ == (HttpRequestView {
            method: Method::Post,
            url: create_collection_url(config.endpoints@[0]@, db_name@),
            payload: PayloadView::Object(
                create_collection_body(collection_name@, number_of_shards, replication_factor),
            ),
        }),
{
    let mut url = config.endpoints[0].clone();
    url.append("/_db/");
    url.append(db_name);
    url.append("/_api/collection");
    let mut fields: Vec<Field> = Vec::new();
    fields.push(text_field("name", collection_name));
    fields.push(integer_field("numberOfShards", number_of_shards as i64));
    fields.push(integer_field("replicationFactor", replication_factor as i64));
    let body = Document { fields };
    assert(body@ =~= create_collection_body(
        collection_name@,
        number_of_shards,
        replication_factor,
    ));
    HttpRequest { method: Method::Post, url, payload: Payload::Object(body) }
}

pub open spec fn create_collection_result(collection_name: Seq<char>, reply: ReplyView) -> Result<
    (),
    ArangoErrorView,
> {
    match reply {
        ReplyView::Failure(cause) => Err(ArangoErrorView::RequestError(cause)),
        ReplyView::Response { status, body } => if is_success_code(status) {
            Ok(())
        } else if is_duplicate(status, body) {
            Err(ArangoErrorView::CollectionExists(collection_name))
        } else {
            Err(invalid_response("Failed to create collection"@, status_line(status), body))
        },
    }
}

/// What creating a collection came to.
pub fn create_collection_outcome(collection_name: &str, reply: &Reply) -> (outcome: Result<
    (),
    ArangoError,
>)
    ensures
        outcome_view(outcome) == create_collection_result(collection_name@, reply@),
{
    match reply {
        Reply::Failure(cause) => Err(ArangoError::RequestError(cause.clone())),
        Reply::Response(response) => {
            if response.status.is_success() {
                Ok(())
            } else if response.status.as_u16() == 409 && contains(
                response.body.as_str(),
                "duplicate",
            ) {
                Err(ArangoError::CollectionExists(collection_name.to_owned()))
            } else {
                Err(unexpected_status("Failed to create collection", response))
            }
        },
    }
}

// ---------------------------------------------------------------------
// Batch insertion

pub open spec fn insert_documents_url(
    endpoint: Seq<char>,
    db_name: Seq<char>,
    collection_name: Seq<char>,
) -> Seq<char> {
    endpoint + "/_db/"@ + db_name + "/_api/document/"@ + collection_name
}

/// The address at which one entry point takes documents for a collection.
pub fn insert_documents_endpoint(endpoint: &str, db_name: &str, collection_name: &str) -> (url:
    String)
    ensures
        url@ == insert_documents_url(endpoint@, db_name@, collection_name@),
{
    let mut url = endpoint.to_owned();
    url.append("/_db/");
    url.append(db_name);
    url.append("/_api/document/");
    url.append(collection_name);
    url
}

/// The request that inserts one batch of documents, all in one body, at the
/// given address.
pub fn insert_documents_request(url: String, documents: Vec<Document>) -> (request: HttpRequest)
    ensures
        request@ == (HttpRequestView {
            method: Method::Post,
            url: url@,
            payload: PayloadView::Array(documents_view(documents@)),
        }),
{
    HttpRequest { method: Method::Post, url, payload: Payload::Array(documents) }
}

pub open spec fn insert_documents_result(reply: ReplyView) -> Result<(), ArangoErrorView> {
    match reply {
        ReplyView::Failure(cause) => Err(ArangoErrorView::RequestError(cause)),
        ReplyView::Response { status, body } => if is_success_code(status) {
            Ok(())
        } else {
            Err(invalid_response("Failed to insert documents"@, status_line(status), body))
        },
    }
}

/// What inserting a batch came to: the batch succeeds or fails as a whole.
pub fn insert_documents_outcome(reply: &Reply) -> (outcome: Result<(), ArangoError>)
    ensures
        outcome_view(outcome) == insert_documents_result(reply@),
{
    match reply {
        Reply::Failure(cause) => Err(ArangoError::RequestError(cause.clone())),
        Reply::Response(response) => {
            if response.status.is_success() {
                Ok(())
            } else {
                Err(unexpected_status("Failed to insert documents", response))
            }
        },
    }
}

} // verus!
