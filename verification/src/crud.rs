//! The document workload: how the reconciler's operations and the
//! scheduler's batches become gateway requests for one configuration, and
//! how the replies become the events that the reconciler takes in.

use crate::arangodb::{
    collection_exists_outcome, collection_exists_request, collection_exists_url,
    create_collection_body, create_collection_outcome, create_collection_request,
    create_collection_result, create_collection_url, create_database_body,
    create_database_outcome, create_database_request, create_database_result,
    create_database_url, database_exists_outcome, database_exists_request, database_exists_url,
    drop_database_outcome, drop_database_request, drop_database_result, drop_database_url,
    HttpRequest, HttpRequestView, Method, PayloadView, Reply, ReplyView,
};
use crate::config::{CrudConfig, DatabaseConfig};
use crate::reconciler::{collection_name, Command, CommandView, Event, EventView, Reconciler, ReconcilerView};
use crate::scheduler::{
    insert_batch_request, is_insert_batch_request, Batch, LoadScheduler,
};
use crate::text::decimal_string;
use vstd::prelude::*;

verus! {

/// How many filler attributes each document of the workload has.
pub const NUM_ATTRIBUTES: u32 = 5;

/// The name of the workload's database: the prefix and the workload's tag.
pub open spec fn database_name(prefix: Seq<char>) -> Seq<char> {
    prefix + "crud"@
}

/// The name of the workload's database; see [`database_name`].
pub fn database_name_string(prefix: &str) -> (name: String)
    ensures
        name@ == database_name(prefix@),
{
    prefix.to_owned().concat("crud")
}

/// The name of the collection with this number: `c1`, `c2` and so on.
pub fn collection_name_string(number: u32) -> (name: String)
    ensures
        name@ == collection_name(number as nat),
{
    let digits = decimal_string(number);
    "c".to_owned().concat(digits.as_str())
}

/// The request that performs an operation of the reconciler through the
/// entry point `endpoint`. Populating is no single request, and the end of
/// the pass is none.
pub open spec fn request_for(
    endpoint: Seq<char>,
    prefix: Seq<char>,
    number_of_shards: u32,
    replication_factor: u32,
    command: CommandView,
) -> Option<HttpRequestView> {
    let db_name = database_name(prefix);
    match command {
        CommandView::CheckDatabase => Some(
            HttpRequestView {
                method: Method::Get,
                url: database_exists_url(endpoint, db_name),
                payload: PayloadView::Empty,
            },
        ),
        CommandView::CheckCollection(number) => Some(
            HttpRequestView {
                method: Method::Get,
                url: collection_exists_url(endpoint, db_name, collection_name(number as nat)),
                payload: PayloadView::Empty,
            },
        ),
        CommandView::DropDatabase => Some(
            HttpRequestView {
                method: Method::Delete,
                url: drop_database_url(endpoint, db_name),
                payload: PayloadView::Empty,
            },
        ),
        CommandView::CreateDatabase => Some(
            HttpRequestView {
                method: Method::Post,
                url: create_database_url(endpoint),
                payload: PayloadView::Object(create_database_body(db_name)),
            },
        ),
        CommandView::CreateCollection(number) => Some(
            HttpRequestView {
                method: Method::Post,
                url: create_collection_url(endpoint, db_name),
                payload: PayloadView::Object(
                    create_collection_body(
                        collection_name(number as nat),
                        number_of_shards,
                        replication_factor,
                    ),
                ),
            },
        ),
        CommandView::Populate(_) => None,
        CommandView::Finish(_) => None,
    }
}

/// The request that performs an operation of the reconciler, if the
/// operation is a single request. It goes to the first entry point.
pub fn command_request(db_config: &DatabaseConfig, crud_config: &CrudConfig, command: &Command) -> (
    request: Option<HttpRequest>
)
    requires
        db_config.well_formed(),
    ensures
        match request {
            Some(request) => Some(request@),
            None => None,
        } == request_for(
            db_config.endpoints@[0]@,
            db_config.prefix@,
            crud_config.number_of_shards,
            crud_config.replication_factor,
            command@,
        ),
{
    let db_name = database_name_string(db_config.prefix.as_str());
    match command {
        Command::CheckDatabase => Some(database_exists_request(db_config, db_name.as_str())),
        Command::CheckCollection(number) => {
            let name = collection_name_string(*number);
            Some(collection_exists_request(db_config, db_name.as_str(), name.as_str()))
        },
        Command::DropDatabase => Some(drop_database_request(db_config, db_name.as_str())),
        Command::CreateDatabase => Some(create_database_request(db_config, db_name.as_str())),
        Command::CreateCollection(number) => {
            let name = collection_name_string(*number);
            Some(
                create_collection_request(
                    db_config,
                    db_name.as_str(),
                    name.as_str(),
                    crud_config.number_of_shards,
                    crud_config.replication_factor,
                ),
            )
        },
        Command::Populate(_) => None,
        Command::Finish(_) => None,
    }
}

/// What a reply to the request of an operation tells the reconciler. A
/// probe is answered by whether the reply reports success; a creation or a
/// drop by its result. Populating and the end of the pass have no request,
/// and so no reply.
pub open spec fn event_for(prefix: Seq<char>, command: CommandView, reply: ReplyView) -> Option<
    EventView,
> {
    let db_name = database_name(prefix);
    match command {
        CommandView::CheckDatabase => Some(EventView::Exists(reply.succeeded())),
        CommandView::CheckCollection(_) => Some(EventView::Exists(reply.succeeded())),
        CommandView::DropDatabase => Some(EventView::Done(drop_database_result(db_name, reply))),
        CommandView::CreateDatabase => Some(
            EventView::Done(create_database_result(db_name, reply)),
        ),
        CommandView::CreateCollection(number) => Some(
            EventView::Done(create_collection_result(collection_name(number as nat), reply)),
        ),
        CommandView::Populate(_) => None,
        CommandView::Finish(_) => None,
    }
}

/// What a reply to the request of an operation tells the reconciler; see
/// [`event_for`].
pub fn command_event(db_config: &DatabaseConfig, command: &Command, reply: &Reply) -> (event: Option<
    Event,
>)
    ensures
        match event {
            Some(event) => Some(event@),
            None => None,
        } == event_for(db_config.prefix@, command@, reply@),
{
    let db_name = database_name_string(db_config.prefix.as_str());
    match command {
        Command::CheckDatabase => Some(Event::Exists(database_exists_outcome(reply))),
        Command::CheckCollection(_) => Some(Event::Exists(collection_exists_outcome(reply))),
        Command::DropDatabase => Some(Event::Done(drop_database_outcome(db_name.as_str(), reply))),
        Command::CreateDatabase => Some(
            Event::Done(create_database_outcome(db_name.as_str(), reply)),
        ),
        Command::CreateCollection(number) => {
            let name = collection_name_string(*number);
            Some(Event::Done(create_collection_outcome(name.as_str(), reply)))
        },
        Command::Populate(_) => None,
        Command::Finish(_) => None,
    }
}

/// The reconciler for this workload's topology.
pub fn reconciler(crud_config: &CrudConfig) -> (reconciler: Reconciler)
    ensures
        reconciler@ == (ReconcilerView {
            number_of_collections: crud_config.number_of_collections,
            drop_first: crud_config.drop_first,
            pending: CommandView::CheckDatabase,
        }),
{
    Reconciler::new(crud_config.number_of_collections, crud_config.drop_first)
}

/// The scheduler that populates one collection of this workload.
pub fn scheduler(crud_config: &CrudConfig) -> (scheduler: LoadScheduler)
    ensures
        scheduler.wf(),
        scheduler.document_count() == crud_config.number_of_documents,
        scheduler.concurrency_limit() == crud_config.insert_concurrency,
        scheduler.dispatched() == 0,
        scheduler.outcomes().len() == 0,
{
    LoadScheduler::new(crud_config.number_of_documents, crud_config.insert_concurrency)
}

/// The request that inserts one batch into the collection with this
/// number, through an entry point picked for this batch alone.
pub fn populate_request(
    db_config: &DatabaseConfig,
    crud_config: &CrudConfig,
    number: u32,
    batch: Batch,
) -> (request: HttpRequest)
    requires
        db_config.well_formed(),
    ensures
        exists|index: int|
            0 <= index < db_config.endpoints@.len() && is_insert_batch_request(
                request@,
                (#[trigger] db_config.endpoints@[index])@,
                database_name(db_config.prefix@),
                collection_name(number as nat),
                batch,
                crud_config.document_size,
                NUM_ATTRIBUTES,
            ),
{
    let db_name = database_name_string(db_config.prefix.as_str());
    let name = collection_name_string(number);
    insert_batch_request(
        &db_config.endpoints,
        db_name.as_str(),
        name.as_str(),
        batch,
        crud_config.document_size,
        NUM_ATTRIBUTES,
    )
}

} // verus!
