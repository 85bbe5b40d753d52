//! The load scheduler: the sequence range of a collection cut into batches,
//! and the rule by which batches are handed out under a concurrency limit
//! and their results collected.
//!
//! The scheduler performs nothing itself. It tells its driver what to do
//! next ([`SchedulerAction`]), and the driver reports each batch that has
//! finished. Nothing is cancelled: after a failure the remaining batches are
//! still handed out and awaited, and only then is the failure reported.

use crate::arangodb::{
    documents_view, insert_documents_endpoint, insert_documents_request, insert_documents_url,
    outcome_view, ArangoError, ArangoErrorView, Document, FieldView, HttpRequest, HttpRequestView,
    Method, PayloadView,
};
use crate::synthesizer::{generate_document, is_synthetic_document};
use rand::Rng;
use vstd::prelude::*;

verus! {

/// The most documents that one batch carries.
pub const BATCH_SIZE: u32 = 1000;

/// A run of consecutive sequence indices, both ends included.
#[derive(Debug, Clone, Copy, PartialEq, Eq, Structural)]
pub struct Batch {
    pub start: u32,
    pub end: u32,
}

impl Batch {
    /// How many indices the batch holds.
    pub open spec fn len(self) -> nat {
        if self.start <= self.end {
            (self.end - self.start + 1) as nat
        } else {
            0
        }
    }

    pub open spec fn contains(self, index: int) -> bool {
        self.start <= index <= self.end
    }
}

/// Into how many batches `document_count` documents are cut.
pub open spec fn batch_count(document_count: u32) -> nat {
    ((document_count + BATCH_SIZE - 1) / (BATCH_SIZE as int)) as nat
}

/// The batch with number `k`, counted from zero: full batches from index 1
/// on, and the last one cut off at `document_count`.
pub open spec fn batch_at(document_count: u32, k: nat) -> Batch
    recommends
        k < batch_count(document_count),
{
    Batch {
        start: (k * BATCH_SIZE + 1) as u32,
        end: if (k + 1) * BATCH_SIZE <= document_count {
            ((k + 1) * BATCH_SIZE) as u32
        } else {
            document_count
        },
    }
}

/// All batches of `document_count` documents, in order.
pub open spec fn batches(document_count: u32) -> Seq<Batch> {
    Seq::new(batch_count(document_count), |k: int| batch_at(document_count, k as nat))
}

/// The batches cut the range from 1 to `document_count` into consecutive
/// pieces: the first starts at 1, each next one starts where the one before
/// ended, the last ends at `document_count`, none is empty or longer than
/// [`BATCH_SIZE`], and only the last may be shorter.
pub proof fn lemma_batches_partition(document_count: u32)
    ensures
        document_count == 0 <==> batch_count(document_count) == 0,
        batch_count(document_count) > 0 ==> batch_at(document_count, 0).start == 1,
        batch_count(document_count) > 0 ==> batch_at(
            document_count,
            (batch_count(document_count) - 1) as nat,
        ).end == document_count,
        forall|k: nat|
            k + 1 < batch_count(document_count) ==> (#[trigger] batch_at(
                document_count,
                k + 1,
            )).start == batch_at(document_count, k).end + 1,
        forall|k: nat|
            k < batch_count(document_count) ==> 1 <= (#[trigger] batch_at(
                document_count,
                k,
            )).len() <= BATCH_SIZE,
        forall|k: nat|
            k + 1 < batch_count(document_count) ==> (#[trigger] batch_at(
                document_count,
                k,
            )).len() == BATCH_SIZE,
{
}

/// Every index from 1 to `document_count` lies in exactly one batch.
pub proof fn lemma_batch_of_index(document_count: u32, index: int)
    requires
        1 <= index <= document_count,
    ensures
        (index - 1) / (BATCH_SIZE as int) < batch_count(document_count),
        forall|k: nat|
            k < batch_count(document_count) ==> ((#[trigger] batch_at(
                document_count,
                k,
            )).contains(index) <==> k == (index - 1) / (BATCH_SIZE as int)),
{
}

/// The number of batches; see [`batch_count`].
pub fn count_batches(document_count: u32) -> (count: u32)
    ensures
        count == batch_count(document_count),
{
    let full: u32 = document_count / BATCH_SIZE;
    if document_count % BATCH_SIZE == 0 {
        full
    } else {
        full + 1
    }
}

/// The batch with number `k`, counted from zero, if there is one.
pub fn batch(document_count: u32, k: u32) -> (batch: Option<Batch>)
    ensures
        batch == if k < batch_count(document_count) {
            Some(batch_at(document_count, k as nat))
        } else {
            None
        },
{
    if k >= count_batches(document_count) {
        return None;
    }
    let start: u32 = k * BATCH_SIZE + 1;
    let end: u32 = if document_count - start >= BATCH_SIZE - 1 {
        start + (BATCH_SIZE - 1)
    } else {
        document_count
    };
    Some(Batch { start, end })
}

/// All batches of `document_count` documents, in order.
pub fn batch_ranges(document_count: u32) -> (ranges: Vec<Batch>)
    ensures
        ranges@ == batches(document_count),
{
    let count: u32 = count_batches(document_count);
    let mut ranges: Vec<Batch> = Vec::new();
    let mut k: u32 = 0;
    while k < count
        invariant
            count == batch_count(document_count),
            k <= count,
            ranges@.len() == k,
            forall|j: int| 0 <= j < k ==> ranges@[j] == batch_at(document_count, j as nat),
        decreases count - k,
    {
        match batch(document_count, k) {
            Some(next) => ranges.push(next),
            None => {},
        }
        k += 1;
    }
    assert(ranges@ =~= batches(document_count));
    ranges
}

/// What the results of the finished batches, in the order in which they
/// finished, come to: the first failure among them, or success where there
/// is none.
pub open spec fn first_failure(outcomes: Seq<Result<(), ArangoErrorView>>) -> Result<
    (),
    ArangoErrorView,
>
    decreases outcomes.len(),
{
    if outcomes.len() == 0 {
        Ok(())
    } else if first_failure(outcomes.drop_last()) is Err {
        first_failure(outcomes.drop_last())
    } else {
        outcomes.last()
    }
}

/// [`first_failure`] is success exactly when every result is one, and else
/// it is the failure before which all results are successes.
pub proof fn lemma_first_failure(outcomes: Seq<Result<(), ArangoErrorView>>)
    ensures
        first_failure(outcomes) is Ok <==> forall|i: int|
            0 <= i < outcomes.len() ==> (#[trigger] outcomes[i]) is Ok,
        first_failure(outcomes) is Err ==> exists|i: int|
            0 <= i < outcomes.len() && #[trigger] outcomes[i] == first_failure(outcomes) && forall|
                j: int,
            |
                0 <= j < i ==> (#[trigger] outcomes[j]) is Ok,
    decreases outcomes.len(),
{
    if outcomes.len() > 0 {
        let front = outcomes.drop_last();
        lemma_first_failure(front);
        assert(forall|i: int| 0 <= i < front.len() ==> front[i] == outcomes[i]);
        if first_failure(front) is Err {
            let i = choose|i: int|
                0 <= i < front.len() && #[trigger] front[i] == first_failure(front) && forall|
                    j: int,
                |
                    0 <= j < i ==> (#[trigger] front[j]) is Ok;
            assert(outcomes[i] == first_failure(outcomes));
            assert(forall|j: int| 0 <= j < i ==> (#[trigger] outcomes[j]) == front[j]);
        } else if outcomes.last() is Err {
            let i = outcomes.len() - 1;
            assert(outcomes[i] == first_failure(outcomes));
        } else {
            assert forall|i: int| 0 <= i < outcomes.len() implies (#[trigger] outcomes[i]) is Ok by {
                if i < front.len() {
                    assert(front[i] is Ok);
                }
            }
        }
    }
}

/// What the driver of a scheduler does next.
#[derive(Debug, PartialEq, Eq)]
pub enum SchedulerAction {
    /// Start inserting this batch, without waiting for it.
    Dispatch(Batch),
    /// Wait until one of the batches in flight has finished, and report it.
    Wait,
    /// Batches are left, none is in flight and the limit admits none: the
    /// run cannot go on.
    Stalled,
    /// Every batch has finished; this is the result of the run.
    Finish(Result<(), ArangoError>),
}

pub enum SchedulerActionView {
    Dispatch(Batch),
    Wait,
    Stalled,
    Finish(Result<(), ArangoErrorView>),
}

impl View for SchedulerAction {
    type V = SchedulerActionView;

    open spec fn view(&self) -> SchedulerActionView {
        match self {
            SchedulerAction::Dispatch(batch) => SchedulerActionView::Dispatch(*batch),
            SchedulerAction::Wait => SchedulerActionView::Wait,
            SchedulerAction::Stalled => SchedulerActionView::Stalled,
            SchedulerAction::Finish(outcome) => SchedulerActionView::Finish(outcome_view(*outcome)),
        }
    }
}

/// The state of populating one collection: how many batches were handed
/// out, and how those that finished have ended.
pub struct LoadScheduler {
    document_count: u32,
    concurrency_limit: u32,
    dispatched: u32,
    in_flight: u32,
    failure: Option<ArangoError>,
    finished: Ghost<Seq<Result<(), ArangoErrorView>>>,
}

impl LoadScheduler {
    /// How many documents the run inserts.
    pub closed spec fn document_count(&self) -> u32 {
        self.document_count
    }

    /// How many batches may be in flight at once.
    pub closed spec fn concurrency_limit(&self) -> u32 {
        self.concurrency_limit
    }

    /// How many batches have been handed out: those with the numbers below.
    pub closed spec fn dispatched(&self) -> nat {
        self.dispatched as nat
    }

    /// The results of the batches that have finished, in the order in which
    /// they were reported.
    pub closed spec fn outcomes(&self) -> Seq<Result<(), ArangoErrorView>> {
        self.finished@
    }

    /// How many batches were handed out and have not finished.
    pub open spec fn in_flight(&self) -> int {
        self.dispatched() - self.outcomes().len()
    }

    /// Whether every batch has been handed out and has finished.
    pub open spec fn drained(&self) -> bool {
        self.outcomes().len() == batch_count(self.document_count())
    }

    /// The invariant of a scheduler: batches finish only after they were
    /// handed out, and never more are in flight than the limit admits.
    pub closed spec fn wf(&self) -> bool {
        &&& self.dispatched <= batch_count(self.document_count)
        &&& self.finished@.len() + self.in_flight == self.dispatched
        &&& self.in_flight <= self.concurrency_limit
        &&& first_failure(self.finished@) == match self.failure {
            Some(error) => Err::<(), ArangoErrorView>(error@),
            None => Ok(()),
        }
    }

    /// What [`LoadScheduler::wf`] says of the counts.
    pub proof fn lemma_bounds(&self)
        requires
            self.wf(),
        ensures
            self.outcomes().len() <= self.dispatched() <= batch_count(self.document_count()),
            0 <= self.in_flight() <= self.concurrency_limit(),
    {
    }

    /// The action that is due in this state.
    pub open spec fn due(&self) -> SchedulerActionView {
        if self.dispatched() < batch_count(self.document_count()) && self.in_flight()
            < self.concurrency_limit() {
            SchedulerActionView::Dispatch(batch_at(self.document_count(), self.dispatched()))
        } else if self.in_flight() > 0 {
            SchedulerActionView::Wait
        } else if self.dispatched() < batch_count(self.document_count()) {
            SchedulerActionView::Stalled
        } else {
            SchedulerActionView::Finish(first_failure(self.outcomes()))
        }
    }

    /// A scheduler for `document_count` documents that has handed out
    /// nothing yet.
    pub fn new(document_count: u32, concurrency_limit: u32) -> (scheduler: LoadScheduler)
        ensures
            scheduler.wf(),
            scheduler.document_count() == document_count,
            scheduler.concurrency_limit() == concurrency_limit,
            scheduler.dispatched() == 0,
            scheduler.outcomes() == Seq::<Result<(), ArangoErrorView>>::empty(),
    {
        LoadScheduler {
            document_count,
            concurrency_limit,
            dispatched: 0,
            in_flight: 0,
            failure: None,
            finished: Ghost(Seq::empty()),
        }
    }

    /// How many batches are in flight.
    pub fn batches_in_flight(&self) -> (count: u32)
        requires
            self.wf(),
        ensures
            count == self.in_flight(),
    {
        self.in_flight
    }

    /// Decides what the driver does next, and counts a batch that is handed
    /// out as in flight.
    pub fn next_action(&mut self) -> (action: SchedulerAction)
        requires
            old(self).wf(),
        ensures
            final(self).wf(),
            action@ == old(self).due(),
            final(self).document_count() == old(self).document_count(),
            final(self).concurrency_limit() == old(self).concurrency_limit(),
            final(self).outcomes() == old(self).outcomes(),
            final(self).dispatched() == old(self).dispatched() + if action is Dispatch {
                1nat
            } else {
                0nat
            },
    {
        if self.in_flight < self.concurrency_limit {
            if let Some(next) = batch(self.document_count, self.dispatched) {
                self.dispatched = self.dispatched + 1;
                self.in_flight = self.in_flight + 1;
                return SchedulerAction::Dispatch(next);
            }
        }
        if self.in_flight > 0 {
            SchedulerAction::Wait
        } else if self.dispatched < count_batches(self.document_count) {
            SchedulerAction::Stalled
        } else {
            match &self.failure {
                Some(error) => SchedulerAction::Finish(Err(error.clone())),
                None => SchedulerAction::Finish(Ok(())),
            }
        }
    }

    /// Records that a batch in flight has finished with this result.
    pub fn complete(&mut self, outcome: Result<(), ArangoError>)
        requires
            old(self).wf(),
            old(self).in_flight() > 0,
        ensures
            final(self).wf(),
            final(self).outcomes() == old(self).outcomes().push(outcome_view(outcome)),
            final(self).document_count() == old(self).document_count(),
            final(self).concurrency_limit() == old(self).concurrency_limit(),
            final(self).dispatched() == old(self).dispatched(),
    {
        proof {
            let before = self.finished@;
            let after = before.push(outcome_view(outcome));
            assert(after.drop_last() =~= before);
            self.finished@ = after;
        }
        self.in_flight = self.in_flight - 1;
        if self.failure.is_none() {
            match outcome {
                Err(error) => {
                    self.failure = Some(error);
                },
                Ok(_) => {},
            }
        }
    }
}

/// Drain, then report: a run is finished only when every batch has been
/// handed out and has finished, whatever failed on the way, and its result
/// is then the first failure in the order of finishing.
pub proof fn lemma_finish_after_drain(scheduler: LoadScheduler)
    requires
        scheduler.wf(),
    ensures
        scheduler.due() is Finish <==> scheduler.drained(),
        scheduler.drained() ==> scheduler.due() == SchedulerActionView::Finish(
            first_failure(scheduler.outcomes()),
        ),
        scheduler.drained() ==> scheduler.dispatched() == batch_count(scheduler.document_count()),
{
}

/// The documents of one batch: one synthetic document for each index of the
/// batch, in the order of the indices.
pub open spec fn is_batch_of_documents(
    documents: Seq<Seq<FieldView>>,
    batch: Batch,
    document_size: u32,
    num_attributes: u32,
) -> bool {
    &&& documents.len() == batch.len()
    &&& forall|i: int|
        0 <= i < documents.len() ==> is_synthetic_document(
            #[trigger] documents[i],
            (batch.start + i) as u32,
            document_size,
            num_attributes,
        )
}

/// Synthesizes the documents of one batch.
pub fn generate_batch(batch: Batch, document_size: u32, num_attributes: u32) -> (documents: Vec<
    Document,
>)
    ensures
        is_batch_of_documents(documents_view(documents@), batch, document_size, num_attributes),
{
    let mut documents: Vec<Document> = Vec::new();
    if batch.start <= batch.end {
        let mut index: u32 = batch.start;
        documents.push(generate_document(index, document_size, num_attributes));
        while index < batch.end
            invariant
                batch.start <= index <= batch.end,
                documents@.len() == index - batch.start + 1,
                forall|i: int|
                    0 <= i < documents@.len() ==> is_synthetic_document(
                        (#[trigger] documents@[i])@,
                        (batch.start + i) as u32,
                        document_size,
                        num_attributes,
                    ),
            decreases batch.end - index,
        {
            index += 1;
            documents.push(generate_document(index, document_size, num_attributes));
        }
    }
    assert forall|i: int| 0 <= i < documents@.len() implies is_synthetic_document(
        #[trigger] documents_view(documents@)[i],
        (batch.start + i) as u32,
        document_size,
        num_attributes,
    ) by {
        assert(documents_view(documents@)[i] == documents@[i]@);
    }
    documents
}

/// Calls `Rng::random_range` of `rand` on the thread's generator, with the
/// range from zero up to and without `count`. The range must not be empty.
/// The result lies in it; where in it is left open.
#[verifier::external_body]
fn random_index(count: usize) -> (index: usize)
    requires
        count > 0,
    ensures
        index < count,
{
    rand::rng().random_range(0..count)
}

/// Picks the entry point for one batch: any of them, each time anew.
pub fn select_endpoint(endpoints: &Vec<String>) -> (index: usize)
    requires
        endpoints@.len() > 0,
    ensures
        index < endpoints@.len(),
{
    random_index(endpoints.len())
}

/// The request that inserts one batch into a collection through one entry
/// point.
pub open spec fn is_insert_batch_request(
    request: HttpRequestView,
    endpoint: Seq<char>,
    db_name: Seq<char>,
    collection_name: Seq<char>,
    batch: Batch,
    document_size: u32,
    num_attributes: u32,
) -> bool {
    &&& request.method == Method::Post
    &&& request.url == insert_documents_url(endpoint, db_name, collection_name)
    &&& request.payload matches PayloadView::Array(documents) && is_batch_of_documents(
        documents,
        batch,
        document_size,
        num_attributes,
    )
}

/// Builds the request that inserts one batch into a collection through the
/// entry point with the given index.
pub fn insert_batch_request_at(
    endpoints: &Vec<String>,
    index: usize,
    db_name: &str,
    collection_name: &str,
    batch: Batch,
    document_size: u32,
    num_attributes: u32,
) -> (request: HttpRequest)
    requires
        index < endpoints@.len(),
    ensures
        is_insert_batch_request(
            request@,
            endpoints@[index as int]@,
            db_name@,
            collection_name@,
            batch,
            document_size,
            num_attributes,
        ),
{
    let documents = generate_batch(batch, document_size, num_attributes);
    let url = insert_documents_endpoint(endpoints[index].as_str(), db_name, collection_name);
    insert_documents_request(url, documents)
}

/// Builds the request that inserts one batch into a collection, through an
/// entry point picked for this batch alone.
pub fn insert_batch_request(
    endpoints: &Vec<String>,
    db_name: &str,
    collection_name: &str,
    batch: Batch,
    document_size: u32,
    num_attributes: u32,
) -> (request: HttpRequest)
    requires
        endpoints@.len() > 0,
    ensures
        exists|index: int|
            0 <= index < endpoints@.len() && is_insert_batch_request(
                request@,
                (#[trigger] endpoints@[index])@,
                db_name@,
                collection_name@,
                batch,
                document_size,
                num_attributes,
            ),
{
    let index: usize = select_endpoint(endpoints);
    insert_batch_request_at(
        endpoints,
        index,
        db_name,
        collection_name,
        batch,
        document_size,
        num_attributes,
    )
}

} // verus!
