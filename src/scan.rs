use vstd::prelude::*;

use crate::error::TableError;
use crate::provider::SearchResultsTableProvider;
use crate::request::SearchDatasetRequest;
use crate::response::StreamItem;
use crate::wire::DecodedBatch;

verus! {

/// A streaming call of a remote service, seen as a table: the request that
/// opens the full stream, and how one streamed message becomes a batch.
///
/// Each concrete call supplies these two, and `BatchSequence` does the
/// rest of the work of a scan.
pub trait GrpcStreamToTable {
    /// What is sent to open the stream.
    type Request;

    /// One message of the stream.
    type StreamData;

    /// The request that `streaming_request` gives.
    spec fn full_request(&self) -> Self::Request;

    /// What `process_response` gives for `response`.
    spec fn process_spec(&self, response: Self::StreamData) -> Result<DecodedBatch, TableError>;

    /// The request that opens a full scan.
    fn streaming_request(&self) -> (r: Self::Request)
        ensures
            r == self.full_request(),
    ;

    /// Turns one streamed message into a decoded batch.
    fn process_response(&self, response: Self::StreamData) -> (r: Result<DecodedBatch, TableError>)
        ensures
            r == self.process_spec(response),
    ;
}

/// What the query engine gets for the message `item`: the end of the scan
/// when the stream is over, the transport's error when it broke, and
/// otherwise what the table makes of the response.
pub open spec fn pull_result<T: GrpcStreamToTable>(
    table: T,
    item: Option<Result<T::StreamData, String>>,
) -> Option<Result<DecodedBatch, TableError>> {
    match item {
        None => None,
        Some(Err(message)) => Some(Err(TableError::Transport(message))),
        Some(Ok(response)) => Some(table.process_spec(response)),
    }
}

/// What `next_batch` does with the message `item`, taking the scan from
/// `before` to `after` and returning `r`: a batch keeps the stream open and
/// is counted, anything else closes the scan.
pub open spec fn next_batch_post<T: GrpcStreamToTable>(
    table: T,
    before: BatchSequence,
    item: Option<Result<T::StreamData, String>>,
    after: BatchSequence,
    r: Option<Result<DecodedBatch, TableError>>,
) -> bool {
    &&& r == pull_result(table, item)
    &&& after.phase_spec() == if r matches Some(Ok(_)) {
        ScanPhase::StreamOpen
    } else {
        ScanPhase::Closed
    }
    &&& after.yielded_spec() == before.yielded_spec() + if r matches Some(Ok(_)) {
        1nat
    } else {
        0nat
    }
}

/// Where one scan stands.
#[derive(Clone, Copy, PartialEq, Eq, Structural, Debug)]
pub enum ScanPhase {
    /// No stream has been asked for yet.
    NotStarted,
    /// A stream is open and may hold more batches.
    StreamOpen,
    /// The stream ended, failed or was released; nothing more is pulled.
    Closed,
}

/// One pass over the search results: a lazy, pull-based sequence of
/// batches.
///
/// Each scan asks for its own stream and keeps its own position, so two
/// scans of one table never share a cursor. A scan cannot be restarted.
pub struct BatchSequence {
    phase: ScanPhase,
    yielded: u64,
}

impl BatchSequence {
    pub closed spec fn phase_spec(&self) -> ScanPhase {
        self.phase
    }

    /// How many batches this scan has handed out.
    pub closed spec fn yielded_spec(&self) -> nat {
        self.yielded as nat
    }

    /// A scan that has not asked for its stream yet.
    pub fn new() -> (r: BatchSequence)
        ensures
            r.phase_spec() == ScanPhase::NotStarted,
            r.yielded_spec() == 0,
    {
        BatchSequence { phase: ScanPhase::NotStarted, yielded: 0 }
    }

    pub fn phase(&self) -> (r: ScanPhase)
        ensures
            r == self.phase_spec(),
    {
        self.phase
    }

    /// How many batches this scan has handed out.
    pub fn yielded(&self) -> (r: u64)
        ensures
            r == self.yielded_spec(),
    {
        self.yielded
    }

    /// Whether the caller should pull the stream for another message.
    pub fn wants_next(&self) -> (r: bool)
        ensures
            r == (self.phase_spec() == ScanPhase::StreamOpen),
    {
        self.phase == ScanPhase::StreamOpen
    }

    /// Starts the scan: the request to open its stream with, which is the
    /// table's search as it was given.
    pub fn open<T: GrpcStreamToTable>(&mut self, table: &T) -> (r: T::Request)
        requires
            old(self).phase_spec() == ScanPhase::NotStarted,
        ensures
            r == table.full_request(),
            final(self).phase_spec() == ScanPhase::StreamOpen,
            final(self).yielded_spec() == old(self).yielded_spec(),
    {
        self.phase = ScanPhase::StreamOpen;
        table.streaming_request()
    }

    /// The stream could not be opened, or the connection broke: the scan is
    /// over, with a transport error.
    pub fn fail(&mut self, message: String) -> (r: TableError)
        ensures
            r == TableError::Transport(message),
            final(self).phase_spec() == ScanPhase::Closed,
            final(self).yielded_spec() == old(self).yielded_spec(),
    {
        self.phase = ScanPhase::Closed;
        TableError::Transport(message)
    }

    /// Takes the message the stream gave when pulled and says what the
    /// query engine gets: the next batch, the end of the scan (`None`), or
    /// an error that ends it.
    pub fn next_batch<T: GrpcStreamToTable>(
        &mut self,
        table: &T,
        item: Option<Result<T::StreamData, String>>,
    ) -> (r: Option<Result<DecodedBatch, TableError>>)
        requires
            old(self).phase_spec() == ScanPhase::StreamOpen,
            old(self).yielded_spec() < u64::MAX,
        ensures
            next_batch_post(*table, *old(self), item, *final(self), r),
    {
        match item {
            None => {
                self.phase = ScanPhase::Closed;
                None
            },
            Some(Err(message)) => Some(Err(self.fail(message))),
            Some(Ok(response)) => {
                let r = table.process_response(response);
                if r.is_ok() {
                    self.yielded = self.yielded + 1;
                } else {
                    self.phase = ScanPhase::Closed;
                }
                Some(r)
            },
        }
    }

    /// The consumer is done with the scan, whether or not the stream was
    /// exhausted. Returns whether an open stream has to be closed now.
    pub fn release(&mut self) -> (close: bool)
        ensures
            close == (old(self).phase_spec() == ScanPhase::StreamOpen),
            final(self).phase_spec() == ScanPhase::Closed,
            final(self).yielded_spec() == old(self).yielded_spec(),
    {
        let close = self.phase == ScanPhase::StreamOpen;
        self.phase = ScanPhase::Closed;
        close
    }
}

/// Every scan of a search table asks for the table's whole search,
/// unchanged, whatever scans ran before it.
pub proof fn scans_open_the_same_request(
    table: SearchResultsTableProvider,
    first: SearchDatasetRequest,
    second: SearchDatasetRequest,
)
    requires
        first == table.full_request(),
        second == table.full_request(),
    ensures
        first == second,
        first == table.base_request(),
{
}

/// Two scans of one table that are given the same message hand out the same
/// batch or the same error and end up in the same phase: a scan keeps no
/// state that could make it differ from another one fed the same stream.
pub proof fn scans_agree_on_each_message(
    table: SearchResultsTableProvider,
    a0: BatchSequence,
    a1: BatchSequence,
    ra: Option<Result<DecodedBatch, TableError>>,
    b0: BatchSequence,
    b1: BatchSequence,
    rb: Option<Result<DecodedBatch, TableError>>,
    item: StreamItem,
)
    requires
        next_batch_post(table, a0, item, a1, ra),
        next_batch_post(table, b0, item, b1, rb),
    ensures
        ra == rb,
        a1.phase_spec() == b1.phase_spec(),
        a1.yielded_spec() - a0.yielded_spec() == b1.yielded_spec() - b0.yielded_spec(),
{
}

/// The scan states `states` and results `results` are a run of `next_batch`
/// over the messages `items`, from a freshly opened stream.
pub open spec fn is_scan_run(
    table: SearchResultsTableProvider,
    items: Seq<StreamItem>,
    states: Seq<BatchSequence>,
    results: Seq<Option<Result<DecodedBatch, TableError>>>,
) -> bool {
    &&& states.len() == items.len() + 1
    &&& results.len() == items.len()
    &&& states[0].phase_spec() == ScanPhase::StreamOpen
    &&& states[0].yielded_spec() == 0
    &&& forall|i: int|
        0 <= i < items.len() ==> next_batch_post(
            table,
            #[trigger] states[i],
            items[i],
            states[i + 1],
            results[i],
        )
}

proof fn lemma_runs_agree_up_to(
    table: SearchResultsTableProvider,
    items: Seq<StreamItem>,
    a: Seq<BatchSequence>,
    ra: Seq<Option<Result<DecodedBatch, TableError>>>,
    b: Seq<BatchSequence>,
    rb: Seq<Option<Result<DecodedBatch, TableError>>>,
    n: int,
)
    requires
        is_scan_run(table, items, a, ra),
        is_scan_run(table, items, b, rb),
        0 <= n <= items.len(),
    ensures
        a[n].phase_spec() == b[n].phase_spec(),
        a[n].yielded_spec() == b[n].yielded_spec(),
    decreases n,
{
    if n > 0 {
        lemma_runs_agree_up_to(table, items, a, ra, b, rb, n - 1);
        assert(next_batch_post(table, a[n - 1], items[n - 1], a[n], ra[n - 1]));
        assert(next_batch_post(table, b[n - 1], items[n - 1], b[n], rb[n - 1]));
    }
}

/// A scan of a search table on a freshly opened stream hands out, for the
/// i-th message, the batch decoded from that message (or the error it
/// gives), in the order of the stream. So two such scans fed the same
/// messages hand out the same batches in the same order, and after each
/// message stand in the same phase with the same number of batches handed
/// out.
pub proof fn scans_replay_identically(
    table: SearchResultsTableProvider,
    items: Seq<StreamItem>,
    a: Seq<BatchSequence>,
    ra: Seq<Option<Result<DecodedBatch, TableError>>>,
    b: Seq<BatchSequence>,
    rb: Seq<Option<Result<DecodedBatch, TableError>>>,
)
    requires
        is_scan_run(table, items, a, ra),
        is_scan_run(table, items, b, rb),
    ensures
        forall|i: int|
            0 <= i < items.len() ==> #[trigger] ra[i] == pull_result(table, items[i]) && rb[i]
                == ra[i],
        forall|i: int|
            0 <= i <= items.len() ==> (#[trigger] a[i]).phase_spec() == b[i].phase_spec()
                && a[i].yielded_spec() == b[i].yielded_spec(),
{
    assert forall|i: int| 0 <= i < items.len() implies #[trigger] ra[i] == pull_result(
        table,
        items[i],
    ) && rb[i] == ra[i] by {
        assert(next_batch_post(table, a[i], items[i], a[i + 1], ra[i]));
        assert(next_batch_post(table, b[i], items[i], b[i + 1], rb[i]));
    }
    assert forall|i: int| 0 <= i <= items.len() implies (#[trigger] a[i]).phase_spec()
        == b[i].phase_spec() && a[i].yielded_spec() == b[i].yielded_spec() by {
        lemma_runs_agree_up_to(table, items, a, ra, b, rb, i);
    }
}

/// A response without a dataframe fails the pull with `MissingPayload` and
/// closes the scan, so no further message is pulled.
pub proof fn scan_stops_at_missing_payload(
    table: SearchResultsTableProvider,
    before: BatchSequence,
    item: StreamItem,
    after: BatchSequence,
    r: Option<Result<DecodedBatch, TableError>>,
)
    requires
        next_batch_post(table, before, item, after, r),
        item matches Some(Ok(response)) && response.data is None,
    ensures
        r == Some(Err::<DecodedBatch, TableError>(TableError::MissingPayload)),
        after.phase_spec() == ScanPhase::Closed,
{
}

} // verus!
