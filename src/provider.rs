use std::sync::Arc;

use arrow::datatypes::Schema;
use vstd::prelude::*;

use crate::error::TableError;
use crate::request::{ScanParameters, SearchDatasetRequest};
use crate::response::{SearchDatasetResponse, StreamItem};
use crate::scan::GrpcStreamToTable;
use crate::wire::DecodedBatch;

verus! {

/// The schema probe for `base`: the same search, asking for no rows.
pub open spec fn probe_of(base: SearchDatasetRequest) -> SearchDatasetRequest {
    base.with_scan(Some(ScanParameters { limit_offset: None, limit_len: Some(0i64) }))
}

/// What a single response gives: its decoded batch, `MissingPayload` when it
/// carries no dataframe, `Decode` with the decoder's text when the dataframe
/// did not decode.
pub open spec fn response_result(response: SearchDatasetResponse) -> Result<DecodedBatch, TableError> {
    match response.data {
        None => Err(TableError::MissingPayload),
        Some(Err(message)) => Err(TableError::Decode(message)),
        Some(Ok(part)) => Ok(part.batch),
    }
}

/// What the schema probe gives, from the first message of its stream alone:
/// `EmptyStream` when there was none, `Transport` when the connection broke,
/// `MissingPayload` or `Decode` as for any response, and otherwise the schema
/// of the decoded batch.
pub open spec fn probe_result(first: StreamItem) -> Result<Arc<Schema>, TableError> {
    match first {
        None => Err(TableError::EmptyStream),
        Some(Err(message)) => Err(TableError::Transport(message)),
        Some(Ok(response)) => match response.data {
            None => Err(TableError::MissingPayload),
            Some(Err(message)) => Err(TableError::Decode(message)),
            Some(Ok(part)) => Ok(part.schema),
        },
    }
}

/// What `fetch_schema` does with the first message `first` of the probe's
/// stream, taking the table from `before` to `after` and returning `r`: it
/// caches the probe's schema, or fails as the probe fails and leaves the
/// table as it was.
pub open spec fn fetch_schema_post(
    before: SearchResultsTableProvider,
    first: StreamItem,
    after: SearchResultsTableProvider,
    r: Result<(), TableError>,
) -> bool {
    &&& after.base_request() == before.base_request()
    &&& match probe_result(first) {
        Ok(schema) => r == Ok::<(), TableError>(()) && after.cached() == Some(schema),
        Err(e) => r == Err::<(), TableError>(e) && after.cached() == before.cached(),
    }
}

/// A table whose rows are the results of one dataset search.
///
/// It owns the scan parameters of the request: the schema probe asks for no
/// rows, a full scan sends the request as it was given.
pub struct SearchResultsTableProvider {
    request: SearchDatasetRequest,
    schema: Option<Arc<Schema>>,
}

impl SearchResultsTableProvider {
    /// The search as the caller gave it.
    pub closed spec fn base_request(&self) -> SearchDatasetRequest {
        self.request
    }

    /// The schema learnt from the probe, once there was one.
    pub closed spec fn cached(&self) -> Option<Arc<Schema>> {
        self.schema
    }

    /// The table over the results of `request`.
    ///
    /// Fails with `Configuration` when the request already has scan
    /// parameters: those are the table's own to set.
    pub fn new(request: SearchDatasetRequest) -> (r: Result<Self, TableError>)
        ensures
            r is Ok <==> request.scan_parameters is None,
            r matches Ok(t) ==> t.base_request() == request && t.cached() is None,
            r matches Err(e) ==> e is Configuration,
    {
        if request.scan_parameters.is_some() {
            return Err(
                TableError::Configuration(
                    "Scan parameters are not supported for SearchResultsTableProvider".to_owned(),
                ),
            );
        }
        Ok(SearchResultsTableProvider { request, schema: None })
    }

    /// The search this table is over.
    pub fn request(&self) -> (r: &SearchDatasetRequest)
        ensures
            *r == self.base_request(),
    {
        &self.request
    }

    /// The schema, if the probe has already produced it.
    pub fn schema(&self) -> (r: Option<&Arc<Schema>>)
        ensures
            r == match self.cached() {
                Some(s) => Some(&s),
                None => None::<&Arc<Schema>>,
            },
    {
        match &self.schema {
            Some(s) => Some(s),
            None => None,
        }
    }

    /// What `schema_request` answers: the probe while no schema is known.
    pub open spec fn schema_request_spec(&self) -> Option<SearchDatasetRequest> {
        if self.cached() is Some {
            None
        } else {
            Some(probe_of(self.base_request()))
        }
    }

    /// The request to send for the schema, or `None` when the schema is
    /// already known and no call is needed.
    pub fn schema_request(&self) -> (r: Option<SearchDatasetRequest>)
        ensures
            r == self.schema_request_spec(),
    {
        if self.schema.is_some() {
            None
        } else {
            Some(self.request.copy_with_scan(Some(ScanParameters::schema_only())))
        }
    }

    /// The schema given by the first message of the probe's stream; no
    /// later message is looked at.
    pub fn schema_from_first(first: StreamItem) -> (r: Result<Arc<Schema>, TableError>)
        ensures
            r == probe_result(first),
    {
        match first {
            None => Err(TableError::EmptyStream),
            Some(Err(message)) => Err(TableError::Transport(message)),
            Some(Ok(response)) => match response.data {
                None => Err(TableError::MissingPayload),
                Some(Err(message)) => Err(TableError::Decode(message)),
                Some(Ok(part)) => Ok(part.schema),
            },
        }
    }

    /// Completes the schema probe with the first message of its stream, and
    /// keeps the schema for every later request.
    pub fn fetch_schema(&mut self, first: StreamItem) -> (r: Result<(), TableError>)
        ensures
            fetch_schema_post(*old(self), first, *final(self), r),
    {
        match Self::schema_from_first(first) {
            Ok(schema) => {
                self.schema = Some(schema);
                Ok(())
            },
            Err(e) => Err(e),
        }
    }
}

impl GrpcStreamToTable for SearchResultsTableProvider {
    type Request = SearchDatasetRequest;

    type StreamData = SearchDatasetResponse;

    open spec fn full_request(&self) -> SearchDatasetRequest {
        self.base_request()
    }

    open spec fn process_spec(&self, response: SearchDatasetResponse) -> Result<
        DecodedBatch,
        TableError,
    > {
        response_result(response)
    }

    /// The search as it was given.
    fn streaming_request(&self) -> (r: SearchDatasetRequest) {
        self.request.duplicate()
    }

    fn process_response(&self, response: SearchDatasetResponse) -> (r: Result<
        DecodedBatch,
        TableError,
    >) {
        match response.data {
            None => Err(TableError::MissingPayload),
            Some(Err(message)) => Err(TableError::Decode(message)),
            Some(Ok(part)) => Ok(part.batch),
        }
    }
}

/// The schema probe of a search without scan parameters is that very search
/// (same dataset, same query) limited to zero rows.
pub proof fn probe_asks_for_zero_rows(request: SearchDatasetRequest)
    requires
        request.scan_parameters is None,
    ensures
        probe_of(request).dataset_id == request.dataset_id,
        probe_of(request).query == request.query,
        probe_of(request).scan_parameters matches Some(p) && p.is_schema_only(),
{
}

/// Once `fetch_schema` has succeeded, the table asks for no further probe:
/// `schema_request` answers `None` from then on, and later calls of
/// `fetch_schema` keep the schema cached whatever they are given.
pub proof fn schema_is_probed_once(
    before: SearchResultsTableProvider,
    first: StreamItem,
    after: SearchResultsTableProvider,
    r: Result<(), TableError>,
    next_first: StreamItem,
    later: SearchResultsTableProvider,
    r2: Result<(), TableError>,
)
    requires
        fetch_schema_post(before, first, after, r),
        r is Ok,
        fetch_schema_post(after, next_first, later, r2),
    ensures
        after.schema_request_spec() is None,
        later.schema_request_spec() is None,
        later.base_request() == before.base_request(),
{
}

/// The probe's outcome is decided by the first message of its stream alone:
/// two probes whose streams start with the same message give the same
/// result, and a successful one caches that message's schema, whatever the
/// tables held before and whatever followed in the streams.
pub proof fn probe_depends_on_first_message_only(
    first: StreamItem,
    before1: SearchResultsTableProvider,
    after1: SearchResultsTableProvider,
    r1: Result<(), TableError>,
    before2: SearchResultsTableProvider,
    after2: SearchResultsTableProvider,
    r2: Result<(), TableError>,
)
    requires
        fetch_schema_post(before1, first, after1, r1),
        fetch_schema_post(before2, first, after2, r2),
    ensures
        r1 == r2,
        r1 is Ok ==> after1.cached() == after2.cached() && after1.cached() == Some(
            probe_result(first)->Ok_0,
        ),
{
}

/// A probe whose first message carries no dataframe fails with
/// `MissingPayload`, never with a decoding error.
pub proof fn probe_without_payload_fails(
    before: SearchResultsTableProvider,
    first: StreamItem,
    after: SearchResultsTableProvider,
    r: Result<(), TableError>,
)
    requires
        fetch_schema_post(before, first, after, r),
        first matches Some(Ok(response)) && response.data is None,
    ensures
        r == Err::<(), TableError>(TableError::MissingPayload),
        after.cached() == before.cached(),
{
}

/// A probe whose stream holds no message at all fails with `EmptyStream`.
pub proof fn empty_probe_stream_fails(
    before: SearchResultsTableProvider,
    after: SearchResultsTableProvider,
    r: Result<(), TableError>,
)
    requires
        fetch_schema_post(before, None, after, r),
    ensures
        r == Err::<(), TableError>(TableError::EmptyStream),
        after.cached() == before.cached(),
{
}

} // verus!
