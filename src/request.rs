use vstd::prelude::*;

verus! {

/// Limits handed to the service's scanner along with a search.
#[derive(Clone, Copy, PartialEq, Eq, Structural, Debug)]
pub struct ScanParameters {
    /// Rows to skip before the first one returned.
    pub limit_offset: Option<i64>,
    /// Largest number of rows to return.
    pub limit_len: Option<i64>,
}

impl ScanParameters {
    /// Parameters that ask for no rows at all: the service answers with the
    /// schema of the result and nothing else.
    pub fn schema_only() -> (r: ScanParameters)
        ensures
            r.is_schema_only(),
            r.limit_offset is None,
    {
        ScanParameters { limit_offset: None, limit_len: Some(0) }
    }

    pub open spec fn is_schema_only(&self) -> bool {
        self.limit_len == Some(0i64)
    }
}

/// A search over one dataset, as sent to the service.
#[derive(Debug)]
pub struct SearchDatasetRequest {
    /// The dataset searched.
    pub dataset_id: String,
    /// What is searched for.
    pub query: String,
    /// Limits on the scan; `None` lets the service return every match.
    pub scan_parameters: Option<ScanParameters>,
}

impl SearchDatasetRequest {
    pub fn new(dataset_id: String, query: String) -> (r: SearchDatasetRequest)
        ensures
            r.dataset_id == dataset_id,
            r.query == query,
            r.scan_parameters is None,
    {
        SearchDatasetRequest { dataset_id, query, scan_parameters: None }
    }

    /// The same search, with its scan parameters replaced.
    pub open spec fn with_scan(self, scan: Option<ScanParameters>) -> SearchDatasetRequest {
        SearchDatasetRequest { scan_parameters: scan, ..self }
    }

    /// A copy of this request with `scan` as its scan parameters.
    pub fn copy_with_scan(&self, scan: Option<ScanParameters>) -> (r: SearchDatasetRequest)
        ensures
            r == self.with_scan(scan),
    {
        SearchDatasetRequest {
            dataset_id: self.dataset_id.clone(),
            query: self.query.clone(),
            scan_parameters: scan,
        }
    }

    /// A field-for-field copy of this request.
    pub fn duplicate(&self) -> (r: SearchDatasetRequest)
        ensures
            r == *self,
    {
        self.copy_with_scan(self.scan_parameters)
    }
}

} // verus!
