use std::sync::Arc;

use arrow::array::{Float32Array, Int64Array, RecordBatch};
use arrow::datatypes::{DataType, Field, Schema};
use search_table::{
    BatchSequence, DecodedBatch, DecodedPart, GrpcStreamToTable, ScanParameters, ScanPhase,
    SearchDatasetRequest, SearchDatasetResponse, SearchResultsTableProvider, StreamItem,
    TableError,
};

fn results_schema() -> Arc<Schema> {
    Arc::new(Schema::new(vec![
        Field::new("id", DataType::Int64, false),
        Field::new("score", DataType::Float32, false),
    ]))
}

fn batch(first_id: i64, rows: usize) -> RecordBatch {
    let ids: Vec<i64> = (0..rows as i64).map(|i| first_id + i).collect();
    let scores: Vec<f32> = (0..rows).map(|i| 1.0 / (i as f32 + 1.0)).collect();
    RecordBatch::try_new(
        results_schema(),
        vec![
            Arc::new(Int64Array::from(ids)),
            Arc::new(Float32Array::from(scores)),
        ],
    )
    .unwrap()
}

fn decoded(batch: RecordBatch) -> DecodedPart {
    DecodedPart { schema: batch.schema(), batch: DecodedBatch { batch } }
}

fn response_with(batch: &RecordBatch) -> StreamItem {
    Some(Ok(SearchDatasetResponse { data: Some(Ok(decoded(batch.clone()))) }))
}

fn undecodable(message: &str) -> StreamItem {
    Some(Ok(SearchDatasetResponse { data: Some(Err(message.to_owned())) }))
}

fn response_without_payload() -> StreamItem {
    Some(Ok(SearchDatasetResponse { data: None }))
}

fn cats_request() -> SearchDatasetRequest {
    SearchDatasetRequest::new("D".to_owned(), "cats".to_owned())
}

fn cats_table() -> SearchResultsTableProvider {
    SearchResultsTableProvider::new(cats_request()).unwrap()
}

/// Feeds `items` to a fresh scan of `table` as a stream would, and returns
/// the row counts handed out and the error that ended the scan, if any.
fn run_scan(
    table: &SearchResultsTableProvider,
    items: Vec<StreamItem>,
) -> (Vec<RecordBatch>, Option<TableError>, usize) {
    let mut scan = BatchSequence::new();
    let request = scan.open(table);
    assert!(request.scan_parameters.is_none());
    let mut rows = Vec::new();
    let mut pulled = 0;
    let mut items = items.into_iter();
    while scan.wants_next() {
        pulled += 1;
        match scan.next_batch(table, items.next().unwrap_or(None)) {
            None => return (rows, None, pulled),
            Some(Ok(b)) => {
                assert_eq!(b.batch.schema(), results_schema());
                rows.push(b.batch);
            }
            Some(Err(e)) => return (rows, Some(e), pulled),
        }
    }
    (rows, None, pulled)
}

#[test]
fn construction_rejects_preset_scan_parameters() {
    let mut request = cats_request();
    request.scan_parameters = Some(ScanParameters { limit_offset: None, limit_len: Some(5) });
    let r = SearchResultsTableProvider::new(request);
    assert!(matches!(r, Err(TableError::Configuration(_))));

    let mut request = cats_request();
    request.scan_parameters = Some(ScanParameters { limit_offset: None, limit_len: None });
    assert!(matches!(
        SearchResultsTableProvider::new(request),
        Err(TableError::Configuration(_))
    ));
}

#[test]
fn construction_keeps_the_request() {
    let table = cats_table();
    assert_eq!(table.request().dataset_id, "D");
    assert_eq!(table.request().query, "cats");
    assert!(table.request().scan_parameters.is_none());
    assert!(table.schema().is_none());
}

#[test]
fn schema_probe_asks_for_zero_rows() {
    let table = cats_table();
    let probe = table.schema_request().unwrap();
    assert_eq!(probe.dataset_id, "D");
    assert_eq!(probe.query, "cats");
    assert_eq!(
        probe.scan_parameters,
        Some(ScanParameters { limit_offset: None, limit_len: Some(0) })
    );
    assert!(ScanParameters::schema_only().limit_len == Some(0));
}

#[test]
fn schema_is_cached_after_the_probe() {
    let mut table = cats_table();
    assert!(table.schema_request().is_some());
    table.fetch_schema(response_with(&batch(0, 0))).unwrap();
    assert_eq!(table.schema().unwrap(), &results_schema());
    // A second request for the schema needs no probe.
    assert!(table.schema_request().is_none());
    assert_eq!(table.schema().unwrap(), &results_schema());
}

#[test]
fn probe_reads_only_the_first_message() {
    let schema = SearchResultsTableProvider::schema_from_first(response_with(&batch(0, 4))).unwrap();
    assert_eq!(schema, results_schema());
}

#[test]
fn probe_without_payload_is_missing_payload() {
    let mut table = cats_table();
    let r = table.fetch_schema(response_without_payload());
    assert!(matches!(r, Err(TableError::MissingPayload)));
    assert!(table.schema().is_none());
    assert!(table.schema_request().is_some());
}

#[test]
fn empty_probe_stream_is_empty_stream() {
    let mut table = cats_table();
    let r = table.fetch_schema(None);
    assert!(matches!(r, Err(TableError::EmptyStream)));
    assert!(table.schema().is_none());
}

#[test]
fn broken_probe_stream_is_transport_error() {
    let mut table = cats_table();
    let r = table.fetch_schema(Some(Err("connection reset".to_owned())));
    match r {
        Err(TableError::Transport(m)) => assert_eq!(m, "connection reset"),
        other => panic!("unexpected {other:?}"),
    }
}

#[test]
fn undecodable_probe_is_decode_error() {
    let mut table = cats_table();
    match table.fetch_schema(undecodable("bad IPC")) {
        Err(TableError::Decode(m)) => assert_eq!(m, "bad IPC"),
        other => panic!("unexpected {other:?}"),
    }
    assert!(table.schema().is_none());
}

#[test]
fn probe_caches_the_first_message_schema() {
    let mut table = cats_table();
    let other = Arc::new(Schema::new(vec![Field::new("x", DataType::Int64, false)]));
    let first = Some(Ok(SearchDatasetResponse {
        data: Some(Ok(DecodedPart { schema: other.clone(), batch: DecodedBatch { batch: batch(0, 0) } })),
    }));
    table.fetch_schema(first).unwrap();
    assert_eq!(table.schema().unwrap(), &other);
}

#[test]
fn process_response_hands_out_the_decoded_batch() {
    let table = cats_table();
    let b = table
        .process_response(SearchDatasetResponse { data: Some(Ok(decoded(batch(7, 5)))) })
        .unwrap();
    assert_eq!(b.batch.num_rows(), 5);
    assert_eq!(b.batch, batch(7, 5));
    assert!(matches!(
        table.process_response(SearchDatasetResponse { data: None }),
        Err(TableError::MissingPayload)
    ));
    match table.process_response(SearchDatasetResponse { data: Some(Err("truncated".to_owned())) }) {
        Err(TableError::Decode(m)) => assert_eq!(m, "truncated"),
        other => panic!("unexpected {other:?}"),
    }
}

#[test]
fn end_to_end_scan_yields_three_batches() {
    let mut table = cats_table();
    let probe = table.schema_request().unwrap();
    assert_eq!(probe.scan_parameters.unwrap().limit_len, Some(0));
    table.fetch_schema(response_with(&batch(0, 0))).unwrap();

    let items = vec![
        response_with(&batch(0, 10)),
        response_with(&batch(10, 10)),
        response_with(&batch(20, 3)),
    ];
    let (batches, err, pulled) = run_scan(&table, items);
    assert!(err.is_none());
    let rows: Vec<usize> = batches.iter().map(|b| b.num_rows()).collect();
    assert_eq!(rows, vec![10, 10, 3]);
    assert_eq!(rows.iter().sum::<usize>(), 23);
    assert_eq!(batches, vec![batch(0, 10), batch(10, 10), batch(20, 3)]);
    assert_eq!(pulled, 4);

    assert!(table.schema_request().is_none());
    assert_eq!(table.schema().unwrap(), &results_schema());
}

#[test]
fn end_to_end_scan_stops_at_missing_payload() {
    let mut table = cats_table();
    table.fetch_schema(response_with(&batch(0, 0))).unwrap();
    let items = vec![
        response_with(&batch(0, 10)),
        response_without_payload(),
        response_with(&batch(20, 3)),
    ];
    let (batches, err, pulled) = run_scan(&table, items);
    assert_eq!(batches, vec![batch(0, 10)]);
    assert!(matches!(err, Some(TableError::MissingPayload)));
    assert_eq!(pulled, 2);
}

#[test]
fn missing_payload_closes_the_scan() {
    let table = cats_table();
    let mut scan = BatchSequence::new();
    scan.open(&table);
    assert!(scan.next_batch(&table, response_with(&batch(0, 2))).unwrap().is_ok());
    let r = scan.next_batch(&table, response_without_payload());
    assert!(matches!(r, Some(Err(TableError::MissingPayload))));
    assert_eq!(scan.phase(), ScanPhase::Closed);
    assert!(!scan.wants_next());
    assert_eq!(scan.yielded(), 1);
}

#[test]
fn two_scans_yield_the_same_batches() {
    let table = cats_table();
    let stream = || {
        vec![
            response_with(&batch(0, 10)),
            response_with(&batch(10, 10)),
            response_with(&batch(20, 3)),
        ]
    };
    let first = run_scan(&table, stream());
    let second = run_scan(&table, stream());
    assert_eq!(first.0, vec![batch(0, 10), batch(10, 10), batch(20, 3)]);
    assert_eq!(first.0, second.0);
    assert!(first.1.is_none() && second.1.is_none());

    let mut a = BatchSequence::new();
    let mut b = BatchSequence::new();
    let ra = a.open(&table);
    a.next_batch(&table, response_with(&batch(0, 1)));
    let rb = b.open(&table);
    assert_eq!(ra.dataset_id, rb.dataset_id);
    assert_eq!(ra.query, rb.query);
    assert_eq!(ra.scan_parameters, rb.scan_parameters);
    assert_eq!(a.yielded(), 1);
    assert_eq!(b.yielded(), 0);
}

#[test]
fn releasing_a_partial_scan_closes_its_stream() {
    let table = cats_table();
    let mut fresh = BatchSequence::new();
    assert!(!fresh.release());
    let mut scan = BatchSequence::new();
    scan.open(&table);
    scan.next_batch(&table, response_with(&batch(0, 10)));
    assert!(scan.release());
    assert_eq!(scan.phase(), ScanPhase::Closed);
    assert!(!scan.wants_next());
    assert!(!scan.release());
}

#[test]
fn exhausted_scan_needs_no_release() {
    let table = cats_table();
    let mut scan = BatchSequence::new();
    scan.open(&table);
    assert!(scan.next_batch(&table, None).is_none());
    assert!(!scan.release());
}

#[test]
fn transport_failure_ends_the_scan() {
    let table = cats_table();
    let mut scan = BatchSequence::new();
    scan.open(&table);
    let r = scan.next_batch(&table, Some(Err("stream reset".to_owned())));
    assert!(matches!(r, Some(Err(TableError::Transport(m))) if m == "stream reset"));
    assert!(!scan.wants_next());

    let mut other = BatchSequence::new();
    other.open(&table);
    assert!(matches!(other.fail("refused".to_owned()), TableError::Transport(m) if m == "refused"));
    assert_eq!(other.phase(), ScanPhase::Closed);
}
