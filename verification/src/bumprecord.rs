//! Bump records: what the spatial store holds for each telemetry message, and
//! the way of a flushed batch into the store.
//!
//! A batch is processed in three steps, each of which hands on what the next
//! one needs: [`process_batch`] turns the messages into rows and gives a
//! [`SnappingBatch`]; the reply of the map-matching service turns that into a
//! [`PersistingBatch`]; the store's report on the one insert made for it ends
//! the batch, as persisted or as discarded.

use crate::clock::{timestamp_storable, utc_round_trip};
use crate::double::Double;
use crate::message::{JsonMessage, JsonMessageView};
use crate::osrm::{snap_to_road, snapped, SnapReply, SnapReplyView};
use vstd::prelude::*;

verus! {

/// The spatial reference identifier of WGS84 longitude and latitude.
pub const WGS84_SRID: u32 = 4326;

/// A point, longitude in `x` and latitude in `y`, tagged with the spatial
/// reference system it is in.
#[derive(Clone, Copy, Debug, PartialEq, Eq, Structural)]
pub struct Point {
    pub x: Double,
    pub y: Double,
    pub srid: Option<u32>,
}

impl Point {
    /// The point with the given coordinates and reference system.
    pub fn new(x: Double, y: Double, srid: Option<u32>) -> (point: Point)
        ensures
            point == (Point { x, y, srid }),
    {
        Point { x, y, srid }
    }
}

/// One row to insert: a telemetry message as the store keeps it.
/// `created_at` is in whole seconds since the Unix epoch.
#[derive(Clone, Debug, PartialEq, Eq)]
pub struct BumpRecordInsert {
    pub device_id: String,
    pub created_at: i64,
    pub bumpiness_factor: i16,
    pub location: Point,
}

/// Mathematical value of a bump record.
#[verifier::ext_equal]
pub ghost struct BumpRecordView {
    pub device_id: Seq<char>,
    pub created_at: int,
    pub bumpiness_factor: int,
    pub location: Point,
}

impl View for BumpRecordInsert {
    type V = BumpRecordView;

    open spec fn view(&self) -> BumpRecordView {
        BumpRecordView {
            device_id: self.device_id@,
            created_at: self.created_at as int,
            bumpiness_factor: self.bumpiness_factor as int,
            location: self.location,
        }
    }
}

impl DeepView for BumpRecordInsert {
    type V = BumpRecordView;

    open spec fn deep_view(&self) -> BumpRecordView {
        self@
    }
}

/// The record of a message: same device, the message's epoch seconds as
/// creation time, same bumpiness, and the reported position as a WGS84 point.
pub open spec fn record_of(message: JsonMessageView) -> BumpRecordView {
    BumpRecordView {
        device_id: message.device_id,
        created_at: message.timestamp,
        bumpiness_factor: message.bumpiness,
        location: Point { x: message.lon, y: message.lat, srid: Some(WGS84_SRID) },
    }
}

/// The records of a batch, one per message and in the same order.
pub open spec fn records_of(batch: Seq<JsonMessageView>) -> Seq<BumpRecordView> {
    batch.map_values(|message: JsonMessageView| record_of(message))
}

/// Whether the store's calendar can hold the creation time of `message`.
pub open spec fn storable(message: JsonMessageView) -> bool {
    timestamp_storable(message.timestamp)
}

/// The position of the first message of `batch` that the store cannot date,
/// or the length of `batch` if there is none.
pub open spec fn first_unstorable(batch: Seq<JsonMessageView>) -> nat
    decreases batch.len(),
{
    if batch.len() == 0 {
        0
    } else if !storable(batch[0]) {
        0
    } else {
        1 + first_unstorable(batch.drop_first())
    }
}

/// Why a batch was not persisted. A failed batch is discarded as a whole.
#[derive(Clone, Copy, Debug, PartialEq, Eq, Structural)]
pub enum PersistenceError {
    /// The message at `index` carries a timestamp outside the store's calendar.
    TimestampOutOfRange { index: usize },
    /// The store refused the insert or could not be reached.
    StoreFailed,
    /// The store reported a number of rows other than the batch length.
    RowCountMismatch { expected: usize, inserted: usize },
}

impl BumpRecordInsert {
    /// The record of `message`, or `None` where the store's calendar cannot
    /// hold its timestamp.
    pub fn from_message(message: &JsonMessage) -> (record: Option<BumpRecordInsert>)
        ensures
            record is Some <==> storable(message@),
            record matches Some(r) ==> r@ == record_of(message@) && r.created_at
                == message.timestamp,
    {
        match utc_round_trip(message.timestamp) {
            Some(created_at) => Some(
                BumpRecordInsert {
                    device_id: message.device_id.clone(),
                    created_at,
                    bumpiness_factor: message.bumpiness,
                    location: Point::new(message.lon, message.lat, Some(WGS84_SRID)),
                },
            ),
            None => None,
        }
    }
}

/// What [`first_unstorable`] finds: every message before it can be dated, and
/// the message at it, if there is one, cannot.
pub proof fn first_unstorable_is_first(batch: Seq<JsonMessageView>)
    ensures
        first_unstorable(batch) <= batch.len(),
        forall|i: int| 0 <= i < first_unstorable(batch) ==> storable(#[trigger] batch[i]),
        first_unstorable(batch) < batch.len() ==> !storable(batch[first_unstorable(batch) as int]),
    decreases batch.len(),
{
    if batch.len() > 0 && storable(batch[0]) {
        let rest = batch.drop_first();
        first_unstorable_is_first(rest);
        assert forall|i: int| 0 <= i < first_unstorable(batch) implies storable(
            #[trigger] batch[i],
        ) by {
            if i > 0 {
                assert(batch[i] == rest[i - 1]);
            }
        }
    }
}

proof fn first_unstorable_found(batch: Seq<JsonMessageView>, at: int)
    requires
        0 <= at <= batch.len(),
        forall|i: int| 0 <= i < at ==> storable(#[trigger] batch[i]),
        at < batch.len() ==> !storable(batch[at]),
    ensures
        first_unstorable(batch) == at,
    decreases batch.len(),
{
    if batch.len() > 0 && at > 0 {
        let rest = batch.drop_first();
        assert forall|i: int| 0 <= i < at - 1 implies storable(#[trigger] rest[i]) by {
            assert(rest[i] == batch[i + 1]);
        }
        first_unstorable_found(rest, at - 1);
    }
}

/// A batch of rows that waits for the map-matching service.
#[derive(Debug, PartialEq, Eq)]
pub struct SnappingBatch {
    rows: Vec<BumpRecordInsert>,
}

/// A batch of rows that waits for the store.
#[derive(Debug, PartialEq, Eq)]
pub struct PersistingBatch {
    rows: Vec<BumpRecordInsert>,
}

impl View for SnappingBatch {
    type V = Seq<BumpRecordView>;

    closed spec fn view(&self) -> Seq<BumpRecordView> {
        self.rows.deep_view()
    }
}

impl View for PersistingBatch {
    type V = Seq<BumpRecordView>;

    closed spec fn view(&self) -> Seq<BumpRecordView> {
        self.rows.deep_view()
    }
}

/// Starts the processing of a flushed batch: one row per message, in order,
/// each tagged WGS84. Fails, for the whole batch, at the first message whose
/// timestamp the store's calendar cannot hold.
pub fn process_batch(records: &Vec<JsonMessage>) -> (prepared: Result<
    SnappingBatch,
    PersistenceError,
>)
    ensures
        prepared is Ok <==> first_unstorable(records.deep_view()) == records.len(),
        prepared matches Ok(batch) ==> batch@ == records_of(records.deep_view()) && batch@.len()
            == records.len() && forall|i: int|
            0 <= i < records.len() ==> (#[trigger] batch@[i]).created_at == records[i].timestamp,
        prepared matches Err(error) ==> error == (PersistenceError::TimestampOutOfRange {
            index: first_unstorable(records.deep_view()) as usize,
        }),
{
    let ghost batch = records.deep_view();
    let mut rows: Vec<BumpRecordInsert> = Vec::new();
    let mut i: usize = 0;
    while i < records.len()
        invariant
            i <= records.len(),
            batch == records.deep_view(),
            rows.len() == i,
            forall|k: int| 0 <= k < i ==> storable(#[trigger] batch[k]),
            forall|k: int| 0 <= k < i ==> (#[trigger] rows[k])@ == record_of(batch[k]),
        decreases records.len() - i,
    {
        match BumpRecordInsert::from_message(&records[i]) {
            Some(row) => {
                rows.push(row);
            },
            None => {
                proof {
                    first_unstorable_found(batch, i as int);
                }
                return Err(PersistenceError::TimestampOutOfRange { index: i });
            },
        }
        i += 1;
    }
    proof {
        first_unstorable_found(batch, i as int);
    }
    Ok(SnappingBatch { rows })
}

impl SnappingBatch {
    /// The rows whose coordinates go into the matching request.
    pub fn rows(&self) -> (rows: &Vec<BumpRecordInsert>)
        ensures
            rows.deep_view() == self@,
    {
        &self.rows
    }

    /// Takes the reply of the map-matching service and passes the batch on to
    /// the store: moved, row by row, to the tracepoints of a reply that has
    /// one for each row, and unchanged after any other reply.
    pub fn snapped(self, reply: &SnapReply) -> (next: PersistingBatch)
        ensures
            next@ == snapped(self@, reply@),
            next@.len() == self@.len(),
    {
        PersistingBatch { rows: snap_to_road(self.rows, reply) }
    }
}

impl PersistingBatch {
    /// The rows to write, in one insert.
    pub fn rows(&self) -> (rows: &Vec<BumpRecordInsert>)
        ensures
            rows.deep_view() == self@,
    {
        &self.rows
    }

    /// Takes the store's report on the insert and ends the batch. Success is
    /// the number of rows inserted, and is granted only when that number is
    /// the length of the batch; anything else discards the batch.
    pub fn finish(self, report: InsertReport) -> (outcome: Result<usize, PersistenceError>)
        ensures
            outcome == persisted(self@.len(), report),
            outcome matches Ok(count) ==> count == self@.len(),
    {
        insert_outcome(&self.rows, report)
    }
}

/// From the flushed messages to the rows handed to the store, with `reply`
/// being what the map-matching service said in between.
pub open spec fn rows_for_store(batch: Seq<JsonMessageView>, reply: SnapReplyView) -> Seq<
    BumpRecordView,
> {
    snapped(records_of(batch), reply)
}

/// Whatever the service replies, the store is handed one row per message, in
/// the order of the messages, and each row carries its message's device,
/// epoch seconds and bumpiness, and the WGS84 tag.
pub proof fn store_gets_one_row_per_message(
    batch: Seq<JsonMessageView>,
    reply: SnapReplyView,
    i: int,
)
    requires
        0 <= i < batch.len(),
    ensures
        rows_for_store(batch, reply).len() == batch.len(),
        rows_for_store(batch, reply)[i].device_id == batch[i].device_id,
        rows_for_store(batch, reply)[i].created_at == batch[i].timestamp,
        rows_for_store(batch, reply)[i].bumpiness_factor == batch[i].bumpiness,
        rows_for_store(batch, reply)[i].location.srid == Some(WGS84_SRID),
{
}

/// If the service is unreachable, the store is handed the coordinates that
/// the messages came with.
pub proof fn unreachable_service_changes_nothing(batch: Seq<JsonMessageView>)
    ensures
        rows_for_store(batch, SnapReplyView::Unreachable) == records_of(batch),
{
}

/// A batch that is reported as persisted was inserted in full: the count
/// that success carries is the number of rows handed to the store.
pub proof fn persisted_count_is_batch_length(batch_len: nat, report: InsertReport)
    ensures
        persisted(batch_len, report) matches Ok(count) ==> count == batch_len && report
            == InsertReport::Inserted(count),
        persisted(batch_len, report) is Ok <==> report == InsertReport::Inserted(
            batch_len as usize,
        ) && batch_len <= usize::MAX,
{
}

/// What the store reported for one insert: the number of rows written, or
/// that the insert failed.
#[derive(Clone, Copy, Debug, PartialEq, Eq, Structural)]
pub enum InsertReport {
    Inserted(usize),
    Failed,
}

/// The outcome of persisting a batch of `batch_len` rows: the row count, which
/// is the batch length, or the reason why the batch counts as not persisted.
pub open spec fn persisted(batch_len: nat, report: InsertReport) -> Result<usize, PersistenceError> {
    match report {
        InsertReport::Inserted(count) => if count == batch_len {
            Ok(count)
        } else {
            Err(
                PersistenceError::RowCountMismatch {
                    expected: batch_len as usize,
                    inserted: count,
                },
            )
        },
        InsertReport::Failed => Err(PersistenceError::StoreFailed),
    }
}

/// Judges the store's report on the single insert made for `batch`. Success
/// is the number of rows inserted, and is granted only when that number is
/// the length of the batch.
pub fn insert_outcome(batch: &Vec<BumpRecordInsert>, report: InsertReport) -> (outcome: Result<
    usize,
    PersistenceError,
>)
    ensures
        outcome == persisted(batch@.len(), report),
        outcome matches Ok(count) ==> count == batch@.len(),
{
    match report {
        InsertReport::Inserted(count) => {
            if count == batch.len() {
                Ok(count)
            } else {
                Err(PersistenceError::RowCountMismatch { expected: batch.len(), inserted: count })
            }
        },
        InsertReport::Failed => Err(PersistenceError::StoreFailed),
    }
}

} // verus!
