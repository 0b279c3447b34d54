//! The read side's interface: the bounding box of a query, and the shape of
//! the answer.

use crate::bumprecord::{BumpRecordView, Point, WGS84_SRID};
use crate::double::Double;
use vstd::prelude::*;
use vstd::string::StringExecFns;

verus! {

/// A persisted bump record as the read side returns it.
#[derive(Clone, Debug, PartialEq, Eq)]
pub struct BumpRecord {
    pub device_id: String,
    pub created_at: i64,
    pub bumpiness_factor: i16,
    pub location: Point,
}

impl View for BumpRecord {
    type V = BumpRecordView;

    open spec fn view(&self) -> BumpRecordView {
        BumpRecordView {
            device_id: self.device_id@,
            created_at: self.created_at as int,
            bumpiness_factor: self.bumpiness_factor as int,
            location: self.location,
        }
    }
}

impl DeepView for BumpRecord {
    type V = BumpRecordView;

    open spec fn deep_view(&self) -> BumpRecordView {
        self@
    }
}

/// A bounding box in degrees.
#[derive(Clone, Copy, Debug, PartialEq, Eq, Structural)]
pub struct Bounds {
    pub north: Double,
    pub south: Double,
    pub east: Double,
    pub west: Double,
}

/// A corner of the query polygon: WGS84, longitude first.
pub open spec fn corner(lon: Double, lat: Double) -> Point {
    Point { x: lon, y: lat, srid: Some(WGS84_SRID) }
}

/// The ring of the query polygon: the four corners of the box, starting in
/// the north-east and going by south-east, south-west and north-west, closed
/// by the first corner.
pub open spec fn closed_ring(bounds: Bounds) -> Seq<Point> {
    seq![
        corner(bounds.east, bounds.north),
        corner(bounds.east, bounds.south),
        corner(bounds.west, bounds.south),
        corner(bounds.west, bounds.north),
        corner(bounds.east, bounds.north),
    ]
}

impl Bounds {
    /// The ring of the polygon that records are intersected with.
    pub fn ring(&self) -> (ring: Vec<Point>)
        ensures
            ring@ == closed_ring(*self),
    {
        let srid = Some(WGS84_SRID);
        let mut ring: Vec<Point> = Vec::new();
        ring.push(Point::new(self.east, self.north, srid));
        ring.push(Point::new(self.east, self.south, srid));
        ring.push(Point::new(self.west, self.south, srid));
        ring.push(Point::new(self.west, self.north, srid));
        ring.push(Point::new(self.east, self.north, srid));
        ring
    }
}

/// The query ring of any box is closed and has five vertices, all tagged
/// WGS84, the first four being the box's corners.
pub proof fn ring_is_closed(bounds: Bounds)
    ensures
        closed_ring(bounds).len() == 5,
        closed_ring(bounds).first() == closed_ring(bounds).last(),
        forall|i: int|
            0 <= i < 5 ==> (#[trigger] closed_ring(bounds)[i]).srid == Some(WGS84_SRID),
        forall|i: int|
            0 <= i < 5 ==> ({
                let vertex = #[trigger] closed_ring(bounds)[i];
                &&& (vertex.x == bounds.east || vertex.x == bounds.west)
                &&& (vertex.y == bounds.north || vertex.y == bounds.south)
            }),
{
}

/// The body of an answer: the records found, or a message.
#[derive(Clone, Debug, PartialEq, Eq)]
pub struct BumpApiResponse {
    pub data: Option<Vec<BumpRecord>>,
    pub message: Option<String>,
}

/// How the query against the store ended.
#[derive(Clone, Debug, PartialEq, Eq)]
pub enum QueryOutcome {
    /// The store handle could not be obtained.
    Unavailable,
    /// The store refused the query.
    Failed,
    /// The query ran and found these records.
    Rows(Vec<BumpRecord>),
}

/// An answer that reports a failure of the server.
#[derive(Clone, Debug, PartialEq, Eq)]
pub struct InternalServerError {
    pub message: String,
}

/// The answer to a bounding-box query. The rows found are returned as they
/// came, in storage order and with no message. A failure is answered with an
/// internal server error that says which step failed.
pub fn get_bumps(outcome: QueryOutcome) -> (answer: Result<BumpApiResponse, InternalServerError>)
    ensures
        match outcome {
            QueryOutcome::Rows(rows) => answer == Ok::<BumpApiResponse, InternalServerError>(
                BumpApiResponse { data: Some(rows), message: None },
            ),
            QueryOutcome::Unavailable => answer is Err && answer->Err_0.message@
                == "Failed to get database connection"@,
            QueryOutcome::Failed => answer is Err && answer->Err_0.message@
                == "Failed to retrieve bump records"@,
        },
{
    match outcome {
        QueryOutcome::Rows(rows) => Ok(BumpApiResponse { data: Some(rows), message: None }),
        QueryOutcome::Unavailable => Err(
            InternalServerError { message: String::from_str("Failed to get database connection") },
        ),
        QueryOutcome::Failed => Err(
            InternalServerError { message: String::from_str("Failed to retrieve bump records") },
        ),
    }
}

} // verus!
