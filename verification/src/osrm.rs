//! The road-snap client: one map-matching request per batch, and what its
//! reply does to the batch. Whatever goes wrong, the batch goes on with the
//! coordinates it came with.

use crate::bumprecord::{BumpRecordInsert, BumpRecordView, Point};
use crate::double::Double;
use vstd::prelude::*;
use vstd::string::StringExecFns;

verus! {

/// Where the map-matching service lives.
pub const OSRM_ORIGIN: &'static str = "http://router.project-osrm.org";

/// The path of the matching endpoint, up to the coordinate list.
pub const MATCH_PATH: &'static str = "/match/v1/driving/";

/// The query that asks for GeoJSON geometries.
pub const MATCH_QUERY: &'static str = "?geometries=geojson";

/// The body of a successful matching reply.
#[derive(Clone, Debug, PartialEq, Eq)]
pub struct OSRMResponse {
    pub code: String,
    pub matchings: Vec<Matching>,
    pub tracepoints: Option<Vec<Tracepoint>>,
}

/// The body of a reply that reports an error.
#[derive(Clone, Debug, PartialEq, Eq)]
pub struct OSRMErrorResponse {
    pub code: String,
    pub message: String,
}

/// One matched route.
#[derive(Clone, Debug, PartialEq, Eq)]
pub struct Matching {
    pub confidence: Double,
    pub geometry: Geometry,
    pub legs: Vec<Leg>,
    pub weight_name: String,
    pub weight: Double,
    pub duration: Double,
    pub distance: Double,
}

/// A GeoJSON line string: longitude and latitude of each vertex.
#[derive(Clone, Debug, PartialEq, Eq)]
pub struct Geometry {
    pub geo_type: String,
    pub coordinates: Vec<[Double; 2]>,
}

/// The stretch of a route between two waypoints.
#[derive(Clone, Debug, PartialEq, Eq)]
pub struct Leg {
    pub summary: String,
    pub weight: Double,
    pub duration: Double,
    pub distance: Double,
    pub steps: Vec<Step>,
}

/// A manoeuvre within a leg. The service is asked for none.
#[derive(Clone, Copy, Debug, PartialEq, Eq, Structural)]
pub struct Step {}

/// The snapped position of one input coordinate: longitude, then latitude.
#[derive(Clone, Debug, PartialEq, Eq)]
pub struct Tracepoint {
    pub waypoint_index: usize,
    pub matchings_index: usize,
    pub alternatives_count: usize,
    pub hint: String,
    pub distance: Double,
    pub name: String,
    pub location: [Double; 2],
}

/// How the exchange with the map-matching service ended.
#[derive(Clone, Debug, PartialEq, Eq)]
pub enum SnapReply {
    /// The request could not be sent or no reply came.
    Unreachable,
    /// The service answered with a status other than success; the error body
    /// is kept where it could be decoded.
    Refused(Option<OSRMErrorResponse>),
    /// The service answered with success and a body that is no matching reply.
    Undecodable,
    /// The service answered with a matching reply.
    Matched(OSRMResponse),
}

/// The part of a reply that bears on a batch: the snapped positions, as pairs
/// of longitude and latitude, where the service sent any.
pub ghost enum SnapReplyView {
    Unreachable,
    Refused,
    Undecodable,
    Matched { tracepoints: Option<Seq<(Double, Double)>> },
}

/// The longitude and latitude of each tracepoint.
pub open spec fn locations(tracepoints: Seq<Tracepoint>) -> Seq<(Double, Double)> {
    tracepoints.map_values(|t: Tracepoint| (t.location@[0], t.location@[1]))
}

impl View for SnapReply {
    type V = SnapReplyView;

    open spec fn view(&self) -> SnapReplyView {
        match *self {
            SnapReply::Unreachable => SnapReplyView::Unreachable,
            SnapReply::Refused(_) => SnapReplyView::Refused,
            SnapReply::Undecodable => SnapReplyView::Undecodable,
            SnapReply::Matched(response) => SnapReplyView::Matched {
                tracepoints: match response.tracepoints {
                    Some(tracepoints) => Some(locations(tracepoints@)),
                    None => None,
                },
            },
        }
    }
}

/// The ways in which the map-matching service can fail a batch.
#[derive(Clone, Copy, Debug, PartialEq, Eq, Structural)]
pub enum SnapServiceError {
    /// The service could not be reached.
    Unreachable,
    /// The service answered with a status other than success.
    Rejected,
    /// The reply's body could not be used.
    BadBody,
}

/// A record moved to `location`; everything else, its reference system
/// included, stays.
pub open spec fn moved_to(record: BumpRecordView, location: (Double, Double)) -> BumpRecordView {
    BumpRecordView {
        location: Point { x: location.0, y: location.1, srid: record.location.srid },
        ..record
    }
}

/// Whether a reply carries one snapped position for each of `count` records.
pub open spec fn snaps(reply: SnapReplyView, count: nat) -> bool {
    reply matches SnapReplyView::Matched { tracepoints: Some(positions) } && positions.len()
        == count
}

/// What a reply makes of a batch. A reply with one position per record moves
/// each record to the position with its index. Any other reply leaves the
/// batch as it is.
pub open spec fn snapped(points: Seq<BumpRecordView>, reply: SnapReplyView) -> Seq<BumpRecordView> {
    if snaps(reply, points.len()) {
        Seq::new(points.len(), |i: int| moved_to(points[i], reply->tracepoints->0[i]))
    } else {
        points
    }
}

/// The failure, if any, that a reply to a request for `count` positions
/// amounts to. A matching reply without tracepoints is no failure.
pub open spec fn failure_of(reply: SnapReplyView, count: nat) -> Option<SnapServiceError> {
    match reply {
        SnapReplyView::Unreachable => Some(SnapServiceError::Unreachable),
        SnapReplyView::Refused => Some(SnapServiceError::Rejected),
        SnapReplyView::Undecodable => Some(SnapServiceError::BadBody),
        SnapReplyView::Matched { tracepoints: Some(positions) } => if positions.len() == count {
            None
        } else {
            Some(SnapServiceError::BadBody)
        },
        SnapReplyView::Matched { tracepoints: None } => None,
    }
}

/// Applies the service's reply to the batch it was asked about. The result
/// has one record per input record, in the same order; only locations change,
/// and only if the reply carries exactly one tracepoint per record.
pub fn snap_to_road(original_points: Vec<BumpRecordInsert>, reply: &SnapReply) -> (points: Vec<
    BumpRecordInsert,
>)
    ensures
        points.deep_view() == snapped(original_points.deep_view(), reply@),
        points.len() == original_points.len(),
{
    match reply {
        SnapReply::Matched(response) => {
            match &response.tracepoints {
                Some(tracepoints) => {
                    if tracepoints.len() == original_points.len() {
                        move_all(&original_points, tracepoints)
                    } else {
                        original_points
                    }
                },
                None => original_points,
            }
        },
        _ => original_points,
    }
}

/// Moves each record to the tracepoint with its index.
fn move_all(original_points: &Vec<BumpRecordInsert>, tracepoints: &Vec<Tracepoint>) -> (points:
    Vec<BumpRecordInsert>)
    requires
        tracepoints.len() == original_points.len(),
    ensures
        points.deep_view() == Seq::new(
            original_points.len() as nat,
            |i: int| moved_to(original_points.deep_view()[i], locations(tracepoints@)[i]),
        ),
{
    let mut points: Vec<BumpRecordInsert> = Vec::new();
    let mut i: usize = 0;
    while i < original_points.len()
        invariant
            i <= original_points.len(),
            tracepoints.len() == original_points.len(),
            points.len() == i,
            forall|k: int|
                0 <= k < i ==> (#[trigger] points[k])@ == moved_to(
                    original_points[k]@,
                    locations(tracepoints@)[k],
                ),
        decreases original_points.len() - i,
    {
        let original = &original_points[i];
        let tracepoint = &tracepoints[i];
        points.push(
            BumpRecordInsert {
                device_id: original.device_id.clone(),
                created_at: original.created_at,
                bumpiness_factor: original.bumpiness_factor,
                location: Point {
                    x: tracepoint.location[0],
                    y: tracepoint.location[1],
                    srid: original.location.srid,
                },
            },
        );
        i += 1;
    }
    points
}

/// Names the failure, if any, behind a reply to a request about `count`
/// records, for the log.
pub fn snap_failure(reply: &SnapReply, count: usize) -> (failure: Option<SnapServiceError>)
    ensures
        failure == failure_of(reply@, count as nat),
        failure is Some ==> !snaps(reply@, count as nat),
{
    match reply {
        SnapReply::Unreachable => Some(SnapServiceError::Unreachable),
        SnapReply::Refused(_) => Some(SnapServiceError::Rejected),
        SnapReply::Undecodable => Some(SnapServiceError::BadBody),
        SnapReply::Matched(response) => match &response.tracepoints {
            Some(tracepoints) => {
                if tracepoints.len() == count {
                    None
                } else {
                    Some(SnapServiceError::BadBody)
                }
            },
            None => None,
        },
    }
}

/// If the service cannot be reached, refuses the request or sends a body
/// that cannot be decoded, the batch comes back record for record as it went
/// in; so it does when a matching reply carries no tracepoints.
pub proof fn failed_snap_is_identity(points: Seq<BumpRecordView>, reply: SnapReplyView)
    requires
        reply is Unreachable || reply is Refused || reply is Undecodable || reply
            == (SnapReplyView::Matched { tracepoints: None }),
    ensures
        snapped(points, reply) == points,
{
}

/// Snapping keeps the batch's length and order and changes nothing but
/// locations: device, creation time, bumpiness and reference system of every
/// record pass through.
pub proof fn snap_alters_only_location(points: Seq<BumpRecordView>, reply: SnapReplyView, i: int)
    requires
        0 <= i < points.len(),
    ensures
        snapped(points, reply).len() == points.len(),
        snapped(points, reply)[i].device_id == points[i].device_id,
        snapped(points, reply)[i].created_at == points[i].created_at,
        snapped(points, reply)[i].bumpiness_factor == points[i].bumpiness_factor,
        snapped(points, reply)[i].location.srid == points[i].location.srid,
        snaps(reply, points.len()) ==> snapped(points, reply)[i].location.x
            == reply->tracepoints->0[i].0 && snapped(points, reply)[i].location.y
            == reply->tracepoints->0[i].1,
        !snaps(reply, points.len()) ==> snapped(points, reply)[i] == points[i],
{
}

/// Mathematical value of a [`CoordinateText`].
#[verifier::ext_equal]
pub ghost struct CoordinateTextView {
    pub lon: Seq<char>,
    pub lat: Seq<char>,
}

/// The decimal text of one coordinate pair, as it goes into a request.
#[derive(Clone, Debug, PartialEq, Eq)]
pub struct CoordinateText {
    pub lon: String,
    pub lat: String,
}

impl View for CoordinateText {
    type V = CoordinateTextView;

    open spec fn view(&self) -> CoordinateTextView {
        CoordinateTextView { lon: self.lon@, lat: self.lat@ }
    }
}

impl DeepView for CoordinateText {
    type V = CoordinateTextView;

    open spec fn deep_view(&self) -> CoordinateTextView {
        self@
    }
}

/// The coordinate list of a request: `lon,lat` for each pair, in order,
/// with `;` between pairs.
pub open spec fn coordinate_list(coordinates: Seq<CoordinateTextView>) -> Seq<char>
    decreases coordinates.len(),
{
    if coordinates.len() == 0 {
        Seq::empty()
    } else if coordinates.len() == 1 {
        coordinates[0].lon + seq![','] + coordinates[0].lat
    } else {
        coordinate_list(coordinates.drop_last()) + seq![';'] + coordinates.last().lon + seq![',']
            + coordinates.last().lat
    }
}

/// The address of the one request that asks the service to match a batch.
pub open spec fn match_url(coordinates: Seq<CoordinateTextView>) -> Seq<char> {
    OSRM_ORIGIN@ + MATCH_PATH@ + coordinate_list(coordinates) + MATCH_QUERY@
}

/// Builds the address of the matching request for a batch, from the decimal
/// text of each record's longitude and latitude.
pub fn match_request_url(coordinates: &Vec<CoordinateText>) -> (url: String)
    ensures
        url@ == match_url(coordinates.deep_view()),
{
    let ghost texts = coordinates.deep_view();
    let mut url = String::from_str(OSRM_ORIGIN);
    url.append(MATCH_PATH);
    let ghost head = url@;
    let mut i: usize = 0;
    while i < coordinates.len()
        invariant
            i <= coordinates.len(),
            texts == coordinates.deep_view(),
            head == OSRM_ORIGIN@ + MATCH_PATH@,
            url@ == head + coordinate_list(texts.take(i as int)),
        decreases coordinates.len() - i,
    {
        if i > 0 {
            url.append(";");
        }
        url.append(coordinates[i].lon.as_str());
        url.append(",");
        url.append(coordinates[i].lat.as_str());
        proof {
            reveal_strlit(";");
            reveal_strlit(",");
            let upto = texts.take(i as int + 1);
            assert(upto.drop_last() =~= texts.take(i as int));
        }
        i += 1;
    }
    assert(texts.take(i as int) =~= texts);
    url.append(MATCH_QUERY);
    url
}

} // verus!
