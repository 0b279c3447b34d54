use roadsense::bumprecord::Point;
use roadsense::bumps::{get_bumps, Bounds, BumpApiResponse, BumpRecord, InternalServerError, QueryOutcome};
use roadsense::double::Double;

fn degrees(value: f64) -> Double {
    Double::from_bits(value.to_bits())
}

#[test]
fn query_ring_is_the_closed_box() {
    let bounds = Bounds { north: degrees(10.0), south: degrees(0.0), east: degrees(10.0), west: degrees(0.0) };
    let wgs84 = Some(4326);
    assert_eq!(
        bounds.ring(),
        vec![
            Point::new(degrees(10.0), degrees(10.0), wgs84),
            Point::new(degrees(10.0), degrees(0.0), wgs84),
            Point::new(degrees(0.0), degrees(0.0), wgs84),
            Point::new(degrees(0.0), degrees(10.0), wgs84),
            Point::new(degrees(10.0), degrees(10.0), wgs84),
        ]
    );
}

#[test]
fn query_ring_puts_longitude_in_x_and_latitude_in_y() {
    let bounds = Bounds { north: degrees(46.0), south: degrees(45.0), east: degrees(9.5), west: degrees(9.0) };
    let ring = bounds.ring();
    assert_eq!(ring.len(), 5);
    assert_eq!(ring[0], Point::new(degrees(9.5), degrees(46.0), Some(4326)));
    assert_eq!(ring[2], Point::new(degrees(9.0), degrees(45.0), Some(4326)));
    assert_eq!(ring.first(), ring.last());
}

#[test]
fn found_rows_are_answered_as_data_without_a_message() {
    let rows = vec![
        BumpRecord {
            device_id: "a".to_string(),
            created_at: 1_700_000_000,
            bumpiness_factor: 4,
            location: Point::new(degrees(0.0), degrees(0.0), Some(4326)),
        },
        BumpRecord {
            device_id: "b".to_string(),
            created_at: 1_700_000_001,
            bumpiness_factor: 5,
            location: Point::new(degrees(5.0), degrees(5.0), Some(4326)),
        },
    ];
    assert_eq!(
        get_bumps(QueryOutcome::Rows(rows.clone())),
        Ok(BumpApiResponse { data: Some(rows), message: None })
    );
    assert_eq!(
        get_bumps(QueryOutcome::Rows(Vec::new())),
        Ok(BumpApiResponse { data: Some(Vec::new()), message: None })
    );
}

#[test]
fn failures_are_answered_as_internal_server_errors() {
    assert_eq!(
        get_bumps(QueryOutcome::Unavailable),
        Err(InternalServerError { message: "Failed to get database connection".to_string() })
    );
    assert_eq!(
        get_bumps(QueryOutcome::Failed),
        Err(InternalServerError { message: "Failed to retrieve bump records".to_string() })
    );
}
