use positioning::coordinate::GeoCoordinate;
use positioning::coordinate::GeoCoordinateType;
use positioning::coordinate::COORDINATE_EPSILON_E7;
use positioning::errors::PositioningError;

fn coord(lat_e7: i64, lon_e7: i64) -> GeoCoordinate {
    GeoCoordinate::new(lat_e7, lon_e7, None)
}

fn round_m(mm: i64) -> i64 {
    (mm + 500) / 1000
}

#[test]
fn coordinate_test_default() {
    let d = GeoCoordinate::default();
    assert!(d.approx_eq(
        &GeoCoordinate::new(i64::MIN, i64::MIN, None),
        COORDINATE_EPSILON_E7
    ));
}

#[test]
fn test_coordinate_type() {
    assert_eq!(
        GeoCoordinate::default().coordinate_type(),
        GeoCoordinateType::InvalidCoordinate
    );
    assert_eq!(
        coord(600000000, 300000000).coordinate_type(),
        GeoCoordinateType::Coordinate2D
    );
    assert_eq!(
        GeoCoordinate::new(600000000, 300000000, Some(10000)).coordinate_type(),
        GeoCoordinateType::Coordinate3D
    );
}

#[test]
fn test_distance_to() {
    let t = coord(600000000, 300000000);
    assert_eq!(round_m(t.distance_to(&coord(600000000, 310000000)).unwrap()), 55597);
    assert_eq!(round_m(t.distance_to(&coord(600000000, 290000000)).unwrap()), 55597);
    assert_eq!(round_m(t.distance_to(&coord(590000000, 290000000)).unwrap()), 124694);
    assert_eq!(round_m(t.distance_to(&coord(590000000, 300000000)).unwrap()), 111195);
}

#[test]
fn test_azimuth_to() {
    let t = coord(600000000, 300000000);
    let a1 = t.azimuth_to(&coord(600000000, 310000000)).unwrap();
    assert!((a1 - 895669860).abs() <= 1000, "azimuth east was {a1}");
    let a2 = t.azimuth_to(&coord(600000000, 290000000)).unwrap();
    assert!((a2 - 2704330000).abs() <= 1000, "azimuth west was {a2}");
    let a3 = t.azimuth_to(&coord(590000000, 290000000)).unwrap();
    assert!((a3 - 2073412600).abs() <= 1000, "azimuth south-west was {a3}");
    let a4 = t.azimuth_to(&coord(590000000, 300000000)).unwrap();
    assert_eq!(a4, 1800000000);
}

#[test]
fn test_at_distance_and_azimuth() {
    let test_coord = coord(600000000, 300000000);
    let d: Vec<i64> = vec![10000000, -10000000, 55600000, -43400000];
    let az: Vec<i64> = vec![0, 900000000, 1800000000, 2700000000, 3600000000];
    let eps = COORDINATE_EPSILON_E7;

    let cases: Vec<(i64, i64, i64, i64)> = vec![
        (d[0], az[0], 600899321, 300000000),
        (d[0], az[1], 599998778, 301798637),
        (d[0], az[2], 599100679, 300000000),
        (d[0], az[3], 599998778, 298201363),
        (d[0], az[4], 600899321, 300000000),
        (d[1], az[0], 599100679, 300000000),
        (d[1], az[1], 599998778, 298201363),
        (d[1], az[2], 600899321, 300000000),
        (d[1], az[3], 599998778, 301798637),
        (d[1], az[4], 599100679, 300000000),
        (d[2], az[0], 605000222, 300000000),
        (d[2], az[1], 599962212, 309999683),
        (d[2], az[2], 594999778, 300000000),
        (d[2], az[3], 599962212, 290000317),
        (d[2], az[4], 605000222, 300000000),
        (d[3], az[0], 596096949, 300000000),
        (d[3], az[1], 599976975, 292194259),
        (d[3], az[2], 603903051, 300000000),
        (d[3], az[3], 599976975, 307805741),
    ];
    for (dist, azim, exp_lat, exp_lon) in cases {
        let got = test_coord.at_distance_and_azimuth(dist, azim).unwrap();
        let want = coord(exp_lat, exp_lon);
        assert!(
            got.approx_eq(&want, eps),
            "projection of {dist} mm at {azim}: got ({}, {}), wanted ({exp_lat}, {exp_lon})",
            got.latitude_e7,
            got.longitude_e7
        );
    }
}

#[test]
fn test_distance_symmetry_cases() {
    let pairs = vec![
        (coord(600000000, 300000000), coord(590000000, 290000000)),
        (coord(-377000000, 1449000000), coord(512000000, -1220000000)),
        (coord(900000000, 0), coord(-900000000, 0)),
        (coord(10000001, -1799999999), coord(-10000001, 1799999999)),
    ];
    for (a, b) in pairs {
        assert_eq!(a.distance_to(&b).unwrap(), b.distance_to(&a).unwrap());
    }
}

#[test]
fn test_azimuth_range() {
    let points = vec![
        coord(600000000, 300000000),
        coord(-600000000, -300000000),
        coord(900000000, 0),
        coord(0, 1800000000),
        coord(-900000000, -1800000000),
        coord(1, -1),
    ];
    for a in &points {
        for b in &points {
            let az = a.azimuth_to(b).unwrap();
            assert!((0..3600000000).contains(&az), "azimuth {az} out of range");
        }
    }
}

#[test]
fn test_round_trip_distance() {
    let a = coord(600000000, 300000000);
    for (d, az) in [
        (10000000i64, 0i64),
        (55600000, 900000000),
        (43400000, 2137000000),
        (0, 450000000),
    ] {
        let b = a.at_distance_and_azimuth(d, az).unwrap();
        assert!(b.valid());
        let back = b.distance_to(&a).unwrap();
        assert!((back - d).abs() <= 20, "round trip of {d} mm came back as {back} mm");
    }
}

#[test]
fn test_at_distance_carries_altitude() {
    let a = GeoCoordinate::new(600000000, 300000000, Some(123456));
    let b = a.at_distance_and_azimuth(10000000, 0).unwrap();
    assert_eq!(b.altitude_mm, Some(123456));
}

#[test]
fn test_default_is_invalid_and_self_equal() {
    let d = GeoCoordinate::default();
    assert!(!d.valid());
    assert!(d.approx_eq(&GeoCoordinate::default(), COORDINATE_EPSILON_E7));
    assert!(!d.approx_eq(&coord(0, 0), COORDINATE_EPSILON_E7));
    assert!(!coord(0, 0).approx_eq(&d, COORDINATE_EPSILON_E7));
}

#[test]
fn test_approx_eq_tolerance_edges() {
    let a = coord(100, 200);
    assert!(a.approx_eq(&coord(103, 197), 3));
    assert!(!a.approx_eq(&coord(104, 200), 3));
    assert!(!a.approx_eq(&coord(100, 204), 3));
    let with_alt = GeoCoordinate::new(100, 200, Some(50));
    assert!(!with_alt.approx_eq(&a, 3));
    assert!(!a.approx_eq(&with_alt, 3));
    assert!(with_alt.approx_eq(&GeoCoordinate::new(100, 200, Some(53)), 3));
    assert!(!with_alt.approx_eq(&GeoCoordinate::new(100, 200, Some(54)), 3));
}

#[test]
fn test_invalid_operands_are_rejected() {
    let good = coord(600000000, 300000000);
    let bad = coord(900000001, 0);
    match good.distance_to(&bad) {
        Err(PositioningError::InvalidCoordinate(c)) => {
            assert_eq!(c.latitude_e7, 900000001);
        }
        other => panic!("wanted the invalid-coordinate error, got {other:?}"),
    }
    match bad.distance_to(&good) {
        Err(PositioningError::InvalidCoordinate(c)) => {
            assert_eq!(c.latitude_e7, 900000001);
        }
        other => panic!("wanted the invalid-coordinate error, got {other:?}"),
    }
    match bad.azimuth_to(&good) {
        Err(PositioningError::InvalidCoordinate(c)) => {
            assert_eq!(c.latitude_e7, 900000001);
        }
        other => panic!("wanted the invalid-coordinate error, got {other:?}"),
    }
    match coord(0, -1800000001).at_distance_and_azimuth(1000, 0) {
        Err(PositioningError::InvalidCoordinate(c)) => {
            assert_eq!(c.longitude_e7, -1800000001);
        }
        other => panic!("wanted the invalid-coordinate error, got {other:?}"),
    }
}

#[test]
fn test_azimuth_cardinal_exactness() {
    let a = coord(600000000, 300000000);
    // Due north and due south along a meridian are exact.
    assert_eq!(a.azimuth_to(&coord(650000000, 300000000)).unwrap(), 0);
    assert_eq!(a.azimuth_to(&coord(590000000, 300000000)).unwrap(), 1800000000);
}
