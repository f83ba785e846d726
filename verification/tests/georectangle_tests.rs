use positioning::coordinate::GeoCoordinate;
use positioning::coordinate::COORDINATE_EPSILON_E7;
use positioning::errors::PositioningError;
use positioning::georectangle::GeoRectangle;

fn coord(lat_e7: i64, lon_e7: i64) -> GeoCoordinate {
    GeoCoordinate::new(lat_e7, lon_e7, None)
}

fn rect(tl_lat: i64, tl_lon: i64, br_lat: i64, br_lon: i64) -> GeoRectangle {
    GeoRectangle::new(coord(tl_lat, tl_lon), coord(br_lat, br_lon))
}

#[test]
fn georectangle_test_default() {
    let rect = GeoRectangle::default();
    assert!(rect.empty());
    assert!(!rect.valid());
    assert!(!rect.top_left().valid());
    assert!(!rect.bottom_right().valid());
}

#[test]
fn test_from_center_degrees() {
    let rect = GeoRectangle::from_center_degrees(coord(50000000, 50000000), 100000000, 100000000);
    assert!(rect.top_left().approx_eq(&coord(100000000, 0), COORDINATE_EPSILON_E7));
    assert!(rect.bottom_right().approx_eq(&coord(0, 100000000), COORDINATE_EPSILON_E7));
}

#[test]
fn test_from_center_meters() {
    let r = GeoRectangle::from_center_meters(coord(600000000, 300000000), 20000000, 20000000)
        .unwrap();
    assert_eq!(r.top_left().latitude_e7, 600898093);
    assert_eq!(r.top_left().longitude_e7, 298196459);
    assert_eq!(r.bottom_right().latitude_e7, 599099460);
    assert_eq!(r.bottom_right().longitude_e7, 301793761);
    match GeoRectangle::from_center_meters(coord(900000001, 0), 1000, 1000) {
        Err(PositioningError::InvalidCoordinate(c)) => assert_eq!(c.latitude_e7, 900000001),
        other => panic!("wanted the invalid-coordinate error, got {other:?}"),
    }
}

#[test]
fn test_corners_and_center() {
    let r = rect(100000000, 0, 0, 100000000);
    assert_eq!(r.bottom_left().latitude_e7, 0);
    assert_eq!(r.bottom_left().longitude_e7, 0);
    assert_eq!(r.top_right().latitude_e7, 100000000);
    assert_eq!(r.top_right().longitude_e7, 100000000);
    let c = r.center();
    assert_eq!(c.latitude_e7, 50000000);
    assert_eq!(c.longitude_e7, 50000000);
    // A rectangle wrapping the antimeridian has its center on the far side.
    let w = rect(100000000, 1700000000, 0, -1700000000);
    let wc = w.center();
    assert_eq!(wc.longitude_e7, -1800000000);
    // The center of an invalid rectangle is the default coordinate.
    assert!(!GeoRectangle::default().center().valid());
}

#[test]
fn test_contains() {
    let r = rect(100000000, 0, 0, 100000000);
    assert!(r.contains(&coord(50000000, 50000000)).unwrap());
    assert!(r.contains(&coord(100000000, 0)).unwrap());
    assert!(!r.contains(&coord(100000001, 50000000)).unwrap());
    assert!(!r.contains(&coord(-1, 50000000)).unwrap());
    assert!(!r.contains(&coord(50000000, -1)).unwrap());
    assert!(!r.contains(&coord(50000000, 100000001)).unwrap());
}

#[test]
fn test_contains_wrapped() {
    // Crosses the antimeridian: left longitude 170, right longitude -170.
    let r = rect(100000000, 1700000000, 0, -1700000000);
    assert!(r.contains(&coord(50000000, 1800000000)).unwrap());
    assert!(r.contains(&coord(50000000, -1800000000)).unwrap());
    assert!(r.contains(&coord(50000000, 1750000000)).unwrap());
    assert!(r.contains(&coord(50000000, -1750000000)).unwrap());
    assert!(!r.contains(&coord(50000000, 0)).unwrap());
    assert!(!r.contains(&coord(50000000, 1699999999)).unwrap());
}

#[test]
fn test_contains_pole_rows() {
    let north = rect(900000000, 100000000, 800000000, 200000000);
    // The whole latitude-90 row counts as inside when the top edge touches it.
    assert!(north.contains(&coord(900000000, -1500000000)).unwrap());
    assert!(!north.contains(&coord(850000000, -1500000000)).unwrap());
    let south = rect(-800000000, 100000000, -900000000, 200000000);
    assert!(south.contains(&coord(-900000000, 0)).unwrap());
}

#[test]
fn test_contains_errors() {
    let bad = GeoRectangle::default();
    match bad.contains(&coord(0, 0)) {
        Err(PositioningError::InvalidCoordinate(c)) => {
            assert_eq!(c.latitude_e7, i64::MIN);
        }
        other => panic!("wanted the invalid-coordinate error, got {other:?}"),
    }
    let good = rect(100000000, 0, 0, 100000000);
    match good.contains(&coord(0, 1800000001)) {
        Err(PositioningError::InvalidCoordinate(c)) => {
            assert_eq!(c.longitude_e7, 1800000001);
        }
        other => panic!("wanted the invalid-coordinate error, got {other:?}"),
    }
}

#[test]
fn test_contains_rect() {
    let outer = rect(200000000, 0, 0, 200000000);
    let inner = rect(150000000, 50000000, 50000000, 150000000);
    assert!(outer.contains_rect(&inner).unwrap());
    assert!(!inner.contains_rect(&outer).unwrap());
    let overlapping = rect(250000000, 50000000, 50000000, 150000000);
    assert!(!outer.contains_rect(&overlapping).unwrap());
}

#[test]
fn test_width_and_height() {
    let r = rect(100000000, 0, 0, 100000000);
    assert_eq!(r.width(), 100000000);
    assert_eq!(r.height(), 100000000);
    let wrapped = rect(100000000, 1700000000, 0, -1700000000);
    assert_eq!(wrapped.width(), 200000000);
    assert_eq!(GeoRectangle::default().width(), 0);
    assert_eq!(GeoRectangle::default().height(), 0);
}

#[test]
fn test_width_and_height_meters() {
    let r = rect(600000000, 300000000, 590000000, 310000000);
    assert_eq!(r.width_meters().unwrap(), 55597010);
    assert_eq!(r.height_meters().unwrap(), 111195080);
    match GeoRectangle::default().width_meters() {
        Err(PositioningError::InvalidGeorectangle(_)) => {}
        other => panic!("wanted the invalid-rectangle error, got {other:?}"),
    }
    match GeoRectangle::default().height_meters() {
        Err(PositioningError::InvalidGeorectangle(_)) => {}
        other => panic!("wanted the invalid-rectangle error, got {other:?}"),
    }
}

#[test]
fn test_intersects() {
    let a = rect(100000000, 0, 0, 100000000);
    let b = rect(150000000, 50000000, 50000000, 150000000);
    let c = rect(100000000, 120000000, 0, 150000000);
    let d = rect(300000000, 0, 200000000, 100000000);
    assert!(a.intersects(&b).unwrap());
    assert!(b.intersects(&a).unwrap());
    assert!(!a.intersects(&c).unwrap());
    assert!(!a.intersects(&d).unwrap());
    // One rectangle wraps the antimeridian.
    let w = rect(100000000, 1700000000, 0, -1700000000);
    assert!(w.intersects(&rect(100000000, 1600000000, 0, 1750000000)).unwrap());
    assert!(!w.intersects(&rect(100000000, 1000000000, 0, 1100000000)).unwrap());
    // Two wrapping rectangles always meet around the antimeridian.
    assert!(w.intersects(&rect(100000000, 1750000000, 0, -1750000000)).unwrap());
    // A shared edge at the north pole counts.
    let p1 = rect(900000000, 0, 800000000, 100000000);
    let p2 = rect(900000000, 1000000000, 850000000, 1100000000);
    assert!(p1.intersects(&p2).unwrap());
}

#[test]
fn test_intersects_errors() {
    let good = rect(100000000, 0, 0, 100000000);
    // An invalid receiver is reported first, then an invalid argument.
    match GeoRectangle::default().intersects(&good) {
        Err(PositioningError::InvalidGeorectangle(r)) => {
            assert_eq!(r.top_left().latitude_e7, i64::MIN);
        }
        other => panic!("wanted the invalid-rectangle error, got {other:?}"),
    }
    match good.intersects(&GeoRectangle::default()) {
        Err(PositioningError::InvalidGeorectangle(r)) => {
            assert_eq!(r.top_left().latitude_e7, i64::MIN);
        }
        other => panic!("wanted the invalid-rectangle error, got {other:?}"),
    }
}

#[test]
fn test_union() {
    let a = rect(100000000, 0, 0, 100000000);
    let b = rect(300000000, 200000000, 200000000, 300000000);
    let u = a.union(&b);
    assert_eq!(u.top_left().latitude_e7, 300000000);
    assert_eq!(u.top_left().longitude_e7, 0);
    assert_eq!(u.bottom_right().latitude_e7, 0);
    assert_eq!(u.bottom_right().longitude_e7, 300000000);
    // An invalid operand yields the other one.
    let v = GeoRectangle::default().union(&a);
    assert_eq!(v.top_left().latitude_e7, 100000000);
    assert!(!GeoRectangle::default().union(&GeoRectangle::default()).valid());
}

#[test]
fn test_intersection() {
    let a = rect(100000000, 0, 0, 100000000);
    let b = rect(50000000, 50000000, -50000000, 150000000);
    let i = a.intersection(&b);
    assert_eq!(i.top_left().latitude_e7, 50000000);
    assert_eq!(i.top_left().longitude_e7, 50000000);
    assert_eq!(i.bottom_right().latitude_e7, 0);
    assert_eq!(i.bottom_right().longitude_e7, 100000000);
    // Disjoint operands give the default, invalid rectangle.
    let far = rect(100000000, 1200000000, 0, 1300000000);
    assert!(!a.intersection(&far).valid());
    assert!(!a.intersection(&GeoRectangle::default()).valid());
    // One operand wraps: the overlap lands on the wider candidate piece.
    let w = rect(100000000, 1700000000, 0, -1700000000);
    let plain = rect(100000000, 1600000000, 0, 1800000000);
    let wi = w.intersection(&plain);
    assert_eq!(wi.top_left().longitude_e7, 1700000000);
    assert_eq!(wi.bottom_right().longitude_e7, 1800000000);
}

#[test]
fn test_translate() {
    let mut a = rect(100000000, 0, 0, 100000000);
    a.translate(50000000, 50000000);
    assert_eq!(a.top_left().latitude_e7, 150000000);
    assert_eq!(a.top_left().longitude_e7, 50000000);
    assert_eq!(a.bottom_right().latitude_e7, 50000000);
    assert_eq!(a.bottom_right().longitude_e7, 150000000);
    let b = rect(100000000, 0, 0, 100000000).translated(-50000000, 0);
    assert_eq!(b.top_left().latitude_e7, 50000000);
    assert_eq!(b.bottom_right().latitude_e7, -50000000);
    // Translating an invalid rectangle changes nothing.
    let mut d = GeoRectangle::default();
    d.translate(100, 100);
    assert!(!d.valid());
}

#[test]
fn test_extend() {
    let mut r = rect(100000000, 0, 0, 100000000);
    r.extend(&coord(200000000, 150000000)).unwrap();
    assert_eq!(r.top_left().latitude_e7, 200000000);
    assert_eq!(r.top_left().longitude_e7, 0);
    assert_eq!(r.bottom_right().latitude_e7, 0);
    assert_eq!(r.bottom_right().longitude_e7, 150000000);
    assert!(r.contains(&coord(200000000, 150000000)).unwrap());
    // A contained point is rejected.
    match r.extend(&coord(100000000, 100000000)) {
        Err(PositioningError::InvalidCoordinate(c)) => {
            assert_eq!(c.latitude_e7, 100000000);
        }
        other => panic!("wanted the already-contained error, got {other:?}"),
    }
    // Growing across the antimeridian moves the nearer edge.
    let mut w = rect(100000000, 1600000000, 0, 1700000000);
    w.extend(&coord(50000000, -1750000000)).unwrap();
    assert_eq!(w.top_left().longitude_e7, 1600000000);
    assert_eq!(w.bottom_right().longitude_e7, -1750000000);
    assert!(w.contains(&coord(50000000, 1800000000)).unwrap());
}

#[test]
fn test_from_list() {
    let pts = vec![coord(600000000, 300000000), coord(590000000, 290000000), coord(
        610000000,
        310000000,
    )];
    let r = GeoRectangle::from_list(&pts);
    assert_eq!(r.top_left().latitude_e7, 610000000);
    assert_eq!(r.top_left().longitude_e7, 290000000);
    assert_eq!(r.bottom_right().latitude_e7, 590000000);
    assert_eq!(r.bottom_right().longitude_e7, 310000000);
    assert!(!GeoRectangle::from_list(&vec![coord(1, 2)]).valid());
}

#[test]
fn test_set_corners() {
    let mut r = rect(100000000, 0, 0, 100000000);
    r.set_top_left(&coord(200000000, -100000000)).unwrap();
    assert_eq!(r.top_left().latitude_e7, 200000000);
    assert_eq!(r.top_left().longitude_e7, -100000000);
    r.set_bottom_right(&coord(-100000000, 200000000)).unwrap();
    assert_eq!(r.bottom_right().latitude_e7, -100000000);
    r.set_top_right(&coord(300000000, 250000000)).unwrap();
    assert_eq!(r.top_left().latitude_e7, 300000000);
    assert_eq!(r.bottom_right().longitude_e7, 250000000);
    r.set_bottom_left(&coord(-200000000, -150000000)).unwrap();
    assert_eq!(r.bottom_right().latitude_e7, -200000000);
    assert_eq!(r.top_left().longitude_e7, -150000000);
    // Invalid input is rejected and nothing changes.
    let before_lat = r.top_left().latitude_e7;
    match r.set_top_left(&coord(900000001, 0)) {
        Err(PositioningError::InvalidCoordinate(c)) => assert_eq!(c.latitude_e7, 900000001),
        other => panic!("wanted the invalid-coordinate error, got {other:?}"),
    }
    assert_eq!(r.top_left().latitude_e7, before_lat);
}

#[test]
fn test_set_width() {
    let mut r = rect(100000000, 40000000, 0, 60000000);
    r.set_width(200000000);
    assert_eq!(r.top_left().longitude_e7, -50000000);
    assert_eq!(r.bottom_right().longitude_e7, 150000000);
    assert_eq!(r.width(), 200000000);
    // Over a full turn clamps to the full longitude range.
    r.set_width(3600000001);
    assert_eq!(r.top_left().longitude_e7, -1800000000);
    assert_eq!(r.bottom_right().longitude_e7, 1800000000);
    // A negative width is a no-op.
    r.set_width(-1);
    assert_eq!(r.bottom_right().longitude_e7, 1800000000);
    assert!(r.valid());
}

#[test]
fn test_set_height() {
    let mut r = rect(100000000, 0, 0, 100000000);
    r.set_height(400000000);
    assert_eq!(r.top_left().latitude_e7, 250000000);
    assert_eq!(r.bottom_right().latitude_e7, -150000000);
    assert!(r.valid());
    // Over the north pole: the top edge clamps and the bottom mirrors.
    let mut p = rect(800000000, 0, 800000000, 100000000);
    p.set_height(400000000);
    assert_eq!(p.top_left().latitude_e7, 900000000);
    assert_eq!(p.bottom_right().latitude_e7, 700000000);
    assert!(p.valid());
    // Over the south pole, mirrored.
    let mut q = rect(-800000000, 0, -800000000, 100000000);
    q.set_height(400000000);
    assert_eq!(q.bottom_right().latitude_e7, -900000000);
    assert_eq!(q.top_left().latitude_e7, -700000000);
    assert!(q.valid());
    // An out-of-range height is a no-op.
    let mut s = rect(100000000, 0, 0, 100000000);
    s.set_height(1800000001);
    assert_eq!(s.top_left().latitude_e7, 100000000);
    s.set_height(-1);
    assert_eq!(s.top_left().latitude_e7, 100000000);
}

#[test]
fn test_set_center() {
    let mut r = rect(100000000, 0, 0, 100000000);
    r.set_center(&coord(300000000, 300000000)).unwrap();
    assert_eq!(r.top_left().latitude_e7, 350000000);
    assert_eq!(r.top_left().longitude_e7, 250000000);
    assert_eq!(r.bottom_right().latitude_e7, 250000000);
    assert_eq!(r.bottom_right().longitude_e7, 350000000);
    assert!(r.valid());
    // Near the pole the band mirrors instead of overflowing.
    let mut p = rect(100000000, 0, -100000000, 100000000);
    p.set_center(&coord(850000000, 0)).unwrap();
    assert_eq!(p.top_left().latitude_e7, 900000000);
    assert_eq!(p.bottom_right().latitude_e7, 800000000);
    assert!(p.valid());
    // A full-turn-wide rectangle keeps the full longitude range.
    let mut f = rect(100000000, -1800000000, 0, 1800000000);
    f.set_center(&coord(0, 900000000)).unwrap();
    assert_eq!(f.top_left().longitude_e7, -1800000000);
    assert_eq!(f.bottom_right().longitude_e7, 1800000000);
    // Errors: invalid center first, then invalid receiver.
    match f.set_center(&coord(0, 1800000001)) {
        Err(PositioningError::InvalidCoordinate(c)) => assert_eq!(c.longitude_e7, 1800000001),
        other => panic!("wanted the invalid-coordinate error, got {other:?}"),
    }
    let mut bad = GeoRectangle::default();
    match bad.set_center(&coord(0, 0)) {
        Err(PositioningError::InvalidGeorectangle(_)) => {}
        other => panic!("wanted the invalid-rectangle error, got {other:?}"),
    }
}

#[test]
fn test_empty() {
    assert!(GeoRectangle::default().empty());
    assert!(rect(50000000, 50000000, 50000000, 50000000).empty());
    // Corners within the 3e-7 degree tolerance still count as coincident.
    assert!(rect(50000002, 50000000, 50000000, 50000002).empty());
    assert!(!rect(50000004, 50000000, 50000000, 50000000).empty());
    assert!(!rect(100000000, 0, 0, 100000000).empty());
}

#[test]
fn test_contains_rect_invalid_corner() {
    // A valid receiver with an invalid corner of the argument: the error
    // names the first offending corner reached.
    let outer = rect(200000000, 0, 0, 200000000);
    let bad = GeoRectangle::new(coord(900000001, 50000000), coord(50000000, 150000000));
    match outer.contains_rect(&bad) {
        Err(PositioningError::InvalidCoordinate(c)) => {
            assert_eq!(c.latitude_e7, 900000001);
        }
        other => panic!("wanted the invalid-coordinate error, got {other:?}"),
    }
    // When an earlier corner is already outside, the scan stops before the
    // offending one and reports no error.
    let far = GeoRectangle::new(coord(900000000, 50000000), coord(50000000, 1800000001));
    assert_eq!(outer.contains_rect(&far).unwrap(), false);
}
