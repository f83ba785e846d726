use positioning::coordinate::GeoCoordinate;
use positioning::errors::PositioningError;
use positioning::path::GeoPath;
use positioning::path::GeoPathLengthType;

fn coord(lat_e7: i64, lon_e7: i64) -> GeoCoordinate {
    GeoCoordinate::new(lat_e7, lon_e7, None)
}

#[test]
fn test_path_add_and_size() {
    let mut p = GeoPath::default();
    assert_eq!(p.size(), 0);
    p.add(coord(600000000, 300000000)).unwrap();
    p.add(coord(600000000, 310000000)).unwrap();
    assert_eq!(p.size(), 2);
    match p.add(coord(900000001, 0)) {
        Err(PositioningError::InvalidCoordinate(c)) => assert_eq!(c.latitude_e7, 900000001),
        other => panic!("wanted the invalid-coordinate error, got {other:?}"),
    }
    assert_eq!(p.size(), 2);
}

#[test]
fn test_path_insert_at_remove_replace() {
    let mut p = GeoPath::new(&vec![coord(10, 10), coord(30, 30)]);
    p.insert(1, coord(20, 20)).unwrap();
    assert_eq!(p.size(), 3);
    assert_eq!(p.at(1).unwrap().latitude_e7, 20);
    match p.insert(5, coord(40, 40)) {
        Err(PositioningError::IndexOutOfBounds(5, 3)) => {}
        other => panic!("wanted the out-of-bounds error, got {other:?}"),
    }
    match p.insert(0, coord(-900000001, 0)) {
        Err(PositioningError::InvalidCoordinate(c)) => assert_eq!(c.latitude_e7, -900000001),
        other => panic!("wanted the invalid-coordinate error, got {other:?}"),
    }
    match p.at(3) {
        Err(PositioningError::IndexOutOfBounds(3, 3)) => {}
        other => panic!("wanted the out-of-bounds error, got {other:?}"),
    }
    p.replace(1, coord(25, 25)).unwrap();
    assert_eq!(p.at(1).unwrap().latitude_e7, 25);
    match p.replace(3, coord(0, 0)) {
        Err(PositioningError::IndexOutOfBounds(3, 3)) => {}
        other => panic!("wanted the out-of-bounds error, got {other:?}"),
    }
    match p.replace(0, coord(0, 1800000001)) {
        Err(PositioningError::InvalidCoordinate(c)) => assert_eq!(c.longitude_e7, 1800000001),
        other => panic!("wanted the invalid-coordinate error, got {other:?}"),
    }
    p.remove(1).unwrap();
    assert_eq!(p.size(), 2);
    assert_eq!(p.at(1).unwrap().latitude_e7, 30);
    match p.remove(2) {
        Err(PositioningError::IndexOutOfBounds(2, 2)) => {}
        other => panic!("wanted the out-of-bounds error, got {other:?}"),
    }
}

#[test]
fn test_path_contains_and_clear() {
    let mut p = GeoPath::new(&vec![coord(100, 200), coord(300, 400)]);
    assert!(p.contains(coord(100, 200)));
    // Within the 3e-7 degree tolerance still counts.
    assert!(p.contains(coord(103, 197)));
    assert!(!p.contains(coord(104, 200)));
    p.clear();
    assert_eq!(p.size(), 0);
    assert!(!p.contains(coord(100, 200)));
}

#[test]
fn test_path_clone() {
    let p = GeoPath::new(&vec![coord(10, 20), coord(30, 40)]);
    let q = p.clone();
    assert_eq!(q.size(), 2);
    assert_eq!(q.at(0).unwrap().latitude_e7, 10);
    assert_eq!(q.at(1).unwrap().longitude_e7, 40);
}

#[test]
fn test_path_accessors() {
    let coords = vec![coord(10, 20), coord(30, 40)];
    let p = GeoPath::new(&coords);
    assert_eq!(p.path().len(), 2);
    assert_eq!(p.path()[1].longitude_e7, 40);
    let mut q = GeoPath::default();
    q.set_path(vec![coord(1, 2)]);
    assert_eq!(q.size(), 1);
    assert_eq!(q.at(0).unwrap().longitude_e7, 2);
}

#[test]
fn test_path_length() {
    let empty = GeoPath::default();
    assert_eq!(empty.length(0, 10, GeoPathLengthType::NoLoop).unwrap(), 0);

    let p = GeoPath::new(&vec![
        coord(600000000, 300000000),
        coord(600000000, 310000000),
    ]);
    // One 55597.010 m segment; the upper index is clamped to the last element.
    assert_eq!(p.length(0, 5, GeoPathLengthType::NoLoop).unwrap(), 55597010);
    // Closing the loop walks the same segment back.
    assert_eq!(p.length(0, 5, GeoPathLengthType::ClosedLoop).unwrap(), 111194020);
    // A closed loop from an out-of-bounds start index is rejected.
    match p.length(2, 5, GeoPathLengthType::ClosedLoop) {
        Err(PositioningError::IndexOutOfBounds(2, 2)) => {}
        other => panic!("wanted the out-of-bounds error, got {other:?}"),
    }
    // An invalid element smuggled in through set_path fails the computation.
    let mut bad = GeoPath::default();
    bad.set_path(vec![coord(600000000, 300000000), coord(900000001, 0)]);
    match bad.length(0, 5, GeoPathLengthType::NoLoop) {
        Err(PositioningError::InvalidCoordinate(c)) => assert_eq!(c.latitude_e7, 900000001),
        other => panic!("wanted the invalid-coordinate error, got {other:?}"),
    }
}

#[test]
fn test_path_bounding_georectangle() {
    let p = GeoPath::new(&vec![
        coord(600000000, 300000000),
        coord(590000000, 290000000),
        coord(610000000, 310000000),
    ]);
    let r = p.bounding_georectangle();
    assert_eq!(r.top_left().latitude_e7, 610000000);
    assert_eq!(r.top_left().longitude_e7, 290000000);
    assert_eq!(r.bottom_right().latitude_e7, 590000000);
    assert_eq!(r.bottom_right().longitude_e7, 310000000);
    assert!(!GeoPath::default().bounding_georectangle().valid());
}

#[test]
fn test_path_translate() {
    let mut p = GeoPath::new(&vec![coord(100000000, 200000000), coord(880000000, 1750000000)]);
    p.translate(50000000, 100000000);
    assert_eq!(p.at(0).unwrap().latitude_e7, 150000000);
    assert_eq!(p.at(0).unwrap().longitude_e7, 300000000);
    // The second point clamps at the latitude and longitude bounds.
    assert_eq!(p.at(1).unwrap().latitude_e7, 900000000);
    assert_eq!(p.at(1).unwrap().longitude_e7, 1800000000);

    let q = GeoPath::new(&vec![coord(0, 0)]).translated(-10, 20);
    assert_eq!(q.at(0).unwrap().latitude_e7, -10);
    assert_eq!(q.at(0).unwrap().longitude_e7, 20);
    assert_eq!(q.size(), 1);
}
