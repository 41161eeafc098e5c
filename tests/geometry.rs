use random_geojson::geometry::{Bounds, Crs, RandomGeometry, UNITS_PER_DEGREE, close_ring};

fn assert_coords_in_bounds(coords: &[i64], bounds: Bounds) {
    assert!(coords.len() == 2);
    let (lon, lat) = (coords[0], coords[1]);
    assert!(
        bounds.min_lon <= lon && lon <= bounds.max_lon,
        "Longitude {} out of bounds {:?}",
        lon,
        bounds
    );
    assert!(
        bounds.min_lat <= lat && lat <= bounds.max_lat,
        "Latitude {} out of bounds {:?}",
        lat,
        bounds
    );
}

fn assert_strictly_inside(coords: &[i64], bounds: Bounds) {
    assert_eq!(coords.len(), 2);
    assert!(bounds.min_lon <= coords[0] && coords[0] < bounds.max_lon);
    assert!(bounds.min_lat <= coords[1] && coords[1] < bounds.max_lat);
}

fn degrees(units: i64) -> f64 {
    units as f64 / UNITS_PER_DEGREE as f64
}

#[test]
fn test_crs_from_str_valid() {
    assert!(matches!("wgs84".parse::<Crs>(), Ok(Crs::WGS84)));
    assert!(matches!("4326".parse::<Crs>(), Ok(Crs::WGS84)));
    assert!(matches!("webmercator".parse::<Crs>(), Ok(Crs::WebMercator)));
    assert!(matches!("web_mercator".parse::<Crs>(), Ok(Crs::WebMercator)));
    assert!(matches!("3857".parse::<Crs>(), Ok(Crs::WebMercator)));
}

#[test]
fn test_crs_from_str_invalid() {
    let result = "unknown".parse::<Crs>();
    assert!(result.is_err());
}

#[test]
fn test_random_point_within_bounds() {
    let crs = Crs::WGS84;
    let bounds = crs.bounds();
    if let RandomGeometry::Point(coords) = RandomGeometry::random_point(&crs) {
        assert_coords_in_bounds(&coords, bounds);
    } else {
        panic!("Expected Point geometry");
    }
}

#[test]
fn test_random_linestring_within_bounds() {
    let crs = Crs::WebMercator;
    let bounds = crs.bounds();
    if let RandomGeometry::LineString(coords) = RandomGeometry::random_linestring(&crs) {
        assert!(coords.len() >= 2);
        for coord in coords {
            assert_coords_in_bounds(&coord, bounds);
        }
    } else {
        panic!("Expected LineString geometry");
    }
}

#[test]
fn test_random_polygon_within_bounds_and_closed() {
    let crs = Crs::WGS84;
    let bounds = crs.bounds();
    if let RandomGeometry::Polygon(rings) = RandomGeometry::random_polygon(&crs) {
        assert_eq!(rings.len(), 1);
        let ring = &rings[0];
        assert!(ring.len() >= 4);
        for coord in ring {
            assert_coords_in_bounds(coord, bounds);
        }
        assert_eq!(ring.first(), ring.last(), "Polygon ring is not closed");
    } else {
        panic!("Expected Polygon geometry");
    }
}

#[test]
fn parse_ignores_case_and_accepts_every_alias() {
    for name in ["WGS84", "wgs84", "Wgs84", "4326"] {
        assert!(matches!(name.parse::<Crs>(), Ok(Crs::WGS84)), "{}", name);
    }
    for name in ["WebMercator", "WEBMERCATOR", "web_mercator", "Web_Mercator", "3857"] {
        assert!(matches!(name.parse::<Crs>(), Ok(Crs::WebMercator)), "{}", name);
    }
}

#[test]
fn parse_failure_quotes_the_name() {
    let err = Crs::from_text("nonsense").unwrap_err();
    assert_eq!(err.message(), "Invalid argument: Invalid coordinate system: nonsense");
    let err = Crs::from_text("").unwrap_err();
    assert_eq!(err.message(), "Invalid argument: Invalid coordinate system: ");
}

#[test]
fn parse_from_folded_name() {
    assert!(matches!(Crs::from_folded("wgs84", "WGS84"), Ok(Crs::WGS84)));
    assert!(matches!(Crs::from_folded("3857", "3857"), Ok(Crs::WebMercator)));
    assert!(Crs::from_folded("WGS84", "WGS84").is_err());
}

#[test]
fn bounds_of_each_system() {
    assert_eq!(
        Crs::WGS84.bounds(),
        Bounds { min_lon: -18_000_000_000, max_lon: 18_000_000_000, min_lat: -9_000_000_000, max_lat: 9_000_000_000 }
    );
    assert_eq!(
        Crs::WebMercator.bounds(),
        Bounds { min_lon: -18_000_000_000, max_lon: 18_000_000_000, min_lat: -8_505_112_878, max_lat: 8_505_112_878 }
    );
    let b = Crs::WebMercator.bounds();
    assert_eq!(degrees(b.max_lat), 85.05112878);
    assert_eq!(degrees(b.min_lat), -85.05112878);
    assert_eq!(degrees(b.max_lon), 180.0);
}

#[test]
fn ten_thousand_points_stay_inside_each_system() {
    for crs in [Crs::WGS84, Crs::WebMercator] {
        let bounds = crs.bounds();
        for _ in 0..10_000 {
            match RandomGeometry::random_point(&crs) {
                RandomGeometry::Point(c) => assert_strictly_inside(&c, bounds),
                _ => panic!("expected a point"),
            }
        }
    }
}

#[test]
fn linestring_lengths_stay_between_two_and_nine() {
    let mut seen = [false; 10];
    for _ in 0..2_000 {
        match RandomGeometry::random_linestring(&Crs::WGS84) {
            RandomGeometry::LineString(cs) => {
                assert!(2 <= cs.len() && cs.len() <= 9);
                seen[cs.len()] = true;
                for c in &cs {
                    assert_strictly_inside(c, Crs::WGS84.bounds());
                }
            }
            _ => panic!("expected a line string"),
        }
    }
    assert!(seen[2] && seen[9]);
}

#[test]
fn polygon_rings_are_closed_with_four_to_ten_pairs() {
    for _ in 0..2_000 {
        match RandomGeometry::random_polygon(&Crs::WebMercator) {
            RandomGeometry::Polygon(rings) => {
                assert_eq!(rings.len(), 1);
                let ring = &rings[0];
                assert!(4 <= ring.len() && ring.len() <= 10);
                assert_eq!(ring[0], ring[ring.len() - 1]);
                for c in ring {
                    assert_strictly_inside(c, Crs::WebMercator.bounds());
                }
            }
            _ => panic!("expected a polygon"),
        }
    }
}

#[test]
fn five_wgs84_points_in_degrees() {
    for _ in 0..5 {
        match RandomGeometry::random_point(&Crs::WGS84) {
            RandomGeometry::Point(c) => {
                assert_eq!(c.len(), 2);
                let (lon, lat) = (degrees(c[0]), degrees(c[1]));
                assert!((-180.0..=180.0).contains(&lon));
                assert!((-90.0..=90.0).contains(&lat));
            }
            _ => panic!("expected a point"),
        }
    }
}

#[test]
fn one_web_mercator_polygon_in_degrees() {
    match RandomGeometry::random_polygon(&Crs::WebMercator) {
        RandomGeometry::Polygon(rings) => {
            let ring: Vec<Vec<f64>> = rings[0]
                .iter()
                .map(|c| vec![degrees(c[0]), degrees(c[1])])
                .collect();
            assert!(ring.len() >= 4);
            let (first, last) = (&ring[0], &ring[ring.len() - 1]);
            assert_eq!(first[0].to_bits(), last[0].to_bits());
            assert_eq!(first[1].to_bits(), last[1].to_bits());
            for c in &ring {
                assert!((-85.05112878..=85.05112878).contains(&c[1]));
            }
        }
        _ => panic!("expected a polygon"),
    }
}

#[test]
fn close_ring_repeats_the_first_pair() {
    let ring = close_ring(vec![vec![1, 2], vec![3, 4], vec![5, 6]]);
    assert_eq!(ring, vec![vec![1, 2], vec![3, 4], vec![5, 6], vec![1, 2]]);
    let empty: Vec<Vec<i64>> = Vec::new();
    assert_eq!(close_ring(empty), Vec::<Vec<i64>>::new());
}
