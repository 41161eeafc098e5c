//! Coordinate-reference systems, their bounding boxes, and random geometries
//! drawn inside them.

use crate::draw::draw_range;
use crate::error::RandomGeojsonError;
use crate::text::{lower_of, lowercase};
use rand::rngs::ThreadRng;
use vstd::prelude::*;

verus! {

/// Coordinate units that make one degree: a coordinate is held in units of
/// 1e-8 of a degree.
pub const UNITS_PER_DEGREE: i64 = 100_000_000;

/// Longitude bound, in units, shared by both systems (180 degrees).
pub const MAX_LON: i64 = 18_000_000_000;

/// Latitude bound, in units, of WGS84 (90 degrees).
pub const WGS84_MAX_LAT: i64 = 9_000_000_000;

/// Latitude bound, in units, of Web Mercator (85.05112878 degrees), beyond
/// which the projection is undefined.
pub const WEB_MERCATOR_MAX_LAT: i64 = 8_505_112_878;

/// A bounding box, in units of 1e-8 of a degree.
#[derive(Debug, Clone, Copy, PartialEq, Eq, Structural)]
pub struct Bounds {
    pub min_lon: i64,
    pub max_lon: i64,
    pub min_lat: i64,
    pub max_lat: i64,
}

impl Bounds {
    /// A box that a coordinate can be drawn from: each axis a non-empty range.
    pub open spec fn wf(self) -> bool {
        self.min_lon < self.max_lon && self.min_lat < self.max_lat
    }

    /// Whether the pair `c` is a (longitude, latitude) inside the box, upper
    /// bounds excluded.
    pub open spec fn holds(self, c: Seq<i64>) -> bool {
        &&& c.len() == 2
        &&& self.min_lon <= c[0] < self.max_lon
        &&& self.min_lat <= c[1] < self.max_lat
    }
}

/// A coordinate-reference system.
#[derive(Debug, Clone, Copy, PartialEq, Eq, Structural)]
pub enum Crs {
    WGS84,
    WebMercator,
}

/// The bounding box of each system.
pub open spec fn bounds_of(crs: Crs) -> Bounds {
    match crs {
        Crs::WGS84 => Bounds {
            min_lon: (-MAX_LON) as i64,
            max_lon: MAX_LON,
            min_lat: (-WGS84_MAX_LAT) as i64,
            max_lat: WGS84_MAX_LAT,
        },
        Crs::WebMercator => Bounds {
            min_lon: (-MAX_LON) as i64,
            max_lon: MAX_LON,
            min_lat: (-WEB_MERCATOR_MAX_LAT) as i64,
            max_lat: WEB_MERCATOR_MAX_LAT,
        },
    }
}

/// The system that a lowercase name stands for, if any.
pub open spec fn crs_named(t: Seq<char>) -> Option<Crs> {
    if t == "wgs84"@ || t == "4326"@ {
        Some(Crs::WGS84)
    } else if t == "webmercator"@ || t == "web_mercator"@ || t == "3857"@ {
        Some(Crs::WebMercator)
    } else {
        None
    }
}

/// What parsing `text`, whose lowercase form is `folded`, gives: the system
/// named, or an invalid argument that quotes `text`.
pub open spec fn crs_parse_result(
    folded: Seq<char>,
    text: Seq<char>,
    r: Result<Crs, RandomGeojsonError>,
) -> bool {
    match crs_named(folded) {
        Some(c) => r == Ok::<Crs, RandomGeojsonError>(c),
        None => match r {
            Ok(_) => false,
            Err(RandomGeojsonError::InvalidArgument(m)) => m@ == "Invalid coordinate system: "@ + text,
        },
    }
}

/// Parsing a system name (`from_str`, `Crs::from_text`) ignores case: two
/// names with the same lowercase form either both fail or both give the same
/// system.
pub proof fn lemma_crs_parse_ignores_case(
    a: Seq<char>,
    b: Seq<char>,
    ra: Result<Crs, RandomGeojsonError>,
    rb: Result<Crs, RandomGeojsonError>,
)
    requires
        lower_of(a) == lower_of(b),
        crs_parse_result(lower_of(a), a, ra),
        crs_parse_result(lower_of(b), b, rb),
    ensures
        ra.is_ok() <==> rb.is_ok(),
        ra.is_ok() ==> ra->Ok_0 == rb->Ok_0,
{
}

/// Every alias names its system: `wgs84` and `4326` name WGS84; `webmercator`,
/// `web_mercator` and `3857` name Web Mercator; `nonsense` names none.
pub proof fn lemma_crs_aliases()
    ensures
        crs_named("wgs84"@) == Some(Crs::WGS84),
        crs_named("4326"@) == Some(Crs::WGS84),
        crs_named("webmercator"@) == Some(Crs::WebMercator),
        crs_named("web_mercator"@) == Some(Crs::WebMercator),
        crs_named("3857"@) == Some(Crs::WebMercator),
        crs_named("nonsense"@) == None::<Crs>,
{
    reveal_strlit("wgs84");
    reveal_strlit("4326");
    reveal_strlit("webmercator");
    reveal_strlit("web_mercator");
    reveal_strlit("3857");
    reveal_strlit("nonsense");
    assert("wgs84"@.len() == 5 && "wgs84"@[0] == 'w');
    assert("4326"@.len() == 4 && "4326"@[0] == '4');
    assert("webmercator"@.len() == 11);
    assert("web_mercator"@.len() == 12);
    assert("3857"@.len() == 4 && "3857"@[0] == '3');
    assert("nonsense"@.len() == 8);
}

impl Crs {
    /// The bounding box of the system.
    pub fn bounds(&self) -> (r: Bounds)
        ensures
            r == bounds_of(*self),
            r.wf(),
    {
        match self {
            Crs::WGS84 => Bounds {
                min_lon: -MAX_LON,
                max_lon: MAX_LON,
                min_lat: -WGS84_MAX_LAT,
                max_lat: WGS84_MAX_LAT,
            },
            Crs::WebMercator => Bounds {
                min_lon: -MAX_LON,
                max_lon: MAX_LON,
                min_lat: -WEB_MERCATOR_MAX_LAT,
                max_lat: WEB_MERCATOR_MAX_LAT,
            },
        }
    }

    /// The system named by `folded`, a name already in lowercase; `text` is the
    /// name as given, which an error quotes.
    pub fn from_folded(folded: &str, text: &str) -> (r: Result<Crs, RandomGeojsonError>)
        ensures
            crs_parse_result(folded@, text@, r),
    {
        let f = String::from_str(folded);
        if f == String::from_str("wgs84") || f == String::from_str("4326") {
            Ok(Crs::WGS84)
        } else if f == String::from_str("webmercator") || f == String::from_str("web_mercator")
            || f == String::from_str("3857") {
            Ok(Crs::WebMercator)
        } else {
            let m = String::from_str("Invalid coordinate system: ").concat(text);
            Err(RandomGeojsonError::InvalidArgument(m))
        }
    }

    /// The system named by `text`, in any case: `wgs84` or `4326` for WGS84,
    /// `webmercator`, `web_mercator` or `3857` for Web Mercator.
    pub fn from_text(text: &str) -> (r: Result<Crs, RandomGeojsonError>)
        ensures
            crs_parse_result(lower_of(text@), text@, r),
    {
        let folded = lowercase(text);
        Crs::from_folded(folded.as_str(), text)
    }
}

/// A geometry: one coordinate pair, a line of pairs, or a polygon of rings.
/// A pair is `[longitude, latitude]` in units of 1e-8 of a degree.
#[derive(Debug, Clone)]
pub enum RandomGeometry {
    Point(Vec<i64>),
    LineString(Vec<Vec<i64>>),
    Polygon(Vec<Vec<Vec<i64>>>),
}

/// Whether every pair of `cs` lies inside `b`.
pub open spec fn all_within(cs: Seq<Vec<i64>>, b: Bounds) -> bool {
    forall|i: int| 0 <= i < cs.len() ==> b.holds(#[trigger] cs[i]@)
}

/// Whether a ring ends with the pair that it starts with.
pub open spec fn is_closed(ring: Seq<Vec<i64>>) -> bool {
    ring.len() > 0 && ring[0]@ == ring.last()@
}

/// A point inside `b`.
pub open spec fn is_point_within(g: RandomGeometry, b: Bounds) -> bool {
    match g {
        RandomGeometry::Point(c) => b.holds(c@),
        _ => false,
    }
}

/// A line of 2 to 9 pairs inside `b`.
pub open spec fn is_linestring_within(g: RandomGeometry, b: Bounds) -> bool {
    match g {
        RandomGeometry::LineString(cs) => 2 <= cs@.len() <= 9 && all_within(cs@, b),
        _ => false,
    }
}

/// A polygon of one closed ring of 4 to 10 pairs inside `b`.
pub open spec fn is_polygon_within(g: RandomGeometry, b: Bounds) -> bool {
    match g {
        RandomGeometry::Polygon(rings) => {
            &&& rings@.len() == 1
            &&& 4 <= rings@[0]@.len() <= 10
            &&& all_within(rings@[0]@, b)
            &&& is_closed(rings@[0]@)
        },
        _ => false,
    }
}

/// A pair drawn inside the bounds of `crs`: longitude in
/// `[min_lon, max_lon)`, latitude in `[min_lat, max_lat)`.
fn random_coords(crs: &Crs) -> (r: (i64, i64))
    ensures
        bounds_of(*crs).holds(seq![r.0, r.1]),
{
    let mut rng: ThreadRng = rand::rng();
    let b = crs.bounds();
    let longitude = draw_range(&mut rng, b.min_lon, b.max_lon);
    let latitude = draw_range(&mut rng, b.min_lat, b.max_lat);
    (longitude, latitude)
}

/// A fresh pair inside the bounds of `crs`, as a vector.
fn random_pair(crs: &Crs) -> (r: Vec<i64>)
    ensures
        bounds_of(*crs).holds(r@),
{
    let (lon, lat) = random_coords(crs);
    let v = vec![lon, lat];
    assert(v@ == seq![lon, lat]);
    v
}

/// `n` pairs drawn one after another inside the bounds of `crs`.
fn random_pairs(crs: &Crs, n: usize) -> (r: Vec<Vec<i64>>)
    ensures
        r@.len() == n,
        all_within(r@, bounds_of(*crs)),
{
    let mut coords: Vec<Vec<i64>> = Vec::new();
    let mut k: usize = 0;
    while k < n
        invariant
            k <= n,
            coords@.len() == k,
            all_within(coords@, bounds_of(*crs)),
        decreases n - k,
    {
        let c = random_pair(crs);
        coords.push(c);
        k = k + 1;
    }
    coords
}

/// The ring `points` closed by a copy of its first pair; an empty list stays
/// empty.
pub fn close_ring(points: Vec<Vec<i64>>) -> (r: Vec<Vec<i64>>)
    ensures
        points@.len() == 0 ==> r@ == points@,
        points@.len() > 0 ==> r@.len() == points@.len() + 1
            && r@.drop_last() == points@
            && r@.last()@ == points@[0]@,
{
    let mut ring = points;
    if ring.len() == 0 {
        return ring;
    }
    let mut first: Vec<i64> = Vec::new();
    let n = ring[0].len();
    let mut j: usize = 0;
    while j < n
        invariant
            ring@ == points@,
            points@.len() > 0,
            n == points@[0]@.len(),
            j <= n,
            first@ == points@[0]@.subrange(0, j as int),
        decreases n - j,
    {
        first.push(ring[0][j]);
        j = j + 1;
    }
    assert(first@ == points@[0]@);
    ring.push(first);
    assert(ring@.drop_last() == points@);
    ring
}

impl RandomGeometry {
    /// A point drawn uniformly inside the bounds of `crs`.
    pub fn random_point(crs: &Crs) -> (r: RandomGeometry)
        ensures
            is_point_within(r, bounds_of(*crs)),
    {
        RandomGeometry::Point(random_pair(crs))
    }

    /// A line of 2 to 9 pairs, their count drawn uniformly, each pair drawn
    /// inside the bounds of `crs`, kept in the order drawn.
    pub fn random_linestring(crs: &Crs) -> (r: Self)
        ensures
            is_linestring_within(r, bounds_of(*crs)),
    {
        let mut rng: ThreadRng = rand::rng();
        let num_points = draw_range(&mut rng, 2, 10) as usize;
        RandomGeometry::LineString(random_pairs(crs, num_points))
    }

    /// A polygon of one ring: 3 to 9 pairs, their count drawn uniformly, each
    /// drawn inside the bounds of `crs`, then a copy of the first that closes
    /// the ring.
    pub fn random_polygon(crs: &Crs) -> (r: Self)
        ensures
            is_polygon_within(r, bounds_of(*crs)),
    {
        let mut rng: ThreadRng = rand::rng();
        let num_points = draw_range(&mut rng, 3, 10) as usize;
        let points = random_pairs(crs, num_points);
        let ring = close_ring(points);
        proof {
            assert(ring@.last() == ring@[ring@.len() - 1]);
            assert forall|i: int| 0 <= i < ring@.len() implies bounds_of(*crs).holds(#[trigger] ring@[i]@) by {
                if i < points@.len() {
                    assert(ring@[i] == ring@.drop_last()[i]);
                }
            }
        }
        RandomGeometry::Polygon(vec![ring])
    }
}

impl std::str::FromStr for Crs {
    type Err = RandomGeojsonError;

    /// The system named by `s`, in any case; see `Crs::from_text`.
    fn from_str(s: &str) -> (r: Result<Crs, RandomGeojsonError>)
        ensures
            crs_parse_result(lower_of(s@), s@, r),
    {
        Crs::from_text(s)
    }
}

} // verus!
