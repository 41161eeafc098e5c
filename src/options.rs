//! The run's options: validation of what a user names, the choice of
//! geometry kind, and random property values.

use crate::draw::{draw_english_word, draw_flag, draw_range};
use crate::error::{RandomGeojsonError, detail_of};
use crate::geometry::{
    Crs, RandomGeometry, bounds_of, crs_named, is_linestring_within, is_point_within, is_polygon_within,
};
use crate::text::{lower_of, lowercase, parse_usize, usize_of};
use rand::rngs::ThreadRng;
use vstd::prelude::*;

verus! {

/// The options of one run.
#[derive(Debug, Clone)]
pub struct Cli {
    /// Number of properties of each feature.
    pub num_properties: usize,
    /// Number of features.
    pub length: usize,
    /// Kind of geometry: `Point`, `LineString`, `Polygon` or `All`.
    pub geometry_type: String,
    /// Coordinate system: `WGS84`, `WebMercator`, `4326` or `3857`.
    pub coordinate_system: String,
    /// Whether the output is pretty-printed.
    pub pretty: bool,
    /// Where the output goes.
    pub output_file: String,
}

/// The kind of geometry that a run generates; `All` picks one of the three
/// uniformly for each feature.
#[derive(Debug, Clone, Copy, PartialEq, Eq, Structural)]
pub enum GeometryKind {
    Point,
    LineString,
    Polygon,
    All,
}

/// The kind that a lowercase name stands for, if any.
pub open spec fn kind_named(t: Seq<char>) -> Option<GeometryKind> {
    if t == "point"@ {
        Some(GeometryKind::Point)
    } else if t == "linestring"@ {
        Some(GeometryKind::LineString)
    } else if t == "polygon"@ {
        Some(GeometryKind::Polygon)
    } else if t == "all"@ {
        Some(GeometryKind::All)
    } else {
        None
    }
}

/// Whether `g` is a geometry of kind `kind` whose pairs lie inside the bounds
/// of `crs`.
pub open spec fn fits_kind(g: RandomGeometry, kind: GeometryKind, crs: Crs) -> bool {
    let b = bounds_of(crs);
    match kind {
        GeometryKind::Point => is_point_within(g, b),
        GeometryKind::LineString => is_linestring_within(g, b),
        GeometryKind::Polygon => is_polygon_within(g, b),
        GeometryKind::All => is_point_within(g, b) || is_linestring_within(g, b)
            || is_polygon_within(g, b),
    }
}

impl GeometryKind {
    /// The kind named by `folded`, a name already in lowercase.
    pub fn from_folded(folded: &str) -> (r: Option<GeometryKind>)
        ensures
            r == kind_named(folded@),
    {
        let f = String::from_str(folded);
        if f == String::from_str("point") {
            Some(GeometryKind::Point)
        } else if f == String::from_str("linestring") {
            Some(GeometryKind::LineString)
        } else if f == String::from_str("polygon") {
            Some(GeometryKind::Polygon)
        } else if f == String::from_str("all") {
            Some(GeometryKind::All)
        } else {
            None
        }
    }

    /// The kind named by `text`, in any case.
    pub fn from_text(text: &str) -> (r: Option<GeometryKind>)
        ensures
            r == kind_named(lower_of(text@)),
    {
        let folded = lowercase(text);
        GeometryKind::from_folded(folded.as_str())
    }
}

/// Whether `folded`, a name already in lowercase, names a coordinate system.
pub fn is_coordinate_system_name(folded: &str) -> (r: bool)
    ensures
        r == crs_named(folded@).is_some(),
{
    Crs::from_folded(folded, folded).is_ok()
}

/// Validates that the value is a count: zero or more.
pub fn validate_zero_or_more(value: &str) -> (r: Result<usize, RandomGeojsonError>)
    ensures
        match usize_of(value@) {
            Some(n) => r == Ok::<usize, RandomGeojsonError>(n),
            None => r.is_err() && detail_of(r->Err_0) == "Value must be zero or more"@,
        },
{
    match parse_usize(value) {
        Some(n) => Ok(n),
        None => Err(
            RandomGeojsonError::InvalidArgument(String::from_str("Value must be zero or more")),
        ),
    }
}

/// Validates the geometry type, in any case; the value is kept as given.
pub fn validate_geometry_type(value: &str) -> (r: Result<String, RandomGeojsonError>)
    ensures
        match kind_named(lower_of(value@)) {
            Some(_) => r.is_ok() && r->Ok_0@ == value@,
            None => r.is_err() && detail_of(r->Err_0)
                == "Geometry type must be one of: Point, LineString, Polygon"@,
        },
{
    match GeometryKind::from_text(value) {
        Some(_) => Ok(String::from_str(value)),
        None => Err(
            RandomGeojsonError::InvalidArgument(
                String::from_str("Geometry type must be one of: Point, LineString, Polygon"),
            ),
        ),
    }
}

/// Validates the coordinate system, in any case, against the names that
/// `Crs::from_text` accepts; the value is kept as given.
pub fn validate_coordinate_system(value: &str) -> (r: Result<String, RandomGeojsonError>)
    ensures
        crs_named(lower_of(value@)).is_some() ==> r.is_ok() && r->Ok_0@ == value@,
        crs_named(lower_of(value@)).is_none() ==> r.is_err() && detail_of(r->Err_0)
            == "Coordinate system must be one of: WGS84, WebMercator, 4326, 3857"@,
{
    let folded = lowercase(value);
    if is_coordinate_system_name(folded.as_str()) {
        Ok(String::from_str(value))
    } else {
        Err(
            RandomGeojsonError::InvalidArgument(
                String::from_str("Coordinate system must be one of: WGS84, WebMercator, 4326, 3857"),
            ),
        )
    }
}

/// The kind that a draw from `0..3` selects: 0 a point, 1 a line string,
/// 2 a polygon.
pub open spec fn kind_of_pick(pick: int) -> GeometryKind {
    if pick == 0 {
        GeometryKind::Point
    } else if pick == 1 {
        GeometryKind::LineString
    } else {
        GeometryKind::Polygon
    }
}

/// The kind that a draw from `0..3` selects: 0 a point, 1 a line string,
/// 2 a polygon.
pub fn kind_for_pick(pick: i64) -> (k: GeometryKind)
    requires
        0 <= pick < 3,
    ensures
        k == kind_of_pick(pick as int),
{
    if pick == 0 {
        GeometryKind::Point
    } else if pick == 1 {
        GeometryKind::LineString
    } else {
        GeometryKind::Polygon
    }
}

/// A geometry of kind `kind` inside the bounds of `crs`; for `All`, the kind
/// is drawn uniformly among the three.
pub fn random_geometry(kind: GeometryKind, crs: &Crs) -> (r: RandomGeometry)
    ensures
        fits_kind(r, kind, *crs),
{
    match kind {
        GeometryKind::Point => RandomGeometry::random_point(crs),
        GeometryKind::LineString => RandomGeometry::random_linestring(crs),
        GeometryKind::Polygon => RandomGeometry::random_polygon(crs),
        GeometryKind::All => {
            let mut rng: ThreadRng = rand::rng();
            let pick = draw_range(&mut rng, 0, 3);
            match kind_for_pick(pick) {
                GeometryKind::Point => RandomGeometry::random_point(crs),
                GeometryKind::LineString => RandomGeometry::random_linestring(crs),
                _ => RandomGeometry::random_polygon(crs),
            }
        },
    }
}

/// A scalar property value.
#[derive(Debug, Clone)]
pub enum PropertyValue {
    Number(i64),
    Text(String),
    Bool(bool),
}

/// The kind of a scalar property value.
#[derive(Debug, Clone, Copy, PartialEq, Eq, Structural)]
pub enum PropertyKind {
    Number,
    Text,
    Bool,
}

/// The property kind that a draw from `0..3` selects: 0 a number, 1 a text,
/// 2 a flag.
pub open spec fn property_kind_of_pick(pick: int) -> PropertyKind {
    if pick == 0 {
        PropertyKind::Number
    } else if pick == 1 {
        PropertyKind::Text
    } else {
        PropertyKind::Bool
    }
}

/// The property kind that a draw from `0..3` selects: 0 a number, 1 a text,
/// 2 a flag.
pub fn property_kind_for_pick(pick: i64) -> (k: PropertyKind)
    requires
        0 <= pick < 3,
    ensures
        k == property_kind_of_pick(pick as int),
{
    if pick == 0 {
        PropertyKind::Number
    } else if pick == 1 {
        PropertyKind::Text
    } else {
        PropertyKind::Bool
    }
}

/// What every random property value is: a whole number in `[0, 1000)`, a
/// text of 3 to 9 words joined by spaces, or a flag.
pub open spec fn is_property_value(v: PropertyValue) -> bool {
    match v {
        PropertyValue::Number(n) => 0 <= n < 1000,
        PropertyValue::Text(s) => exists|ws: Seq<Seq<char>>|
            3 <= ws.len() <= 9 && s@ == #[trigger] joined(ws),
        PropertyValue::Bool(_) => true,
    }
}

/// The words `ws` joined by single spaces.
pub open spec fn joined(ws: Seq<Seq<char>>) -> Seq<char>
    decreases ws.len(),
{
    if ws.len() == 0 {
        Seq::empty()
    } else if ws.len() == 1 {
        ws[0]
    } else {
        joined(ws.drop_last()) + " "@ + ws.last()
    }
}

/// The texts of a list of strings.
pub open spec fn texts_of(words: Seq<String>) -> Seq<Seq<char>> {
    words.map_values(|w: String| w@)
}

/// The words joined by single spaces.
pub fn join_words(words: &Vec<String>) -> (r: String)
    ensures
        r@ == joined(texts_of(words@)),
{
    let mut out = String::new();
    let mut k: usize = 0;
    while k < words.len()
        invariant
            k <= words@.len(),
            out@ == joined(texts_of(words@.subrange(0, k as int))),
        decreases words@.len() - k,
    {
        let ghost before = words@.subrange(0, k as int);
        let ghost after = words@.subrange(0, k + 1);
        assert(after.drop_last() == before);
        assert(texts_of(after).drop_last() == texts_of(before));
        if k > 0 {
            out.append(" ");
        }
        out.append(words[k].as_str());
        k = k + 1;
    }
    assert(words@.subrange(0, words@.len() as int) == words@);
    out
}

/// A random property value: a whole number in `[0, 1000)`, a text of 3 to 9
/// English words joined by spaces, or a flag, the variant drawn uniformly.
pub fn random_property_value() -> (r: PropertyValue)
    ensures
        is_property_value(r),
{
    let mut rng: ThreadRng = rand::rng();
    let pick = draw_range(&mut rng, 0, 3);
    let kind = property_kind_for_pick(pick);
    if kind == PropertyKind::Number {
        PropertyValue::Number(draw_range(&mut rng, 0, 1000))
    } else if kind == PropertyKind::Text {
        let count = draw_range(&mut rng, 3, 10) as usize;
        let mut words: Vec<String> = Vec::new();
        let mut k: usize = 0;
        while k < count
            invariant
                k <= count,
                words@.len() == k,
            decreases count - k,
        {
            words.push(draw_english_word());
            k = k + 1;
        }
        let s = join_words(&words);
        assert(texts_of(words@).len() == count);
        PropertyValue::Text(s)
    } else {
        PropertyValue::Bool(draw_flag(&mut rng))
    }
}

/// The decimal digit `d`, as text.
pub open spec fn digit_text(d: int) -> Seq<char> {
    if d == 0 {
        "0"@
    } else if d == 1 {
        "1"@
    } else if d == 2 {
        "2"@
    } else if d == 3 {
        "3"@
    } else if d == 4 {
        "4"@
    } else if d == 5 {
        "5"@
    } else if d == 6 {
        "6"@
    } else if d == 7 {
        "7"@
    } else if d == 8 {
        "8"@
    } else {
        "9"@
    }
}

/// `n` written in decimal, without leading zeros.
pub open spec fn decimal_text(n: nat) -> Seq<char>
    decreases n,
{
    if n < 10 {
        digit_text(n as int)
    } else {
        decimal_text(n / 10) + digit_text((n % 10) as int)
    }
}

/// The name of the `i`-th property of a feature, counting from 1: `prop<i>`.
pub open spec fn property_key_text(i: nat) -> Seq<char> {
    "prop"@ + decimal_text(i)
}

fn digit_str(d: usize) -> (r: &'static str)
    requires
        d < 10,
    ensures
        r@ == digit_text(d as int),
{
    if d == 0 {
        "0"
    } else if d == 1 {
        "1"
    } else if d == 2 {
        "2"
    } else if d == 3 {
        "3"
    } else if d == 4 {
        "4"
    } else if d == 5 {
        "5"
    } else if d == 6 {
        "6"
    } else if d == 7 {
        "7"
    } else if d == 8 {
        "8"
    } else {
        "9"
    }
}

fn append_decimal(out: &mut String, n: usize)
    ensures
        final(out)@ == old(out)@ + decimal_text(n as nat),
    decreases n,
{
    if n >= 10 {
        append_decimal(out, n / 10);
    }
    out.append(digit_str(n % 10));
    proof {
        if n >= 10 {
            assert(decimal_text(n as nat) == decimal_text((n / 10) as nat) + digit_text((n % 10) as int));
        }
    }
}

/// The name of the `i`-th property of a feature: `prop<i>`.
pub fn property_key(i: usize) -> (r: String)
    ensures
        r@ == property_key_text(i as nat),
{
    let mut key = String::from_str("prop");
    append_decimal(&mut key, i);
    key
}

/// `count` random property values, named `prop1` to `prop<count>` in order.
pub fn random_properties(count: usize) -> (r: Vec<(String, PropertyValue)>)
    ensures
        r@.len() == count,
        forall|i: int|
            0 <= i < count ==> (#[trigger] r@[i]).0@ == property_key_text((i + 1) as nat)
                && is_property_value(r@[i].1),
{
    let mut props: Vec<(String, PropertyValue)> = Vec::new();
    let mut k: usize = 0;
    while k < count
        invariant
            k <= count,
            props@.len() == k,
            forall|i: int|
                0 <= i < k ==> (#[trigger] props@[i]).0@ == property_key_text((i + 1) as nat)
                    && is_property_value(props@[i].1),
        decreases count - k,
    {
        let key = property_key(k + 1);
        let value = random_property_value();
        props.push((key, value));
        k = k + 1;
    }
    props
}

} // verus!
