//! The parsed source messages that a tile is decoded from.

use vstd::prelude::*;

verus! {

/// Geometry type tag of a feature whose geometry is unknown.
pub const GEOM_UNKNOWN: u32 = 0;

/// Geometry type tag of a point or multi-point feature.
pub const GEOM_POINT: u32 = 1;

/// Geometry type tag of a line string feature.
pub const GEOM_LINESTRING: u32 = 2;

/// Geometry type tag of a polygon feature.
pub const GEOM_POLYGON: u32 = 3;

/// The kind of geometry that a feature's command stream encodes.
#[derive(Clone, Copy, Debug, PartialEq, Eq)]
pub enum GeomType {
    Unknown,
    Point,
    LineString,
    Polygon,
}

/// The geometry type that a tag stands for; a tag that names none stands
/// for the unknown geometry.
pub open spec fn geom_type_of(tag: u32) -> GeomType {
    if tag == GEOM_POINT {
        GeomType::Point
    } else if tag == GEOM_LINESTRING {
        GeomType::LineString
    } else if tag == GEOM_POLYGON {
        GeomType::Polygon
    } else {
        GeomType::Unknown
    }
}

impl GeomType {
    /// The geometry type that `tag` stands for.
    pub fn from_tag(tag: u32) -> (t: GeomType)
        ensures
            t == geom_type_of(tag),
    {
        if tag == GEOM_POINT {
            GeomType::Point
        } else if tag == GEOM_LINESTRING {
            GeomType::LineString
        } else if tag == GEOM_POLYGON {
            GeomType::Polygon
        } else {
            GeomType::Unknown
        }
    }
}

/// One entry of a layer's value table: a union of which one member is
/// expected to be set.
///
/// `float_value` and `double_value` hold the bits of the IEEE 754 number.
#[derive(Clone, Debug, PartialEq, Eq)]
pub struct ProtoValue {
    pub bool_value: Option<bool>,
    pub string_value: Option<String>,
    pub float_value: Option<u32>,
    pub int_value: Option<i64>,
    pub sint_value: Option<i64>,
    pub uint_value: Option<u64>,
    pub double_value: Option<u64>,
}

impl ProtoValue {
    /// A value with no member set.
    pub fn new() -> (v: ProtoValue)
        ensures
            v == (ProtoValue {
                bool_value: None,
                string_value: None,
                float_value: None,
                int_value: None,
                sint_value: None,
                uint_value: None,
                double_value: None,
            }),
    {
        ProtoValue {
            bool_value: None,
            string_value: None,
            float_value: None,
            int_value: None,
            sint_value: None,
            uint_value: None,
            double_value: None,
        }
    }
}

/// One feature as the source holds it.
#[derive(Clone, Debug, PartialEq, Eq)]
pub struct ProtoFeature {
    /// Key index and value index of each attribute, in turn.
    pub tags: Vec<u32>,
    /// The geometry type tag.
    pub geom_type: u32,
    /// The packed command stream.
    pub geometry: Vec<u32>,
}

/// One layer as the source holds it: its features and the tables that
/// their tags point into.
#[derive(Clone, Debug, PartialEq, Eq)]
pub struct ProtoLayer {
    pub features: Vec<ProtoFeature>,
    pub keys: Vec<String>,
    pub values: Vec<ProtoValue>,
}

/// One tile as the source holds it.
#[derive(Clone, Debug, PartialEq, Eq)]
pub struct ProtoTile {
    pub layers: Vec<ProtoLayer>,
}

} // verus!
