//! Decoding of the source messages into the tile, its layers, features,
//! geometries and attribute values.

use vstd::prelude::*;
use crate::error::{outcome, DecodeError};
use crate::geometry::{Command, Geometry, GeometryLineString, GeometryPoint, GeometryPolygon};
use crate::geometry::{PointShape, Shape};
use crate::message::{geom_type_of, GeomType, ProtoFeature, ProtoLayer, ProtoTile, ProtoValue};
use crate::properties::{Properties, PropertyValue, Value};
use crate::stream::{decode_line_string, decode_point, decode_polygon};
use crate::stream::{line_string_geometry, point_geometry, polygon_geometry};
use crate::tile::{features_view, layers_view, Feature, FeatureModel, Layer, Tile};

verus! {

/// Turns a source value into the value that it decodes to.
pub trait Decode<T> {
    fn decode(self) -> T;
}

/// The value that an entry of the value table stands for: its first set
/// member, in the order bool, string, float, int, sint, uint, double.
pub open spec fn value_of(v: ProtoValue) -> Value {
    if let Some(b) = v.bool_value {
        Value::Bool(b)
    } else if let Some(s) = v.string_value {
        Value::Text(s@)
    } else if let Some(bits) = v.float_value {
        Value::Float(bits)
    } else if let Some(i) = v.int_value {
        Value::Int(i)
    } else if let Some(i) = v.sint_value {
        Value::SInt(i)
    } else if let Some(u) = v.uint_value {
        Value::UInt(u)
    } else if let Some(bits) = v.double_value {
        Value::Double(bits)
    } else {
        Value::Unknown
    }
}

/// Decodes one entry of the value table.
pub fn decode_value(v: &ProtoValue) -> (r: PropertyValue)
    ensures
        r@ == value_of(*v),
{
    if let Some(b) = v.bool_value {
        PropertyValue::BoolValue(b)
    } else if let Some(s) = &v.string_value {
        PropertyValue::StringValue(s.clone())
    } else if let Some(bits) = v.float_value {
        PropertyValue::FloatValue(bits)
    } else if let Some(i) = v.int_value {
        PropertyValue::IntValue(i)
    } else if let Some(i) = v.sint_value {
        PropertyValue::SIntValue(i)
    } else if let Some(u) = v.uint_value {
        PropertyValue::UIntValue(u)
    } else if let Some(bits) = v.double_value {
        PropertyValue::DoubleValue(bits)
    } else {
        PropertyValue::Unknown
    }
}

impl Decode<PropertyValue> for ProtoValue {
    fn decode(self) -> (r: PropertyValue)
        ensures
            r@ == value_of(self),
    {
        decode_value(&self)
    }
}

impl Decode<Vec<PropertyValue>> for Vec<ProtoValue> {
    /// Decodes every entry of a value table, in order.
    fn decode(self) -> (r: Vec<PropertyValue>)
        ensures
            r.len() == self.len(),
            forall|i: int| 0 <= i < self.len() ==> (#[trigger] r[i])@ == value_of(self[i]),
    {
        let mut out: Vec<PropertyValue> = Vec::new();
        let mut i: usize = 0;
        while i < self.len()
            invariant
                i <= self.len(),
                out.len() == i,
                forall|j: int| 0 <= j < i ==> (#[trigger] out[j])@ == value_of(self[j]),
            decreases self.len() - i,
        {
            out.push(decode_value(&self[i]));
            i += 1;
        }
        out
    }
}

impl Decode<Result<GeometryPoint, DecodeError>> for Vec<u32> {
    fn decode(self) -> (r: Result<GeometryPoint, DecodeError>)
        ensures
            outcome::<GeometryPoint>(r) == point_geometry(self@),
    {
        decode_point(&self)
    }
}

impl Decode<Result<GeometryLineString, DecodeError>> for Vec<u32> {
    fn decode(self) -> (r: Result<GeometryLineString, DecodeError>)
        ensures
            outcome::<GeometryLineString>(r) == line_string_geometry(self@),
    {
        decode_line_string(&self)
    }
}

impl Decode<Result<GeometryPolygon, DecodeError>> for Vec<u32> {
    fn decode(self) -> (r: Result<GeometryPolygon, DecodeError>)
        ensures
            outcome::<GeometryPolygon>(r) == polygon_geometry(self@),
    {
        decode_polygon(&self)
    }
}

/// What the geometry of a feature decodes to: the stream is read as the
/// feature's geometry type says, and not at all where the type is unknown.
pub open spec fn geometry_of(feature: ProtoFeature) -> Result<Shape, DecodeError> {
    match geom_type_of(feature.geom_type) {
        GeomType::Unknown => Ok(Shape::Unknown),
        GeomType::Point => match point_geometry(feature.geometry@) {
            Ok(p) => Ok(Shape::Point(p)),
            Err(e) => Err(e),
        },
        GeomType::LineString => match line_string_geometry(feature.geometry@) {
            Ok(c) => Ok(Shape::LineString(c)),
            Err(e) => Err(e),
        },
        GeomType::Polygon => match polygon_geometry(feature.geometry@) {
            Ok(c) => Ok(Shape::Polygon(c)),
            Err(e) => Err(e),
        },
    }
}

/// Decodes the geometry of a feature.
pub fn decode_geometry(feature: &ProtoFeature) -> (r: Result<Geometry, DecodeError>)
    ensures
        outcome::<Geometry>(r) == geometry_of(*feature),
{
    match GeomType::from_tag(feature.geom_type) {
        GeomType::Unknown => Ok(Geometry::Unknown),
        GeomType::Point => match decode_point(&feature.geometry) {
            Ok(g) => Ok(Geometry::GeometryPoint(g)),
            Err(e) => Err(e),
        },
        GeomType::LineString => match decode_line_string(&feature.geometry) {
            Ok(g) => Ok(Geometry::GeometryLineString(g)),
            Err(e) => Err(e),
        },
        GeomType::Polygon => match decode_polygon(&feature.geometry) {
            Ok(g) => Ok(Geometry::GeometryPolygon(g)),
            Err(e) => Err(e),
        },
    }
}

impl Decode<Result<Geometry, DecodeError>> for ProtoFeature {
    fn decode(self) -> (r: Result<Geometry, DecodeError>)
        ensures
            outcome::<Geometry>(r) == geometry_of(self),
    {
        decode_geometry(&self)
    }
}

/// The attributes that the first `pairs` pairs of `tags` give.
///
/// A pair is a key index and a value index into the layer's tables. A pair
/// with an index outside its table gives no attribute; a later pair replaces
/// an earlier one of the same key.
pub open spec fn properties_of(
    keys: Seq<String>,
    values: Seq<ProtoValue>,
    tags: Seq<u32>,
    pairs: nat,
) -> Map<Seq<char>, Value>
    decreases pairs,
{
    if pairs == 0 {
        Map::empty()
    } else {
        let before = properties_of(keys, values, tags, (pairs - 1) as nat);
        let key = tags[2 * (pairs - 1)] as int;
        let value = tags[2 * (pairs - 1) + 1] as int;
        if key < keys.len() && value < values.len() {
            before.insert(keys[key]@, value_of(values[value]))
        } else {
            before
        }
    }
}

/// The attributes of a feature of a layer. Where the number of tags is odd,
/// the last one belongs to no pair and is not read.
pub open spec fn feature_properties(layer: ProtoLayer, feature: ProtoFeature) -> Map<
    Seq<char>,
    Value,
> {
    properties_of(layer.keys@, layer.values@, feature.tags@, (feature.tags.len() / 2) as nat)
}

/// What a feature of a layer decodes to: it fails exactly if its geometry
/// does.
pub open spec fn feature_of(layer: ProtoLayer, feature: ProtoFeature) -> Result<
    FeatureModel,
    DecodeError,
> {
    match geometry_of(feature) {
        Ok(shape) => Ok(
            FeatureModel { geometry: shape, properties: feature_properties(layer, feature) },
        ),
        Err(e) => Err(e),
    }
}

/// What the first `n` features of a layer decode to, in the order of the
/// source; the error is that of the first feature that fails.
pub open spec fn features_of(layer: ProtoLayer, n: nat) -> Result<Seq<FeatureModel>, DecodeError>
    decreases n,
{
    if n == 0 {
        Ok(Seq::empty())
    } else {
        match features_of(layer, (n - 1) as nat) {
            Ok(before) => match feature_of(layer, layer.features[n - 1]) {
                Ok(f) => Ok(before.push(f)),
                Err(e) => Err(e),
            },
            Err(e) => Err(e),
        }
    }
}

/// What a layer decodes to.
pub open spec fn layer_of(layer: ProtoLayer) -> Result<Seq<FeatureModel>, DecodeError> {
    features_of(layer, layer.features.len() as nat)
}

/// What the first `n` layers of a tile decode to, in the order of the
/// source; the error is that of the first layer that fails.
pub open spec fn layers_of(tile: ProtoTile, n: nat) -> Result<Seq<Seq<FeatureModel>>, DecodeError>
    decreases n,
{
    if n == 0 {
        Ok(Seq::empty())
    } else {
        match layers_of(tile, (n - 1) as nat) {
            Ok(before) => match layer_of(tile.layers[n - 1]) {
                Ok(l) => Ok(before.push(l)),
                Err(e) => Err(e),
            },
            Err(e) => Err(e),
        }
    }
}

/// What a tile decodes to.
pub open spec fn tile_of(tile: ProtoTile) -> Result<Seq<Seq<FeatureModel>>, DecodeError> {
    layers_of(tile, tile.layers.len() as nat)
}

/// Once a feature has failed, more features do not change the error.
proof fn features_of_stays_failed(layer: ProtoLayer, n: nat, m: nat)
    requires
        n <= m,
        features_of(layer, n) is Err,
    ensures
        features_of(layer, m) == features_of(layer, n),
    decreases m,
{
    if n < m {
        features_of_stays_failed(layer, n, (m - 1) as nat);
    }
}

/// Once a layer has failed, more layers do not change the error.
proof fn layers_of_stays_failed(tile: ProtoTile, n: nat, m: nat)
    requires
        n <= m,
        layers_of(tile, n) is Err,
    ensures
        layers_of(tile, m) == layers_of(tile, n),
    decreases m,
{
    if n < m {
        layers_of_stays_failed(tile, n, (m - 1) as nat);
    }
}

/// Decodes the attributes of a feature from the tables of its layer.
pub fn decode_properties(layer: &ProtoLayer, feature: &ProtoFeature) -> (r: Properties)
    ensures
        r@ == feature_properties(*layer, *feature),
{
    let mut properties = Properties::new();
    let pairs = feature.tags.len() / 2;
    let mut p: usize = 0;
    while p < pairs
        invariant
            p <= pairs,
            pairs == feature.tags.len() / 2,
            properties@ == properties_of(layer.keys@, layer.values@, feature.tags@, p as nat),
        decreases pairs - p,
    {
        let key = feature.tags[2 * p] as usize;
        let value = feature.tags[2 * p + 1] as usize;
        if key < layer.keys.len() && value < layer.values.len() {
            properties = properties.insert(layer.keys[key].clone(), decode_value(&layer.values[value]));
        }
        p += 1;
    }
    properties
}

/// Decodes a feature of a layer: its geometry and its attributes.
pub fn decode_feature(layer: &ProtoLayer, feature: &ProtoFeature) -> (r: Result<
    Feature,
    DecodeError,
>)
    ensures
        outcome::<Feature>(r) == feature_of(*layer, *feature),
{
    let properties = decode_properties(layer, feature);
    match decode_geometry(feature) {
        Ok(geometry) => Ok(Feature::new(geometry, properties)),
        Err(e) => Err(e),
    }
}

impl<'a> Decode<Result<Feature, DecodeError>> for (&'a ProtoLayer, ProtoFeature) {
    fn decode(self) -> (r: Result<Feature, DecodeError>)
        ensures
            outcome::<Feature>(r) == feature_of(*self.0, self.1),
    {
        decode_feature(self.0, &self.1)
    }
}

/// Decodes every feature of a layer, in the order of the source.
pub fn decode_layer(layer: &ProtoLayer) -> (r: Result<Layer, DecodeError>)
    ensures
        outcome::<Layer>(r) == layer_of(*layer),
{
    let mut features: Vec<Feature> = Vec::new();
    let len = layer.features.len();
    let mut i: usize = 0;
    assert(features_view(features@) =~= Seq::<FeatureModel>::empty());
    while i < len
        invariant
            i <= len,
            len == layer.features.len(),
            features_of(*layer, i as nat) == Ok::<Seq<FeatureModel>, DecodeError>(
                features_view(features@),
            ),
        decreases len - i,
    {
        let ghost before = features@;
        match decode_feature(layer, &layer.features[i]) {
            Ok(feature) => {
                features.push(feature);
                assert(features_view(features@) =~= features_view(before).push(feature@));
            },
            Err(e) => {
                proof {
                    features_of_stays_failed(*layer, (i + 1) as nat, len as nat);
                }
                return Err(e);
            },
        }
        i += 1;
    }
    Ok(Layer::new(features))
}

impl Decode<Result<Layer, DecodeError>> for ProtoLayer {
    fn decode(self) -> (r: Result<Layer, DecodeError>)
        ensures
            outcome::<Layer>(r) == layer_of(self),
    {
        decode_layer(&self)
    }
}

/// Decodes every layer of a tile, in the order of the source.
pub fn decode_tile(tile: &ProtoTile) -> (r: Result<Tile, DecodeError>)
    ensures
        outcome::<Tile>(r) == tile_of(*tile),
{
    let mut layers: Vec<Layer> = Vec::new();
    let len = tile.layers.len();
    let mut i: usize = 0;
    assert(layers_view(layers@) =~= Seq::<Seq<FeatureModel>>::empty());
    while i < len
        invariant
            i <= len,
            len == tile.layers.len(),
            layers_of(*tile, i as nat) == Ok::<Seq<Seq<FeatureModel>>, DecodeError>(
                layers_view(layers@),
            ),
        decreases len - i,
    {
        let ghost before = layers@;
        match decode_layer(&tile.layers[i]) {
            Ok(layer) => {
                layers.push(layer);
                assert(layers_view(layers@) =~= layers_view(before).push(layer@));
            },
            Err(e) => {
                proof {
                    layers_of_stays_failed(*tile, (i + 1) as nat, len as nat);
                }
                return Err(e);
            },
        }
        i += 1;
    }
    Ok(Tile::new(layers))
}

impl Decode<Result<Tile, DecodeError>> for ProtoTile {
    fn decode(self) -> (r: Result<Tile, DecodeError>)
        ensures
            outcome::<Tile>(r) == tile_of(self),
    {
        decode_tile(&self)
    }
}

/// The first `n` features of a layer decode exactly if each of them does,
/// and then to the features' own decodings, one for one and in the order of
/// the source. Where they fail, the error is that of the first feature that
/// fails.
pub proof fn features_keep_order(layer: ProtoLayer, n: nat)
    requires
        n <= layer.features.len(),
    ensures
        match features_of(layer, n) {
            Ok(decoded) => decoded.len() == n && forall|i: int|
                0 <= i < n ==> feature_of(layer, #[trigger] layer.features[i]) == Ok::<
                    FeatureModel,
                    DecodeError,
                >(decoded[i]),
            Err(e) => exists|i: int|
                0 <= i < n && feature_of(layer, #[trigger] layer.features[i]) == Err::<
                    FeatureModel,
                    DecodeError,
                >(e) && forall|j: int|
                    0 <= j < i ==> feature_of(layer, #[trigger] layer.features[j]) is Ok,
        },
    decreases n,
{
    if n > 0 {
        features_keep_order(layer, (n - 1) as nat);
        match features_of(layer, (n - 1) as nat) {
            Ok(before) => {
                match feature_of(layer, layer.features[n - 1]) {
                    Ok(f) => {},
                    Err(e) => {
                        assert(feature_of(layer, layer.features[n - 1]) == Err::<
                            FeatureModel,
                            DecodeError,
                        >(e));
                    },
                }
            },
            Err(e) => {},
        }
    }
}

/// A layer decodes to its features' decodings in the order of the source:
/// the feature at a position of the result is the decoding of the source's
/// feature at that position.
pub proof fn layer_keeps_order(layer: ProtoLayer)
    ensures
        match layer_of(layer) {
            Ok(decoded) => decoded.len() == layer.features.len() && forall|i: int|
                0 <= i < layer.features.len() ==> feature_of(layer, #[trigger] layer.features[i])
                    == Ok::<FeatureModel, DecodeError>(decoded[i]),
            Err(e) => exists|i: int|
                0 <= i < layer.features.len() && feature_of(layer, #[trigger] layer.features[i])
                    == Err::<FeatureModel, DecodeError>(e) && forall|j: int|
                    0 <= j < i ==> feature_of(layer, #[trigger] layer.features[j]) is Ok,
        },
{
    features_keep_order(layer, layer.features.len() as nat);
}

/// The first `n` layers of a tile decode exactly if each of them does, and
/// then to the layers' own decodings, one for one and in the order of the
/// source. Where they fail, the error is that of the first layer that fails.
pub proof fn layers_keep_order(tile: ProtoTile, n: nat)
    requires
        n <= tile.layers.len(),
    ensures
        match layers_of(tile, n) {
            Ok(decoded) => decoded.len() == n && forall|i: int|
                0 <= i < n ==> layer_of(#[trigger] tile.layers[i]) == Ok::<
                    Seq<FeatureModel>,
                    DecodeError,
                >(decoded[i]),
            Err(e) => exists|i: int|
                0 <= i < n && layer_of(#[trigger] tile.layers[i]) == Err::<
                    Seq<FeatureModel>,
                    DecodeError,
                >(e) && forall|j: int| 0 <= j < i ==> layer_of(#[trigger] tile.layers[j]) is Ok,
        },
    decreases n,
{
    if n > 0 {
        layers_keep_order(tile, (n - 1) as nat);
        match layers_of(tile, (n - 1) as nat) {
            Ok(before) => {
                match layer_of(tile.layers[n - 1]) {
                    Ok(l) => {},
                    Err(e) => {
                        assert(layer_of(tile.layers[n - 1]) == Err::<
                            Seq<FeatureModel>,
                            DecodeError,
                        >(e));
                    },
                }
            },
            Err(e) => {},
        }
    }
}

/// A tile decodes to its layers' decodings in the order of the source.
pub proof fn tile_keeps_order(tile: ProtoTile)
    ensures
        match tile_of(tile) {
            Ok(decoded) => decoded.len() == tile.layers.len() && forall|i: int|
                0 <= i < tile.layers.len() ==> layer_of(#[trigger] tile.layers[i]) == Ok::<
                    Seq<FeatureModel>,
                    DecodeError,
                >(decoded[i]),
            Err(e) => exists|i: int|
                0 <= i < tile.layers.len() && layer_of(#[trigger] tile.layers[i]) == Err::<
                    Seq<FeatureModel>,
                    DecodeError,
                >(e) && forall|j: int| 0 <= j < i ==> layer_of(#[trigger] tile.layers[j]) is Ok,
        },
{
    layers_keep_order(tile, tile.layers.len() as nat);
}

/// Decoding is a function of the source: two decodings of one tile hold
/// the same layers, features, geometries and attributes, or fail with the
/// same error.
pub proof fn decoding_twice_agrees(
    tile: ProtoTile,
    first: Result<Tile, DecodeError>,
    second: Result<Tile, DecodeError>,
)
    requires
        outcome::<Tile>(first) == tile_of(tile),
        outcome::<Tile>(second) == tile_of(tile),
    ensures
        first is Ok <==> second is Ok,
        first is Ok ==> first->Ok_0@ == second->Ok_0@,
        first is Err ==> first->Err_0 == second->Err_0,
{
}

} // verus!
