//! The decoded tile: layers of features.

use vstd::prelude::*;
use crate::geometry::{Geometry, Shape};
use crate::properties::{Properties, Value};

verus! {

/// One map entity: a geometry and its attributes.
#[derive(Debug, PartialEq, Eq)]
pub struct Feature {
    pub geometry: Geometry,
    pub properties: Properties,
}

/// What a feature holds.
pub struct FeatureModel {
    pub geometry: Shape,
    pub properties: Map<Seq<char>, Value>,
}

impl View for Feature {
    type V = FeatureModel;

    open spec fn view(&self) -> FeatureModel {
        FeatureModel { geometry: self.geometry@, properties: self.properties@ }
    }
}

impl Feature {
    pub fn new(geometry: Geometry, properties: Properties) -> (f: Feature)
        ensures
            f.geometry == geometry,
            f.properties == properties,
    {
        Feature { geometry, properties }
    }

    /// Whether two features hold the same geometry and the same attributes,
    /// in whatever order the attributes were mapped.
    pub fn same_feature(&self, other: &Feature) -> (b: bool)
        ensures
            b == (self@ == other@),
    {
        self.geometry.same_shape(&other.geometry) && self.properties.same_mapping(
            &other.properties,
        )
    }
}

/// What a list of features holds, one by one.
pub open spec fn features_view(features: Seq<Feature>) -> Seq<FeatureModel> {
    Seq::new(features.len(), |i: int| features[i]@)
}

/// A layer: its features, in the order of the source.
#[derive(Debug, PartialEq, Eq)]
pub struct Layer {
    pub features: Vec<Feature>,
}

impl View for Layer {
    type V = Seq<FeatureModel>;

    open spec fn view(&self) -> Seq<FeatureModel> {
        features_view(self.features@)
    }
}

impl Layer {
    pub fn new(features: Vec<Feature>) -> (l: Layer)
        ensures
            l.features == features,
    {
        Layer { features }
    }

    /// Whether two layers hold the same features in the same order.
    pub fn same_layer(&self, other: &Layer) -> (b: bool)
        ensures
            b == (self@ == other@),
    {
        if self.features.len() != other.features.len() {
            assert(self@.len() != other@.len());
            return false;
        }
        let mut i: usize = 0;
        while i < self.features.len()
            invariant
                i <= self.features.len(),
                self.features.len() == other.features.len(),
                forall|j: int| 0 <= j < i ==> self.features[j]@ == other.features[j]@,
            decreases self.features.len() - i,
        {
            if !self.features[i].same_feature(&other.features[i]) {
                assert(self@[i as int] == self.features[i as int]@);
                assert(other@[i as int] == other.features[i as int]@);
                return false;
            }
            i += 1;
        }
        assert(self@ =~= other@);
        true
    }
}

/// What a list of layers holds, one by one.
pub open spec fn layers_view(layers: Seq<Layer>) -> Seq<Seq<FeatureModel>> {
    Seq::new(layers.len(), |i: int| layers[i]@)
}

/// A tile: its layers, in the order of the source.
#[derive(Debug, PartialEq, Eq)]
pub struct Tile {
    pub layers: Vec<Layer>,
}

impl View for Tile {
    type V = Seq<Seq<FeatureModel>>;

    open spec fn view(&self) -> Seq<Seq<FeatureModel>> {
        layers_view(self.layers@)
    }
}

impl Tile {
    pub fn new(layers: Vec<Layer>) -> (t: Tile)
        ensures
            t.layers == layers,
    {
        Tile { layers }
    }

    /// Whether two tiles hold the same layers in the same order.
    pub fn same_tile(&self, other: &Tile) -> (b: bool)
        ensures
            b == (self@ == other@),
    {
        if self.layers.len() != other.layers.len() {
            assert(self@.len() != other@.len());
            return false;
        }
        let mut i: usize = 0;
        while i < self.layers.len()
            invariant
                i <= self.layers.len(),
                self.layers.len() == other.layers.len(),
                forall|j: int| 0 <= j < i ==> self.layers[j]@ == other.layers[j]@,
            decreases self.layers.len() - i,
        {
            if !self.layers[i].same_layer(&other.layers[i]) {
                assert(self@[i as int] == self.layers[i as int]@);
                assert(other@[i as int] == other.layers[i as int]@);
                return false;
            }
            i += 1;
        }
        assert(self@ =~= other@);
        true
    }
}

} // verus!
