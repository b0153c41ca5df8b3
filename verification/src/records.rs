//! Plain data records shared between the configuration surface and the
//! values the engine reports back. Strings and lists that the engine owns on
//! its side are carried here as ordinary owned values.

use crate::flags::TopoFlags;
use crate::kinds::{CoordinateAxis, WarningType};
use vstd::prelude::*;

verus! {

/// A right/up/front axis triple describing a coordinate space.
#[derive(Clone, Copy, PartialEq, Eq, Structural, Debug)]
pub struct CoordinateAxes {
    pub right: CoordinateAxis,
    pub up: CoordinateAxis,
    pub front: CoordinateAxis,
}

impl Default for CoordinateAxes {
    fn default() -> (r: Self)
        ensures
            r == (CoordinateAxes {
                right: CoordinateAxis::PositiveX,
                up: CoordinateAxis::PositiveX,
                front: CoordinateAxis::PositiveX,
            }),
    {
        CoordinateAxes {
            right: CoordinateAxis::PositiveX,
            up: CoordinateAxis::PositiveX,
            front: CoordinateAxis::PositiveX,
        }
    }
}

/// One mesh edge, as a pair of indices.
#[derive(Clone, Copy, PartialEq, Eq, Debug)]
pub struct Edge {
    pub indices: [u32; 2],
}

/// One mesh face: a range of indices.
#[derive(Clone, Copy, PartialEq, Eq, Structural, Debug)]
pub struct Face {
    pub index_begin: u32,
    pub num_indices: u32,
}

impl Default for Face {
    fn default() -> (r: Self)
        ensures
            r.index_begin == 0,
            r.num_indices == 0,
    {
        Face { index_begin: 0, num_indices: 0 }
    }
}

/// Face counts and indices of one material part of a mesh.
pub struct MeshPart {
    pub index: u32,
    pub num_faces: usize,
    pub num_triangles: usize,
    pub num_empty_faces: usize,
    pub num_point_faces: usize,
    pub num_line_faces: usize,
    pub face_indices: Vec<u32>,
}

/// A named face group.
pub struct FaceGroup {
    pub id: i32,
    pub name: String,
}

/// A range of subdivision weights.
#[derive(Clone, Copy, PartialEq, Eq, Structural, Debug)]
pub struct SubdivisionWeightRange {
    pub weight_begin: u32,
    pub num_weights: u32,
}

/// One line segment: a range of indices.
#[derive(Clone, Copy, PartialEq, Eq, Structural, Debug)]
pub struct LineSegment {
    pub index_begin: u32,
    pub num_indices: u32,
}

/// Whether one material feature is enabled, and whether explicitly so.
#[derive(Clone, Copy, PartialEq, Eq, Structural, Debug)]
pub struct MaterialFeatureInfo {
    pub enabled: bool,
    pub is_explicit: bool,
}

/// The full set of material features.
#[derive(Clone, Copy, PartialEq, Eq, Structural, Debug)]
pub struct MaterialFeatures {
    pub pbr: MaterialFeatureInfo,
    pub metalness: MaterialFeatureInfo,
    pub diffuse: MaterialFeatureInfo,
    pub specular: MaterialFeatureInfo,
    pub emission: MaterialFeatureInfo,
    pub transmission: MaterialFeatureInfo,
    pub coat: MaterialFeatureInfo,
    pub sheen: MaterialFeatureInfo,
    pub opacity: MaterialFeatureInfo,
    pub ambient_occlusion: MaterialFeatureInfo,
    pub matte: MaterialFeatureInfo,
    pub unlit: MaterialFeatureInfo,
    pub ior: MaterialFeatureInfo,
    pub diffuse_roughness: MaterialFeatureInfo,
    pub transmission_roughness: MaterialFeatureInfo,
    pub thin_walled: MaterialFeatureInfo,
    pub caustics: MaterialFeatureInfo,
    pub exit_to_background: MaterialFeatureInfo,
    pub internal_reflections: MaterialFeatureInfo,
    pub double_sided: MaterialFeatureInfo,
    pub roughness_as_glossiness: MaterialFeatureInfo,
    pub coat_roughness_as_glossiness: MaterialFeatureInfo,
    pub transmission_roughness_as_glossiness: MaterialFeatureInfo,
}

/// One texture file referenced by the document.
pub struct TextureFile {
    pub index: u32,
    pub filename: String,
    pub absolute_filename: String,
    pub relative_filename: String,
    pub raw_filename: Vec<u8>,
    pub raw_absolute_filename: Vec<u8>,
    pub raw_relative_filename: Vec<u8>,
    pub content: Vec<u8>,
}

/// A binding from a shader property to a material property.
pub struct ShaderPropBinding {
    pub shader_prop: String,
    pub material_prop: String,
}

/// The application that wrote a document.
pub struct Application {
    pub vendor: String,
    pub name: String,
    pub version: String,
}

/// One warning the engine gathered while loading.
pub struct Warning {
    pub type_: WarningType,
    pub description: String,
    pub element_id: u32,
    pub count: usize,
}

/// One half-edge of the computed mesh topology.
#[derive(Clone, Copy, PartialEq, Eq, Structural, Debug)]
pub struct TopoEdge {
    pub index: u32,
    pub next: u32,
    pub prev: u32,
    pub twin: u32,
    pub face: u32,
    pub edge: u32,
    pub flags: TopoFlags,
}

/// Memory accounting the engine reports for a baked animation.
#[derive(Clone, Copy, PartialEq, Eq, Structural, Debug)]
pub struct BakedAnimMetadata {
    pub result_memory_used: usize,
    pub temp_memory_used: usize,
    pub result_allocs: usize,
    pub temp_allocs: usize,
}

/// What the engine tells a thread pool when initializing it.
#[derive(Clone, Copy, PartialEq, Eq, Structural, Debug)]
pub struct ThreadPoolInfo {
    pub max_concurrent_tasks: u32,
}

/// Decompression state retained between streaming inflate calls.
pub struct InflateRetain {
    pub initialized: bool,
    pub data: Vec<u64>,
}

} // verus!
