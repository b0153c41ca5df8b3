use ufbx::{
    Application, BakedAnimMetadata, CoordinateAxes, CoordinateAxis, Edge, ErrorType, Face,
    FaceGroup, InheritMode, LineSegment, MaterialFeatureInfo, MeshPart, MirrorAxis, ProgressResult,
    RotationOrder, SubdivisionWeightRange, ThreadPoolInfo, TopoEdge, TopoFlags, Warning,
    WarningType,
};

#[test]
fn enum_defaults_match_the_engine_zero_values() {
    assert_eq!(ErrorType::default(), ErrorType::NoError);
    assert_eq!(ProgressResult::default(), ProgressResult::Continue);
    assert_eq!(RotationOrder::default(), RotationOrder::Xyz);
    assert_eq!(MirrorAxis::default(), MirrorAxis::NoMirror);
    assert_eq!(InheritMode::default(), InheritMode::Normal);
    assert_eq!(CoordinateAxis::default(), CoordinateAxis::PositiveX);
}

#[test]
fn face_and_edge_records_hold_their_fields() {
    let face = Face { index_begin: 4, num_indices: 3 };
    assert_eq!(face.index_begin, 4);
    assert_eq!(face.num_indices, 3);
    assert_eq!(Face::default().num_indices, 0);

    let edge = Edge { indices: [1, 2] };
    assert_eq!(edge.indices, [1, 2]);

    let segment = LineSegment { index_begin: 0, num_indices: 2 };
    assert_eq!(segment.num_indices, 2);

    let range = SubdivisionWeightRange { weight_begin: 1, num_weights: 5 };
    assert_eq!(range.num_weights, 5);
}

#[test]
fn scene_description_records_carry_owned_text() {
    let app = Application {
        vendor: String::from("Blender Foundation"),
        name: String::from("Blender"),
        version: String::from("4.0"),
    };
    assert_eq!(app.name, "Blender");

    let warning = Warning {
        type_: WarningType::UnknownObjDirective,
        description: String::from("unknown directive"),
        element_id: 9,
        count: 2,
    };
    assert_eq!(warning.count, 2);

    let group = FaceGroup { id: -1, name: String::from("walls") };
    assert_eq!(group.id, -1);

    let part = MeshPart {
        index: 0,
        num_faces: 1,
        num_triangles: 1,
        num_empty_faces: 0,
        num_point_faces: 0,
        num_line_faces: 0,
        face_indices: vec![0],
    };
    assert_eq!(part.face_indices, vec![0]);
}

#[test]
fn topology_and_metadata_records_are_plain_values() {
    let topo = TopoEdge {
        index: 0,
        next: 1,
        prev: 2,
        twin: 3,
        face: 4,
        edge: 5,
        flags: TopoFlags(0x1),
    };
    assert!(topo.flags.any());

    let axes = CoordinateAxes {
        right: CoordinateAxis::PositiveX,
        up: CoordinateAxis::PositiveY,
        front: CoordinateAxis::PositiveZ,
    };
    assert_eq!(axes.up, CoordinateAxis::PositiveY);

    let info = ThreadPoolInfo { max_concurrent_tasks: 8 };
    assert_eq!(info.max_concurrent_tasks, 8);

    let meta = BakedAnimMetadata {
        result_memory_used: 1,
        temp_memory_used: 2,
        result_allocs: 3,
        temp_allocs: 4,
    };
    assert_eq!(meta.temp_allocs, 4);

    let feature = MaterialFeatureInfo { enabled: true, is_explicit: false };
    assert!(feature.enabled);
}
