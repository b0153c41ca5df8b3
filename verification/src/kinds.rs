//! The closed vocabularies of the configuration surface: every tag, mode
//! and format selector a caller can put into an options record. Each is a
//! plain tagged value moved through the flat ABI record verbatim.

use vstd::prelude::*;

verus! {

#[derive(Clone, Copy, PartialEq, Eq, Structural, Debug)]
pub enum RotationOrder {
    Xyz,
    Xzy,
    Yzx,
    Yxz,
    Zxy,
    Zyx,
    Spheric,
}

impl Default for RotationOrder {
    fn default() -> (r: Self)
        ensures
            r == RotationOrder::Xyz,
    {
        RotationOrder::Xyz
    }
}

#[derive(Clone, Copy, PartialEq, Eq, Structural, Debug)]
pub enum DomValueType {
    Number,
    String,
    ArrayI8,
    ArrayI32,
    ArrayI64,
    ArrayF32,
    ArrayF64,
    ArrayRawString,
    ArrayIgnored,
}

impl Default for DomValueType {
    fn default() -> (r: Self)
        ensures
            r == DomValueType::Number,
    {
        DomValueType::Number
    }
}

#[derive(Clone, Copy, PartialEq, Eq, Structural, Debug)]
pub enum PropType {
    Unknown,
    Boolean,
    Integer,
    Number,
    Vector,
    Color,
    ColorWithAlpha,
    String,
    DateTime,
    Translation,
    Rotation,
    Scaling,
    Distance,
    Compound,
    Blob,
    Reference,
}

impl Default for PropType {
    fn default() -> (r: Self)
        ensures
            r == PropType::Unknown,
    {
        PropType::Unknown
    }
}

#[derive(Clone, Copy, PartialEq, Eq, Structural, Debug)]
pub enum ElementType {
    Unknown,
    Node,
    Mesh,
    Light,
    Camera,
    Bone,
    Empty,
    LineCurve,
    NurbsCurve,
    NurbsSurface,
    NurbsTrimSurface,
    NurbsTrimBoundary,
    ProceduralGeometry,
    StereoCamera,
    CameraSwitcher,
    Marker,
    LodGroup,
    SkinDeformer,
    SkinCluster,
    BlendDeformer,
    BlendChannel,
    BlendShape,
    CacheDeformer,
    CacheFile,
    Material,
    Texture,
    Video,
    Shader,
    ShaderBinding,
    AnimStack,
    AnimLayer,
    AnimValue,
    AnimCurve,
    DisplayLayer,
    SelectionSet,
    SelectionNode,
    Character,
    Constraint,
    AudioLayer,
    AudioClip,
    Pose,
    MetadataObject,
}

impl Default for ElementType {
    fn default() -> (r: Self)
        ensures
            r == ElementType::Unknown,
    {
        ElementType::Unknown
    }
}

#[derive(Clone, Copy, PartialEq, Eq, Structural, Debug)]
pub enum InheritMode {
    Normal,
    IgnoreParentScale,
    ComponentwiseScale,
}

impl Default for InheritMode {
    fn default() -> (r: Self)
        ensures
            r == InheritMode::Normal,
    {
        InheritMode::Normal
    }
}

#[derive(Clone, Copy, PartialEq, Eq, Structural, Debug)]
pub enum MirrorAxis {
    NoMirror,
    X,
    Y,
    Z,
}

impl Default for MirrorAxis {
    fn default() -> (r: Self)
        ensures
            r == MirrorAxis::NoMirror,
    {
        MirrorAxis::NoMirror
    }
}

#[derive(Clone, Copy, PartialEq, Eq, Structural, Debug)]
pub enum SubdivisionDisplayMode {
    Disabled,
    Hull,
    HullAndSmooth,
    Smooth,
}

impl Default for SubdivisionDisplayMode {
    fn default() -> (r: Self)
        ensures
            r == SubdivisionDisplayMode::Disabled,
    {
        SubdivisionDisplayMode::Disabled
    }
}

#[derive(Clone, Copy, PartialEq, Eq, Structural, Debug)]
pub enum SubdivisionBoundary {
    Default,
    Legacy,
    SharpCorners,
    SharpNone,
    SharpBoundary,
    SharpInterior,
}

impl Default for SubdivisionBoundary {
    fn default() -> (r: Self)
        ensures
            r == SubdivisionBoundary::Default,
    {
        SubdivisionBoundary::Default
    }
}

#[derive(Clone, Copy, PartialEq, Eq, Structural, Debug)]
pub enum LightType {
    Point,
    Directional,
    Spot,
    Area,
    Volume,
}

impl Default for LightType {
    fn default() -> (r: Self)
        ensures
            r == LightType::Point,
    {
        LightType::Point
    }
}

#[derive(Clone, Copy, PartialEq, Eq, Structural, Debug)]
pub enum LightDecay {
    NoDecay,
    Linear,
    Quadratic,
    Cubic,
}

impl Default for LightDecay {
    fn default() -> (r: Self)
        ensures
            r == LightDecay::NoDecay,
    {
        LightDecay::NoDecay
    }
}

#[derive(Clone, Copy, PartialEq, Eq, Structural, Debug)]
pub enum LightAreaShape {
    Rectangle,
    Sphere,
}

impl Default for LightAreaShape {
    fn default() -> (r: Self)
        ensures
            r == LightAreaShape::Rectangle,
    {
        LightAreaShape::Rectangle
    }
}

#[derive(Clone, Copy, PartialEq, Eq, Structural, Debug)]
pub enum ProjectionMode {
    Perspective,
    Orthographic,
}

impl Default for ProjectionMode {
    fn default() -> (r: Self)
        ensures
            r == ProjectionMode::Perspective,
    {
        ProjectionMode::Perspective
    }
}

#[derive(Clone, Copy, PartialEq, Eq, Structural, Debug)]
pub enum AspectMode {
    WindowSize,
    FixedRatio,
    FixedResolution,
    FixedWidth,
    FixedHeight,
}

impl Default for AspectMode {
    fn default() -> (r: Self)
        ensures
            r == AspectMode::WindowSize,
    {
        AspectMode::WindowSize
    }
}

#[derive(Clone, Copy, PartialEq, Eq, Structural, Debug)]
pub enum ApertureMode {
    HorizontalAndVertical,
    Horizontal,
    Vertical,
    FocalLength,
}

impl Default for ApertureMode {
    fn default() -> (r: Self)
        ensures
            r == ApertureMode::HorizontalAndVertical,
    {
        ApertureMode::HorizontalAndVertical
    }
}

#[derive(Clone, Copy, PartialEq, Eq, Structural, Debug)]
pub enum GateFit {
    NoFit,
    Vertical,
    Horizontal,
    Fill,
    Overscan,
    Stretch,
}

impl Default for GateFit {
    fn default() -> (r: Self)
        ensures
            r == GateFit::NoFit,
    {
        GateFit::NoFit
    }
}

#[derive(Clone, Copy, PartialEq, Eq, Structural, Debug)]
pub enum ApertureFormat {
    Custom,
    E16MmTheatrical,
    Super16Mm,
    E35MmAcademy,
    E35MmTvProjection,
    E35MmFullAperture,
    E35Mm185Projection,
    E35MmAnamorphic,
    E70MmProjection,
    Vistavision,
    Dynavision,
    Imax,
}

impl Default for ApertureFormat {
    fn default() -> (r: Self)
        ensures
            r == ApertureFormat::Custom,
    {
        ApertureFormat::Custom
    }
}

#[derive(Clone, Copy, PartialEq, Eq, Structural, Debug)]
pub enum CoordinateAxis {
    PositiveX,
    NegativeX,
    PositiveY,
    NegativeY,
    PositiveZ,
    NegativeZ,
    Unknown,
}

impl Default for CoordinateAxis {
    fn default() -> (r: Self)
        ensures
            r == CoordinateAxis::PositiveX,
    {
        CoordinateAxis::PositiveX
    }
}

#[derive(Clone, Copy, PartialEq, Eq, Structural, Debug)]
pub enum NurbsTopology {
    Open,
    Periodic,
    Closed,
}

impl Default for NurbsTopology {
    fn default() -> (r: Self)
        ensures
            r == NurbsTopology::Open,
    {
        NurbsTopology::Open
    }
}

#[derive(Clone, Copy, PartialEq, Eq, Structural, Debug)]
pub enum MarkerType {
    Unknown,
    FkEffector,
    IkEffector,
}

impl Default for MarkerType {
    fn default() -> (r: Self)
        ensures
            r == MarkerType::Unknown,
    {
        MarkerType::Unknown
    }
}

#[derive(Clone, Copy, PartialEq, Eq, Structural, Debug)]
pub enum LodDisplay {
    UseLod,
    Show,
    Hide,
}

impl Default for LodDisplay {
    fn default() -> (r: Self)
        ensures
            r == LodDisplay::UseLod,
    {
        LodDisplay::UseLod
    }
}

#[derive(Clone, Copy, PartialEq, Eq, Structural, Debug)]
pub enum SkinningMethod {
    Linear,
    Rigid,
    DualQuaternion,
    BlendedDqLinear,
}

impl Default for SkinningMethod {
    fn default() -> (r: Self)
        ensures
            r == SkinningMethod::Linear,
    {
        SkinningMethod::Linear
    }
}

#[derive(Clone, Copy, PartialEq, Eq, Structural, Debug)]
pub enum CacheFileFormat {
    Unknown,
    Pc2,
    Mc,
}

impl Default for CacheFileFormat {
    fn default() -> (r: Self)
        ensures
            r == CacheFileFormat::Unknown,
    {
        CacheFileFormat::Unknown
    }
}

#[derive(Clone, Copy, PartialEq, Eq, Structural, Debug)]
pub enum CacheDataFormat {
    Unknown,
    RealFloat,
    Vec3Float,
    RealDouble,
    Vec3Double,
}

impl Default for CacheDataFormat {
    fn default() -> (r: Self)
        ensures
            r == CacheDataFormat::Unknown,
    {
        CacheDataFormat::Unknown
    }
}

#[derive(Clone, Copy, PartialEq, Eq, Structural, Debug)]
pub enum CacheDataEncoding {
    Unknown,
    LittleEndian,
    BigEndian,
}

impl Default for CacheDataEncoding {
    fn default() -> (r: Self)
        ensures
            r == CacheDataEncoding::Unknown,
    {
        CacheDataEncoding::Unknown
    }
}

#[derive(Clone, Copy, PartialEq, Eq, Structural, Debug)]
pub enum CacheInterpretation {
    Unknown,
    Points,
    VertexPosition,
    VertexNormal,
}

impl Default for CacheInterpretation {
    fn default() -> (r: Self)
        ensures
            r == CacheInterpretation::Unknown,
    {
        CacheInterpretation::Unknown
    }
}

#[derive(Clone, Copy, PartialEq, Eq, Structural, Debug)]
pub enum ShaderType {
    Unknown,
    FbxLambert,
    FbxPhong,
    OslStandardSurface,
    ArnoldStandardSurface,
    E3DsMaxPhysicalMaterial,
    E3DsMaxPbrMetalRough,
    E3DsMaxPbrSpecGloss,
    GltfMaterial,
    ShaderfxGraph,
    BlenderPhong,
    WavefrontMtl,
}

impl Default for ShaderType {
    fn default() -> (r: Self)
        ensures
            r == ShaderType::Unknown,
    {
        ShaderType::Unknown
    }
}

#[derive(Clone, Copy, PartialEq, Eq, Structural, Debug)]
pub enum MaterialFbxMap {
    DiffuseFactor,
    DiffuseColor,
    SpecularFactor,
    SpecularColor,
    SpecularExponent,
    ReflectionFactor,
    ReflectionColor,
    TransparencyFactor,
    TransparencyColor,
    EmissionFactor,
    EmissionColor,
    AmbientFactor,
    AmbientColor,
    NormalMap,
    Bump,
    BumpFactor,
    DisplacementFactor,
    Displacement,
    VectorDisplacementFactor,
    VectorDisplacement,
}

impl Default for MaterialFbxMap {
    fn default() -> (r: Self)
        ensures
            r == MaterialFbxMap::DiffuseFactor,
    {
        MaterialFbxMap::DiffuseFactor
    }
}

#[derive(Clone, Copy, PartialEq, Eq, Structural, Debug)]
pub enum MaterialPbrMap {
    BaseFactor,
    BaseColor,
    Roughness,
    Metalness,
    DiffuseRoughness,
    SpecularFactor,
    SpecularColor,
    SpecularIor,
    SpecularAnisotropy,
    SpecularRotation,
    TransmissionFactor,
    TransmissionColor,
    TransmissionDepth,
    TransmissionScatter,
    TransmissionScatterAnisotropy,
    TransmissionDispersion,
    TransmissionRoughness,
    TransmissionExtraRoughness,
    TransmissionPriority,
    TransmissionEnableInAov,
    SubsurfaceFactor,
    SubsurfaceColor,
    SubsurfaceRadius,
    SubsurfaceScale,
    SubsurfaceAnisotropy,
    SubsurfaceTintColor,
    SubsurfaceType,
    SheenFactor,
    SheenColor,
    SheenRoughness,
    CoatFactor,
    CoatColor,
    CoatRoughness,
    CoatIor,
    CoatAnisotropy,
    CoatRotation,
    CoatNormal,
    CoatAffectBaseColor,
    CoatAffectBaseRoughness,
    ThinFilmThickness,
    ThinFilmIor,
    EmissionFactor,
    EmissionColor,
    Opacity,
    IndirectDiffuse,
    IndirectSpecular,
    NormalMap,
    TangentMap,
    DisplacementMap,
    MatteFactor,
    MatteColor,
    AmbientOcclusion,
    Glossiness,
    CoatGlossiness,
    TransmissionGlossiness,
}

impl Default for MaterialPbrMap {
    fn default() -> (r: Self)
        ensures
            r == MaterialPbrMap::BaseFactor,
    {
        MaterialPbrMap::BaseFactor
    }
}

#[derive(Clone, Copy, PartialEq, Eq, Structural, Debug)]
pub enum MaterialFeature {
    Pbr,
    Metalness,
    Diffuse,
    Specular,
    Emission,
    Transmission,
    Coat,
    Sheen,
    Opacity,
    AmbientOcclusion,
    Matte,
    Unlit,
    Ior,
    DiffuseRoughness,
    TransmissionRoughness,
    ThinWalled,
    Caustics,
    ExitToBackground,
    InternalReflections,
    DoubleSided,
    RoughnessAsGlossiness,
    CoatRoughnessAsGlossiness,
    TransmissionRoughnessAsGlossiness,
}

impl Default for MaterialFeature {
    fn default() -> (r: Self)
        ensures
            r == MaterialFeature::Pbr,
    {
        MaterialFeature::Pbr
    }
}

#[derive(Clone, Copy, PartialEq, Eq, Structural, Debug)]
pub enum TextureType {
    File,
    Layered,
    Procedural,
    Shader,
}

impl Default for TextureType {
    fn default() -> (r: Self)
        ensures
            r == TextureType::File,
    {
        TextureType::File
    }
}

#[derive(Clone, Copy, PartialEq, Eq, Structural, Debug)]
pub enum BlendMode {
    Translucent,
    Additive,
    Multiply,
    Multiply2X,
    Over,
    Replace,
    Dissolve,
    Darken,
    ColorBurn,
    LinearBurn,
    DarkerColor,
    Lighten,
    Screen,
    ColorDodge,
    LinearDodge,
    LighterColor,
    SoftLight,
    HardLight,
    VividLight,
    LinearLight,
    PinLight,
    HardMix,
    Difference,
    Exclusion,
    Subtract,
    Divide,
    Hue,
    Saturation,
    Color,
    Luminosity,
    Overlay,
}

impl Default for BlendMode {
    fn default() -> (r: Self)
        ensures
            r == BlendMode::Translucent,
    {
        BlendMode::Translucent
    }
}

#[derive(Clone, Copy, PartialEq, Eq, Structural, Debug)]
pub enum WrapMode {
    Repeat,
    Clamp,
}

impl Default for WrapMode {
    fn default() -> (r: Self)
        ensures
            r == WrapMode::Repeat,
    {
        WrapMode::Repeat
    }
}

#[derive(Clone, Copy, PartialEq, Eq, Structural, Debug)]
pub enum ShaderTextureType {
    Unknown,
    SelectOutput,
    Osl,
}

impl Default for ShaderTextureType {
    fn default() -> (r: Self)
        ensures
            r == ShaderTextureType::Unknown,
    {
        ShaderTextureType::Unknown
    }
}

#[derive(Clone, Copy, PartialEq, Eq, Structural, Debug)]
pub enum Interpolation {
    ConstantPrev,
    ConstantNext,
    Linear,
    Cubic,
}

impl Default for Interpolation {
    fn default() -> (r: Self)
        ensures
            r == Interpolation::ConstantPrev,
    {
        Interpolation::ConstantPrev
    }
}

#[derive(Clone, Copy, PartialEq, Eq, Structural, Debug)]
pub enum ConstraintType {
    Unknown,
    Aim,
    Parent,
    Position,
    Rotation,
    Scale,
    SingleChainIk,
}

impl Default for ConstraintType {
    fn default() -> (r: Self)
        ensures
            r == ConstraintType::Unknown,
    {
        ConstraintType::Unknown
    }
}

#[derive(Clone, Copy, PartialEq, Eq, Structural, Debug)]
pub enum ConstraintAimUpType {
    Scene,
    ToNode,
    AlignNode,
    Vector,
    NoUp,
}

impl Default for ConstraintAimUpType {
    fn default() -> (r: Self)
        ensures
            r == ConstraintAimUpType::Scene,
    {
        ConstraintAimUpType::Scene
    }
}

#[derive(Clone, Copy, PartialEq, Eq, Structural, Debug)]
pub enum ConstraintIkPoleType {
    Vector,
    Node,
}

impl Default for ConstraintIkPoleType {
    fn default() -> (r: Self)
        ensures
            r == ConstraintIkPoleType::Vector,
    {
        ConstraintIkPoleType::Vector
    }
}

#[derive(Clone, Copy, PartialEq, Eq, Structural, Debug)]
pub enum Exporter {
    Unknown,
    FbxSdk,
    BlenderBinary,
    BlenderAscii,
    MotionBuilder,
}

impl Default for Exporter {
    fn default() -> (r: Self)
        ensures
            r == Exporter::Unknown,
    {
        Exporter::Unknown
    }
}

#[derive(Clone, Copy, PartialEq, Eq, Structural, Debug)]
pub enum FileFormat {
    Unknown,
    Fbx,
    Obj,
    Mtl,
}

impl Default for FileFormat {
    fn default() -> (r: Self)
        ensures
            r == FileFormat::Unknown,
    {
        FileFormat::Unknown
    }
}

#[derive(Clone, Copy, PartialEq, Eq, Structural, Debug)]
pub enum ThumbnailFormat {
    Unknown,
    Rgb24,
    Rgba32,
}

impl Default for ThumbnailFormat {
    fn default() -> (r: Self)
        ensures
            r == ThumbnailFormat::Unknown,
    {
        ThumbnailFormat::Unknown
    }
}

#[derive(Clone, Copy, PartialEq, Eq, Structural, Debug)]
pub enum SpaceConversion {
    TransformRoot,
    AdjustTransforms,
    ModifyGeometry,
}

impl Default for SpaceConversion {
    fn default() -> (r: Self)
        ensures
            r == SpaceConversion::TransformRoot,
    {
        SpaceConversion::TransformRoot
    }
}

#[derive(Clone, Copy, PartialEq, Eq, Structural, Debug)]
pub enum TimeMode {
    Default,
    E120Fps,
    E100Fps,
    E60Fps,
    E50Fps,
    E48Fps,
    E30Fps,
    E30FpsDrop,
    NtscDropFrame,
    NtscFullFrame,
    Pal,
    E24Fps,
    E1000Fps,
    FilmFullFrame,
    Custom,
    E96Fps,
    E72Fps,
    E5994Fps,
}

impl Default for TimeMode {
    fn default() -> (r: Self)
        ensures
            r == TimeMode::Default,
    {
        TimeMode::Default
    }
}

#[derive(Clone, Copy, PartialEq, Eq, Structural, Debug)]
pub enum TimeProtocol {
    Smpte,
    FrameCount,
    Default,
}

impl Default for TimeProtocol {
    fn default() -> (r: Self)
        ensures
            r == TimeProtocol::Smpte,
    {
        TimeProtocol::Smpte
    }
}

#[derive(Clone, Copy, PartialEq, Eq, Structural, Debug)]
pub enum SnapMode {
    NoSnap,
    Snap,
    Play,
    SnapAndPlay,
}

impl Default for SnapMode {
    fn default() -> (r: Self)
        ensures
            r == SnapMode::NoSnap,
    {
        SnapMode::NoSnap
    }
}

#[derive(Clone, Copy, PartialEq, Eq, Structural, Debug)]
pub enum IndexErrorHandling {
    Clamp,
    NoIndex,
    AbortLoading,
    UnsafeIgnore,
}

impl Default for IndexErrorHandling {
    fn default() -> (r: Self)
        ensures
            r == IndexErrorHandling::Clamp,
    {
        IndexErrorHandling::Clamp
    }
}

#[derive(Clone, Copy, PartialEq, Eq, Structural, Debug)]
pub enum UnicodeErrorHandling {
    ReplacementCharacter,
    Underscore,
    QuestionMark,
    Remove,
    AbortLoading,
    UnsafeIgnore,
}

impl Default for UnicodeErrorHandling {
    fn default() -> (r: Self)
        ensures
            r == UnicodeErrorHandling::ReplacementCharacter,
    {
        UnicodeErrorHandling::ReplacementCharacter
    }
}

#[derive(Clone, Copy, PartialEq, Eq, Structural, Debug)]
pub enum GeometryTransformHandling {
    Preserve,
    HelperNodes,
    ModifyGeometry,
    ModifyGeometryNoFallback,
}

impl Default for GeometryTransformHandling {
    fn default() -> (r: Self)
        ensures
            r == GeometryTransformHandling::Preserve,
    {
        GeometryTransformHandling::Preserve
    }
}

#[derive(Clone, Copy, PartialEq, Eq, Structural, Debug)]
pub enum InheritModeHandling {
    Preserve,
    HelperNodes,
    Compensate,
    CompensateNoFallback,
    Ignore,
}

impl Default for InheritModeHandling {
    fn default() -> (r: Self)
        ensures
            r == InheritModeHandling::Preserve,
    {
        InheritModeHandling::Preserve
    }
}

#[derive(Clone, Copy, PartialEq, Eq, Structural, Debug)]
pub enum PivotHandling {
    Retain,
    AdjustToPivot,
}

impl Default for PivotHandling {
    fn default() -> (r: Self)
        ensures
            r == PivotHandling::Retain,
    {
        PivotHandling::Retain
    }
}

#[derive(Clone, Copy, PartialEq, Eq, Structural, Debug)]
pub enum BakeStepHandling {
    Default,
    CustomDuration,
    IdenticalTime,
    AdjacentDouble,
    Ignore,
}

impl Default for BakeStepHandling {
    fn default() -> (r: Self)
        ensures
            r == BakeStepHandling::Default,
    {
        BakeStepHandling::Default
    }
}

#[derive(Clone, Copy, PartialEq, Eq, Structural, Debug)]
pub enum WarningType {
    MissingExternalFile,
    ImplicitMtl,
    TruncatedArray,
    MissingGeometryData,
    DuplicateConnection,
    BadVertexWAttribute,
    MissingPolygonMapping,
    IndexClamped,
    BadUnicode,
    BadElementConnectedToRoot,
    DuplicateObjectId,
    EmptyFaceRemoved,
    UnknownObjDirective,
}

impl Default for WarningType {
    fn default() -> (r: Self)
        ensures
            r == WarningType::MissingExternalFile,
    {
        WarningType::MissingExternalFile
    }
}

#[derive(Clone, Copy, PartialEq, Eq, Structural, Debug)]
pub enum OpenFileType {
    MainModel,
    GeometryCache,
    ObjMtl,
}

impl Default for OpenFileType {
    fn default() -> (r: Self)
        ensures
            r == OpenFileType::MainModel,
    {
        OpenFileType::MainModel
    }
}

} // verus!
