//! The IR data model: handles into append-only arenas, types, global
//! variables and entry points.
use vstd::prelude::*;

verus! {

/// A handle into the type arena.
#[derive(Clone, Copy, Debug, PartialEq, Eq, Structural, Hash)]
pub struct TypeHandle {
    pub index: usize,
}

/// A handle into an expression arena.
#[derive(Clone, Copy, Debug, PartialEq, Eq, Structural, Hash)]
pub struct ExprHandle {
    pub index: usize,
}

/// A handle into the global variable arena.
#[derive(Clone, Copy, Debug, PartialEq, Eq, Structural, Hash)]
pub struct GlobalHandle {
    pub index: usize,
}

#[derive(Clone, Copy, Debug, PartialEq, Eq, Structural, Hash)]
pub enum ScalarKind {
    Sint,
    Uint,
    Float,
    Bool,
}

#[derive(Clone, Copy, Debug, PartialEq, Eq, Structural, Hash)]
pub enum VectorSize {
    Bi,
    Tri,
    Quad,
}

#[derive(Clone, Copy, Debug, PartialEq, Eq, Structural, Hash)]
pub enum StorageClass {
    Function,
    Private,
    WorkGroup,
    Uniform,
    Storage,
    Handle,
    PushConstant,
}

#[derive(Clone, Copy, Debug, PartialEq, Eq, Structural, Hash)]
pub enum ShaderStage {
    Vertex,
    Fragment,
    Compute,
}

#[derive(Clone, Copy, Debug, PartialEq, Eq, Structural, Hash)]
pub enum BuiltIn {
    BaseInstance,
    BaseVertex,
    ClipDistance,
    InstanceIndex,
    PointSize,
    Position,
    VertexIndex,
    FragDepth,
    FrontFacing,
    SampleIndex,
    SampleMask,
    GlobalInvocationId,
    LocalInvocationId,
    LocalInvocationIndex,
    WorkGroupId,
    WorkGroupSize,
}

#[derive(Clone, Copy, Debug, PartialEq, Eq, Structural, Hash)]
pub enum Interpolation {
    Perspective,
    Linear,
    Flat,
}

/// Where an entry point argument, result or struct member is bound.
#[derive(Clone, Copy, Debug, PartialEq, Eq, Structural, Hash)]
pub enum Binding {
    BuiltIn(BuiltIn),
    Location(u32, Option<Interpolation>),
}

/// The LOAD / STORE permissions of a storage-class variable.
#[derive(Clone, Copy, Debug, PartialEq, Eq, Structural, Hash)]
pub struct StorageAccess {
    pub load: bool,
    pub store: bool,
}

impl StorageAccess {
    pub open spec fn contains_spec(self, other: StorageAccess) -> bool {
        (other.load ==> self.load) && (other.store ==> self.store)
    }

    /// Whether every permission of `other` is also in `self`.
    pub fn contains(&self, other: StorageAccess) -> (r: bool)
        ensures
            r == self.contains_spec(other),
    {
        (!other.load || self.load) && (!other.store || self.store)
    }
}

#[derive(Clone, Copy, Debug, PartialEq, Eq, Structural, Hash)]
pub enum ImageClass {
    Sampled { kind: ScalarKind, multi: bool },
    Depth { multi: bool },
    Storage { access: StorageAccess },
}

/// The size of an array type.
#[derive(Clone, Copy, Debug, PartialEq, Eq, Structural, Hash)]
pub enum ArraySize {
    Constant(u32),
    /// A size defined later by an override expression in the global
    /// expression arena.
    Pending(ExprHandle),
    Dynamic,
}

/// A member of a struct type.
#[derive(Clone, Copy, Debug, PartialEq, Eq, Structural, Hash)]
pub struct StructMember {
    pub ty: TypeHandle,
    pub binding: Option<Binding>,
    pub offset: u32,
}

#[derive(Clone, Debug)]
pub enum TypeInner {
    Scalar { kind: ScalarKind, width: u8 },
    Vector { size: VectorSize, kind: ScalarKind, width: u8 },
    Matrix { columns: VectorSize, rows: VectorSize, width: u8 },
    Atomic { kind: ScalarKind, width: u8 },
    Pointer { base: TypeHandle, class: StorageClass },
    ValuePointer { size: Option<VectorSize>, kind: ScalarKind, width: u8, class: StorageClass },
    Array { base: TypeHandle, size: ArraySize, stride: u32 },
    Struct { block: bool, members: Vec<StructMember>, span: u32 },
    Image { arrayed: bool, class: ImageClass },
    Sampler { comparison: bool },
    AccelerationStructure,
    RayQuery,
    BindingArray { base: TypeHandle, size: ArraySize },
}

#[derive(Clone, Debug)]
pub struct Type {
    pub inner: TypeInner,
}

impl TypeInner {
    /// The scalar kind of a scalar, vector or matrix type.
    pub open spec fn scalar_kind_spec(&self) -> Option<ScalarKind> {
        match *self {
            TypeInner::Scalar { kind, .. } => Some(kind),
            TypeInner::Vector { kind, .. } => Some(kind),
            TypeInner::Matrix { .. } => Some(ScalarKind::Float),
            _ => None,
        }
    }

    pub fn scalar_kind(&self) -> (r: Option<ScalarKind>)
        ensures
            r == self.scalar_kind_spec(),
    {
        match *self {
            TypeInner::Scalar { kind, .. } => Some(kind),
            TypeInner::Vector { kind, .. } => Some(kind),
            TypeInner::Matrix { .. } => Some(ScalarKind::Float),
            _ => None,
        }
    }
}

/// The (group, binding) slot of a resource variable.
#[derive(Clone, Copy, Debug, PartialEq, Eq, Structural, Hash)]
pub struct ResourceBinding {
    pub group: u32,
    pub binding: u32,
}

#[derive(Clone, Copy, Debug, PartialEq, Eq, Structural, Hash)]
pub struct GlobalVariable {
    pub class: StorageClass,
    pub binding: Option<ResourceBinding>,
    pub ty: TypeHandle,
    pub storage_access: StorageAccess,
}

#[derive(Clone, Copy, Debug, PartialEq, Eq, Structural, Hash)]
pub enum ConservativeDepth {
    GreaterEqual,
    LessEqual,
    Unchanged,
}

#[derive(Clone, Copy, Debug, PartialEq, Eq, Structural, Hash)]
pub struct EarlyDepthTest {
    pub conservative: Option<ConservativeDepth>,
}

#[derive(Clone, Copy, Debug, PartialEq, Eq, Structural, Hash)]
pub struct FunctionArgument {
    pub ty: TypeHandle,
    pub binding: Option<Binding>,
}

#[derive(Clone, Copy, Debug, PartialEq, Eq, Structural, Hash)]
pub struct FunctionResult {
    pub ty: TypeHandle,
    pub binding: Option<Binding>,
}

/// The interface of a function: what the entry point validation reads.
#[derive(Clone, Debug)]
pub struct Function {
    pub arguments: Vec<FunctionArgument>,
    pub result: Option<FunctionResult>,
}

#[derive(Clone, Debug)]
pub struct EntryPoint {
    pub stage: ShaderStage,
    pub early_depth_test: Option<EarlyDepthTest>,
    pub workgroup_size: [u32; 3],
    pub function: Function,
}

#[derive(Clone, Debug)]
pub struct Module {
    pub types: Vec<Type>,
    pub global_variables: Vec<GlobalVariable>,
}

} // verus!
