//! Validation of global variables and of entry point interfaces.
use vstd::prelude::*;
use crate::compact::{type_refs, types_closed};
use crate::bits::{bit_set_clear, bit_set_contents, bit_set_insert, new_bit_set};
use crate::ir::{
    Binding, BuiltIn, EntryPoint, FunctionArgument, FunctionResult, GlobalHandle, GlobalVariable, ImageClass, Interpolation,
    Module, ScalarKind, StructMember, ShaderStage, StorageAccess, StorageClass, Type, TypeHandle, TypeInner,
    VectorSize,
};

verus! {

/// Workgroup sizes must lie below this bound.
pub const MAX_WORKGROUP_SIZE: u32 = 0x4000;

/// What a type can be used for, computed ahead of validation.
#[derive(Clone, Copy, Debug, PartialEq, Eq, Structural, Hash)]
pub struct TypeFlags {
    pub data: bool,
    pub sized: bool,
    pub interface: bool,
    pub host_shared: bool,
}

impl TypeFlags {
    pub open spec fn contains_spec(self, other: TypeFlags) -> bool {
        &&& other.data ==> self.data
        &&& other.sized ==> self.sized
        &&& other.interface ==> self.interface
        &&& other.host_shared ==> self.host_shared
    }

    /// Whether every flag of `other` is also in `self`.
    pub fn contains(&self, other: TypeFlags) -> (r: bool)
        ensures
            r == self.contains_spec(other),
    {
        (!other.data || self.data) && (!other.sized || self.sized) && (!other.interface
            || self.interface) && (!other.host_shared || self.host_shared)
    }
}

/// Why a type breaks the layout rules of a storage class.
#[derive(Clone, Copy, Debug, PartialEq, Eq, Structural, Hash)]
pub enum Disalignment {
    ArrayStride { stride: u32, alignment: u32 },
    StructSpan { span: u32, alignment: u32 },
    MemberOffset { index: u32, offset: u32, alignment: u32 },
}

/// The facts computed ahead of validation for one type.
#[derive(Clone, Copy, Debug)]
pub struct TypeInfo {
    pub flags: TypeFlags,
    pub uniform_layout: Result<(), (TypeHandle, Disalignment)>,
    pub storage_layout: Result<(), (TypeHandle, Disalignment)>,
}

/// How a function uses a global variable.
#[derive(Clone, Copy, Debug, PartialEq, Eq, Structural, Hash)]
pub struct GlobalUse {
    pub read: bool,
    pub write: bool,
    pub query: bool,
}

impl GlobalUse {
    pub open spec fn contains_spec(self, other: GlobalUse) -> bool {
        &&& other.read ==> self.read
        &&& other.write ==> self.write
        &&& other.query ==> self.query
    }

    pub open spec fn is_empty_spec(self) -> bool {
        !self.read && !self.write && !self.query
    }

    pub fn contains(&self, other: GlobalUse) -> (r: bool)
        ensures
            r == self.contains_spec(other),
    {
        (!other.read || self.read) && (!other.write || self.write) && (!other.query
            || self.query)
    }

    pub fn is_empty(&self) -> (r: bool)
        ensures
            r == self.is_empty_spec(),
    {
        !self.read && !self.write && !self.query
    }
}

/// The usage of each global variable observed in a function, indexed like
/// the module's global variables.
#[derive(Clone, Debug)]
pub struct FunctionInfo {
    pub global_uses: Vec<GlobalUse>,
}

#[derive(Clone, Copy, Debug, PartialEq, Eq, Structural, Hash)]
pub enum GlobalVariableError {
    InvalidUsage,
    InvalidType,
    InvalidStorageAccess { allowed: StorageAccess, seen: StorageAccess },
    MissingTypeFlags { required: TypeFlags, seen: TypeFlags },
    InvalidBinding,
    Alignment(TypeHandle, Disalignment),
}

#[derive(Clone, Copy, Debug, PartialEq, Eq, Structural, Hash)]
pub enum VaryingError {
    InvalidType(TypeHandle),
    InvalidInterpolation,
    InvalidBuiltInStage(BuiltIn),
    InvalidBuiltInType(BuiltIn),
    MemberMissingBinding(u32),
    BindingCollision { location: u32 },
}

#[derive(Clone, Copy, Debug, PartialEq, Eq, Structural, Hash)]
pub enum EntryPointError {
    Conflict,
    UnexpectedEarlyDepthTest,
    UnexpectedWorkgroupSize,
    OutOfRangeWorkgroupSize,
    InvalidGlobalUsage(GlobalHandle, GlobalUse),
    BindingCollision(GlobalHandle),
    Argument(u32, VaryingError),
    Result(VaryingError),
    InvalidIntegerInterpolation { location: u32 },
}

pub open spec fn access_all() -> StorageAccess {
    StorageAccess { load: true, store: true }
}

pub open spec fn access_none() -> StorageAccess {
    StorageAccess { load: false, store: false }
}

pub open spec fn flags_of(data: bool, sized: bool, host_shared: bool) -> TypeFlags {
    TypeFlags { data, sized, interface: false, host_shared }
}

/// The checks common to every storage class, in order: access, then type
/// flags, then binding.
pub open spec fn class_checks(
    var: GlobalVariable,
    info: TypeInfo,
    allowed: StorageAccess,
    required: TypeFlags,
    is_resource: bool,
) -> Result<(), GlobalVariableError> {
    if !allowed.contains_spec(var.storage_access) {
        Err(GlobalVariableError::InvalidStorageAccess { allowed, seen: var.storage_access })
    } else if !info.flags.contains_spec(required) {
        Err(GlobalVariableError::MissingTypeFlags { required, seen: info.flags })
    } else if is_resource != var.binding is Some {
        Err(GlobalVariableError::InvalidBinding)
    } else {
        Ok(())
    }
}

/// The layout check of a block struct, then the common checks.
pub open spec fn block_checks(
    var: GlobalVariable,
    inner: TypeInner,
    info: TypeInfo,
    layout: Result<(), (TypeHandle, Disalignment)>,
    required: TypeFlags,
    allowed: StorageAccess,
) -> Result<(), GlobalVariableError> {
    if !(inner matches TypeInner::Struct { block: true, .. }) {
        Err(GlobalVariableError::InvalidType)
    } else {
        match layout {
            Err((h, d)) => Err(GlobalVariableError::Alignment(h, d)),
            Ok(()) => class_checks(var, info, allowed, required, true),
        }
    }
}

/// The outcome of validating global variable `var`, whose type is `inner`
/// with precomputed facts `info`.
pub open spec fn global_var_outcome(var: GlobalVariable, inner: TypeInner, info: TypeInfo) -> Result<
    (),
    GlobalVariableError,
> {
    match var.class {
        StorageClass::Function => Err(GlobalVariableError::InvalidUsage),
        StorageClass::Storage => block_checks(
            var,
            inner,
            info,
            info.storage_layout,
            flags_of(true, false, true),
            access_all(),
        ),
        StorageClass::Uniform => block_checks(
            var,
            inner,
            info,
            info.uniform_layout,
            flags_of(true, true, true),
            access_none(),
        ),
        StorageClass::Handle => match inner {
            TypeInner::Image { class: ImageClass::Storage { .. }, .. } => class_checks(
                var,
                info,
                access_all(),
                flags_of(false, false, false),
                true,
            ),
            TypeInner::Image { .. } => class_checks(
                var,
                info,
                access_none(),
                flags_of(false, false, false),
                true,
            ),
            TypeInner::Sampler { .. } => class_checks(
                var,
                info,
                access_none(),
                flags_of(false, false, false),
                true,
            ),
            _ => Err(GlobalVariableError::InvalidType),
        },
        StorageClass::Private | StorageClass::WorkGroup => class_checks(
            var,
            info,
            access_none(),
            flags_of(true, false, false),
            false,
        ),
        StorageClass::PushConstant => class_checks(
            var,
            info,
            StorageAccess { load: true, store: false },
            flags_of(true, false, true),
            false,
        ),
    }
}

pub open spec fn is_scalar(inner: TypeInner, kind: ScalarKind, width: u8) -> bool {
    inner matches TypeInner::Scalar { kind: k, width: w } && k == kind && w == width
}

pub open spec fn is_vector(inner: TypeInner, size: VectorSize, kind: ScalarKind, width: u8) -> bool {
    inner matches TypeInner::Vector { size: s, kind: k, width: w } && s == size && k == kind && w
        == width
}

/// Whether builtin `b` is available in `stage`, as an output or an input.
pub open spec fn builtin_visible(b: BuiltIn, stage: ShaderStage, output: bool) -> bool {
    match b {
        BuiltIn::BaseInstance | BuiltIn::BaseVertex | BuiltIn::InstanceIndex
        | BuiltIn::VertexIndex => stage == ShaderStage::Vertex && !output,
        BuiltIn::ClipDistance | BuiltIn::PointSize => stage == ShaderStage::Vertex && output,
        BuiltIn::Position => match stage {
            ShaderStage::Vertex => output,
            ShaderStage::Fragment => !output,
            ShaderStage::Compute => false,
        },
        BuiltIn::FragDepth => stage == ShaderStage::Fragment && output,
        BuiltIn::FrontFacing | BuiltIn::SampleIndex => stage == ShaderStage::Fragment && !output,
        BuiltIn::SampleMask => stage == ShaderStage::Fragment,
        BuiltIn::LocalInvocationIndex | BuiltIn::GlobalInvocationId | BuiltIn::LocalInvocationId
        | BuiltIn::WorkGroupId | BuiltIn::WorkGroupSize => stage == ShaderStage::Compute
            && !output,
    }
}

/// Whether a value of type `inner` may carry builtin `b`.
pub open spec fn builtin_type_good(b: BuiltIn, inner: TypeInner, types: Seq<Type>) -> bool {
    match b {
        BuiltIn::BaseInstance | BuiltIn::BaseVertex | BuiltIn::InstanceIndex
        | BuiltIn::VertexIndex | BuiltIn::SampleIndex | BuiltIn::SampleMask
        | BuiltIn::LocalInvocationIndex => is_scalar(inner, ScalarKind::Uint, 4),
        BuiltIn::ClipDistance => match inner {
            TypeInner::Array { base, .. } => is_scalar(
                types[base.index as int].inner,
                ScalarKind::Float,
                4,
            ),
            _ => false,
        },
        BuiltIn::PointSize | BuiltIn::FragDepth => is_scalar(inner, ScalarKind::Float, 4),
        BuiltIn::Position => is_vector(inner, VectorSize::Quad, ScalarKind::Float, 4),
        BuiltIn::FrontFacing => is_scalar(inner, ScalarKind::Bool, BOOL_WIDTH),
        BuiltIn::GlobalInvocationId | BuiltIn::LocalInvocationId | BuiltIn::WorkGroupId
        | BuiltIn::WorkGroupSize => is_vector(inner, VectorSize::Tri, ScalarKind::Uint, 4),
    }
}

/// The interpolation and type rule of a location binding whose index is
/// free.
pub open spec fn location_rule(
    inner: TypeInner,
    ty: TypeHandle,
    stage: ShaderStage,
    output: bool,
    interpolation: Option<Interpolation>,
) -> Result<(), VaryingError> {
    let needs_interpolation = stage == ShaderStage::Fragment && !output;
    if !needs_interpolation && interpolation is Some {
        Err(VaryingError::InvalidInterpolation)
    } else {
        match inner.scalar_kind_spec() {
            Some(ScalarKind::Float) => Ok(()),
            Some(_) => if needs_interpolation && interpolation != Some(Interpolation::Flat) {
                Err(VaryingError::InvalidInterpolation)
            } else {
                Ok(())
            },
            None => Err(VaryingError::InvalidType(ty)),
        }
    }
}

/// The outcome of one binding on a value of type `ty`, and the set of taken
/// locations afterwards.
pub open spec fn binding_outcome(
    types: Seq<Type>,
    stage: ShaderStage,
    output: bool,
    ty: TypeHandle,
    binding: Binding,
    mask: Set<nat>,
) -> (Result<(), VaryingError>, Set<nat>) {
    let inner = types[ty.index as int].inner;
    match binding {
        Binding::BuiltIn(b) => if !builtin_visible(b, stage, output) {
            (Err(VaryingError::InvalidBuiltInStage(b)), mask)
        } else if !builtin_type_good(b, inner, types) {
            (Err(VaryingError::InvalidBuiltInType(b)), mask)
        } else {
            (Ok(()), mask)
        },
        Binding::Location(location, interpolation) => if mask.contains(location as nat) {
            (Err(VaryingError::BindingCollision { location }), mask)
        } else {
            (
                location_rule(inner, ty, stage, output, interpolation),
                mask.insert(location as nat),
            )
        },
    }
}

/// The outcome of the members of a binding-less struct from member `i` on.
pub open spec fn members_outcome(
    types: Seq<Type>,
    stage: ShaderStage,
    output: bool,
    members: Seq<StructMember>,
    i: nat,
    mask: Set<nat>,
) -> (Result<(), VaryingError>, Set<nat>)
    decreases members.len() - i,
{
    if i >= members.len() {
        (Ok(()), mask)
    } else {
        match members[i as int].binding {
            None => (Err(VaryingError::MemberMissingBinding(i as u32)), mask),
            Some(b) => {
                let step = binding_outcome(types, stage, output, members[i as int].ty, b, mask);
                if step.0 is Err {
                    step
                } else {
                    members_outcome(types, stage, output, members, i + 1, step.1)
                }
            },
        }
    }
}

/// The outcome of an argument or result of type `ty` with `binding`.
pub open spec fn varying_outcome(
    types: Seq<Type>,
    stage: ShaderStage,
    output: bool,
    ty: TypeHandle,
    binding: Option<Binding>,
    mask: Set<nat>,
) -> (Result<(), VaryingError>, Set<nat>) {
    match binding {
        Some(b) => binding_outcome(types, stage, output, ty, b, mask),
        None => match types[ty.index as int].inner {
            TypeInner::Struct { block: false, members, .. } => members_outcome(
                types,
                stage,
                output,
                members@,
                0,
                mask,
            ),
            _ => (Err(VaryingError::InvalidType(ty)), mask),
        },
    }
}

/// Every location index is below `usize::MAX`, which the location bit set
/// needs; true wherever `usize` is wider than `u32`.
pub open spec fn usize_wider_than_u32() -> bool {
    u32::MAX < usize::MAX
}

/// The width of a boolean scalar.
pub const BOOL_WIDTH: u8 = 1;

fn scalar_is(inner: &TypeInner, kind: ScalarKind, width: u8) -> (r: bool)
    ensures
        r == is_scalar(*inner, kind, width),
{
    match inner {
        TypeInner::Scalar { kind: k, width: w } => *k == kind && *w == width,
        _ => false,
    }
}

fn vector_is(inner: &TypeInner, size: VectorSize, kind: ScalarKind, width: u8) -> (r: bool)
    ensures
        r == is_vector(*inner, size, kind, width),
{
    match inner {
        TypeInner::Vector { size: s, kind: k, width: w } => *s == size && *k == kind && *w
            == width,
        _ => false,
    }
}

/// One argument or result under validation.
struct VaryingContext<'a> {
    ty: TypeHandle,
    stage: ShaderStage,
    output: bool,
    types: &'a Vec<Type>,
}

impl<'a> VaryingContext<'a> {
    fn validate_impl(&self, location_mask: &mut bit_set::BitSet, binding: Binding) -> (r: Result<
        (),
        VaryingError,
    >)
        requires
            self.ty.index < self.types@.len(),
            types_closed(self.types@),
            usize_wider_than_u32(),
        ensures
            (r, bit_set_contents(*final(location_mask))) == binding_outcome(
                self.types@,
                self.stage,
                self.output,
                self.ty,
                binding,
                bit_set_contents(*old(location_mask)),
            ),
    {
        let ty_inner = &self.types[self.ty.index].inner;
        match binding {
            Binding::BuiltIn(built_in) => {
                let width: u8 = 4;
                let (visible, type_good) = match built_in {
                    BuiltIn::BaseInstance
                    | BuiltIn::BaseVertex
                    | BuiltIn::InstanceIndex
                    | BuiltIn::VertexIndex => (
                        self.stage == ShaderStage::Vertex && !self.output,
                        scalar_is(ty_inner, ScalarKind::Uint, width),
                    ),
                    BuiltIn::ClipDistance => (
                        self.stage == ShaderStage::Vertex && self.output,
                        match ty_inner {
                            TypeInner::Array { base, .. } => {
                                assert(type_refs(*ty_inner).contains(base.index as nat));
                                scalar_is(&self.types[base.index].inner, ScalarKind::Float, width)
                            },
                            _ => false,
                        },
                    ),
                    BuiltIn::PointSize => (
                        self.stage == ShaderStage::Vertex && self.output,
                        scalar_is(ty_inner, ScalarKind::Float, width),
                    ),
                    BuiltIn::Position => (
                        match self.stage {
                            ShaderStage::Vertex => self.output,
                            ShaderStage::Fragment => !self.output,
                            ShaderStage::Compute => false,
                        },
                        vector_is(ty_inner, VectorSize::Quad, ScalarKind::Float, width),
                    ),
                    BuiltIn::FragDepth => (
                        self.stage == ShaderStage::Fragment && self.output,
                        scalar_is(ty_inner, ScalarKind::Float, width),
                    ),
                    BuiltIn::FrontFacing => (
                        self.stage == ShaderStage::Fragment && !self.output,
                        scalar_is(ty_inner, ScalarKind::Bool, BOOL_WIDTH),
                    ),
                    BuiltIn::SampleIndex => (
                        self.stage == ShaderStage::Fragment && !self.output,
                        scalar_is(ty_inner, ScalarKind::Uint, width),
                    ),
                    BuiltIn::SampleMask => (
                        self.stage == ShaderStage::Fragment,
                        scalar_is(ty_inner, ScalarKind::Uint, width),
                    ),
                    BuiltIn::LocalInvocationIndex => (
                        self.stage == ShaderStage::Compute && !self.output,
                        scalar_is(ty_inner, ScalarKind::Uint, width),
                    ),
                    BuiltIn::GlobalInvocationId
                    | BuiltIn::LocalInvocationId
                    | BuiltIn::WorkGroupId
                    | BuiltIn::WorkGroupSize => (
                        self.stage == ShaderStage::Compute && !self.output,
                        vector_is(ty_inner, VectorSize::Tri, ScalarKind::Uint, width),
                    ),
                };
                if !visible {
                    return Err(VaryingError::InvalidBuiltInStage(built_in));
                }
                if !type_good {
                    return Err(VaryingError::InvalidBuiltInType(built_in));
                }
            },
            Binding::Location(location, interpolation) => {
                if !bit_set_insert(location_mask, location as usize) {
                    return Err(VaryingError::BindingCollision { location });
                }
                let needs_interpolation = self.stage == ShaderStage::Fragment && !self.output;
                if !needs_interpolation && interpolation.is_some() {
                    return Err(VaryingError::InvalidInterpolation);
                }
                let flat = match interpolation {
                    Some(Interpolation::Flat) => true,
                    _ => false,
                };
                match ty_inner.scalar_kind() {
                    Some(ScalarKind::Float) => {},
                    Some(_) => {
                        if needs_interpolation && !flat {
                            return Err(VaryingError::InvalidInterpolation);
                        }
                    },
                    None => return Err(VaryingError::InvalidType(self.ty)),
                }
            },
        }
        Ok(())
    }

    fn validate(&mut self, location_mask: &mut bit_set::BitSet, binding: Option<Binding>) -> (r:
        Result<(), VaryingError>)
        requires
            old(self).ty.index < old(self).types@.len(),
            types_closed(old(self).types@),
            usize_wider_than_u32(),
        ensures
            (r, bit_set_contents(*final(location_mask))) == varying_outcome(
                old(self).types@,
                old(self).stage,
                old(self).output,
                old(self).ty,
                binding,
                bit_set_contents(*old(location_mask)),
            ),
    {
        match binding {
            Some(b) => self.validate_impl(location_mask, b),
            None => {
                let types = self.types;
                match &types[self.ty.index].inner {
                    TypeInner::Struct { block: false, members, .. } => {
                        let ghost ty0 = self.ty;
                        let ghost mask0 = bit_set_contents(*location_mask);
                        let mut result: Result<(), VaryingError> = Ok(());
                        let mut index: usize = 0;
                        while result.is_ok() && index < members.len()
                            invariant
                                index <= members@.len(),
                                self.types == types,
                                old(self).types == types,
                                self.stage == old(self).stage,
                                self.output == old(self).output,
                                types_closed(types@),
                                usize_wider_than_u32(),
                                types@[ty0.index as int].inner matches TypeInner::Struct {
                                    block: false,
                                    members: ms,
                                    ..
                                } && ms == members,
                                ty0.index < types@.len(),
                                ty0 == old(self).ty,
                                mask0 == bit_set_contents(*old(location_mask)),
                                result is Ok ==> result == Ok::<(), VaryingError>(()),
                                members_outcome(types@, self.stage, self.output, members@, 0, mask0)
                                    == (if result is Ok {
                                    members_outcome(
                                        types@,
                                        self.stage,
                                        self.output,
                                        members@,
                                        index as nat,
                                        bit_set_contents(*location_mask),
                                    )
                                } else {
                                    (result, bit_set_contents(*location_mask))
                                }),
                            decreases members@.len() - index,
                        {
                            let member = members[index];
                            assert(type_refs(types@[ty0.index as int].inner).contains(
                                member.ty.index as nat,
                            ));
                            self.ty = member.ty;
                            match member.binding {
                                None => {
                                    result = Err(
                                        VaryingError::MemberMissingBinding(
                                            #[verifier::truncate]
                                            (index as u32),
                                        ),
                                    );
                                },
                                Some(b) => {
                                    result = self.validate_impl(location_mask, b);
                                },
                            }
                            index += 1;
                        }
                        result
                    },
                    _ => Err(VaryingError::InvalidType(self.ty)),
                }
            },
        }
    }
}

/// The usage that a storage access permits: always a query, and a read or
/// a write where the access allows it.
pub open spec fn storage_usage_spec(access: StorageAccess) -> GlobalUse {
    GlobalUse { read: access.load, write: access.store, query: true }
}

/// Maps a storage access to the usage it permits.
pub fn storage_usage(access: StorageAccess) -> (r: GlobalUse)
    ensures
        r == storage_usage_spec(access),
{
    let mut storage_usage = GlobalUse { read: false, write: false, query: true };
    if access.load {
        storage_usage.read = true;
    }
    if access.store {
        storage_usage.write = true;
    }
    storage_usage
}

pub open spec fn read_query() -> GlobalUse {
    GlobalUse { read: true, write: false, query: true }
}

/// The usage that an entry point may make of `var`, whose type is `inner`.
/// A function-class variable admits no usage at all.
pub open spec fn allowed_usage(var: GlobalVariable, inner: TypeInner) -> GlobalUse {
    match var.class {
        StorageClass::Function => GlobalUse { read: false, write: false, query: false },
        StorageClass::Uniform => read_query(),
        StorageClass::Storage => storage_usage_spec(var.storage_access),
        StorageClass::Handle => match inner {
            TypeInner::Image { class: ImageClass::Storage { .. }, .. } => storage_usage_spec(
                var.storage_access,
            ),
            _ => read_query(),
        },
        StorageClass::Private | StorageClass::WorkGroup => GlobalUse {
            read: true,
            write: true,
            query: true,
        },
        StorageClass::PushConstant => GlobalUse { read: true, write: false, query: false },
    }
}

/// The outcome of the usage and binding checks over the global variables
/// from index `i` on, with the (group, binding) slots in `taken` already
/// claimed by used variables.
pub open spec fn globals_outcome(
    types: Seq<Type>,
    globals: Seq<GlobalVariable>,
    uses: Seq<GlobalUse>,
    i: nat,
    taken: Set<(nat, nat)>,
) -> Result<(), EntryPointError>
    decreases globals.len() - i,
{
    if i >= globals.len() {
        Ok(())
    } else {
        let var = globals[i as int];
        let usage = uses[i as int];
        if usage.is_empty_spec() {
            globals_outcome(types, globals, uses, i + 1, taken)
        } else if !allowed_usage(var, types[var.ty.index as int].inner).contains_spec(usage) {
            Err(EntryPointError::InvalidGlobalUsage(GlobalHandle { index: i as usize }, usage))
        } else {
            match var.binding {
                Some(rb) => {
                    let slot = (rb.group as nat, rb.binding as nat);
                    if taken.contains(slot) {
                        Err(EntryPointError::BindingCollision(GlobalHandle { index: i as usize }))
                    } else {
                        globals_outcome(types, globals, uses, i + 1, taken.insert(slot))
                    }
                },
                None => globals_outcome(types, globals, uses, i + 1, taken),
            }
        }
    }
}

/// The outcome of the arguments from index `i` on, with the locations in
/// `mask` already taken.
pub open spec fn args_outcome(
    types: Seq<Type>,
    stage: ShaderStage,
    args: Seq<FunctionArgument>,
    i: nat,
    mask: Set<nat>,
) -> Result<(), EntryPointError>
    decreases args.len() - i,
{
    if i >= args.len() {
        Ok(())
    } else {
        let step = varying_outcome(types, stage, false, args[i as int].ty, args[i as int].binding, mask);
        match step.0 {
            Err(e) => Err(EntryPointError::Argument(i as u32, e)),
            Ok(_) => args_outcome(types, stage, args, i + 1, step.1),
        }
    }
}

/// The outcome of the result, whose locations are counted afresh.
pub open spec fn result_outcome(
    types: Seq<Type>,
    stage: ShaderStage,
    result: Option<FunctionResult>,
) -> Result<(), EntryPointError> {
    match result {
        Some(fr) => match varying_outcome(types, stage, true, fr.ty, fr.binding, Set::empty()).0 {
            Err(e) => Err(EntryPointError::Result(e)),
            Ok(_) => Ok(()),
        },
        None => Ok(()),
    }
}

pub open spec fn workgroup_in_range(s: u32) -> bool {
    1 <= s < MAX_WORKGROUP_SIZE
}

/// The early depth test and workgroup size rules of an entry point.
pub open spec fn stage_outcome(ep: EntryPoint) -> Result<(), EntryPointError> {
    let ws = ep.workgroup_size@;
    if ep.early_depth_test is Some && ep.stage != ShaderStage::Fragment {
        Err(EntryPointError::UnexpectedEarlyDepthTest)
    } else if ep.stage == ShaderStage::Compute && !(workgroup_in_range(ws[0])
        && workgroup_in_range(ws[1]) && workgroup_in_range(ws[2])) {
        Err(EntryPointError::OutOfRangeWorkgroupSize)
    } else if ep.stage != ShaderStage::Compute && !(ws[0] == 0 && ws[1] == 0 && ws[2] == 0) {
        Err(EntryPointError::UnexpectedWorkgroupSize)
    } else {
        Ok(())
    }
}

/// The outcome of validating entry point `ep` of a module with `types` and
/// `globals`, whose function uses the globals as `uses` says.
pub open spec fn entry_point_outcome(
    ep: EntryPoint,
    types: Seq<Type>,
    globals: Seq<GlobalVariable>,
    uses: Seq<GlobalUse>,
) -> Result<(), EntryPointError> {
    if stage_outcome(ep) is Err {
        stage_outcome(ep)
    } else if args_outcome(types, ep.stage, ep.function.arguments@, 0, Set::empty()) is Err {
        args_outcome(types, ep.stage, ep.function.arguments@, 0, Set::empty())
    } else if result_outcome(types, ep.stage, ep.function.result) is Err {
        result_outcome(types, ep.stage, ep.function.result)
    } else {
        globals_outcome(types, globals, uses, 0, Set::empty())
    }
}

/// What validating an entry point needs of its module: every handle in
/// bounds, and one observed usage per global variable.
pub open spec fn entry_point_ready(ep: EntryPoint, module: Module, info: FunctionInfo) -> bool {
    let types = module.types@;
    &&& types_closed(types)
    &&& forall|i: int|
        0 <= i < ep.function.arguments@.len() ==> #[trigger] ep.function.arguments@[i].ty.index
            < types.len()
    &&& (ep.function.result matches Some(fr) ==> fr.ty.index < types.len())
    &&& forall|i: int|
        0 <= i < module.global_variables@.len() ==> #[trigger] module.global_variables@[i].ty.index
            < types.len()
    &&& info.global_uses@.len() == module.global_variables@.len()
}

/// The (group, binding) slots held by per-group bit sets.
spec fn taken_slots(masks: Seq<bit_set::BitSet>) -> Set<(nat, nat)> {
    Set::new(
        |p: (nat, nat)| p.0 < masks.len() && bit_set_contents(masks[p.0 as int]).contains(p.1),
    )
}

/// Validates global variables and entry points, keeping scratch bit sets
/// between calls.
pub struct Validator {
    types: Vec<TypeInfo>,
    location_mask: bit_set::BitSet,
    bind_group_masks: Vec<bit_set::BitSet>,
}

impl Validator {
    /// The facts of each type of the module under validation.
    pub closed spec fn type_infos(&self) -> Seq<TypeInfo> {
        self.types@
    }

    /// A validator for a module whose types have the facts `types`.
    pub fn new(types: Vec<TypeInfo>) -> (r: Validator)
        ensures
            r.type_infos() == types@,
    {
        Validator { types, location_mask: new_bit_set(), bind_group_masks: Vec::new() }
    }

    /// Checks that `var` fits the rules of its storage class.
    pub fn validate_global_var(&self, var: &GlobalVariable, types: &Vec<Type>) -> (r: Result<
        (),
        GlobalVariableError,
    >)
        requires
            var.ty.index < types@.len(),
            var.ty.index < self.type_infos().len(),
        ensures
            r == global_var_outcome(
                *var,
                types@[var.ty.index as int].inner,
                self.type_infos()[var.ty.index as int],
            ),
    {
        let type_info = &self.types[var.ty.index];
        let (allowed_storage_access, required_type_flags, is_resource) = match var.class {
            StorageClass::Function => return Err(GlobalVariableError::InvalidUsage),
            StorageClass::Storage => {
                match types[var.ty.index].inner {
                    TypeInner::Struct { block: true, .. } => {
                        if let Err((ty_handle, disalignment)) = type_info.storage_layout {
                            return Err(GlobalVariableError::Alignment(ty_handle, disalignment));
                        }
                    },
                    _ => return Err(GlobalVariableError::InvalidType),
                }
                (
                    StorageAccess { load: true, store: true },
                    TypeFlags { data: true, sized: false, interface: false, host_shared: true },
                    true,
                )
            },
            StorageClass::Uniform => {
                match types[var.ty.index].inner {
                    TypeInner::Struct { block: true, .. } => {
                        if let Err((ty_handle, disalignment)) = type_info.uniform_layout {
                            return Err(GlobalVariableError::Alignment(ty_handle, disalignment));
                        }
                    },
                    _ => return Err(GlobalVariableError::InvalidType),
                }
                (
                    StorageAccess { load: false, store: false },
                    TypeFlags { data: true, sized: true, interface: false, host_shared: true },
                    true,
                )
            },
            StorageClass::Handle => {
                let access = match types[var.ty.index].inner {
                    TypeInner::Image { class: ImageClass::Storage { .. }, .. } => StorageAccess {
                        load: true,
                        store: true,
                    },
                    TypeInner::Image { .. } | TypeInner::Sampler { .. } => StorageAccess {
                        load: false,
                        store: false,
                    },
                    _ => return Err(GlobalVariableError::InvalidType),
                };
                (
                    access,
                    TypeFlags { data: false, sized: false, interface: false, host_shared: false },
                    true,
                )
            },
            StorageClass::Private | StorageClass::WorkGroup => (
                StorageAccess { load: false, store: false },
                TypeFlags { data: true, sized: false, interface: false, host_shared: false },
                false,
            ),
            StorageClass::PushConstant => (
                StorageAccess { load: true, store: false },
                TypeFlags { data: true, sized: false, interface: false, host_shared: true },
                false,
            ),
        };

        if !allowed_storage_access.contains(var.storage_access) {
            return Err(
                GlobalVariableError::InvalidStorageAccess {
                    seen: var.storage_access,
                    allowed: allowed_storage_access,
                },
            );
        }
        if !type_info.flags.contains(required_type_flags) {
            return Err(
                GlobalVariableError::MissingTypeFlags {
                    seen: type_info.flags,
                    required: required_type_flags,
                },
            );
        }
        if is_resource != var.binding.is_some() {
            return Err(GlobalVariableError::InvalidBinding);
        }
        Ok(())
    }

    /// Checks an entry point's stage rules, workgroup size, argument and
    /// result bindings, and the usage and binding slots of the global
    /// variables that its function uses, as observed in `info`. Returns
    /// `info` on success.
    pub fn validate_entry_point(&mut self, ep: &EntryPoint, module: &Module, info: FunctionInfo) -> (r:
        Result<FunctionInfo, EntryPointError>)
        requires
            entry_point_ready(*ep, *module, info),
            usize_wider_than_u32(),
        ensures
            match r {
                Ok(i) => entry_point_outcome(
                    *ep,
                    module.types@,
                    module.global_variables@,
                    info.global_uses@,
                ) == Ok::<(), EntryPointError>(()) && i.global_uses@ == info.global_uses@,
                Err(e) => entry_point_outcome(
                    *ep,
                    module.types@,
                    module.global_variables@,
                    info.global_uses@,
                ) == Err::<(), EntryPointError>(e),
            },
    {
        if ep.early_depth_test.is_some() && ep.stage != ShaderStage::Fragment {
            return Err(EntryPointError::UnexpectedEarlyDepthTest);
        }
        let ws = ep.workgroup_size;
        if ep.stage == ShaderStage::Compute {
            if ws[0] == 0 || ws[0] >= MAX_WORKGROUP_SIZE || ws[1] == 0 || ws[1]
                >= MAX_WORKGROUP_SIZE || ws[2] == 0 || ws[2] >= MAX_WORKGROUP_SIZE {
                return Err(EntryPointError::OutOfRangeWorkgroupSize);
            }
        } else if ws[0] != 0 || ws[1] != 0 || ws[2] != 0 {
            return Err(EntryPointError::UnexpectedWorkgroupSize);
        }

        let types = &module.types;
        let args = &ep.function.arguments;
        bit_set_clear(&mut self.location_mask);
        let mut index: usize = 0;
        while index < args.len()
            invariant
                index <= args@.len(),
                entry_point_ready(*ep, *module, info),
                usize_wider_than_u32(),
                args == ep.function.arguments,
                types == module.types,
                stage_outcome(*ep) is Ok,
                args_outcome(types@, ep.stage, args@, 0, Set::empty()) == args_outcome(
                    types@,
                    ep.stage,
                    args@,
                    index as nat,
                    bit_set_contents(self.location_mask),
                ),
            decreases args@.len() - index,
        {
            let fa = args[index];
            assert(args@[index as int].ty.index < types@.len());
            let mut ctx = VaryingContext { ty: fa.ty, stage: ep.stage, output: false, types };
            match ctx.validate(&mut self.location_mask, fa.binding) {
                Err(e) => {
                    return Err(
                        EntryPointError::Argument(
                            #[verifier::truncate]
                            (index as u32),
                            e,
                        ),
                    );
                },
                Ok(()) => {},
            }
            index += 1;
        }

        bit_set_clear(&mut self.location_mask);
        if let Some(fr) = ep.function.result {
            let mut ctx = VaryingContext { ty: fr.ty, stage: ep.stage, output: true, types };
            match ctx.validate(&mut self.location_mask, fr.binding) {
                Err(e) => {
                    return Err(EntryPointError::Result(e));
                },
                Ok(()) => {},
            }
        }

        let mut g: usize = 0;
        while g < self.bind_group_masks.len()
            invariant
                g <= self.bind_group_masks@.len(),
                forall|k: int|
                    0 <= k < g ==> bit_set_contents(#[trigger] self.bind_group_masks@[k])
                        == Set::<nat>::empty(),
            decreases self.bind_group_masks@.len() - g,
        {
            bit_set_clear(&mut self.bind_group_masks[g]);
            g += 1;
        }
        assert(taken_slots(self.bind_group_masks@) =~= Set::<(nat, nat)>::empty());

        let globals = &module.global_variables;
        let uses = &info.global_uses;
        let mut i: usize = 0;
        while i < globals.len()
            invariant
                i <= globals@.len(),
                entry_point_ready(*ep, *module, info),
                usize_wider_than_u32(),
                globals == module.global_variables,
                uses == info.global_uses,
                types == module.types,
                stage_outcome(*ep) is Ok,
                args_outcome(types@, ep.stage, ep.function.arguments@, 0, Set::empty()) is Ok,
                result_outcome(types@, ep.stage, ep.function.result) is Ok,
                globals_outcome(types@, globals@, uses@, 0, Set::empty()) == globals_outcome(
                    types@,
                    globals@,
                    uses@,
                    i as nat,
                    taken_slots(self.bind_group_masks@),
                ),
            decreases globals@.len() - i,
        {
            let var = globals[i];
            let usage = uses[i];
            if usage.is_empty() {
                i += 1;
                continue;
            }
            assert(globals@[i as int].ty.index < types@.len());
            let allowed_usage = match var.class {
                StorageClass::Function => GlobalUse { read: false, write: false, query: false },
                StorageClass::Uniform => GlobalUse { read: true, write: false, query: true },
                StorageClass::Storage => storage_usage(var.storage_access),
                StorageClass::Handle => match types[var.ty.index].inner {
                    TypeInner::Image { class: ImageClass::Storage { .. }, .. } => storage_usage(
                        var.storage_access,
                    ),
                    _ => GlobalUse { read: true, write: false, query: true },
                },
                StorageClass::Private | StorageClass::WorkGroup => GlobalUse {
                    read: true,
                    write: true,
                    query: true,
                },
                StorageClass::PushConstant => GlobalUse { read: true, write: false, query: false },
            };
            if !allowed_usage.contains(usage) {
                return Err(EntryPointError::InvalidGlobalUsage(GlobalHandle { index: i }, usage));
            }
            if let Some(bind) = var.binding {
                let group = bind.group as usize;
                let ghost taken0 = taken_slots(self.bind_group_masks@);
                while self.bind_group_masks.len() <= group
                    invariant
                        taken_slots(self.bind_group_masks@) == taken0,
                        usize_wider_than_u32(),
                        group <= u32::MAX,
                    decreases group + 1 - self.bind_group_masks@.len(),
                {
                    let ghost before = self.bind_group_masks@;
                    self.bind_group_masks.push(new_bit_set());
                    assert(taken_slots(self.bind_group_masks@) =~= taken_slots(before));
                }
                let ghost masks0 = self.bind_group_masks@;
                let fresh = bit_set_insert(&mut self.bind_group_masks[group], bind.binding as usize);
                assert(taken_slots(self.bind_group_masks@) =~= taken_slots(masks0).insert(
                    (bind.group as nat, bind.binding as nat),
                ));
                if !fresh {
                    return Err(EntryPointError::BindingCollision(GlobalHandle { index: i }));
                }
            }
            i += 1;
        }
        Ok(info)
    }
}

} // verus!
