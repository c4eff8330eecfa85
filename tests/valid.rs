use naga::ir::{
    Binding, BuiltIn, EarlyDepthTest, EntryPoint, Function, FunctionArgument, FunctionResult,
    GlobalHandle, GlobalVariable, ImageClass, Interpolation, Module, ResourceBinding, ScalarKind,
    ShaderStage, StorageAccess, StorageClass, StructMember, Type, TypeHandle, TypeInner,
    VectorSize,
};
use naga::valid::{
    storage_usage, Disalignment, EntryPointError, FunctionInfo, GlobalUse, GlobalVariableError,
    TypeFlags, TypeInfo, Validator, VaryingError,
};

const NONE: StorageAccess = StorageAccess { load: false, store: false };
const LOAD: StorageAccess = StorageAccess { load: true, store: false };
const ALL: StorageAccess = StorageAccess { load: true, store: true };
const UNUSED: GlobalUse = GlobalUse { read: false, write: false, query: false };
const READ: GlobalUse = GlobalUse { read: true, write: false, query: false };
const WRITE: GlobalUse = GlobalUse { read: false, write: true, query: false };

fn th(index: usize) -> TypeHandle {
    TypeHandle { index }
}

fn flags(data: bool, sized: bool, host_shared: bool) -> TypeFlags {
    TypeFlags { data, sized, interface: false, host_shared }
}

fn info(f: TypeFlags) -> TypeInfo {
    TypeInfo { flags: f, uniform_layout: Ok(()), storage_layout: Ok(()) }
}

// Type arena shared by the tests:
// 0 f32, 1 u32, 2 i32, 3 bool, 4 vec4<f32>, 5 vec3<u32>, 6 vec2<u32>,
// 7 array<f32, 8>, 8 block struct { f32 }, 9 struct { f32 @location(0), u32 @location(1) flat },
// 10 struct { f32 @location(0), u32 (no binding) }, 11 storage image, 12 sampled image,
// 13 sampler, 14 struct { f32 } that is not a block, 15 array<u32, 8>
fn types() -> Vec<Type> {
    let scalar = |kind, width| Type { inner: TypeInner::Scalar { kind, width } };
    let vector = |size, kind| Type { inner: TypeInner::Vector { size, kind, width: 4 } };
    let loc = |l, i| Some(Binding::Location(l, i));
    vec![
        scalar(ScalarKind::Float, 4),
        scalar(ScalarKind::Uint, 4),
        scalar(ScalarKind::Sint, 4),
        scalar(ScalarKind::Bool, 1),
        vector(VectorSize::Quad, ScalarKind::Float),
        vector(VectorSize::Tri, ScalarKind::Uint),
        vector(VectorSize::Bi, ScalarKind::Uint),
        Type { inner: TypeInner::Array { base: th(0), size: naga::ir::ArraySize::Constant(8), stride: 4 } },
        Type {
            inner: TypeInner::Struct {
                block: true,
                members: vec![StructMember { ty: th(0), binding: None, offset: 0 }],
                span: 4,
            },
        },
        Type {
            inner: TypeInner::Struct {
                block: false,
                members: vec![
                    StructMember { ty: th(0), binding: loc(0, None), offset: 0 },
                    StructMember { ty: th(1), binding: loc(1, Some(Interpolation::Flat)), offset: 4 },
                ],
                span: 8,
            },
        },
        Type {
            inner: TypeInner::Struct {
                block: false,
                members: vec![
                    StructMember { ty: th(0), binding: loc(0, None), offset: 0 },
                    StructMember { ty: th(1), binding: None, offset: 4 },
                ],
                span: 8,
            },
        },
        Type { inner: TypeInner::Image { arrayed: false, class: ImageClass::Storage { access: ALL } } },
        Type {
            inner: TypeInner::Image {
                arrayed: false,
                class: ImageClass::Sampled { kind: ScalarKind::Float, multi: false },
            },
        },
        Type { inner: TypeInner::Sampler { comparison: false } },
        Type {
            inner: TypeInner::Struct {
                block: false,
                members: vec![StructMember { ty: th(0), binding: None, offset: 0 }],
                span: 4,
            },
        },
        Type { inner: TypeInner::Array { base: th(1), size: naga::ir::ArraySize::Constant(8), stride: 4 } },
    ]
}

fn infos() -> Vec<TypeInfo> {
    let mut v: Vec<TypeInfo> = (0..16).map(|_| info(flags(true, true, true))).collect();
    v[3] = info(flags(true, true, false));
    v[11] = info(flags(false, false, false));
    v[12] = info(flags(false, false, false));
    v[13] = info(flags(false, false, false));
    v
}

fn var(class: StorageClass, ty: usize, access: StorageAccess, binding: Option<(u32, u32)>) -> GlobalVariable {
    GlobalVariable {
        class,
        binding: binding.map(|(group, binding)| ResourceBinding { group, binding }),
        ty: th(ty),
        storage_access: access,
    }
}

fn check_var(v: GlobalVariable) -> Result<(), GlobalVariableError> {
    Validator::new(infos()).validate_global_var(&v, &types())
}

#[test]
fn function_class_global_is_invalid_usage() {
    assert_eq!(check_var(var(StorageClass::Function, 0, NONE, None)), Err(GlobalVariableError::InvalidUsage));
}

#[test]
fn uniform_needs_a_block_struct() {
    assert_eq!(check_var(var(StorageClass::Uniform, 0, NONE, Some((0, 0)))), Err(GlobalVariableError::InvalidType));
    assert_eq!(check_var(var(StorageClass::Uniform, 14, NONE, Some((0, 0)))), Err(GlobalVariableError::InvalidType));
    assert_eq!(check_var(var(StorageClass::Uniform, 8, NONE, Some((0, 0)))), Ok(()));
}

#[test]
fn storage_needs_a_block_struct() {
    assert_eq!(check_var(var(StorageClass::Storage, 1, ALL, Some((0, 0)))), Err(GlobalVariableError::InvalidType));
    assert_eq!(check_var(var(StorageClass::Storage, 8, ALL, Some((0, 0)))), Ok(()));
}

#[test]
fn layout_failure_is_reported_verbatim() {
    let mut i = infos();
    let d = Disalignment::StructSpan { span: 6, alignment: 4 };
    i[8].uniform_layout = Err((th(8), d));
    let v = var(StorageClass::Uniform, 8, NONE, Some((0, 0)));
    assert_eq!(Validator::new(i.clone()).validate_global_var(&v, &types()), Err(GlobalVariableError::Alignment(th(8), d)));
    let s = var(StorageClass::Storage, 8, ALL, Some((0, 0)));
    assert_eq!(Validator::new(i.clone()).validate_global_var(&s, &types()), Ok(()));
    i[8].storage_layout = Err((th(0), Disalignment::ArrayStride { stride: 3, alignment: 4 }));
    assert_eq!(
        Validator::new(i).validate_global_var(&s, &types()),
        Err(GlobalVariableError::Alignment(th(0), Disalignment::ArrayStride { stride: 3, alignment: 4 }))
    );
}

#[test]
fn uniform_allows_no_storage_access() {
    assert_eq!(
        check_var(var(StorageClass::Uniform, 8, LOAD, Some((0, 0)))),
        Err(GlobalVariableError::InvalidStorageAccess { allowed: NONE, seen: LOAD })
    );
}

#[test]
fn uniform_needs_sized_host_shared_data() {
    let mut i = infos();
    i[8] = info(flags(true, false, true));
    let v = var(StorageClass::Uniform, 8, NONE, Some((0, 0)));
    assert_eq!(
        Validator::new(i).validate_global_var(&v, &types()),
        Err(GlobalVariableError::MissingTypeFlags { required: flags(true, true, true), seen: flags(true, false, true) })
    );
}

#[test]
fn resource_classes_need_a_binding() {
    assert_eq!(check_var(var(StorageClass::Uniform, 8, NONE, None)), Err(GlobalVariableError::InvalidBinding));
    assert_eq!(check_var(var(StorageClass::Storage, 8, LOAD, None)), Err(GlobalVariableError::InvalidBinding));
    assert_eq!(check_var(var(StorageClass::Handle, 13, NONE, None)), Err(GlobalVariableError::InvalidBinding));
}

#[test]
fn handle_class_rules() {
    assert_eq!(check_var(var(StorageClass::Handle, 11, ALL, Some((0, 1)))), Ok(()));
    assert_eq!(check_var(var(StorageClass::Handle, 12, NONE, Some((0, 1)))), Ok(()));
    assert_eq!(check_var(var(StorageClass::Handle, 13, NONE, Some((0, 2)))), Ok(()));
    assert_eq!(
        check_var(var(StorageClass::Handle, 12, LOAD, Some((0, 1)))),
        Err(GlobalVariableError::InvalidStorageAccess { allowed: NONE, seen: LOAD })
    );
    assert_eq!(check_var(var(StorageClass::Handle, 0, NONE, Some((0, 1)))), Err(GlobalVariableError::InvalidType));
}

#[test]
fn private_and_workgroup_rules() {
    assert_eq!(check_var(var(StorageClass::Private, 0, NONE, None)), Ok(()));
    assert_eq!(check_var(var(StorageClass::WorkGroup, 7, NONE, None)), Ok(()));
    assert_eq!(check_var(var(StorageClass::Private, 0, NONE, Some((0, 0)))), Err(GlobalVariableError::InvalidBinding));
    assert_eq!(
        check_var(var(StorageClass::WorkGroup, 12, NONE, None)),
        Err(GlobalVariableError::MissingTypeFlags { required: flags(true, false, false), seen: flags(false, false, false) })
    );
    assert_eq!(
        check_var(var(StorageClass::Private, 0, ALL, None)),
        Err(GlobalVariableError::InvalidStorageAccess { allowed: NONE, seen: ALL })
    );
}

#[test]
fn push_constant_rules() {
    assert_eq!(check_var(var(StorageClass::PushConstant, 8, LOAD, None)), Ok(()));
    assert_eq!(
        check_var(var(StorageClass::PushConstant, 8, ALL, None)),
        Err(GlobalVariableError::InvalidStorageAccess { allowed: LOAD, seen: ALL })
    );
    assert_eq!(
        check_var(var(StorageClass::PushConstant, 3, NONE, None)),
        Err(GlobalVariableError::MissingTypeFlags { required: flags(true, false, true), seen: flags(true, true, false) })
    );
    assert_eq!(check_var(var(StorageClass::PushConstant, 8, NONE, Some((1, 0)))), Err(GlobalVariableError::InvalidBinding));
}

#[test]
fn storage_usage_maps_access() {
    assert_eq!(storage_usage(NONE), GlobalUse { read: false, write: false, query: true });
    assert_eq!(storage_usage(LOAD), GlobalUse { read: true, write: false, query: true });
    assert_eq!(storage_usage(ALL), GlobalUse { read: true, write: true, query: true });
}

fn arg(ty: usize, binding: Option<Binding>) -> FunctionArgument {
    FunctionArgument { ty: th(ty), binding }
}

fn entry(stage: ShaderStage, workgroup_size: [u32; 3], arguments: Vec<FunctionArgument>, result: Option<FunctionResult>) -> EntryPoint {
    EntryPoint { stage, early_depth_test: None, workgroup_size, function: Function { arguments, result } }
}

fn run(ep: &EntryPoint, globals: Vec<GlobalVariable>, uses: Vec<GlobalUse>) -> Option<EntryPointError> {
    let module = Module { types: types(), global_variables: globals };
    let mut validator = Validator::new(infos());
    validator.validate_entry_point(ep, &module, FunctionInfo { global_uses: uses }).err()
}

fn run_plain(ep: &EntryPoint) -> Option<EntryPointError> {
    run(ep, vec![], vec![])
}

fn builtin(b: BuiltIn) -> Option<Binding> {
    Some(Binding::BuiltIn(b))
}

fn result(ty: usize, binding: Option<Binding>) -> Option<FunctionResult> {
    Some(FunctionResult { ty: th(ty), binding })
}

#[test]
fn early_depth_test_only_in_fragment() {
    let mut ep = entry(ShaderStage::Vertex, [0, 0, 0], vec![], None);
    ep.early_depth_test = Some(EarlyDepthTest { conservative: None });
    assert_eq!(run_plain(&ep), Some(EntryPointError::UnexpectedEarlyDepthTest));
    ep.stage = ShaderStage::Fragment;
    assert_eq!(run_plain(&ep), None);
}

#[test]
fn compute_workgroup_size_bounds() {
    assert_eq!(run_plain(&entry(ShaderStage::Compute, [0, 1, 1], vec![], None)), Some(EntryPointError::OutOfRangeWorkgroupSize));
    assert_eq!(run_plain(&entry(ShaderStage::Compute, [1, 1, 0x4000], vec![], None)), Some(EntryPointError::OutOfRangeWorkgroupSize));
    assert_eq!(run_plain(&entry(ShaderStage::Compute, [1, 0x5000, 1], vec![], None)), Some(EntryPointError::OutOfRangeWorkgroupSize));
    assert_eq!(run_plain(&entry(ShaderStage::Compute, [0x3fff, 1, 1], vec![], None)), None);
    assert_eq!(run_plain(&entry(ShaderStage::Compute, [1, 1, 1], vec![], None)), None);
}

#[test]
fn non_compute_workgroup_size_must_be_zero() {
    assert_eq!(run_plain(&entry(ShaderStage::Vertex, [1, 0, 0], vec![], None)), Some(EntryPointError::UnexpectedWorkgroupSize));
    assert_eq!(run_plain(&entry(ShaderStage::Fragment, [0, 0, 8], vec![], None)), Some(EntryPointError::UnexpectedWorkgroupSize));
    assert_eq!(run_plain(&entry(ShaderStage::Vertex, [0, 0, 0], vec![], None)), None);
}

#[test]
fn frag_depth_stage_and_type() {
    let vs = entry(ShaderStage::Vertex, [0; 3], vec![], result(0, builtin(BuiltIn::FragDepth)));
    assert_eq!(run_plain(&vs), Some(EntryPointError::Result(VaryingError::InvalidBuiltInStage(BuiltIn::FragDepth))));
    let fs = entry(ShaderStage::Fragment, [0; 3], vec![], result(0, builtin(BuiltIn::FragDepth)));
    assert_eq!(run_plain(&fs), None);
    let fs_uint = entry(ShaderStage::Fragment, [0; 3], vec![], result(1, builtin(BuiltIn::FragDepth)));
    assert_eq!(run_plain(&fs_uint), Some(EntryPointError::Result(VaryingError::InvalidBuiltInType(BuiltIn::FragDepth))));
    let fs_in = entry(ShaderStage::Fragment, [0; 3], vec![arg(0, builtin(BuiltIn::FragDepth))], None);
    assert_eq!(run_plain(&fs_in), Some(EntryPointError::Argument(0, VaryingError::InvalidBuiltInStage(BuiltIn::FragDepth))));
}

#[test]
fn vertex_builtins() {
    let ok = entry(
        ShaderStage::Vertex,
        [0; 3],
        vec![arg(1, builtin(BuiltIn::VertexIndex)), arg(1, builtin(BuiltIn::InstanceIndex))],
        result(4, builtin(BuiltIn::Position)),
    );
    assert_eq!(run_plain(&ok), None);
    let signed = entry(ShaderStage::Vertex, [0; 3], vec![arg(2, builtin(BuiltIn::VertexIndex))], None);
    assert_eq!(run_plain(&signed), Some(EntryPointError::Argument(0, VaryingError::InvalidBuiltInType(BuiltIn::VertexIndex))));
    let as_output = entry(ShaderStage::Vertex, [0; 3], vec![], result(1, builtin(BuiltIn::VertexIndex)));
    assert_eq!(run_plain(&as_output), Some(EntryPointError::Result(VaryingError::InvalidBuiltInStage(BuiltIn::VertexIndex))));
}

#[test]
fn clip_distance_needs_a_float_array() {
    let ok = entry(ShaderStage::Vertex, [0; 3], vec![], result(7, builtin(BuiltIn::ClipDistance)));
    assert_eq!(run_plain(&ok), None);
    let uint_array = entry(ShaderStage::Vertex, [0; 3], vec![], result(15, builtin(BuiltIn::ClipDistance)));
    assert_eq!(run_plain(&uint_array), Some(EntryPointError::Result(VaryingError::InvalidBuiltInType(BuiltIn::ClipDistance))));
}

#[test]
fn position_in_each_stage() {
    let fs = entry(ShaderStage::Fragment, [0; 3], vec![arg(4, builtin(BuiltIn::Position))], None);
    assert_eq!(run_plain(&fs), None);
    let cs = entry(ShaderStage::Compute, [1, 1, 1], vec![arg(4, builtin(BuiltIn::Position))], None);
    assert_eq!(run_plain(&cs), Some(EntryPointError::Argument(0, VaryingError::InvalidBuiltInStage(BuiltIn::Position))));
    let narrow = entry(ShaderStage::Fragment, [0; 3], vec![arg(5, builtin(BuiltIn::Position))], None);
    assert_eq!(run_plain(&narrow), Some(EntryPointError::Argument(0, VaryingError::InvalidBuiltInType(BuiltIn::Position))));
}

#[test]
fn fragment_builtins() {
    let ok = entry(
        ShaderStage::Fragment,
        [0; 3],
        vec![arg(3, builtin(BuiltIn::FrontFacing)), arg(1, builtin(BuiltIn::SampleIndex)), arg(1, builtin(BuiltIn::SampleMask))],
        result(1, builtin(BuiltIn::SampleMask)),
    );
    assert_eq!(run_plain(&ok), None);
    let uint_facing = entry(ShaderStage::Fragment, [0; 3], vec![arg(1, builtin(BuiltIn::FrontFacing))], None);
    assert_eq!(run_plain(&uint_facing), Some(EntryPointError::Argument(0, VaryingError::InvalidBuiltInType(BuiltIn::FrontFacing))));
}

#[test]
fn compute_builtins() {
    let ok = entry(
        ShaderStage::Compute,
        [8, 8, 1],
        vec![arg(5, builtin(BuiltIn::GlobalInvocationId)), arg(1, builtin(BuiltIn::LocalInvocationIndex)), arg(5, builtin(BuiltIn::WorkGroupId))],
        None,
    );
    assert_eq!(run_plain(&ok), None);
    let narrow = entry(ShaderStage::Compute, [1, 1, 1], vec![arg(6, builtin(BuiltIn::LocalInvocationId))], None);
    assert_eq!(run_plain(&narrow), Some(EntryPointError::Argument(0, VaryingError::InvalidBuiltInType(BuiltIn::LocalInvocationId))));
    let in_vertex = entry(ShaderStage::Vertex, [0; 3], vec![arg(5, builtin(BuiltIn::WorkGroupSize))], None);
    assert_eq!(run_plain(&in_vertex), Some(EntryPointError::Argument(0, VaryingError::InvalidBuiltInStage(BuiltIn::WorkGroupSize))));
}

fn loc(l: u32, i: Option<Interpolation>) -> Option<Binding> {
    Some(Binding::Location(l, i))
}

#[test]
fn repeated_argument_location_collides() {
    let ep = entry(ShaderStage::Vertex, [0; 3], vec![arg(0, loc(0, None)), arg(4, loc(0, None))], None);
    assert_eq!(run_plain(&ep), Some(EntryPointError::Argument(1, VaryingError::BindingCollision { location: 0 })));
}

#[test]
fn argument_and_result_locations_are_separate() {
    let ep = entry(ShaderStage::Vertex, [0; 3], vec![arg(0, loc(0, None)), arg(4, loc(1, None))], result(4, loc(0, None)));
    assert_eq!(run_plain(&ep), None);
}

#[test]
fn struct_member_locations_share_the_argument_mask() {
    let ok = entry(ShaderStage::Fragment, [0; 3], vec![arg(9, None), arg(0, loc(2, None))], None);
    assert_eq!(run_plain(&ok), None);
    let clash = entry(ShaderStage::Fragment, [0; 3], vec![arg(0, loc(1, None)), arg(9, None)], None);
    assert_eq!(run_plain(&clash), Some(EntryPointError::Argument(1, VaryingError::BindingCollision { location: 1 })));
}

#[test]
fn struct_members_need_bindings() {
    let ep = entry(ShaderStage::Fragment, [0; 3], vec![arg(10, None)], None);
    assert_eq!(run_plain(&ep), Some(EntryPointError::Argument(0, VaryingError::MemberMissingBinding(1))));
}

#[test]
fn unbound_non_struct_or_block_is_invalid_type() {
    let scalar = entry(ShaderStage::Vertex, [0; 3], vec![arg(0, None)], None);
    assert_eq!(run_plain(&scalar), Some(EntryPointError::Argument(0, VaryingError::InvalidType(th(0)))));
    let block = entry(ShaderStage::Vertex, [0; 3], vec![], result(8, None));
    assert_eq!(run_plain(&block), Some(EntryPointError::Result(VaryingError::InvalidType(th(8)))));
}

#[test]
fn location_on_a_struct_is_invalid_type() {
    let ep = entry(ShaderStage::Vertex, [0; 3], vec![arg(14, loc(0, None))], None);
    assert_eq!(run_plain(&ep), Some(EntryPointError::Argument(0, VaryingError::InvalidType(th(14)))));
}

#[test]
fn integer_fragment_input_must_be_flat() {
    let none = entry(ShaderStage::Fragment, [0; 3], vec![arg(1, loc(0, None))], None);
    assert_eq!(run_plain(&none), Some(EntryPointError::Argument(0, VaryingError::InvalidInterpolation)));
    let linear = entry(ShaderStage::Fragment, [0; 3], vec![arg(2, loc(0, Some(Interpolation::Linear)))], None);
    assert_eq!(run_plain(&linear), Some(EntryPointError::Argument(0, VaryingError::InvalidInterpolation)));
    let flat = entry(ShaderStage::Fragment, [0; 3], vec![arg(1, loc(0, Some(Interpolation::Flat)))], None);
    assert_eq!(run_plain(&flat), None);
}

#[test]
fn float_fragment_input_takes_any_interpolation() {
    for i in [None, Some(Interpolation::Flat), Some(Interpolation::Linear), Some(Interpolation::Perspective)] {
        let ep = entry(ShaderStage::Fragment, [0; 3], vec![arg(4, loc(0, i))], None);
        assert_eq!(run_plain(&ep), None);
    }
}

#[test]
fn interpolation_outside_fragment_input_is_invalid() {
    let vs_in = entry(ShaderStage::Vertex, [0; 3], vec![arg(0, loc(0, Some(Interpolation::Flat)))], None);
    assert_eq!(run_plain(&vs_in), Some(EntryPointError::Argument(0, VaryingError::InvalidInterpolation)));
    let fs_out = entry(ShaderStage::Fragment, [0; 3], vec![], result(4, loc(0, Some(Interpolation::Linear))));
    assert_eq!(run_plain(&fs_out), Some(EntryPointError::Result(VaryingError::InvalidInterpolation)));
    let vs_out_int = entry(ShaderStage::Vertex, [0; 3], vec![], result(1, loc(0, None)));
    assert_eq!(run_plain(&vs_out_int), None);
}

fn uniform(binding: (u32, u32)) -> GlobalVariable {
    var(StorageClass::Uniform, 8, NONE, Some(binding))
}

#[test]
fn used_globals_sharing_a_slot_collide() {
    let ep = entry(ShaderStage::Compute, [1, 1, 1], vec![], None);
    assert_eq!(
        run(&ep, vec![uniform((0, 0)), uniform((0, 0))], vec![READ, READ]),
        Some(EntryPointError::BindingCollision(GlobalHandle { index: 1 }))
    );
}

#[test]
fn unused_globals_sharing_a_slot_do_not_collide() {
    let ep = entry(ShaderStage::Compute, [1, 1, 1], vec![], None);
    assert_eq!(run(&ep, vec![uniform((0, 0)), uniform((0, 0))], vec![READ, UNUSED]), None);
    assert_eq!(run(&ep, vec![uniform((0, 0)), uniform((0, 1)), uniform((3, 0))], vec![READ, READ, READ]), None);
}

#[test]
fn usage_beyond_the_class_is_rejected() {
    let ep = entry(ShaderStage::Compute, [1, 1, 1], vec![], None);
    assert_eq!(
        run(&ep, vec![uniform((0, 0))], vec![WRITE]),
        Some(EntryPointError::InvalidGlobalUsage(GlobalHandle { index: 0 }, WRITE))
    );
    let read_only = var(StorageClass::Storage, 8, LOAD, Some((0, 1)));
    assert_eq!(
        run(&ep, vec![read_only], vec![WRITE]),
        Some(EntryPointError::InvalidGlobalUsage(GlobalHandle { index: 0 }, WRITE))
    );
    let read_write = var(StorageClass::Storage, 8, ALL, Some((0, 1)));
    assert_eq!(run(&ep, vec![read_write], vec![WRITE]), None);
    let private = var(StorageClass::Private, 0, NONE, None);
    assert_eq!(run(&ep, vec![private], vec![GlobalUse { read: true, write: true, query: true }]), None);
    let push = var(StorageClass::PushConstant, 8, LOAD, None);
    let query = GlobalUse { read: false, write: false, query: true };
    assert_eq!(
        run(&ep, vec![push], vec![query]),
        Some(EntryPointError::InvalidGlobalUsage(GlobalHandle { index: 0 }, query))
    );
}

#[test]
fn handle_images_follow_their_access() {
    let ep = entry(ShaderStage::Compute, [1, 1, 1], vec![], None);
    let storage_image = var(StorageClass::Handle, 11, LOAD, Some((0, 0)));
    assert_eq!(run(&ep, vec![storage_image], vec![READ]), None);
    assert_eq!(
        run(&ep, vec![storage_image], vec![WRITE]),
        Some(EntryPointError::InvalidGlobalUsage(GlobalHandle { index: 0 }, WRITE))
    );
    let sampled = var(StorageClass::Handle, 12, NONE, Some((0, 1)));
    assert_eq!(
        run(&ep, vec![sampled], vec![WRITE]),
        Some(EntryPointError::InvalidGlobalUsage(GlobalHandle { index: 0 }, WRITE))
    );
}

#[test]
fn validator_scratch_state_is_reset_between_calls() {
    let ep = entry(ShaderStage::Vertex, [0; 3], vec![arg(0, loc(0, None))], None);
    let module = Module { types: types(), global_variables: vec![uniform((0, 0))] };
    let mut validator = Validator::new(infos());
    for _ in 0..2 {
        let r = validator.validate_entry_point(&ep, &module, FunctionInfo { global_uses: vec![READ] });
        assert_eq!(r.map(|i| i.global_uses), Ok(vec![READ]));
    }
}
