//! Properties of the validation rules, proved over their outcome
//! functions.
use vstd::prelude::*;
use crate::ir::{
    Binding, BuiltIn, EntryPoint, FunctionArgument, FunctionResult, GlobalVariable, ImageClass,
    Interpolation, ScalarKind, ShaderStage, StorageClass, StructMember, Type, TypeHandle,
    TypeInner,
};
use crate::valid::{
    allowed_usage, args_outcome, binding_outcome, builtin_type_good, builtin_visible,
    entry_point_outcome, global_var_outcome, globals_outcome, location_rule, members_outcome,
    result_outcome, stage_outcome, varying_outcome, EntryPointError, GlobalUse,
    GlobalVariableError, TypeInfo, VaryingError,
};

verus! {

/// Whether `var` meets every column of its storage class's row: type shape
/// and layout, permitted access, required type flags, and binding.
pub open spec fn meets_class_row(var: GlobalVariable, inner: TypeInner, info: TypeInfo) -> bool {
    let access = var.storage_access;
    let flags = info.flags;
    let block = inner matches TypeInner::Struct { block: true, .. };
    match var.class {
        StorageClass::Function => false,
        StorageClass::Storage => block && info.storage_layout is Ok && flags.data
            && flags.host_shared && var.binding is Some,
        StorageClass::Uniform => block && info.uniform_layout is Ok && !access.load
            && !access.store && flags.data && flags.sized && flags.host_shared
            && var.binding is Some,
        StorageClass::Handle => {
            &&& (inner matches TypeInner::Image { class: ImageClass::Storage { .. }, .. }) || ((
            inner is Image || inner is Sampler) && !access.load && !access.store)
            &&& var.binding is Some
        },
        StorageClass::Private | StorageClass::WorkGroup => !access.load && !access.store
            && flags.data && var.binding is None,
        StorageClass::PushConstant => !access.store && flags.data && flags.host_shared
            && var.binding is None,
    }
}

/// A global variable is accepted exactly when it meets its storage class's
/// row; a function-class variable always fails with `InvalidUsage`, and a
/// uniform or storage variable whose type is not a block struct always
/// fails with `InvalidType`.
pub proof fn lemma_storage_class_table(var: GlobalVariable, inner: TypeInner, info: TypeInfo)
    ensures
        global_var_outcome(var, inner, info) is Ok <==> meets_class_row(var, inner, info),
        var.class == StorageClass::Function ==> global_var_outcome(var, inner, info) == Err::<
            (),
            GlobalVariableError,
        >(GlobalVariableError::InvalidUsage),
        (var.class == StorageClass::Uniform || var.class == StorageClass::Storage) && !(
        inner matches TypeInner::Struct { block: true, .. }) ==> global_var_outcome(
            var,
            inner,
            info,
        ) == Err::<(), GlobalVariableError>(GlobalVariableError::InvalidType),
{
}

/// A compute entry point with a workgroup size component of zero or of
/// at least `MAX_WORKGROUP_SIZE` is rejected as out of range; any other
/// stage with a nonzero component is rejected as unexpected; and sizes
/// within `[1, MAX_WORKGROUP_SIZE)` for compute, or all zero otherwise,
/// pass the stage rules.
pub proof fn lemma_workgroup_bounds(
    ep: EntryPoint,
    types: Seq<Type>,
    globals: Seq<GlobalVariable>,
    uses: Seq<GlobalUse>,
)
    requires
        !(ep.early_depth_test is Some && ep.stage != ShaderStage::Fragment),
    ensures
        ep.stage == ShaderStage::Compute && (exists|k: int|
            0 <= k < 3 && (ep.workgroup_size@[k] == 0 || ep.workgroup_size@[k] >= 0x4000))
            ==> entry_point_outcome(ep, types, globals, uses) == Err::<(), EntryPointError>(
            EntryPointError::OutOfRangeWorkgroupSize,
        ),
        ep.stage != ShaderStage::Compute && (exists|k: int|
            0 <= k < 3 && ep.workgroup_size@[k] != 0) ==> entry_point_outcome(
            ep,
            types,
            globals,
            uses,
        ) == Err::<(), EntryPointError>(EntryPointError::UnexpectedWorkgroupSize),
        ep.stage == ShaderStage::Compute && (forall|k: int|
            0 <= k < 3 ==> 1 <= #[trigger] ep.workgroup_size@[k] < 0x4000) ==> stage_outcome(ep) == Ok::<
            (),
            EntryPointError,
        >(()),
        ep.stage != ShaderStage::Compute && (forall|k: int|
            0 <= k < 3 ==> #[trigger] ep.workgroup_size@[k] == 0) ==> stage_outcome(ep) == Ok::<
            (),
            EntryPointError,
        >(()),
{
    let ws = ep.workgroup_size@;
    if ep.stage == ShaderStage::Compute && (forall|k: int| 0 <= k < 3 ==> 1 <= #[trigger] ws[k] < 0x4000) {
        assert(1 <= ws[0] < 0x4000 && 1 <= ws[1] < 0x4000 && 1 <= ws[2] < 0x4000);
    }
    if ep.stage != ShaderStage::Compute && (forall|k: int| 0 <= k < 3 ==> #[trigger] ws[k] == 0) {
        assert(ws[0] == 0 && ws[1] == 0 && ws[2] == 0);
    }
}

/// A builtin binding is rejected for its stage and direction before its
/// type is looked at, and is accepted exactly when both match the table.
pub proof fn lemma_builtin_matrix(
    types: Seq<Type>,
    stage: ShaderStage,
    output: bool,
    ty: TypeHandle,
    b: BuiltIn,
    mask: Set<nat>,
)
    ensures
        binding_outcome(types, stage, output, ty, Binding::BuiltIn(b), mask).0 == (if !builtin_visible(
            b,
            stage,
            output,
        ) {
            Err::<(), VaryingError>(VaryingError::InvalidBuiltInStage(b))
        } else if !builtin_type_good(b, types[ty.index as int].inner, types) {
            Err(VaryingError::InvalidBuiltInType(b))
        } else {
            Ok(())
        }),
        binding_outcome(types, stage, output, ty, Binding::BuiltIn(b), mask).1 == mask,
{
}

/// Into a fragment shader, a location varying of a non-float scalar kind
/// is accepted exactly when it is flat, and fails with
/// `InvalidInterpolation` otherwise; a float one is accepted with any
/// interpolation or none.
pub proof fn lemma_interpolation_rule(
    inner: TypeInner,
    ty: TypeHandle,
    interpolation: Option<Interpolation>,
)
    ensures
        inner.scalar_kind_spec() matches Some(k) && k != ScalarKind::Float ==> location_rule(
            inner,
            ty,
            ShaderStage::Fragment,
            false,
            interpolation,
        ) == (if interpolation == Some(Interpolation::Flat) {
            Ok::<(), VaryingError>(())
        } else {
            Err(VaryingError::InvalidInterpolation)
        }),
        inner.scalar_kind_spec() == Some(ScalarKind::Float) ==> location_rule(
            inner,
            ty,
            ShaderStage::Fragment,
            false,
            interpolation,
        ) == Ok::<(), VaryingError>(()),
{
}

proof fn lemma_members_mask_grows(
    types: Seq<Type>,
    stage: ShaderStage,
    output: bool,
    members: Seq<StructMember>,
    i: nat,
    mask: Set<nat>,
)
    ensures
        members_outcome(types, stage, output, members, i, mask).0 is Ok ==> mask.subset_of(
            members_outcome(types, stage, output, members, i, mask).1,
        ),
    decreases members.len() - i,
{
    if i < members.len() {
        if let Some(b) = members[i as int].binding {
            let step = binding_outcome(types, stage, output, members[i as int].ty, b, mask);
            lemma_members_mask_grows(types, stage, output, members, i + 1, step.1);
        }
    }
}

/// A varying that validates keeps every taken location taken, and takes
/// its own location.
proof fn lemma_varying_mask_grows(
    types: Seq<Type>,
    stage: ShaderStage,
    output: bool,
    ty: TypeHandle,
    binding: Option<Binding>,
    mask: Set<nat>,
)
    ensures
        varying_outcome(types, stage, output, ty, binding, mask).0 is Ok ==> mask.subset_of(
            varying_outcome(types, stage, output, ty, binding, mask).1,
        ),
        binding matches Some(Binding::Location(l, _)) ==> (varying_outcome(
            types,
            stage,
            output,
            ty,
            binding,
            mask,
        ).0 is Ok ==> varying_outcome(types, stage, output, ty, binding, mask).1.contains(
            l as nat,
        )),
{
    if binding is None {
        if let TypeInner::Struct { block: false, members, .. } = types[ty.index as int].inner {
            lemma_members_mask_grows(types, stage, output, members@, 0, mask);
        }
    }
}

proof fn lemma_args_location_taken(
    types: Seq<Type>,
    stage: ShaderStage,
    args: Seq<FunctionArgument>,
    i: nat,
    mask: Set<nat>,
    j: int,
    l: u32,
)
    requires
        i <= j < args.len(),
        args[j].binding matches Some(Binding::Location(loc, _)) && loc == l,
        mask.contains(l as nat),
    ensures
        args_outcome(types, stage, args, i, mask) is Err,
    decreases j - i,
{
    let step = varying_outcome(types, stage, false, args[i as int].ty, args[i as int].binding, mask);
    if i < j {
        lemma_varying_mask_grows(types, stage, false, args[i as int].ty, args[i as int].binding, mask);
        if step.0 is Ok {
            lemma_args_location_taken(types, stage, args, i + 1, step.1, j, l);
        }
    }
}

proof fn lemma_args_pair_from(
    types: Seq<Type>,
    stage: ShaderStage,
    args: Seq<FunctionArgument>,
    i: nat,
    mask: Set<nat>,
    a: int,
    b: int,
    l: u32,
)
    requires
        i <= a < b < args.len(),
        args[a].binding matches Some(Binding::Location(loc, _)) && loc == l,
        args[b].binding matches Some(Binding::Location(loc, _)) && loc == l,
    ensures
        args_outcome(types, stage, args, i, mask) is Err,
    decreases a - i,
{
    let step = varying_outcome(types, stage, false, args[i as int].ty, args[i as int].binding, mask);
    lemma_varying_mask_grows(types, stage, false, args[i as int].ty, args[i as int].binding, mask);
    if step.0 is Ok {
        if i < a {
            lemma_args_pair_from(types, stage, args, i + 1, step.1, a, b, l);
        } else {
            lemma_args_location_taken(types, stage, args, i + 1, step.1, b, l);
        }
    }
}

/// Two arguments of one entry point bound to the same location make the
/// argument list fail; the result's locations are counted afresh, so a
/// location binding on the result never collides with an argument's.
pub proof fn lemma_location_collision(
    types: Seq<Type>,
    stage: ShaderStage,
    args: Seq<FunctionArgument>,
    a: int,
    b: int,
    l: u32,
    result: FunctionResult,
)
    requires
        0 <= a < b < args.len(),
        args[a].binding matches Some(Binding::Location(loc, _)) && loc == l,
        args[b].binding matches Some(Binding::Location(loc, _)) && loc == l,
    ensures
        args_outcome(types, stage, args, 0, Set::empty()) is Err,
        result.binding matches Some(Binding::Location(loc, interpolation)) ==> result_outcome(
            types,
            stage,
            Some(result),
        ) == match location_rule(
            types[result.ty.index as int].inner,
            result.ty,
            stage,
            true,
            interpolation,
        ) {
            Ok(_) => Ok::<(), EntryPointError>(()),
            Err(e) => Err(EntryPointError::Result(e)),
        },
{
    lemma_args_pair_from(types, stage, args, 0, Set::empty(), a, b, l);
}

/// Whether global `k` is used and its usage is allowed for its class.
pub open spec fn used_and_allowed(
    types: Seq<Type>,
    globals: Seq<GlobalVariable>,
    uses: Seq<GlobalUse>,
    k: int,
) -> bool {
    !uses[k].is_empty_spec() && allowed_usage(
        globals[k],
        types[globals[k].ty.index as int].inner,
    ).contains_spec(uses[k])
}

proof fn lemma_globals_slot_taken(
    types: Seq<Type>,
    globals: Seq<GlobalVariable>,
    uses: Seq<GlobalUse>,
    i: nat,
    taken: Set<(nat, nat)>,
    b: int,
    slot: (nat, nat),
)
    requires
        i <= b < globals.len(),
        used_and_allowed(types, globals, uses, b),
        globals[b].binding matches Some(rb) && (rb.group as nat, rb.binding as nat) == slot,
        taken.contains(slot),
    ensures
        globals_outcome(types, globals, uses, i, taken) is Err,
    decreases b - i,
{
    if i < b {
        let var = globals[i as int];
        if let Some(rb) = var.binding {
            lemma_globals_slot_taken(
                types,
                globals,
                uses,
                i + 1,
                taken.insert((rb.group as nat, rb.binding as nat)),
                b,
                slot,
            );
        }
        lemma_globals_slot_taken(types, globals, uses, i + 1, taken, b, slot);
    }
}

proof fn lemma_globals_pair_from(
    types: Seq<Type>,
    globals: Seq<GlobalVariable>,
    uses: Seq<GlobalUse>,
    i: nat,
    taken: Set<(nat, nat)>,
    a: int,
    b: int,
)
    requires
        i <= a < b < globals.len(),
        used_and_allowed(types, globals, uses, a),
        used_and_allowed(types, globals, uses, b),
        globals[a].binding is Some,
        globals[a].binding == globals[b].binding,
    ensures
        globals_outcome(types, globals, uses, i, taken) is Err,
    decreases a - i,
{
    let rb = globals[a].binding->Some_0;
    let slot = (rb.group as nat, rb.binding as nat);
    if i < a {
        if let Some(r) = globals[i as int].binding {
            lemma_globals_pair_from(
                types,
                globals,
                uses,
                i + 1,
                taken.insert((r.group as nat, r.binding as nat)),
                a,
                b,
            );
        }
        lemma_globals_pair_from(types, globals, uses, i + 1, taken, a, b);
    } else {
        lemma_globals_slot_taken(types, globals, uses, i + 1, taken.insert(slot), b, slot);
    }
}

proof fn lemma_unused_from(
    types: Seq<Type>,
    globals: Seq<GlobalVariable>,
    uses: Seq<GlobalUse>,
    j: int,
    i: nat,
    taken: Set<(nat, nat)>,
)
    requires
        0 <= j < globals.len(),
        uses[j].is_empty_spec(),
    ensures
        globals_outcome(types, globals, uses, i, taken) == globals_outcome(
            types,
            globals.update(j, without_binding(globals[j])),
            uses,
            i,
            taken,
        ),
    decreases globals.len() - i,
{
    let unbound = globals.update(j, without_binding(globals[j]));
    if i < globals.len() {
        if i != j {
            assert(unbound[i as int] == globals[i as int]);
        }
        if let Some(r) = globals[i as int].binding {
            lemma_unused_from(
                types,
                globals,
                uses,
                j,
                i + 1,
                taken.insert((r.group as nat, r.binding as nat)),
            );
        }
        lemma_unused_from(types, globals, uses, j, i + 1, taken);
    }
}

pub open spec fn without_binding(var: GlobalVariable) -> GlobalVariable {
    GlobalVariable {
        class: var.class,
        binding: None,
        ty: var.ty,
        storage_access: var.storage_access,
    }
}

/// Two used global variables with allowed usage that share a (group,
/// binding) slot make the entry point's global checks fail; a global that
/// the entry point does not use takes no slot, so its binding can collide
/// with nothing.
pub proof fn lemma_resource_binding_collision(
    types: Seq<Type>,
    globals: Seq<GlobalVariable>,
    uses: Seq<GlobalUse>,
    a: int,
    b: int,
    j: int,
)
    requires
        0 <= a < b < globals.len(),
        0 <= j < globals.len(),
    ensures
        used_and_allowed(types, globals, uses, a) && used_and_allowed(types, globals, uses, b)
            && globals[a].binding is Some && globals[a].binding == globals[b].binding
            ==> globals_outcome(types, globals, uses, 0, Set::empty()) is Err,
        uses[j].is_empty_spec() ==> globals_outcome(types, globals, uses, 0, Set::empty())
            == globals_outcome(
            types,
            globals.update(j, without_binding(globals[j])),
            uses,
            0,
            Set::empty(),
        ),
{
    if used_and_allowed(types, globals, uses, a) && used_and_allowed(types, globals, uses, b)
        && globals[a].binding is Some && globals[a].binding == globals[b].binding {
        lemma_globals_pair_from(types, globals, uses, 0, Set::empty(), a, b);
    }
    if uses[j].is_empty_spec() {
        lemma_unused_from(types, globals, uses, j, 0, Set::empty());
    }
}

} // verus!
