use vstd::prelude::*;
use crate::bytecode::{Function, Instruction, StructType, Typ};
use crate::model::{
    fields_size, function_entry, function_step, global_name, instr_step, local_name,
    pops, pushes, run_code, run_types, size_of, type_def_step, typ_ok, all_typs_ok, WriterModel,
};
use crate::text::{dec, is_digit, lemma_dec_digits, lemma_dec_injective};

verus! {

/// Two fresh local names with different ids differ, whatever their hints.
pub proof fn lemma_local_names_distinct(h1: Seq<char>, h2: Seq<char>, a: nat, b: nat)
    requires
        a != b,
    ensures
        local_name(h1, a) != local_name(h2, b),
{
    reveal_strlit("%");
    reveal_strlit("_");
    if local_name(h1, a) == local_name(h2, b) {
        let x = local_name(h1, a);
        let d1 = dec(a);
        let d2 = dec(b);
        lemma_dec_digits(a);
        lemma_dec_digits(b);
        let p1 = x.len() - d1.len() - 1;
        let p2 = x.len() - d2.len() - 1;
        assert(x[p1] == '_');
        assert(local_name(h2, b)[p2] == '_');
        if d1.len() < d2.len() {
            assert(x[p1] == d2[p1 - p2 - 1]);
            assert(is_digit(d2[p1 - p2 - 1]));
        } else if d2.len() < d1.len() {
            assert(x[p2] == d1[p2 - p1 - 1]);
            assert(is_digit(d1[p2 - p1 - 1]));
        } else {
            assert(d1 =~= x.subrange(x.len() - d1.len(), x.len() as int));
            assert(d2 =~= x.subrange(x.len() - d2.len(), x.len() as int));
            lemma_dec_injective(a, b);
        }
    }
}

/// Two fresh global names with different ids differ, and no global name is a
/// local name.
pub proof fn lemma_global_names_distinct(h: Seq<char>, a: nat, b: nat)
    ensures
        a != b ==> global_name(a) != global_name(b),
        local_name(h, a) != global_name(b),
{
    reveal_strlit("%");
    reveal_strlit("@baz");
    assert(local_name(h, a)[0] == '%');
    assert(global_name(b)[0] == '@');
    if a != b && global_name(a) == global_name(b) {
        assert(dec(a) =~= global_name(a).subrange(4, global_name(a).len() as int));
        assert(dec(b) =~= global_name(b).subrange(4, global_name(b).len() as int));
        lemma_dec_injective(a, b);
    }
}

/// Struct registration names each struct `%DaType_<id>` with an id below the counter.
pub open spec fn registered_names(m: WriterModel) -> bool {
    forall|k: int|
        0 <= k < m.types.len() ==> exists|id: nat|
            id < m.next_id && (#[trigger] m.types[k]).0 == local_name("DaType"@, id)
}

/// All registered struct names are pairwise distinct.
pub open spec fn distinct_names(m: WriterModel) -> bool {
    forall|i: int, j: int|
        0 <= i < j < m.types.len() ==> (#[trigger] m.types[i]).0 != (#[trigger] m.types[j]).0
}

/// Registering struct types adds exactly one uniquely named type per
/// definition, in order: entry `k` holds the size of definition `k`.
pub proof fn lemma_struct_types_registered(m: WriterModel, defs: Seq<StructType>)
    requires
        m.types.len() == 0,
        run_types(m, defs) is Ok,
    ensures
        run_types(m, defs)->Ok_0.types.len() == defs.len(),
        distinct_names(run_types(m, defs)->Ok_0),
        forall|k: int| 0 <= k < defs.len() ==> (#[trigger] run_types(m, defs)->Ok_0.types[k]).1
            == fields_size(run_types(m, defs)->Ok_0.types.take(k), defs[k].fields@),
{
    lemma_struct_types_named(m, defs);
}

proof fn lemma_struct_types_named(m: WriterModel, defs: Seq<StructType>)
    requires
        m.types.len() == 0,
        run_types(m, defs) is Ok,
    ensures
        run_types(m, defs)->Ok_0.types.len() == defs.len(),
        registered_names(run_types(m, defs)->Ok_0),
        distinct_names(run_types(m, defs)->Ok_0),
        forall|k: int| 0 <= k < defs.len() ==> (#[trigger] run_types(m, defs)->Ok_0.types[k]).1
            == fields_size(run_types(m, defs)->Ok_0.types.take(k), defs[k].fields@),
    decreases defs.len(),
{
    if defs.len() > 0 {
        lemma_struct_types_named(m, defs.drop_last());
        let m1 = run_types(m, defs.drop_last())->Ok_0;
        let m2 = run_types(m, defs)->Ok_0;
        assert(m2 == type_def_step(m1, defs.last().fields@)->Ok_0);
        let fresh = local_name("DaType"@, m1.next_id);
        assert(m2.types == m1.types.push((fresh, fields_size(m1.types, defs.last().fields@))));
        assert forall|k: int| 0 <= k < m2.types.len() implies exists|id: nat|
            id < m2.next_id && (#[trigger] m2.types[k]).0 == local_name("DaType"@, id) by {
            if k < m1.types.len() {
                assert(m2.types[k] == m1.types[k]);
                let id = choose|id: nat| id < m1.next_id && m1.types[k].0 == local_name("DaType"@, id);
            } else {
                assert(m2.types[k].0 == fresh);
            }
        }
        assert forall|i: int, j: int| 0 <= i < j < m2.types.len() implies (#[trigger] m2.types[i]).0
            != (#[trigger] m2.types[j]).0 by {
            if j < m1.types.len() {
                assert(m2.types[i] == m1.types[i]);
                assert(m2.types[j] == m1.types[j]);
            } else {
                assert(m2.types[i] == m1.types[i]);
                let id = choose|id: nat| id < m1.next_id && m1.types[i].0 == local_name("DaType"@, id);
                lemma_local_names_distinct("DaType"@, "DaType"@, id, m1.next_id);
            }
        }
        assert forall|k: int| 0 <= k < defs.len() implies (#[trigger] m2.types[k]).1 == fields_size(
            m2.types.take(k),
            defs[k].fields@,
        ) by {
            assert(m2.types.take(k) =~= m1.types.take(k));
            if k < defs.len() - 1 {
                assert(defs.drop_last()[k] == defs[k]);
                assert(m2.types[k] == m1.types[k]);
            } else {
                assert(m1.types.take(k) =~= m1.types);
            }
        }
    }
}

/// Adding struct types changes the size of no field list that only names
/// earlier ones.
proof fn lemma_fields_size_stable(
    types: Seq<(Seq<char>, nat)>,
    extra: (Seq<char>, nat),
    fields: Seq<Typ>,
)
    requires
        all_typs_ok(types.len(), fields),
    ensures
        fields_size(types.push(extra), fields) == fields_size(types, fields),
    decreases fields.len(),
{
    if fields.len() > 0 {
        assert(all_typs_ok(types.len(), fields.drop_last()) && typ_ok(types.len(), fields.last())) by {
            assert(fields.drop_last().len() == fields.len() - 1);
            assert forall|i: int| 0 <= i < fields.drop_last().len() implies typ_ok(
                types.len(),
                #[trigger] fields.drop_last()[i],
            ) by {
                assert(fields.drop_last()[i] == fields[i]);
            }
            assert(typ_ok(types.len(), fields[fields.len() - 1]));
        }
        lemma_fields_size_stable(types, extra, fields.drop_last());
    }
}

/// The size of a registered struct is the sum of the sizes of its fields,
/// and every scalar and pointer kind costs eight bytes.
pub proof fn lemma_sizeof_compositional(m: WriterModel, fields: Seq<Typ>, k: usize, t: Typ)
    requires
        type_def_step(m, fields) is Ok,
        k == m.types.len(),
    ensures
        ({
            let m2 = type_def_step(m, fields)->Ok_0;
            &&& size_of(m2.types, Typ::Struct(k)) == fields_size(m2.types, fields)
            &&& !(t is Struct) ==> size_of(m2.types, t) == 8
        }),
{
    let m2 = type_def_step(m, fields)->Ok_0;
    lemma_fields_size_stable(m.types, (local_name("DaType"@, m.next_id), fields_size(m.types, fields)), fields);
    assert(m2.types[m.types.len() as int].1 == fields_size(m.types, fields));
}

/// Duplicate pushes the top operand a second time and emits no text.
pub proof fn lemma_duplicate(m: WriterModel)
    requires
        instr_step(m, Instruction::Duplicate) is Ok,
    ensures
        ({
            let m2 = instr_step(m, Instruction::Duplicate)->Ok_0;
            &&& m2.out == m.out
            &&& m2.next_id == m.next_id
            &&& m2.stack == m.stack.push(m.stack.last())
            &&& m2.stack[m2.stack.len() - 1] == m.stack.last()
            &&& m2.stack[m2.stack.len() - 2] == m.stack.last()
        }),
{
    reveal(instr_step);
}

/// An instruction that needs more operands than the stack holds is never
/// lowered: it always ends in a fatal condition.
pub proof fn lemma_underflow_is_fatal(m: WriterModel, ins: Instruction)
    requires
        m.stack.len() < pops(ins),
    ensures
        instr_step(m, ins) is Err,
{
    reveal(instr_step);
}

/// Operands produced minus operands consumed by a body.
pub open spec fn net_delta(code: Seq<Instruction>) -> int
    decreases code.len(),
{
    if code.len() == 0 {
        0
    } else {
        net_delta(code.drop_last()) + pushes(code.last()) - pops(code.last())
    }
}

/// Each lowered instruction changes the stack depth by what it produces
/// minus what it consumes.
pub proof fn lemma_instruction_depth(m: WriterModel, ins: Instruction)
    requires
        instr_step(m, ins) is Ok,
    ensures
        instr_step(m, ins)->Ok_0.stack.len() == m.stack.len() + pushes(ins) - pops(ins),
{
    reveal(instr_step);
}

/// A lowered body changes the stack depth by its net delta.
pub proof fn lemma_code_depth(m: WriterModel, code: Seq<Instruction>)
    requires
        run_code(m, code) is Ok,
    ensures
        run_code(m, code)->Ok_0.stack.len() == m.stack.len() + net_delta(code),
    decreases code.len(),
{
    if code.len() > 0 {
        lemma_code_depth(m, code.drop_last());
        lemma_instruction_depth(run_code(m, code.drop_last())->Ok_0, code.last());
    }
}

/// The operand stack is empty before a function's first instruction, and a
/// body with net delta zero leaves it empty after the last one.
pub proof fn lemma_balanced_body(m: WriterModel, f: Function)
    requires
        function_step(m, f) is Ok,
        net_delta(f.code@) == 0,
    ensures
        function_entry(m, f).stack.len() == 0,
        function_step(m, f)->Ok_0.stack.len() == 0,
{
    lemma_code_depth(function_entry(m, f), f.code@);
}

} // verus!
