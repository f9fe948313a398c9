use vstd::prelude::*;
use vstd::utf8::encode_utf8;
use crate::bytecode::{
    Comparison, Function, Instruction, Local, Operator, Parameter, Program, StructType, Typ,
};
use crate::text::{dec, dec_signed};

verus! {

/// Why a generation run was abandoned. Every variant is fatal: it reports
/// a fault of the program's producer or a feature that is not supported.
#[derive(Clone, Copy, Debug, PartialEq, Eq, Structural)]
pub enum GenError {
    /// An instruction consumed more operands than the stack held.
    StackUnderflow,
    /// A type names a struct index that has not been registered.
    UnknownStruct,
    /// A parameter or local index is out of range.
    BadIndex,
    /// The instruction has no IR form here (not-equal comparison).
    NotImplemented,
    /// The name counter or a byte count would exceed the machine word.
    Overflow,
}

/// The abstract state of a generator: emitted text and all tables.
#[verifier::ext_equal]
pub ghost struct WriterModel {
    pub out: Seq<char>,
    /// Registered struct types: generated name and byte size.
    pub types: Seq<(Seq<char>, nat)>,
    /// Virtual operand stack of (type, value reference) pairs.
    pub stack: Seq<(Seq<char>, Seq<char>)>,
    pub params: Seq<Seq<char>>,
    /// Local slots: (pointer type, slot name).
    pub locals: Seq<(Seq<char>, Seq<char>)>,
    pub next_id: nat,
    pub literals: Seq<Seq<char>>,
}

/// Name of a function-local value: `%<hint>_<id>`.
pub open spec fn local_name(hint: Seq<char>, id: nat) -> Seq<char> {
    "%"@ + hint + "_"@ + dec(id)
}

/// Name of a module-level constant: `@baz<id>`.
pub open spec fn global_name(id: nat) -> Seq<char> {
    "@baz"@ + dec(id)
}

pub open spec fn default_hint() -> Seq<char> {
    "fuu"@
}

/// Every struct index inside `t` is below `n`.
pub open spec fn typ_ok(n: nat, t: Typ) -> bool
    decreases t,
{
    match t {
        Typ::Ptr(inner) => typ_ok(n, *inner),
        Typ::Struct(i) => i < n,
        _ => true,
    }
}

/// The IR type text of `t`, given the registered struct types.
pub open spec fn llvm_type(types: Seq<(Seq<char>, nat)>, t: Typ) -> Seq<char>
    decreases t,
{
    match t {
        Typ::Bool => "i1"@,
        Typ::Int => "i64"@,
        Typ::Float => "f64"@,
        Typ::String => "i8*"@,
        Typ::Ptr(inner) => llvm_type(types, *inner) + "*"@,
        Typ::Struct(i) => types[i as int].0,
    }
}

/// Conservative byte size: eight bytes for every scalar and pointer, the
/// registered size for a struct.
pub open spec fn size_of(types: Seq<(Seq<char>, nat)>, t: Typ) -> nat {
    match t {
        Typ::Struct(i) => types[i as int].1,
        _ => 8,
    }
}

/// Sum of the sizes of a field list.
pub open spec fn fields_size(types: Seq<(Seq<char>, nat)>, fields: Seq<Typ>) -> nat
    decreases fields.len(),
{
    if fields.len() == 0 {
        0
    } else {
        fields_size(types, fields.drop_last()) + size_of(types, fields.last())
    }
}

/// The IR types of a field list, separated by `, `.
pub open spec fn type_list(types: Seq<(Seq<char>, nat)>, fields: Seq<Typ>) -> Seq<char>
    decreases fields.len(),
{
    if fields.len() == 0 {
        Seq::empty()
    } else if fields.len() == 1 {
        llvm_type(types, fields[0])
    } else {
        type_list(types, fields.drop_last()) + ", "@ + llvm_type(types, fields.last())
    }
}

/// An operand written with its type: `<type> <value>`.
pub open spec fn typed(p: (Seq<char>, Seq<char>)) -> Seq<char> {
    p.0 + " "@ + p.1
}

/// Typed operands separated by `, `.
pub open spec fn arg_list(args: Seq<(Seq<char>, Seq<char>)>) -> Seq<char>
    decreases args.len(),
{
    if args.len() == 0 {
        Seq::empty()
    } else if args.len() == 1 {
        typed(args[0])
    } else {
        arg_list(args.drop_last()) + ", "@ + typed(args.last())
    }
}

pub open spec fn operator_text(op: Operator) -> Seq<char> {
    match op {
        Operator::Add => "add"@,
        Operator::Sub => "sub"@,
        Operator::Mul => "mul"@,
        Operator::Div => "sdiv"@,
    }
}

pub open spec fn comparison_text(op: Comparison) -> Seq<char> {
    match op {
        Comparison::Lt => "icmp slt"@,
        Comparison::LtEqual => "icmp sle"@,
        Comparison::Gt => "icmp sgt"@,
        Comparison::GtEqual => "icmp sge"@,
        Comparison::Equal => "icmp eq"@,
        Comparison::NotEqual => Seq::empty(),
    }
}

/// A pointer type with its last character (the `*`) removed; an empty type
/// stays empty.
pub open spec fn pointee(t: Seq<char>) -> Seq<char> {
    if t.len() == 0 { t } else { t.drop_last() }
}

/// Number of operands an instruction consumes.
pub open spec fn pops(ins: Instruction) -> nat {
    match ins {
        Instruction::Operator { .. } => 2,
        Instruction::Comparison { .. } => 2,
        Instruction::Duplicate => 1,
        Instruction::Call { n_args, .. } => (n_args + 1) as nat,
        Instruction::GetAttr { .. } => 1,
        Instruction::SetAttr(_) => 2,
        Instruction::StoreLocal { .. } => 1,
        Instruction::JumpIf(_, _) => 1,
        _ => 0,
    }
}

/// Number of operands an instruction produces.
pub open spec fn pushes(ins: Instruction) -> nat {
    match ins {
        Instruction::Duplicate => 2,
        Instruction::Call { typ, .. } => if typ is Some { 1 } else { 0 },
        Instruction::SetAttr(_) => 0,
        Instruction::StoreLocal { .. } => 0,
        Instruction::Label(_) => 0,
        Instruction::Jump(_) => 0,
        Instruction::JumpIf(_, _) => 0,
        _ => 1,
    }
}

/// Every type an instruction carries is registered.
pub open spec fn instr_types_ok(n: nat, ins: Instruction) -> bool {
    match ins {
        Instruction::Operator { typ, .. } => typ_ok(n, typ),
        Instruction::Comparison { typ, .. } => typ_ok(n, typ),
        Instruction::Malloc(typ) => typ_ok(n, typ),
        Instruction::Call { typ, .. } => typ is Some ==> typ_ok(n, typ->Some_0),
        Instruction::GetAttr { typ, .. } => typ_ok(n, typ),
        Instruction::LoadParameter { typ, .. } => typ_ok(n, typ),
        Instruction::LoadLocal { typ, .. } => typ_ok(n, typ),
        _ => true,
    }
}

/// Every parameter or local index an instruction carries is in range.
pub open spec fn instr_indices_ok(m: WriterModel, ins: Instruction) -> bool {
    match ins {
        Instruction::LoadParameter { index, .. } => index < m.params.len(),
        Instruction::StoreLocal { index } => index < m.locals.len(),
        Instruction::LoadLocal { index, .. } => index < m.locals.len(),
        _ => true,
    }
}

/// Byte length of a pooled string constant: its UTF-8 bytes and a terminating zero.
pub open spec fn literal_size(s: Seq<char>) -> nat {
    encode_utf8(s).len() + 1
}

/// The fatal condition, if any, that stops code generation for `ins`; the
/// conditions are tested in the order written here.
pub open spec fn instr_error(m: WriterModel, ins: Instruction) -> Option<GenError> {
    if !instr_types_ok(m.types.len(), ins) {
        Some(GenError::UnknownStruct)
    } else if !instr_indices_ok(m, ins) {
        Some(GenError::BadIndex)
    } else if ins matches Instruction::Comparison { op: Comparison::NotEqual, .. } {
        Some(GenError::NotImplemented)
    } else if m.stack.len() < pops(ins) {
        Some(GenError::StackUnderflow)
    } else if m.next_id + 2 > usize::MAX {
        Some(GenError::Overflow)
    } else if ins is StringLiteral && literal_size(ins->StringLiteral_0@) > usize::MAX {
        Some(GenError::Overflow)
    } else {
        None
    }
}

/// The stack with its top `k` entries removed.
pub open spec fn drop_top(s: Seq<(Seq<char>, Seq<char>)>, k: nat) -> Seq<(Seq<char>, Seq<char>)> {
    s.subrange(0, s.len() - k)
}

/// The `k`-th entry from the top (0 is the top).
pub open spec fn top(s: Seq<(Seq<char>, Seq<char>)>, k: nat) -> (Seq<char>, Seq<char>) {
    s[s.len() - 1 - k]
}

/// Element-address computation of field `index` of the struct a pointer operand points to.
pub open spec fn field_address(e: Seq<char>, base: (Seq<char>, Seq<char>), index: usize) -> Seq<char> {
    "    "@ + e + " = getelementptr "@ + pointee(base.0) + ", "@ + base.0 + " "@ + base.1
        + ", i32 0, i32 "@ + dec(index as nat) + "\n"@
}

/// A binary instruction line `<v> = <op> <type> <lhs>, <rhs>`.
pub open spec fn binary_line(v: Seq<char>, op: Seq<char>, t: Seq<char>, lhs: Seq<char>, rhs: Seq<char>) -> Seq<char> {
    "    "@ + v + " = "@ + op + " "@ + t + " "@ + lhs + ", "@ + rhs + "\n"@
}

/// The pooled constant declaration of a string literal.
pub open spec fn literal_decl(g: Seq<char>, s: Seq<char>) -> Seq<char> {
    g + " = private unnamed_addr constant ["@ + dec(literal_size(s)) + " x i8] c\""@ + s + "\\00\""@
}

/// The effect of generating code for `ins` on a state where no fatal condition holds.
pub open spec fn instr_apply(m: WriterModel, ins: Instruction) -> WriterModel {
    let s = m.stack;
    let id = m.next_id;
    match ins {
        Instruction::Operator { op, typ } => {
            let t = llvm_type(m.types, typ);
            let v = local_name(default_hint(), id);
            WriterModel {
                out: m.out + binary_line(v, operator_text(op), t, top(s, 1).1, top(s, 0).1),
                stack: drop_top(s, 2).push((t, v)),
                next_id: id + 1,
                ..m
            }
        },
        Instruction::Comparison { op, typ } => {
            let t = llvm_type(m.types, typ);
            let v = local_name(default_hint(), id);
            WriterModel {
                out: m.out + binary_line(v, comparison_text(op), t, top(s, 1).1, top(s, 0).1),
                stack: drop_top(s, 2).push(("i1"@, v)),
                next_id: id + 1,
                ..m
            }
        },
        Instruction::BoolLiteral(b) => WriterModel {
            stack: s.push(("i1"@, if b { "1"@ } else { "0"@ })),
            ..m
        },
        Instruction::IntLiteral(v) => WriterModel {
            stack: s.push(("i64"@, dec_signed(v as int))),
            ..m
        },
        Instruction::FloatLiteral(text) => WriterModel { stack: s.push(("f64"@, text@)), ..m },
        Instruction::StringLiteral(text) => {
            let g = global_name(id);
            let size = dec(literal_size(text@));
            let v = local_name("str"@, id + 1);
            WriterModel {
                out: m.out + "    "@ + v + " = getelementptr ["@ + size + " x i8], ["@ + size
                    + " x i8]* "@ + g + ", i64 0, i64 0\n"@,
                stack: s.push(("i8*"@, v)),
                literals: m.literals.push(literal_decl(g, text@)),
                next_id: id + 2,
                ..m
            }
        },
        Instruction::Malloc(typ) => {
            let raw = local_name(default_hint(), id);
            let cast = local_name(default_hint(), id + 1);
            let pt = llvm_type(m.types, typ) + "*"@;
            WriterModel {
                out: m.out + "    "@ + raw + " = call i8* @malloc(i64 "@ + dec(size_of(m.types, typ))
                    + ") nounwind\n"@ + "    "@ + cast + " = bitcast i8* "@ + raw + " to "@ + pt
                    + "\n"@,
                stack: s.push((pt, cast)),
                next_id: id + 2,
                ..m
            }
        },
        Instruction::Duplicate => WriterModel { stack: s.push(top(s, 0)), ..m },
        Instruction::Call { n_args, typ } => {
            let callee = top(s, n_args as nat).1;
            let args = arg_list(s.subrange(s.len() - n_args, s.len() as int));
            let rest = drop_top(s, (n_args + 1) as nat);
            match typ {
                Some(rt) => {
                    let t = llvm_type(m.types, rt);
                    let v = local_name(default_hint(), id);
                    WriterModel {
                        out: m.out + "    "@ + v + " = call "@ + t + " "@ + callee + "("@ + args
                            + ")\n"@,
                        stack: rest.push((t, v)),
                        next_id: id + 1,
                        ..m
                    }
                },
                None => WriterModel {
                    out: m.out + "    call void "@ + callee + "("@ + args + ")\n"@,
                    stack: rest,
                    ..m
                },
            }
        },
        Instruction::GetAttr { index, typ } => {
            let e = local_name(default_hint(), id);
            let t = llvm_type(m.types, typ);
            let v = local_name(default_hint(), id + 1);
            WriterModel {
                out: m.out + field_address(e, top(s, 0), index) + "    "@ + v + " = load "@ + t
                    + ", "@ + t + "* "@ + e + "\n"@,
                stack: drop_top(s, 1).push((t, v)),
                next_id: id + 2,
                ..m
            }
        },
        Instruction::SetAttr(index) => {
            let e = local_name(default_hint(), id);
            let val = top(s, 0);
            WriterModel {
                out: m.out + field_address(e, top(s, 1), index) + "    store "@ + val.0 + " "@
                    + val.1 + ", "@ + val.0 + "* "@ + e + "\n"@,
                stack: drop_top(s, 2),
                next_id: id + 1,
                ..m
            }
        },
        Instruction::LoadParameter { index, typ } => WriterModel {
            stack: s.push((llvm_type(m.types, typ), m.params[index as int])),
            ..m
        },
        Instruction::LoadGlobalName(name) => WriterModel {
            stack: s.push((Seq::empty(), "@"@ + name@)),
            ..m
        },
        Instruction::StoreLocal { index } => {
            let val = top(s, 0);
            let slot = m.locals[index as int];
            WriterModel {
                out: m.out + "    store "@ + val.0 + " "@ + val.1 + ", "@ + slot.0 + " "@ + slot.1
                    + "\n"@,
                stack: drop_top(s, 1),
                ..m
            }
        },
        Instruction::LoadLocal { index, typ } => {
            let t = llvm_type(m.types, typ);
            let slot = m.locals[index as int];
            let v = local_name(default_hint(), id);
            WriterModel {
                out: m.out + "    "@ + v + " = load "@ + t + ", "@ + slot.0 + " "@ + slot.1 + "\n"@,
                stack: s.push((t, v)),
                next_id: id + 1,
                ..m
            }
        },
        Instruction::Label(l) => WriterModel {
            out: m.out + "  block"@ + dec(l as nat) + ":\n"@,
            ..m
        },
        Instruction::Jump(l) => WriterModel {
            out: m.out + "    br label %block"@ + dec(l as nat) + "\n"@,
            ..m
        },
        Instruction::JumpIf(a, b) => WriterModel {
            out: m.out + "    br i1 "@ + top(s, 0).1 + ", label %block"@ + dec(a as nat)
                + ", label %block"@ + dec(b as nat) + "\n"@,
            stack: drop_top(s, 1),
            ..m
        },
    }
}

/// Code generation for one instruction: the fatal condition, or the new state.
#[verifier::opaque]
pub open spec fn instr_step(m: WriterModel, ins: Instruction) -> Result<WriterModel, GenError> {
    match instr_error(m, ins) {
        Some(e) => Err(e),
        None => Ok(instr_apply(m, ins)),
    }
}

/// Code generation for an instruction sequence, stopping at the first fatal condition.
pub open spec fn run_code(m: WriterModel, code: Seq<Instruction>) -> Result<WriterModel, GenError>
    decreases code.len(),
{
    if code.len() == 0 {
        Ok(m)
    } else {
        match run_code(m, code.drop_last()) {
            Ok(m2) => instr_step(m2, code.last()),
            Err(e) => Err(e),
        }
    }
}

/// Every type in `ts` is registered.
pub open spec fn all_typs_ok(n: nat, ts: Seq<Typ>) -> bool {
    forall|i: int| 0 <= i < ts.len() ==> typ_ok(n, #[trigger] ts[i])
}

/// Registration of one struct type: a fresh `%DaType_<id>` name, its size,
/// and its type definition line.
pub open spec fn type_def_step(m: WriterModel, fields: Seq<Typ>) -> Result<WriterModel, GenError> {
    if !all_typs_ok(m.types.len(), fields) {
        Err(GenError::UnknownStruct)
    } else if m.next_id + 1 > usize::MAX {
        Err(GenError::Overflow)
    } else if fields_size(m.types, fields) > usize::MAX {
        Err(GenError::Overflow)
    } else {
        let name = local_name("DaType"@, m.next_id);
        Ok(WriterModel {
            out: m.out + name + " = type { "@ + type_list(m.types, fields) + " }\n"@,
            types: m.types.push((name, fields_size(m.types, fields))),
            next_id: m.next_id + 1,
            ..m
        })
    }
}

/// Registration of struct types in order, stopping at the first fatal condition.
pub open spec fn run_types(m: WriterModel, defs: Seq<StructType>) -> Result<WriterModel, GenError>
    decreases defs.len(),
{
    if defs.len() == 0 {
        Ok(m)
    } else {
        match run_types(m, defs.drop_last()) {
            Ok(m2) => type_def_step(m2, defs.last().fields@),
            Err(e) => Err(e),
        }
    }
}

pub open spec fn param_name(p: Parameter) -> Seq<char> {
    "%"@ + p.name@
}

/// The parameter list of a function header: `<type> %<name>`, separated by `, `.
pub open spec fn param_list(types: Seq<(Seq<char>, nat)>, ps: Seq<Parameter>) -> Seq<char>
    decreases ps.len(),
{
    if ps.len() == 0 {
        Seq::empty()
    } else if ps.len() == 1 {
        llvm_type(types, ps[0].typ) + " "@ + param_name(ps[0])
    } else {
        param_list(types, ps.drop_last()) + ", "@ + llvm_type(types, ps.last().typ) + " "@
            + param_name(ps.last())
    }
}

/// One storage slot line per local, the `j`-th named with id `id + j`.
pub open spec fn local_allocs(types: Seq<(Seq<char>, nat)>, ls: Seq<Local>, id: nat) -> Seq<char>
    decreases ls.len(),
{
    if ls.len() == 0 {
        Seq::empty()
    } else {
        local_allocs(types, ls.drop_last(), id) + "    "@ + local_name(ls.last().name@, (id + ls.len() - 1) as nat)
            + " = alloca "@ + llvm_type(types, ls.last().typ) + "\n"@
    }
}

/// The slot table of the locals: (pointer type, slot name).
pub open spec fn local_slots(types: Seq<(Seq<char>, nat)>, ls: Seq<Local>, id: nat) -> Seq<(Seq<char>, Seq<char>)> {
    Seq::new(ls.len(), |j: int| (llvm_type(types, ls[j].typ) + "*"@, local_name(ls[j].name@, (id + j) as nat)))
}

/// The state in which a function's body starts: header and slots emitted,
/// fresh tables, and an empty operand stack.
pub open spec fn function_entry(m: WriterModel, f: Function) -> WriterModel {
    WriterModel {
        out: m.out + "define void @"@ + f.name@ + "("@ + param_list(m.types, f.parameters@) + ") {\n"@
            + local_allocs(m.types, f.locals@, m.next_id),
        stack: Seq::empty(),
        params: f.parameters@.map_values(|p: Parameter| param_name(p)),
        locals: local_slots(m.types, f.locals@, m.next_id),
        next_id: m.next_id + f.locals@.len(),
        ..m
    }
}

/// Code generation for one function.
pub open spec fn function_step(m: WriterModel, f: Function) -> Result<WriterModel, GenError> {
    if !all_typs_ok(m.types.len(), f.parameters@.map_values(|p: Parameter| p.typ)) {
        Err(GenError::UnknownStruct)
    } else if !all_typs_ok(m.types.len(), f.locals@.map_values(|l: Local| l.typ)) {
        Err(GenError::UnknownStruct)
    } else if m.next_id + f.locals@.len() > usize::MAX {
        Err(GenError::Overflow)
    } else {
        match run_code(function_entry(m, f), f.code@) {
            Ok(m2) => Ok(WriterModel { out: m2.out + "    ret void\n}\n\n"@, ..m2 }),
            Err(e) => Err(e),
        }
    }
}

/// Code generation for functions in order, stopping at the first fatal condition.
pub open spec fn run_functions(m: WriterModel, fs: Seq<Function>) -> Result<WriterModel, GenError>
    decreases fs.len(),
{
    if fs.len() == 0 {
        Ok(m)
    } else {
        match run_functions(m, fs.drop_last()) {
            Ok(m2) => function_step(m2, fs.last()),
            Err(e) => Err(e),
        }
    }
}

/// The pooled constants, one per line.
pub open spec fn literal_lines(ls: Seq<Seq<char>>) -> Seq<char>
    decreases ls.len(),
{
    if ls.len() == 0 {
        Seq::empty()
    } else {
        literal_lines(ls.drop_last()) + ls.last() + "\n"@
    }
}

/// The fixed preamble: runtime declarations of the print routine and the allocator.
pub open spec fn preamble() -> Seq<char> {
    "\n; Text generated!!\n\ndeclare void @std_print(i8* nocapture) nounwind\ndeclare i8* @malloc(i64) nounwind\n\n"@
}

/// Code generation for a whole program: preamble, struct types, a blank line,
/// functions, then the string pool and a closing blank line.
pub open spec fn program_step(m: WriterModel, p: Program) -> Result<WriterModel, GenError> {
    let m1 = WriterModel { out: m.out + preamble(), ..m };
    match run_types(m1, p.struct_types@) {
        Err(e) => Err(e),
        Ok(m2) => match run_functions(WriterModel { out: m2.out + "\n"@, ..m2 }, p.functions@) {
            Err(e) => Err(e),
            Ok(m3) => Ok(WriterModel { out: m3.out + literal_lines(m3.literals) + "\n"@, ..m3 }),
        },
    }
}

/// The state of a fresh generator.
pub open spec fn initial_model() -> WriterModel {
    WriterModel {
        out: Seq::empty(),
        types: Seq::empty(),
        stack: Seq::empty(),
        params: Seq::empty(),
        locals: Seq::empty(),
        next_id: 0,
        literals: Seq::empty(),
    }
}

/// A prefix of a field list is no larger than the whole list.
pub proof fn lemma_fields_size_prefix(types: Seq<(Seq<char>, nat)>, fields: Seq<Typ>, i: int)
    requires
        0 <= i <= fields.len(),
    ensures
        fields_size(types, fields.take(i)) <= fields_size(types, fields),
    decreases fields.len() - i,
{
    if i < fields.len() {
        lemma_fields_size_prefix(types, fields, i + 1);
        assert(fields.take(i + 1).drop_last() =~= fields.take(i));
    } else {
        assert(fields.take(i) =~= fields);
    }
}

/// Once a prefix of the code fails, the whole code fails with the same error.
pub proof fn lemma_run_code_stops(m: WriterModel, code: Seq<Instruction>, i: int)
    requires
        0 <= i <= code.len(),
        run_code(m, code.take(i)) is Err,
    ensures
        run_code(m, code) == run_code(m, code.take(i)),
    decreases code.len() - i,
{
    if i < code.len() {
        assert(code.take(i + 1).drop_last() =~= code.take(i));
        lemma_run_code_stops(m, code, i + 1);
    } else {
        assert(code.take(i) =~= code);
    }
}

/// Once a prefix of the struct types fails, the whole list fails with the same error.
pub proof fn lemma_run_types_stops(m: WriterModel, defs: Seq<StructType>, i: int)
    requires
        0 <= i <= defs.len(),
        run_types(m, defs.take(i)) is Err,
    ensures
        run_types(m, defs) == run_types(m, defs.take(i)),
    decreases defs.len() - i,
{
    if i < defs.len() {
        assert(defs.take(i + 1).drop_last() =~= defs.take(i));
        lemma_run_types_stops(m, defs, i + 1);
    } else {
        assert(defs.take(i) =~= defs);
    }
}

/// Once a prefix of the functions fails, the whole list fails with the same error.
pub proof fn lemma_run_functions_stops(m: WriterModel, fs: Seq<Function>, i: int)
    requires
        0 <= i <= fs.len(),
        run_functions(m, fs.take(i)) is Err,
    ensures
        run_functions(m, fs) == run_functions(m, fs.take(i)),
    decreases fs.len() - i,
{
    if i < fs.len() {
        assert(fs.take(i + 1).drop_last() =~= fs.take(i));
        lemma_run_functions_stops(m, fs, i + 1);
    } else {
        assert(fs.take(i) =~= fs);
    }
}

} // verus!
