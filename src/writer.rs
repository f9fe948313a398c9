use vstd::prelude::*;
use vstd::string::StringExecFns;
use crate::bytecode::{
    Comparison, Function, Instruction, Local, Operator, Parameter, Program, StructType, Typ,
};
use crate::model::{
    all_typs_ok, arg_list, comparison_text, default_hint, drop_top, field_address, fields_size,
    function_entry, function_step, global_name, initial_model, instr_apply, instr_error, instr_step,
    lemma_fields_size_prefix, lemma_run_code_stops, lemma_run_functions_stops, lemma_run_types_stops,
    literal_decl, literal_lines, literal_size, llvm_type, local_allocs, local_name, local_slots,
    operator_text, param_list, param_name, pointee, preamble, program_step, run_code, run_functions,
    run_types, size_of, top, type_def_step, type_list, typ_ok, typed, GenError, WriterModel,
};
use crate::text::{append_i64, append_usize, dec};

verus! {

pub open spec fn pair_view(p: (String, String)) -> (Seq<char>, Seq<char>) {
    (p.0@, p.1@)
}

pub open spec fn type_entry_view(p: (String, usize)) -> (Seq<char>, nat) {
    (p.0@, p.1 as nat)
}

pub open spec fn string_view(s: String) -> Seq<char> {
    s@
}

/// Code generation context of one run: emitted text, struct table, operand
/// stack, per-function tables, name counter and string pool.
pub struct LLVMWriter {
    out: String,
    type_names: Vec<(String, usize)>,
    stack: Vec<(String, String)>,
    parameter_names: Vec<String>,
    local_names: Vec<(String, String)>,
    id_counter: usize,
    string_literals: Vec<String>,
}

impl View for LLVMWriter {
    type V = WriterModel;

    closed spec fn view(&self) -> WriterModel {
        WriterModel {
            out: self.out@,
            types: self.type_names@.map_values(|p: (String, usize)| type_entry_view(p)),
            stack: self.stack@.map_values(|p: (String, String)| pair_view(p)),
            params: self.parameter_names@.map_values(|s: String| string_view(s)),
            locals: self.local_names@.map_values(|p: (String, String)| pair_view(p)),
            next_id: self.id_counter as nat,
            literals: self.string_literals@.map_values(|s: String| string_view(s)),
        }
    }
}

fn operator_str(op: Operator) -> (r: &'static str)
    ensures
        r@ == operator_text(op),
{
    match op {
        Operator::Add => "add",
        Operator::Sub => "sub",
        Operator::Mul => "mul",
        Operator::Div => "sdiv",
    }
}

fn comparison_str(op: Comparison) -> (r: &'static str)
    requires
        op != Comparison::NotEqual,
    ensures
        r@ == comparison_text(op),
{
    match op {
        Comparison::Lt => "icmp slt",
        Comparison::LtEqual => "icmp sle",
        Comparison::Gt => "icmp sgt",
        Comparison::GtEqual => "icmp sge",
        _ => "icmp eq",
    }
}

/// The type text without its last character; an empty text stays empty.
fn trim_last(t: &String) -> (r: String)
    ensures
        r@ == pointee(t@),
{
    let n = t.as_str().unicode_len();
    if n == 0 {
        t.clone()
    } else {
        String::from_str(t.as_str().substring_char(0, n - 1))
    }
}

impl LLVMWriter {
    /// A context with nothing emitted, empty tables and the counter at 0.
    pub fn new() -> (r: Self)
        ensures
            r@ == (WriterModel {
                out: Seq::empty(),
                types: Seq::empty(),
                stack: Seq::empty(),
                params: Seq::empty(),
                locals: Seq::empty(),
                next_id: 0,
                literals: Seq::empty(),
            }),
    {
        let r = LLVMWriter {
            out: String::new(),
            type_names: Vec::new(),
            stack: Vec::new(),
            parameter_names: Vec::new(),
            local_names: Vec::new(),
            id_counter: 0,
            string_literals: Vec::new(),
        };
        assert(r@ =~= (WriterModel {
            out: Seq::empty(),
            types: Seq::empty(),
            stack: Seq::empty(),
            params: Seq::empty(),
            locals: Seq::empty(),
            next_id: 0,
            literals: Seq::empty(),
        }));
        r
    }

    /// The text emitted so far.
    pub fn output(&self) -> (r: &String)
        ensures
            r@ == self@.out,
    {
        &self.out
    }

    /// The operand stack, bottom first.
    pub fn stack(&self) -> (r: &Vec<(String, String)>)
        ensures
            r@.map_values(|p: (String, String)| pair_view(p)) == self@.stack,
    {
        &self.stack
    }

    /// The pooled string constant declarations, in order of creation.
    pub fn string_literals(&self) -> (r: &Vec<String>)
        ensures
            r@.map_values(|s: String| string_view(s)) == self@.literals,
    {
        &self.string_literals
    }

    /// The registered struct types: generated name and byte size.
    pub fn type_names(&self) -> (r: &Vec<(String, usize)>)
        ensures
            r@.map_values(|p: (String, usize)| type_entry_view(p)) == self@.types,
    {
        &self.type_names
    }

    /// The next unused id; the counter moves on by one.
    pub fn new_id(&mut self) -> (r: usize)
        requires
            old(self)@.next_id < usize::MAX,
        ensures
            r as nat == old(self)@.next_id,
            final(self)@ == (WriterModel { next_id: old(self)@.next_id + 1, ..old(self)@ }),
    {
        let r = self.id_counter;
        self.id_counter = self.id_counter + 1;
        assert(self@ =~= (WriterModel { next_id: old(self)@.next_id + 1, ..old(self)@ }));
        r
    }

    /// A fresh local value name `%<hint>_<id>`; without a hint, `fuu`.
    pub fn new_local(&mut self, hint: Option<String>) -> (r: String)
        requires
            old(self)@.next_id < usize::MAX,
        ensures
            r@ == local_name(
                match hint {
                    Some(h) => h@,
                    None => default_hint(),
                },
                old(self)@.next_id,
            ),
            final(self)@ == (WriterModel { next_id: old(self)@.next_id + 1, ..old(self)@ }),
    {
        let id = self.new_id();
        let mut r = String::from_str("%");
        match hint {
            Some(h) => r.append(h.as_str()),
            None => r.append("fuu"),
        }
        r.append("_");
        append_usize(&mut r, id);
        r
    }

    /// A fresh module-level name `@baz<id>`.
    pub fn new_global(&mut self) -> (r: String)
        requires
            old(self)@.next_id < usize::MAX,
        ensures
            r@ == global_name(old(self)@.next_id),
            final(self)@ == (WriterModel { next_id: old(self)@.next_id + 1, ..old(self)@ }),
    {
        let id = self.new_id();
        let mut r = String::from_str("@baz");
        append_usize(&mut r, id);
        r
    }

    /// Pushes a (type, value reference) pair onto the operand stack.
    pub fn push(&mut self, typ: String, name: String)
        ensures
            final(self)@ == (WriterModel {
                stack: old(self)@.stack.push((typ@, name@)),
                ..old(self)@
            }),
    {
        self.stack.push((typ, name));
        assert(self.stack@.map_values(|p: (String, String)| pair_view(p)) =~= old(self)@.stack.push(
            (typ@, name@),
        ));
        assert(self@ =~= (WriterModel { stack: old(self)@.stack.push((typ@, name@)), ..old(self)@ }));
    }

    /// Removes and returns the top of the operand stack.
    pub fn pop(&mut self) -> (r: (String, String))
        requires
            old(self)@.stack.len() > 0,
        ensures
            pair_view(r) == old(self)@.stack.last(),
            final(self)@ == (WriterModel { stack: old(self)@.stack.drop_last(), ..old(self)@ }),
    {
        let r = self.stack.pop().unwrap();
        assert(self.stack@.map_values(|p: (String, String)| pair_view(p)) =~= old(self)@.stack.drop_last());
        assert(self@ =~= (WriterModel { stack: old(self)@.stack.drop_last(), ..old(self)@ }));
        r
    }

    /// Pops the top operand and writes it as `<type> <value>`.
    pub fn pop_typed(&mut self) -> (r: String)
        requires
            old(self)@.stack.len() > 0,
        ensures
            r@ == typed(old(self)@.stack.last()),
            final(self)@ == (WriterModel { stack: old(self)@.stack.drop_last(), ..old(self)@ }),
    {
        let (t, v) = self.pop();
        let mut r = t;
        r.append(" ");
        r.append(v.as_str());
        r
    }

    /// Pops the top operand and returns its value reference alone.
    pub fn pop_untyped(&mut self) -> (r: String)
        requires
            old(self)@.stack.len() > 0,
        ensures
            r@ == old(self)@.stack.last().1,
            final(self)@ == (WriterModel { stack: old(self)@.stack.drop_last(), ..old(self)@ }),
    {
        let (_, v) = self.pop();
        v
    }

    /// Whether every struct index inside `ty` is registered.
    pub fn typ_known(&self, ty: &Typ) -> (r: bool)
        ensures
            r == typ_ok(self@.types.len(), *ty),
        decreases ty,
    {
        match ty {
            Typ::Ptr(inner) => self.typ_known(inner),
            Typ::Struct(i) => *i < self.type_names.len(),
            _ => true,
        }
    }

    /// The IR type text of `ty`.
    pub fn get_llvm_typ(&self, ty: &Typ) -> (r: String)
        requires
            typ_ok(self@.types.len(), *ty),
        ensures
            r@ == llvm_type(self@.types, *ty),
        decreases ty,
    {
        match ty {
            Typ::Bool => String::from_str("i1"),
            Typ::Int => String::from_str("i64"),
            Typ::Float => String::from_str("f64"),
            Typ::String => String::from_str("i8*"),
            Typ::Ptr(inner) => {
                let mut r = self.get_llvm_typ(inner);
                r.append("*");
                r
            },
            Typ::Struct(index) => {
                assert(type_entry_view(self.type_names@[*index as int]) == self@.types[*index as int]);
                self.type_names[*index].0.clone()
            },
        }
    }

    /// The conservative byte size of `ty`.
    pub fn get_sizeof(&self, ty: &Typ) -> (r: usize)
        requires
            typ_ok(self@.types.len(), *ty),
        ensures
            r as nat == size_of(self@.types, *ty),
    {
        match ty {
            Typ::Struct(index) => {
                assert(type_entry_view(self.type_names@[*index as int]) == self@.types[*index as int]);
                self.type_names[*index].1
            },
            _ => 8,
        }
    }
}

impl LLVMWriter {
    fn emit(&mut self, s: &str)
        ensures
            final(self)@ == (WriterModel { out: old(self)@.out + s@, ..old(self)@ }),
    {
        self.out.append(s);
        assert(self@ =~= (WriterModel { out: old(self)@.out + s@, ..old(self)@ }));
    }

    fn emit_number(&mut self, n: usize)
        ensures
            final(self)@ == (WriterModel { out: old(self)@.out + dec(n as nat), ..old(self)@ }),
    {
        append_usize(&mut self.out, n);
        assert(self@ =~= (WriterModel { out: old(self)@.out + dec(n as nat), ..old(self)@ }));
    }

    fn gen_operator(&mut self, op: Operator, typ: &Typ)
        requires
            instr_error(old(self)@, Instruction::Operator { op, typ: *typ }) is None,
        ensures
            final(self)@ == instr_apply(old(self)@, Instruction::Operator { op, typ: *typ }),
    {
        let ghost m = self@;
        let t = self.get_llvm_typ(typ);
        let rhs = self.pop_untyped();
        let lhs = self.pop_untyped();
        let v = self.new_local(None);
        let mut line = String::from_str("    ");
        line.append(v.as_str());
        line.append(" = ");
        line.append(operator_str(op));
        line.append(" ");
        line.append(t.as_str());
        line.append(" ");
        line.append(lhs.as_str());
        line.append(", ");
        line.append(rhs.as_str());
        line.append("\n");
        self.emit(line.as_str());
        self.push(t, v);
        assert(m.stack.drop_last().drop_last() =~= drop_top(m.stack, 2));
        assert(self@ =~= instr_apply(m, Instruction::Operator { op, typ: *typ }));
    }

    fn gen_comparison(&mut self, op: Comparison, typ: &Typ)
        requires
            instr_error(old(self)@, Instruction::Comparison { op, typ: *typ }) is None,
        ensures
            final(self)@ == instr_apply(old(self)@, Instruction::Comparison { op, typ: *typ }),
    {
        let ghost m = self@;
        let rhs = self.pop_untyped();
        let lhs = self.pop_untyped();
        let t = self.get_llvm_typ(typ);
        let v = self.new_local(None);
        let mut line = String::from_str("    ");
        line.append(v.as_str());
        line.append(" = ");
        line.append(comparison_str(op));
        line.append(" ");
        line.append(t.as_str());
        line.append(" ");
        line.append(lhs.as_str());
        line.append(", ");
        line.append(rhs.as_str());
        line.append("\n");
        self.emit(line.as_str());
        self.push(String::from_str("i1"), v);
        assert(m.stack.drop_last().drop_last() =~= drop_top(m.stack, 2));
        assert(self@ =~= instr_apply(m, Instruction::Comparison { op, typ: *typ }));
    }

    /// Pools a constant for a string literal and pushes a pointer to its first byte.
    pub fn gen_string_literal(&mut self, value: String) -> (r: Result<(), GenError>)
        requires
            old(self)@.next_id + 2 <= usize::MAX,
        ensures
            literal_size(value@) > usize::MAX ==> r == Err::<(), GenError>(GenError::Overflow)
                && final(self)@ == old(self)@,
            literal_size(value@) <= usize::MAX ==> r is Ok && final(self)@ == instr_apply(
                old(self)@,
                Instruction::StringLiteral(value),
            ),
    {
        let ghost m = self@;
        let len = value.as_str().as_bytes().len();
        if len == usize::MAX {
            return Err(GenError::Overflow);
        }
        let literal_name = self.new_global();
        let literal_size = len + 1;
        let mut literal = literal_name.clone();
        literal.append(" = private unnamed_addr constant [");
        append_usize(&mut literal, literal_size);
        literal.append(" x i8] c\"");
        literal.append(value.as_str());
        literal.append("\\00\"");
        let ghost lits = self.string_literals@;
        self.string_literals.push(literal);
        assert(self.string_literals@.map_values(|s: String| string_view(s)) =~= m.literals.push(
            literal_decl(global_name(m.next_id), value@),
        )) by {
            assert(lits.map_values(|s: String| string_view(s)) == m.literals);
        }
        let new_var = self.new_local(Some(String::from_str("str")));
        self.emit("    ");
        self.emit(new_var.as_str());
        self.emit(" = getelementptr [");
        self.emit_number(literal_size);
        self.emit(" x i8], [");
        self.emit_number(literal_size);
        self.emit(" x i8]* ");
        self.emit(literal_name.as_str());
        self.emit(", i64 0, i64 0\n");
        self.push(String::from_str("i8*"), new_var);
        assert(self@ =~= instr_apply(m, Instruction::StringLiteral(value)));
        Ok(())
    }

    fn gen_malloc(&mut self, typ: &Typ)
        requires
            instr_error(old(self)@, Instruction::Malloc(*typ)) is None,
        ensures
            final(self)@ == instr_apply(old(self)@, Instruction::Malloc(*typ)),
    {
        let ghost m = self@;
        let raw_ptr_var = self.new_local(None);
        let typed_ptr_var = self.new_local(None);
        let byte_size = self.get_sizeof(typ);
        let mut var_typ = self.get_llvm_typ(typ);
        var_typ.append("*");
        self.emit("    ");
        self.emit(raw_ptr_var.as_str());
        self.emit(" = call i8* @malloc(i64 ");
        self.emit_number(byte_size);
        self.emit(") nounwind\n");
        self.emit("    ");
        self.emit(typed_ptr_var.as_str());
        self.emit(" = bitcast i8* ");
        self.emit(raw_ptr_var.as_str());
        self.emit(" to ");
        self.emit(var_typ.as_str());
        self.emit("\n");
        self.push(var_typ, typed_ptr_var);
        assert(self@ =~= instr_apply(m, Instruction::Malloc(*typ)));
    }

    fn gen_duplicate(&mut self)
        requires
            instr_error(old(self)@, Instruction::Duplicate) is None,
        ensures
            final(self)@ == instr_apply(old(self)@, Instruction::Duplicate),
    {
        let ghost m = self@;
        let (typ, val) = self.pop();
        self.push(typ.clone(), val.clone());
        self.push(typ, val);
        assert(m.stack.drop_last().push(m.stack.last()) =~= m.stack);
        assert(self@ =~= instr_apply(m, Instruction::Duplicate));
    }
}

impl LLVMWriter {
    /// The element-address line for field `index` of the struct that `base` points to.
    fn field_address_line(e: &String, base_type: &String, base: &String, index: usize) -> (r: String)
        ensures
            r@ == field_address(e@, (base_type@, base@), index),
    {
        let mut line = String::from_str("    ");
        line.append(e.as_str());
        line.append(" = getelementptr ");
        let trimmed = trim_last(base_type);
        line.append(trimmed.as_str());
        line.append(", ");
        line.append(base_type.as_str());
        line.append(" ");
        line.append(base.as_str());
        line.append(", i32 0, i32 ");
        append_usize(&mut line, index);
        line.append("\n");
        line
    }

    fn gen_get_attr(&mut self, index: usize, typ: &Typ)
        requires
            instr_error(old(self)@, Instruction::GetAttr { index, typ: *typ }) is None,
        ensures
            final(self)@ == instr_apply(old(self)@, Instruction::GetAttr { index, typ: *typ }),
    {
        let ghost m = self@;
        let (base_type, base) = self.pop();
        let element_ptr = self.new_local(None);
        let element_ptr_type = self.get_llvm_typ(typ);
        let line = Self::field_address_line(&element_ptr, &base_type, &base, index);
        self.emit(line.as_str());
        let loaded_value = self.new_local(None);
        self.emit("    ");
        self.emit(loaded_value.as_str());
        self.emit(" = load ");
        self.emit(element_ptr_type.as_str());
        self.emit(", ");
        self.emit(element_ptr_type.as_str());
        self.emit("* ");
        self.emit(element_ptr.as_str());
        self.emit("\n");
        self.push(element_ptr_type, loaded_value);
        assert(m.stack.drop_last() =~= drop_top(m.stack, 1));
        assert(self@ =~= instr_apply(m, Instruction::GetAttr { index, typ: *typ }));
    }

    fn gen_set_attr(&mut self, index: usize)
        requires
            instr_error(old(self)@, Instruction::SetAttr(index)) is None,
        ensures
            final(self)@ == instr_apply(old(self)@, Instruction::SetAttr(index)),
    {
        let ghost m = self@;
        let (value_type, value) = self.pop();
        let (base_type, base) = self.pop();
        let element_ptr = self.new_local(None);
        let line = Self::field_address_line(&element_ptr, &base_type, &base, index);
        self.emit(line.as_str());
        self.emit("    store ");
        self.emit(value_type.as_str());
        self.emit(" ");
        self.emit(value.as_str());
        self.emit(", ");
        self.emit(value_type.as_str());
        self.emit("* ");
        self.emit(element_ptr.as_str());
        self.emit("\n");
        assert(m.stack.drop_last().drop_last() =~= drop_top(m.stack, 2));
        assert(self@ =~= instr_apply(m, Instruction::SetAttr(index)));
    }

    fn gen_store_local(&mut self, index: usize)
        requires
            instr_error(old(self)@, Instruction::StoreLocal { index }) is None,
        ensures
            final(self)@ == instr_apply(old(self)@, Instruction::StoreLocal { index }),
    {
        let ghost m = self@;
        let (value_type, value) = self.pop();
        assert(pair_view(self.local_names@[index as int]) == m.locals[index as int]);
        let local_type = self.local_names[index].0.clone();
        let local_name = self.local_names[index].1.clone();
        self.emit("    store ");
        self.emit(value_type.as_str());
        self.emit(" ");
        self.emit(value.as_str());
        self.emit(", ");
        self.emit(local_type.as_str());
        self.emit(" ");
        self.emit(local_name.as_str());
        self.emit("\n");
        assert(m.stack.drop_last() =~= drop_top(m.stack, 1));
        assert(self@ =~= instr_apply(m, Instruction::StoreLocal { index }));
    }

    fn gen_load_local(&mut self, index: usize, typ: &Typ)
        requires
            instr_error(old(self)@, Instruction::LoadLocal { index, typ: *typ }) is None,
        ensures
            final(self)@ == instr_apply(old(self)@, Instruction::LoadLocal { index, typ: *typ }),
    {
        let ghost m = self@;
        let t = self.get_llvm_typ(typ);
        assert(pair_view(self.local_names@[index as int]) == m.locals[index as int]);
        let local_type = self.local_names[index].0.clone();
        let local_name = self.local_names[index].1.clone();
        let new_var = self.new_local(None);
        self.emit("    ");
        self.emit(new_var.as_str());
        self.emit(" = load ");
        self.emit(t.as_str());
        self.emit(", ");
        self.emit(local_type.as_str());
        self.emit(" ");
        self.emit(local_name.as_str());
        self.emit("\n");
        self.push(t, new_var);
        assert(self@ =~= instr_apply(m, Instruction::LoadLocal { index, typ: *typ }));
    }

    fn gen_load_parameter(&mut self, index: usize, typ: &Typ)
        requires
            instr_error(old(self)@, Instruction::LoadParameter { index, typ: *typ }) is None,
        ensures
            final(self)@ == instr_apply(old(self)@, Instruction::LoadParameter { index, typ: *typ }),
    {
        let t = self.get_llvm_typ(typ);
        assert(string_view(self.parameter_names@[index as int]) == self@.params[index as int]);
        let name = self.parameter_names[index].clone();
        self.push(t, name);
    }

    fn gen_jump_if(&mut self, label: usize, else_label: usize)
        requires
            instr_error(old(self)@, Instruction::JumpIf(label, else_label)) is None,
        ensures
            final(self)@ == instr_apply(old(self)@, Instruction::JumpIf(label, else_label)),
    {
        let ghost m = self@;
        let condition = self.pop_untyped();
        self.emit("    br i1 ");
        self.emit(condition.as_str());
        self.emit(", label %block");
        self.emit_number(label);
        self.emit(", label %block");
        self.emit_number(else_label);
        self.emit("\n");
        assert(m.stack.drop_last() =~= drop_top(m.stack, 1));
        assert(self@ =~= instr_apply(m, Instruction::JumpIf(label, else_label)));
    }

    /// Emits a call on the operands at the top of the stack: `n_args` arguments
    /// above the callee. With a return type the result is pushed.
    fn gen_call(&mut self, n_args: usize, typ: &Option<Typ>)
        requires
            instr_error(old(self)@, Instruction::Call { n_args, typ: *typ }) is None,
        ensures
            final(self)@ == instr_apply(old(self)@, Instruction::Call { n_args, typ: *typ }),
    {
        let ghost m = self@;
        let ghost s = m.stack;
        let mut args: Vec<String> = Vec::new();
        let mut j: usize = 0;
        while j < n_args
            invariant
                j <= n_args,
                n_args + 1 <= s.len(),
                instr_error(m, Instruction::Call { n_args, typ: *typ }) is None,
                self@ == (WriterModel { stack: drop_top(s, j as nat), ..m }),
                args@.len() == j,
                forall|i: int| 0 <= i < j ==> (#[trigger] args@[i])@ == typed(top(s, i as nat)),
            decreases n_args - j,
        {
            let a = self.pop_typed();
            assert(drop_top(s, j as nat).drop_last() =~= drop_top(s, (j + 1) as nat));
            args.push(a);
            j = j + 1;
        }
        let ghost sub = s.subrange(s.len() - n_args, s.len() as int);
        let mut text = String::new();
        let mut t: usize = 0;
        while t < n_args
            invariant
                t <= n_args,
                n_args + 1 <= s.len(),
                sub == s.subrange(s.len() - n_args, s.len() as int),
                args@.len() == n_args,
                forall|i: int| 0 <= i < n_args ==> (#[trigger] args@[i])@ == typed(top(s, i as nat)),
                text@ == arg_list(sub.subrange(0, t as int)),
            decreases n_args - t,
        {
            if t > 0 {
                text.append(", ");
            }
            text.append(args[n_args - 1 - t].as_str());
            assert(sub.subrange(0, t + 1).drop_last() =~= sub.subrange(0, t as int));
            assert(sub.subrange(0, t + 1).last() == top(s, (n_args - 1 - t) as nat));
            if t == 0 {
                assert(text@ =~= arg_list(sub.subrange(0, 1)));
            }
            t = t + 1;
        }
        assert(sub.subrange(0, n_args as int) =~= sub);
        let callee = self.pop_untyped();
        assert(drop_top(s, n_args as nat).drop_last() =~= drop_top(s, (n_args + 1) as nat));
        match typ {
            Some(rt) => {
                let res_var = self.new_local(None);
                let t = self.get_llvm_typ(rt);
                self.emit("    ");
                self.emit(res_var.as_str());
                self.emit(" = call ");
                self.emit(t.as_str());
                self.emit(" ");
                self.emit(callee.as_str());
                self.emit("(");
                self.emit(text.as_str());
                self.emit(")\n");
                self.push(t, res_var);
            },
            None => {
                self.emit("    call void ");
                self.emit(callee.as_str());
                self.emit("(");
                self.emit(text.as_str());
                self.emit(")\n");
            },
        }
        assert(self@ =~= instr_apply(m, Instruction::Call { n_args, typ: *typ }));
    }
}

impl LLVMWriter {
    /// The fatal condition, if any, that stops code generation for `ins` here.
    pub fn instruction_fault(&self, ins: &Instruction) -> (r: Option<GenError>)
        ensures
            r == instr_error(self@, *ins),
    {
        let types_ok = match ins {
            Instruction::Operator { typ, .. } => self.typ_known(typ),
            Instruction::Comparison { typ, .. } => self.typ_known(typ),
            Instruction::Malloc(typ) => self.typ_known(typ),
            Instruction::Call { typ, .. } => match typ {
                Some(t) => self.typ_known(t),
                None => true,
            },
            Instruction::GetAttr { typ, .. } => self.typ_known(typ),
            Instruction::LoadParameter { typ, .. } => self.typ_known(typ),
            Instruction::LoadLocal { typ, .. } => self.typ_known(typ),
            _ => true,
        };
        if !types_ok {
            return Some(GenError::UnknownStruct);
        }
        let indices_ok = match ins {
            Instruction::LoadParameter { index, .. } => *index < self.parameter_names.len(),
            Instruction::StoreLocal { index } => *index < self.local_names.len(),
            Instruction::LoadLocal { index, .. } => *index < self.local_names.len(),
            _ => true,
        };
        if !indices_ok {
            return Some(GenError::BadIndex);
        }
        if let Instruction::Comparison { op: Comparison::NotEqual, .. } = ins {
            return Some(GenError::NotImplemented);
        }
        let depth = self.stack.len();
        let underflow = match ins {
            Instruction::Operator { .. } => depth < 2,
            Instruction::Comparison { .. } => depth < 2,
            Instruction::Duplicate => depth < 1,
            Instruction::Call { n_args, .. } => depth <= *n_args,
            Instruction::GetAttr { .. } => depth < 1,
            Instruction::SetAttr(_) => depth < 2,
            Instruction::StoreLocal { .. } => depth < 1,
            Instruction::JumpIf(_, _) => depth < 1,
            _ => false,
        };
        if underflow {
            return Some(GenError::StackUnderflow);
        }
        if self.id_counter > usize::MAX - 2 {
            return Some(GenError::Overflow);
        }
        if let Instruction::StringLiteral(value) = ins {
            if value.as_str().as_bytes().len() == usize::MAX {
                return Some(GenError::Overflow);
            }
        }
        None
    }

    /// Lowers one instruction: emits its text and updates the operand
    /// stack, or reports the fatal condition and leaves the state as it was.
    pub fn gen_instruction(&mut self, instruction: &Instruction) -> (r: Result<(), GenError>)
        ensures
            instr_step(old(self)@, *instruction) is Ok ==> r is Ok && final(self)@ == instr_step(
                old(self)@,
                *instruction,
            )->Ok_0,
            instr_step(old(self)@, *instruction) is Err ==> r == Err::<(), GenError>(
                instr_step(old(self)@, *instruction)->Err_0,
            ) && final(self)@ == old(self)@,
    {
        reveal(instr_step);
        if let Some(e) = self.instruction_fault(instruction) {
            return Err(e);
        }
        let ghost m = self@;
        let ghost ins = *instruction;
        match instruction {
            Instruction::Operator { op, typ } => self.gen_operator(*op, typ),
            Instruction::BoolLiteral(value) => {
                let v = if *value { String::from_str("1") } else { String::from_str("0") };
                self.push(String::from_str("i1"), v);
            },
            Instruction::IntLiteral(value) => {
                let mut v = String::new();
                append_i64(&mut v, *value);
                self.push(String::from_str("i64"), v);
            },
            Instruction::FloatLiteral(value) => {
                self.push(String::from_str("f64"), value.clone());
            },
            Instruction::StringLiteral(value) => {
                let _pooled = self.gen_string_literal(value.clone());
            },
            Instruction::Malloc(typ) => self.gen_malloc(typ),
            Instruction::Duplicate => self.gen_duplicate(),
            Instruction::Comparison { op, typ } => self.gen_comparison(*op, typ),
            Instruction::Call { n_args, typ } => self.gen_call(*n_args, typ),
            Instruction::GetAttr { index, typ } => self.gen_get_attr(*index, typ),
            Instruction::SetAttr(index) => self.gen_set_attr(*index),
            Instruction::LoadParameter { index, typ } => self.gen_load_parameter(*index, typ),
            Instruction::LoadGlobalName(name) => {
                let mut v = String::from_str("@");
                v.append(name.as_str());
                self.push(String::new(), v);
            },
            Instruction::StoreLocal { index } => self.gen_store_local(*index),
            Instruction::LoadLocal { index, typ } => self.gen_load_local(*index, typ),
            Instruction::Label(label) => {
                self.emit("  block");
                self.emit_number(*label);
                self.emit(":\n");
            },
            Instruction::Jump(label) => {
                self.emit("    br label %block");
                self.emit_number(*label);
                self.emit("\n");
            },
            Instruction::JumpIf(label, else_label) => self.gen_jump_if(*label, *else_label),
        }
        assert(self@ =~= instr_apply(m, ins));
        Ok(())
    }
}

impl LLVMWriter {
    /// Registers a struct type under a fresh name with its conservative size,
    /// and emits its type definition.
    pub fn gen_type_def(&mut self, def: &StructType) -> (r: Result<(), GenError>)
        ensures
            type_def_step(old(self)@, def.fields@) is Ok ==> r is Ok && final(self)@ == type_def_step(
                old(self)@,
                def.fields@,
            )->Ok_0,
            type_def_step(old(self)@, def.fields@) is Err ==> r == Err::<(), GenError>(
                type_def_step(old(self)@, def.fields@)->Err_0,
            ) && final(self)@ == old(self)@,
    {
        let ghost m = self@;
        let fields = &def.fields;
        let n = fields.len();
        let mut i: usize = 0;
        while i < n
            invariant
                n == fields@.len(),
                fields@ == def.fields@,
                i <= n,
                self@ == m,
                forall|j: int| 0 <= j < i ==> typ_ok(m.types.len(), #[trigger] fields@[j]),
            decreases n - i,
        {
            if !self.typ_known(&fields[i]) {
                assert(!typ_ok(m.types.len(), fields@[i as int]));
                assert(!all_typs_ok(m.types.len(), fields@));
                return Err(GenError::UnknownStruct);
            }
            i = i + 1;
        }
        assert(all_typs_ok(m.types.len(), fields@));
        if self.id_counter == usize::MAX {
            return Err(GenError::Overflow);
        }
        let mut size: usize = 0;
        let mut i: usize = 0;
        while i < n
            invariant
                n == fields@.len(),
                fields@ == def.fields@,
                i <= n,
                self@ == m,
                all_typs_ok(m.types.len(), fields@),
                size as nat == fields_size(m.types, fields@.take(i as int)),
            decreases n - i,
        {
            assert(typ_ok(m.types.len(), fields@[i as int]));
            let field_size = self.get_sizeof(&fields[i]);
            assert(fields@.take(i + 1).drop_last() =~= fields@.take(i as int));
            if size > usize::MAX - field_size {
                proof {
                    assert(fields@.take(i + 1).last() == fields@[i as int]);
                    assert(fields_size(m.types, fields@.take(i + 1)) == size + field_size);
                    lemma_fields_size_prefix(m.types, fields@, i + 1);
                }
                return Err(GenError::Overflow);
            }
            size = size + field_size;
            i = i + 1;
        }
        assert(fields@.take(n as int) =~= fields@);
        let struct_name = self.new_local(Some(String::from_str("DaType")));
        let mut text = String::new();
        let mut i: usize = 0;
        while i < n
            invariant
                n == fields@.len(),
                fields@ == def.fields@,
                i <= n,
                self@.types == m.types,
                all_typs_ok(m.types.len(), fields@),
                text@ == type_list(m.types, fields@.take(i as int)),
            decreases n - i,
        {
            assert(typ_ok(m.types.len(), fields@[i as int]));
            if i > 0 {
                text.append(", ");
            }
            let t = self.get_llvm_typ(&fields[i]);
            text.append(t.as_str());
            assert(fields@.take(i + 1).drop_last() =~= fields@.take(i as int));
            if i == 0 {
                assert(text@ =~= type_list(m.types, fields@.take(1)));
            }
            i = i + 1;
        }
        let ghost before = self.type_names@;
        self.type_names.push((struct_name.clone(), size));
        assert(self.type_names@.map_values(|p: (String, usize)| type_entry_view(p)) =~= m.types.push(
            (struct_name@, size as nat),
        )) by {
            assert(before.map_values(|p: (String, usize)| type_entry_view(p)) == m.types);
        }
        self.emit(struct_name.as_str());
        self.emit(" = type { ");
        self.emit(text.as_str());
        self.emit(" }\n");
        assert(self@ =~= type_def_step(m, fields@)->Ok_0);
        Ok(())
    }
}

impl LLVMWriter {
    /// Lowers one function: header with its parameters, one storage slot
    /// per local, the body instruction by instruction, and a closing return.
    pub fn gen_function(&mut self, func: &Function) -> (r: Result<(), GenError>)
        ensures
            function_step(old(self)@, *func) is Ok ==> r is Ok && final(self)@ == function_step(
                old(self)@,
                *func,
            )->Ok_0,
            function_step(old(self)@, *func) is Err ==> r == Err::<(), GenError>(
                function_step(old(self)@, *func)->Err_0,
            ),
    {
        let ghost m = self@;
        let ghost ptyps = func.parameters@.map_values(|p: Parameter| p.typ);
        let ghost ltyps = func.locals@.map_values(|l: Local| l.typ);
        let n_params = func.parameters.len();
        let mut i: usize = 0;
        while i < n_params
            invariant
                n_params == func.parameters@.len(),
                ptyps == func.parameters@.map_values(|p: Parameter| p.typ),
                i <= n_params,
                self@ == m,
                forall|j: int| 0 <= j < i ==> typ_ok(m.types.len(), #[trigger] ptyps[j]),
            decreases n_params - i,
        {
            if !self.typ_known(&func.parameters[i].typ) {
                assert(!typ_ok(m.types.len(), ptyps[i as int]));
                return Err(GenError::UnknownStruct);
            }
            i = i + 1;
        }
        assert(all_typs_ok(m.types.len(), ptyps));
        let n_locals = func.locals.len();
        let mut i: usize = 0;
        while i < n_locals
            invariant
                n_locals == func.locals@.len(),
                ltyps == func.locals@.map_values(|l: Local| l.typ),
                i <= n_locals,
                self@ == m,
                forall|j: int| 0 <= j < i ==> typ_ok(m.types.len(), #[trigger] ltyps[j]),
            decreases n_locals - i,
        {
            if !self.typ_known(&func.locals[i].typ) {
                assert(!typ_ok(m.types.len(), ltyps[i as int]));
                return Err(GenError::UnknownStruct);
            }
            i = i + 1;
        }
        assert(all_typs_ok(m.types.len(), ltyps));
        if self.id_counter > usize::MAX - n_locals {
            return Err(GenError::Overflow);
        }
        self.stack = Vec::new();
        self.parameter_names = Vec::new();
        let mut parameters = String::new();
        let mut i: usize = 0;
        while i < n_params
            invariant
                n_params == func.parameters@.len(),
                ptyps == func.parameters@.map_values(|p: Parameter| p.typ),
                all_typs_ok(m.types.len(), ptyps),
                i <= n_params,
                self@ == (WriterModel {
                    stack: Seq::empty(),
                    params: func.parameters@.take(i as int).map_values(|p: Parameter| param_name(p)),
                    ..m
                }),
                parameters@ == param_list(m.types, func.parameters@.take(i as int)),
            decreases n_params - i,
        {
            let parameter = &func.parameters[i];
            assert(typ_ok(m.types.len(), ptyps[i as int]));
            let mut parameter_name = String::from_str("%");
            parameter_name.append(parameter.name.as_str());
            if i > 0 {
                parameters.append(", ");
            }
            let t = self.get_llvm_typ(&parameter.typ);
            parameters.append(t.as_str());
            parameters.append(" ");
            parameters.append(parameter_name.as_str());
            assert(func.parameters@.take(i + 1).drop_last() =~= func.parameters@.take(i as int));
            if i == 0 {
                assert(parameters@ =~= param_list(m.types, func.parameters@.take(1)));
            }
            let ghost before = self.parameter_names@;
            let ghost pname = parameter_name@;
            let ghost pv = parameter_name;
            assert(before.map_values(|s: String| string_view(s)) == func.parameters@.take(i as int).map_values(|p: Parameter| param_name(p)));
            assert(pname == param_name(func.parameters@.take(i + 1)[i as int]));
            self.parameter_names.push(parameter_name);
            assert(before.map_values(|s: String| string_view(s)).len() == i);
            assert(self.parameter_names@ == before.push(pv));
            assert forall|j: int| 0 <= j < i + 1 implies string_view(#[trigger] self.parameter_names@[j])
                == param_name(func.parameters@[j]) by {
                if j == i {
                    assert(self.parameter_names@[j] == pv);
                } else {
                    assert(before.map_values(|s: String| string_view(s))[j] == func.parameters@.take(
                        i as int,
                    ).map_values(|p: Parameter| param_name(p))[j]);
                }
            }
            assert(self.parameter_names@.map_values(|s: String| string_view(s)) =~= func.parameters@.take(
                i + 1,
            ).map_values(|p: Parameter| param_name(p)));
            assert(self@ =~= (WriterModel {
                stack: Seq::empty(),
                params: func.parameters@.take(i + 1).map_values(|p: Parameter| param_name(p)),
                ..m
            }));
            i = i + 1;
        }
        assert(func.parameters@.take(n_params as int) =~= func.parameters@);
        self.emit("define void @");
        self.emit(func.name.as_str());
        self.emit("(");
        self.emit(parameters.as_str());
        self.emit(") {\n");
        self.local_names = Vec::new();
        let ghost base = self@;
        let ghost id0 = m.next_id;
        let mut i: usize = 0;
        while i < n_locals
            invariant
                n_locals == func.locals@.len(),
                ltyps == func.locals@.map_values(|l: Local| l.typ),
                all_typs_ok(m.types.len(), ltyps),
                i <= n_locals,
                id0 == m.next_id,
                id0 + n_locals <= usize::MAX,
                base.types == m.types,
                self@ == (WriterModel {
                    out: base.out + local_allocs(m.types, func.locals@.take(i as int), id0),
                    locals: local_slots(m.types, func.locals@.take(i as int), id0),
                    next_id: (id0 + i) as nat,
                    ..base
                }),
            decreases n_locals - i,
        {
            let local = &func.locals[i];
            assert(typ_ok(m.types.len(), ltyps[i as int]));
            let local_name = self.new_local(Some(local.name.clone()));
            let local_typ = self.get_llvm_typ(&local.typ);
            self.emit("    ");
            self.emit(local_name.as_str());
            self.emit(" = alloca ");
            self.emit(local_typ.as_str());
            self.emit("\n");
            let mut local_alloc_type = local_typ;
            local_alloc_type.append("*");
            let ghost before = self.local_names@;
            assert(before.map_values(|p: (String, String)| pair_view(p)) == local_slots(m.types, func.locals@.take(i as int), id0));
            assert(pair_view((local_alloc_type, local_name)) == local_slots(m.types, func.locals@.take(i + 1), id0)[i as int]);
            self.local_names.push((local_alloc_type, local_name));
            assert(func.locals@.take(i + 1).drop_last() =~= func.locals@.take(i as int));
            assert forall|j: int| 0 <= j < i + 1 implies pair_view(#[trigger] self.local_names@[j])
                == local_slots(m.types, func.locals@.take(i + 1), id0)[j] by {
                if j < i {
                    assert(before.map_values(|p: (String, String)| pair_view(p))[j] == local_slots(
                        m.types,
                        func.locals@.take(i as int),
                        id0,
                    )[j]);
                }
            }
            assert(self.local_names@.map_values(|p: (String, String)| pair_view(p)) =~= local_slots(
                m.types,
                func.locals@.take(i + 1),
                id0,
            ));
            assert(self@ =~= (WriterModel {
                out: base.out + local_allocs(m.types, func.locals@.take(i + 1), id0),
                locals: local_slots(m.types, func.locals@.take(i + 1), id0),
                next_id: (id0 + i + 1) as nat,
                ..base
            }));
            i = i + 1;
        }
        assert(func.locals@.take(n_locals as int) =~= func.locals@);
        assert(self@ =~= function_entry(m, *func));
        match self.gen_body(&func.code) {
            Ok(()) => {},
            Err(e) => return Err(e),
        }
        self.emit("    ret void\n}\n\n");
        Ok(())
    }
}

impl LLVMWriter {
    /// Lowers a body instruction by instruction, stopping at the first fatal condition.
    fn gen_body(&mut self, code: &Vec<Instruction>) -> (r: Result<(), GenError>)
        ensures
            run_code(old(self)@, code@) is Ok ==> r is Ok && final(self)@ == run_code(old(self)@, code@)->Ok_0,
            run_code(old(self)@, code@) is Err ==> r == Err::<(), GenError>(run_code(old(self)@, code@)->Err_0),
    {
        let ghost entry = self@;
        let n_code = code.len();
        let mut i: usize = 0;
        while i < n_code
            invariant
                n_code == code@.len(),
                i <= n_code,
                entry == old(self)@,
                run_code(entry, code@.take(i as int)) == Ok::<WriterModel, GenError>(self@),
            decreases n_code - i,
        {
            assert(code@.take(i + 1).drop_last() =~= code@.take(i as int));
            let ghost before = self@;
            let r = self.gen_instruction(&code[i]);
            if r.is_err() {
                proof {
                    assert(code@.take(i + 1).last() == code@[i as int]);
                    assert(run_code(entry, code@.take(i + 1)) == instr_step(before, code@[i as int]));
                    lemma_run_code_stops(entry, code@, i + 1);
                }
                return r;
            }
            i = i + 1;
        }
        assert(code@.take(n_code as int) =~= code@);
        Ok(())
    }
}

impl LLVMWriter {
    /// Gives up the generator and hands out the text it emitted.
    pub fn into_output(self) -> (r: String)
        ensures
            r@ == self@.out,
    {
        self.out
    }

    fn gen_type_defs(&mut self, defs: &Vec<StructType>) -> (r: Result<(), GenError>)
        ensures
            run_types(old(self)@, defs@) is Ok ==> r is Ok && final(self)@ == run_types(old(self)@, defs@)->Ok_0,
            run_types(old(self)@, defs@) is Err ==> r == Err::<(), GenError>(run_types(old(self)@, defs@)->Err_0),
    {
        let ghost entry = self@;
        let n = defs.len();
        let mut i: usize = 0;
        while i < n
            invariant
                n == defs@.len(),
                i <= n,
                entry == old(self)@,
                run_types(entry, defs@.take(i as int)) == Ok::<WriterModel, GenError>(self@),
            decreases n - i,
        {
            assert(defs@.take(i + 1).drop_last() =~= defs@.take(i as int));
            assert(defs@.take(i + 1).last() == defs@[i as int]);
            let r = self.gen_type_def(&defs[i]);
            if r.is_err() {
                proof {
                    lemma_run_types_stops(entry, defs@, i + 1);
                }
                return r;
            }
            i = i + 1;
        }
        assert(defs@.take(n as int) =~= defs@);
        Ok(())
    }

    fn gen_functions(&mut self, fs: &Vec<Function>) -> (r: Result<(), GenError>)
        ensures
            run_functions(old(self)@, fs@) is Ok ==> r is Ok && final(self)@ == run_functions(old(self)@, fs@)->Ok_0,
            run_functions(old(self)@, fs@) is Err ==> r == Err::<(), GenError>(run_functions(old(self)@, fs@)->Err_0),
    {
        let ghost entry = self@;
        let n = fs.len();
        let mut i: usize = 0;
        while i < n
            invariant
                n == fs@.len(),
                i <= n,
                entry == old(self)@,
                run_functions(entry, fs@.take(i as int)) == Ok::<WriterModel, GenError>(self@),
            decreases n - i,
        {
            assert(fs@.take(i + 1).drop_last() =~= fs@.take(i as int));
            assert(fs@.take(i + 1).last() == fs@[i as int]);
            let r = self.gen_function(&fs[i]);
            if r.is_err() {
                proof {
                    lemma_run_functions_stops(entry, fs@, i + 1);
                }
                return r;
            }
            i = i + 1;
        }
        assert(fs@.take(n as int) =~= fs@);
        Ok(())
    }

    /// Lowers a whole program: runtime declarations, struct type
    /// definitions, functions, then the pooled string constants.
    pub fn gen(&mut self, prog: &Program) -> (r: Result<(), GenError>)
        ensures
            program_step(old(self)@, *prog) is Ok ==> r is Ok && final(self)@ == program_step(
                old(self)@,
                *prog,
            )->Ok_0,
            program_step(old(self)@, *prog) is Err ==> r == Err::<(), GenError>(
                program_step(old(self)@, *prog)->Err_0,
            ),
    {
        self.emit(
            "\n; Text generated!!\n\ndeclare void @std_print(i8* nocapture) nounwind\ndeclare i8* @malloc(i64) nounwind\n\n",
        );
        match self.gen_type_defs(&prog.struct_types) {
            Ok(()) => {},
            Err(e) => return Err(e),
        }
        self.emit("\n");
        match self.gen_functions(&prog.functions) {
            Ok(()) => {},
            Err(e) => return Err(e),
        }
        let ghost base = self@;
        let n = self.string_literals.len();
        let mut i: usize = 0;
        while i < n
            invariant
                n == base.literals.len(),
                i <= n,
                self@ == (WriterModel { out: base.out + literal_lines(base.literals.take(i as int)), ..base }),
            decreases n - i,
        {
            assert(string_view(self.string_literals@[i as int]) == base.literals[i as int]);
            let literal = self.string_literals[i].clone();
            self.emit(literal.as_str());
            self.emit("\n");
            assert(base.literals.take(i + 1).drop_last() =~= base.literals.take(i as int));
            i = i + 1;
        }
        assert(base.literals.take(n as int) =~= base.literals);
        self.emit("\n");
        Ok(())
    }
}

/// The IR text of a whole program, from a fresh generator, or the fatal
/// condition that stopped code generation.
pub fn llvm_text_code(prog: &Program) -> (r: Result<String, GenError>)
    ensures
        program_step(initial_model(), *prog) is Ok ==> r is Ok && r->Ok_0@ == program_step(
            initial_model(),
            *prog,
        )->Ok_0.out,
        program_step(initial_model(), *prog) is Err ==> r == Err::<String, GenError>(
            program_step(initial_model(), *prog)->Err_0,
        ),
{
    let mut writer = LLVMWriter::new();
    match writer.gen(prog) {
        Ok(()) => Ok(writer.into_output()),
        Err(e) => Err(e),
    }
}

} // verus!
