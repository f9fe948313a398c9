use llvm_backend::bytecode::{
    Comparison, Function, Instruction, Local, Operator, Parameter, Program, StructType, Typ,
};
use llvm_backend::model::GenError;
use llvm_backend::writer::{llvm_text_code, LLVMWriter};

fn pair(t: &str, v: &str) -> (String, String) {
    (t.to_string(), v.to_string())
}

fn function(name: &str, parameters: Vec<Parameter>, locals: Vec<Local>, code: Vec<Instruction>) -> Function {
    Function { name: name.to_string(), parameters, locals, code }
}

#[test]
fn struct_of_two_ints_allocates_sixteen_bytes() {
    let mut w = LLVMWriter::new();
    assert_eq!(w.gen_type_def(&StructType { fields: vec![Typ::Int, Typ::Int] }), Ok(()));
    assert_eq!(w.type_names(), &vec![("%DaType_0".to_string(), 16usize)]);
    assert_eq!(w.get_sizeof(&Typ::Struct(0)), 16);
    assert_eq!(w.gen_instruction(&Instruction::Malloc(Typ::Struct(0))), Ok(()));
    assert_eq!(
        w.output().as_str(),
        "%DaType_0 = type { i64, i64 }\n    %fuu_1 = call i8* @malloc(i64 16) nounwind\n    %fuu_2 = bitcast i8* %fuu_1 to %DaType_0*\n"
    );
    assert_eq!(w.stack(), &vec![pair("%DaType_0*", "%fuu_2")]);
}

#[test]
fn adding_a_parameter_to_itself() {
    let mut w = LLVMWriter::new();
    let f = function(
        "double",
        vec![Parameter { name: "x".to_string(), typ: Typ::Int }],
        vec![],
        vec![
            Instruction::LoadParameter { index: 0, typ: Typ::Int },
            Instruction::LoadParameter { index: 0, typ: Typ::Int },
            Instruction::Operator { op: Operator::Add, typ: Typ::Int },
        ],
    );
    assert_eq!(w.gen_function(&f), Ok(()));
    assert_eq!(
        w.output().as_str(),
        "define void @double(i64 %x) {\n    %fuu_0 = add i64 %x, %x\n    ret void\n}\n\n"
    );
    assert_eq!(w.stack(), &vec![pair("i64", "%fuu_0")]);
}

#[test]
fn string_literal_is_pooled_once() {
    let mut w = LLVMWriter::new();
    assert_eq!(w.gen_instruction(&Instruction::StringLiteral("a".to_string())), Ok(()));
    assert_eq!(
        w.string_literals(),
        &vec!["@baz0 = private unnamed_addr constant [2 x i8] c\"a\\00\"".to_string()]
    );
    assert_eq!(
        w.output().as_str(),
        "    %str_1 = getelementptr [2 x i8], [2 x i8]* @baz0, i64 0, i64 0\n"
    );
    assert_eq!(w.stack(), &vec![pair("i8*", "%str_1")]);
}

#[test]
fn string_literal_size_counts_utf8_bytes() {
    let mut w = LLVMWriter::new();
    assert_eq!(w.gen_string_literal("é".to_string()), Ok(()));
    assert_eq!(
        w.string_literals(),
        &vec!["@baz0 = private unnamed_addr constant [3 x i8] c\"é\\00\"".to_string()]
    );
}

#[test]
fn conditional_jump_pops_condition() {
    let mut w = LLVMWriter::new();
    assert_eq!(w.gen_instruction(&Instruction::BoolLiteral(true)), Ok(()));
    assert_eq!(w.gen_instruction(&Instruction::JumpIf(3, 4)), Ok(()));
    assert_eq!(w.output().as_str(), "    br i1 1, label %block3, label %block4\n");
    assert!(w.stack().is_empty());
}

#[test]
fn duplicate_emits_nothing() {
    let mut w = LLVMWriter::new();
    assert_eq!(w.gen_instruction(&Instruction::IntLiteral(-42)), Ok(()));
    assert_eq!(w.gen_instruction(&Instruction::Duplicate), Ok(()));
    assert_eq!(w.output().as_str(), "");
    assert_eq!(w.stack(), &vec![pair("i64", "-42"), pair("i64", "-42")]);
}

#[test]
fn underflow_is_fatal() {
    let mut w = LLVMWriter::new();
    assert_eq!(w.gen_instruction(&Instruction::IntLiteral(1)), Ok(()));
    assert_eq!(
        w.gen_instruction(&Instruction::Operator { op: Operator::Sub, typ: Typ::Int }),
        Err(GenError::StackUnderflow)
    );
    assert_eq!(w.stack(), &vec![pair("i64", "1")]);
    assert_eq!(w.gen_instruction(&Instruction::Duplicate), Ok(()));
    assert_eq!(
        w.gen_instruction(&Instruction::Call { n_args: 2, typ: None }),
        Err(GenError::StackUnderflow)
    );
    assert_eq!(w.output().as_str(), "");
}

#[test]
fn fresh_names_never_collide() {
    let mut w = LLVMWriter::new();
    let mut names = vec![];
    for hint in ["a", "a_1", "a_", "", "1", "a"] {
        names.push(w.new_local(Some(hint.to_string())));
        names.push(w.new_local(None));
        names.push(w.new_global());
    }
    assert_eq!(names[0], "%a_0");
    assert_eq!(names[1], "%fuu_1");
    assert_eq!(names[2], "@baz2");
    assert_eq!(names[3], "%a_1_3");
    for i in 0..names.len() {
        for j in 0..i {
            assert_ne!(names[i], names[j]);
        }
    }
    assert_eq!(w.new_id(), 18);
    assert_eq!(w.new_id(), 19);
}

#[test]
fn one_type_definition_per_struct() {
    let prog = Program {
        struct_types: vec![
            StructType { fields: vec![Typ::Int, Typ::Bool] },
            StructType { fields: vec![Typ::Struct(0), Typ::Ptr(Box::new(Typ::Struct(0)))] },
        ],
        functions: vec![],
    };
    let mut w = LLVMWriter::new();
    assert_eq!(w.gen(&prog), Ok(()));
    assert_eq!(
        w.type_names(),
        &vec![("%DaType_0".to_string(), 16usize), ("%DaType_1".to_string(), 24usize)]
    );
    assert_eq!(
        w.output().as_str(),
        "\n; Text generated!!\n\ndeclare void @std_print(i8* nocapture) nounwind\ndeclare i8* @malloc(i64) nounwind\n\n%DaType_0 = type { i64, i1 }\n%DaType_1 = type { %DaType_0, %DaType_0* }\n\n\n"
    );
}

#[test]
fn whole_program_text() {
    let prog = Program {
        struct_types: vec![StructType { fields: vec![Typ::String, Typ::Int] }],
        functions: vec![function(
            "main",
            vec![],
            vec![Local { name: "h".to_string(), typ: Typ::Ptr(Box::new(Typ::Struct(0))) }],
            vec![
                Instruction::Malloc(Typ::Struct(0)),
                Instruction::Duplicate,
                Instruction::StringLiteral("hi".to_string()),
                Instruction::SetAttr(0),
                Instruction::StoreLocal { index: 0 },
                Instruction::Label(1),
                Instruction::LoadGlobalName("std_print".to_string()),
                Instruction::LoadLocal { index: 0, typ: Typ::Ptr(Box::new(Typ::Struct(0))) },
                Instruction::GetAttr { index: 0, typ: Typ::String },
                Instruction::Call { n_args: 1, typ: None },
                Instruction::Jump(1),
            ],
        )],
    };
    let text = llvm_text_code(&prog).unwrap();
    let expected = "\n; Text generated!!\n\ndeclare void @std_print(i8* nocapture) nounwind\ndeclare i8* @malloc(i64) nounwind\n\n\
%DaType_0 = type { i8*, i64 }\n\n\
define void @main() {\n\
\x20   %h_1 = alloca %DaType_0*\n\
\x20   %fuu_2 = call i8* @malloc(i64 16) nounwind\n\
\x20   %fuu_3 = bitcast i8* %fuu_2 to %DaType_0*\n\
\x20   %str_5 = getelementptr [3 x i8], [3 x i8]* @baz4, i64 0, i64 0\n\
\x20   %fuu_6 = getelementptr %DaType_0, %DaType_0* %fuu_3, i32 0, i32 0\n\
\x20   store i8* %str_5, i8** %fuu_6\n\
\x20   store %DaType_0* %fuu_3, %DaType_0** %h_1\n\
\x20 block1:\n\
\x20   %fuu_7 = load %DaType_0*, %DaType_0** %h_1\n\
\x20   %fuu_8 = getelementptr %DaType_0, %DaType_0* %fuu_7, i32 0, i32 0\n\
\x20   %fuu_9 = load i8*, i8** %fuu_8\n\
\x20   call void @std_print(i8* %fuu_9)\n\
\x20   br label %block1\n\
\x20   ret void\n}\n\n\
@baz4 = private unnamed_addr constant [3 x i8] c\"hi\\00\"\n\n";
    assert_eq!(text, expected);
}

#[test]
fn call_with_result_keeps_argument_order() {
    let mut w = LLVMWriter::new();
    let code = vec![
        Instruction::LoadGlobalName("max".to_string()),
        Instruction::IntLiteral(3),
        Instruction::BoolLiteral(false),
        Instruction::FloatLiteral("2.5".to_string()),
        Instruction::Call { n_args: 3, typ: Some(Typ::Float) },
    ];
    for ins in &code {
        assert_eq!(w.gen_instruction(ins), Ok(()));
    }
    assert_eq!(w.output().as_str(), "    %fuu_0 = call f64 @max(i64 3, i1 0, f64 2.5)\n");
    assert_eq!(w.stack(), &vec![pair("f64", "%fuu_0")]);
}

#[test]
fn comparisons_are_signed() {
    let mut w = LLVMWriter::new();
    assert_eq!(w.gen_instruction(&Instruction::IntLiteral(1)), Ok(()));
    assert_eq!(w.gen_instruction(&Instruction::IntLiteral(2)), Ok(()));
    assert_eq!(
        w.gen_instruction(&Instruction::Comparison { op: Comparison::LtEqual, typ: Typ::Int }),
        Ok(())
    );
    assert_eq!(w.output().as_str(), "    %fuu_0 = icmp sle i64 1, 2\n");
    assert_eq!(w.stack(), &vec![pair("i1", "%fuu_0")]);
}

#[test]
fn division_is_signed_and_literals_print_in_decimal() {
    let mut w = LLVMWriter::new();
    assert_eq!(w.gen_instruction(&Instruction::IntLiteral(i64::MIN)), Ok(()));
    assert_eq!(w.gen_instruction(&Instruction::IntLiteral(1234567890)), Ok(()));
    assert_eq!(w.gen_instruction(&Instruction::Operator { op: Operator::Div, typ: Typ::Int }), Ok(()));
    assert_eq!(
        w.output().as_str(),
        "    %fuu_0 = sdiv i64 -9223372036854775808, 1234567890\n"
    );
}

#[test]
fn not_equal_is_not_implemented() {
    let mut w = LLVMWriter::new();
    assert_eq!(w.gen_instruction(&Instruction::IntLiteral(1)), Ok(()));
    assert_eq!(w.gen_instruction(&Instruction::IntLiteral(2)), Ok(()));
    assert_eq!(
        w.gen_instruction(&Instruction::Comparison { op: Comparison::NotEqual, typ: Typ::Int }),
        Err(GenError::NotImplemented)
    );
}

#[test]
fn unknown_struct_is_fatal() {
    let mut w = LLVMWriter::new();
    assert_eq!(w.gen_instruction(&Instruction::Malloc(Typ::Struct(0))), Err(GenError::UnknownStruct));
    assert_eq!(
        w.gen_type_def(&StructType { fields: vec![Typ::Ptr(Box::new(Typ::Struct(0)))] }),
        Err(GenError::UnknownStruct)
    );
    assert!(!w.typ_known(&Typ::Ptr(Box::new(Typ::Struct(0)))));
    let prog = Program { struct_types: vec![StructType { fields: vec![Typ::Struct(1)] }], functions: vec![] };
    assert_eq!(llvm_text_code(&prog), Err(GenError::UnknownStruct));
}

#[test]
fn bad_index_is_fatal() {
    let mut w = LLVMWriter::new();
    assert_eq!(
        w.gen_instruction(&Instruction::LoadParameter { index: 0, typ: Typ::Int }),
        Err(GenError::BadIndex)
    );
    assert_eq!(
        w.gen_instruction(&Instruction::LoadLocal { index: 2, typ: Typ::Int }),
        Err(GenError::BadIndex)
    );
}

#[test]
fn struct_size_overflow_is_fatal() {
    let mut w = LLVMWriter::new();
    assert_eq!(w.gen_type_def(&StructType { fields: vec![Typ::Int] }), Ok(()));
    let mut k = 0;
    loop {
        let r = w.gen_type_def(&StructType { fields: vec![Typ::Struct(k), Typ::Struct(k)] });
        if r.is_err() {
            assert_eq!(r, Err(GenError::Overflow));
            break;
        }
        k += 1;
    }
    assert_eq!(w.type_names().last().unwrap().1, 1usize << (usize::BITS - 1));
}

#[test]
fn llvm_types_of_pointers() {
    let w = LLVMWriter::new();
    let t = Typ::Ptr(Box::new(Typ::Ptr(Box::new(Typ::Int))));
    assert_eq!(w.get_llvm_typ(&t), "i64**");
    assert_eq!(w.get_llvm_typ(&Typ::Float), "f64");
    assert_eq!(w.get_llvm_typ(&Typ::String), "i8*");
    assert_eq!(w.get_sizeof(&Typ::Bool), 8);
    assert_eq!(w.get_sizeof(&t), 8);
}

#[test]
fn stack_pops_in_reverse() {
    let mut w = LLVMWriter::new();
    w.push("i64".to_string(), "%a".to_string());
    w.push("i1".to_string(), "%b".to_string());
    w.push("".to_string(), "@c".to_string());
    assert_eq!(w.pop_untyped(), "@c");
    assert_eq!(w.pop_typed(), "i1 %b");
    assert_eq!(w.pop(), pair("i64", "%a"));
    assert!(w.stack().is_empty());
}

#[test]
fn balanced_body_leaves_empty_stack() {
    let mut w = LLVMWriter::new();
    w.push("i64".to_string(), "%stale".to_string());
    let f = function(
        "f",
        vec![Parameter { name: "a".to_string(), typ: Typ::Bool }, Parameter { name: "b".to_string(), typ: Typ::Int }],
        vec![Local { name: "t".to_string(), typ: Typ::Int }],
        vec![
            Instruction::LoadParameter { index: 1, typ: Typ::Int },
            Instruction::StoreLocal { index: 0 },
            Instruction::LoadParameter { index: 0, typ: Typ::Bool },
            Instruction::JumpIf(1, 2),
        ],
    );
    assert_eq!(w.gen_function(&f), Ok(()));
    assert!(w.stack().is_empty());
    assert_eq!(
        w.output().as_str(),
        "define void @f(i1 %a, i64 %b) {\n    %t_0 = alloca i64\n    store i64 %b, i64* %t_0\n    br i1 %a, label %block1, label %block2\n    ret void\n}\n\n"
    );
}
