use vstd::prelude::*;

verus! {

/// A value type of the stack bytecode.
#[derive(Debug, PartialEq, Eq)]
pub enum Typ {
    Bool,
    Int,
    Float,
    String,
    Ptr(Box<Typ>),
    /// Index into the program's struct type list.
    Struct(usize),
}

#[derive(Clone, Copy, Debug, PartialEq, Eq)]
pub enum Operator {
    Add,
    Sub,
    Mul,
    Div,
}

#[derive(Clone, Copy, Debug, PartialEq, Eq)]
pub enum Comparison {
    Lt,
    LtEqual,
    Gt,
    GtEqual,
    Equal,
    NotEqual,
}

/// One stack-machine operation.
#[derive(Debug, PartialEq, Eq)]
pub enum Instruction {
    Operator { op: Operator, typ: Typ },
    BoolLiteral(bool),
    IntLiteral(i64),
    /// A float constant, held as its decimal text.
    FloatLiteral(String),
    StringLiteral(String),
    Malloc(Typ),
    Duplicate,
    Comparison { op: Comparison, typ: Typ },
    Call { n_args: usize, typ: Option<Typ> },
    GetAttr { index: usize, typ: Typ },
    SetAttr(usize),
    LoadParameter { index: usize, typ: Typ },
    LoadGlobalName(String),
    StoreLocal { index: usize },
    LoadLocal { index: usize, typ: Typ },
    Label(usize),
    Jump(usize),
    JumpIf(usize, usize),
}

#[derive(Debug, PartialEq, Eq)]
pub struct Parameter {
    pub name: String,
    pub typ: Typ,
}

#[derive(Debug, PartialEq, Eq)]
pub struct Local {
    pub name: String,
    pub typ: Typ,
}

#[derive(Debug, PartialEq, Eq)]
pub struct Function {
    pub name: String,
    pub parameters: Vec<Parameter>,
    pub locals: Vec<Local>,
    pub code: Vec<Instruction>,
}

#[derive(Debug, PartialEq, Eq)]
pub struct StructType {
    pub fields: Vec<Typ>,
}

#[derive(Debug, PartialEq, Eq)]
pub struct Program {
    pub struct_types: Vec<StructType>,
    pub functions: Vec<Function>,
}

} // verus!
