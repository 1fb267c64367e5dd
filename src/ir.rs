use vstd::prelude::*;

verus! {

/// A type expression of the intermediate representation.
pub enum Type {
    /// A named type applied to its type arguments (none for a plain type).
    App { name: String, args: Vec<Type> },
    /// A type variable.
    Var { var: TypeVar },
    /// A function type.
    Fn { args: Vec<Type>, ret: Box<Type> },
    /// A tuple type.
    Tuple { elems: Vec<Type> },
}

/// The state of a type variable once type checking is done.
pub enum TypeVar {
    /// Resolved to another type by unification.
    Link { typ: Box<Type> },
    /// Universally quantified in the enclosing declaration.
    Generic { id: u64 },
    /// Not constrained by inference.
    Unbound { id: u64 },
}

/// A named and typed argument or field; a missing name renders as `_`.
pub struct Arg {
    pub name: Option<String>,
    pub typ: Type,
}

/// A binary operator. `Div` and `Rem` are on integers and give zero for a
/// zero divisor; the float operators are separate.
pub enum BinOp {
    Add,
    Sub,
    Mul,
    Div,
    Rem,
    AddFloat,
    SubFloat,
    MulFloat,
    DivFloat,
    Eq,
    NotEq,
    Lt,
    LtEq,
    Gt,
    GtEq,
    And,
    Or,
    /// String concatenation.
    Concat,
}

/// A pattern of a match branch or a binding.
pub enum Pattern {
    /// Matches anything and binds nothing.
    Wildcard,
    /// Matches one integer.
    Int { value: i64 },
    /// Binds the matched value to a name.
    Var { name: String },
    /// Destructures a record, field by field, in the order given.
    Struct { name: String, fields: Vec<PatternField> },
}

/// One named sub-pattern of a record pattern.
pub struct PatternField {
    pub name: String,
    pub pattern: Pattern,
}

/// One argument of a call; the label, if any, plays no part in the output,
/// since the arguments already stand in the callee's parameter order.
pub struct CallArg {
    pub label: Option<String>,
    pub value: Expression,
}

/// One field of a record construction.
pub struct ExprField {
    pub name: String,
    pub value: Expression,
}

/// One branch of a match: a pattern for each subject, and the body that runs
/// when they all match.
pub struct Branch {
    pub patterns: Vec<Pattern>,
    pub body: Expression,
}

/// How a binding treats a value that its pattern does not match.
pub enum BindingKind {
    /// The pattern always matches.
    Let,
    /// A value that does not match stops the program.
    Assert,
}

/// An expression of the intermediate representation.
pub enum Expression {
    /// An integer literal.
    Int { value: i64 },
    /// A float literal, as written in the source.
    Float { value: String },
    /// A string literal, as written in the source, escapes included.
    Str { value: String },
    /// A reference to a variable; it renders as a copy of the value.
    Var { name: String },
    /// Expressions run in order; the last one is the value.
    Sequence { exprs: Vec<Expression> },
    Call { fun: Box<Expression>, args: Vec<CallArg> },
    BinOp { op: BinOp, left: Box<Expression>, right: Box<Expression> },
    /// An anonymous function.
    Fn { args: Vec<Arg>, body: Box<Expression> },
    /// A list literal, with an optional list spread after its elements.
    List { elements: Vec<Expression>, tail: Option<Box<Expression>> },
    /// Expressions joined by the pipe operator, already in call order.
    Pipeline { exprs: Vec<Expression> },
    /// Binds the value to a pattern for the rest of the enclosing sequence.
    Let { pattern: Pattern, value: Box<Expression>, kind: BindingKind },
    /// Binds the success value of a result to a pattern and goes on with
    /// `then`; an error value is returned at once.
    Try { pattern: Pattern, value: Box<Expression>, then: Box<Expression> },
    /// Matches the subjects against the branches, in order.
    Match { subjects: Vec<Expression>, branches: Vec<Branch> },
    /// Builds a record, with its fields in the order given.
    Construct { name: String, fields: Vec<ExprField> },
    FieldAccess { record: Box<Expression>, label: String },
    /// A copy of the record `spread` with the given fields replaced.
    RecordUpdate { name: String, spread: Box<Expression>, fields: Vec<ExprField> },
    /// A name taken from another module.
    ModuleSelect { module: String, label: String },
    Tuple { elems: Vec<Expression> },
    TupleIndex { tuple: Box<Expression>, index: u64 },
    NegateBool { value: Box<Expression> },
    NegateInt { value: Box<Expression> },
    /// A placeholder that fails when it is reached.
    Todo { label: Option<String> },
    /// A binary segment literal, which has no counterpart in the target.
    BitString { segments: Vec<Expression> },
}

/// A constructor of a custom type: its name and its fields, in declared order.
pub struct Constructor {
    pub name: String,
    pub fields: Vec<Arg>,
}

/// A top-level declaration of a module.
pub enum Statement {
    /// A function, with its body.
    Fn {
        name: String,
        args: Vec<Arg>,
        body: Expression,
        public: bool,
        return_type: Type,
        doc: Option<String>,
    },
    /// A type defined by its constructors.
    CustomType {
        name: String,
        parameters: Vec<String>,
        public: bool,
        constructors: Vec<Constructor>,
        doc: Option<String>,
    },
    /// Another name for a type.
    TypeAlias {
        name: String,
        parameters: Vec<String>,
        public: bool,
        typ: Type,
        doc: Option<String>,
    },
    /// A function that another module of the target provides.
    ExternalFn {
        name: String,
        args: Vec<Arg>,
        public: bool,
        return_type: Type,
        module: String,
        fun: String,
        doc: Option<String>,
    },
    /// A type that the target provides, opaque to this module.
    ExternalType {
        name: String,
        parameters: Vec<String>,
        public: bool,
        doc: Option<String>,
    },
    /// An import of a module, given by its path segments.
    Import {
        path: Vec<String>,
        as_name: Option<String>,
    },
    /// A named constant of the module.
    ModuleConstant {
        name: String,
        public: bool,
        typ: Type,
        value: Expression,
        doc: Option<String>,
    },
}

/// A type-checked module: its declarations in source order.
pub struct Module {
    pub statements: Vec<Statement>,
}

/// Why a module could not be emitted.
pub enum EmitError {
    /// The declaration named `declaration` holds a `construct` that has no
    /// counterpart in the target.
    UnsupportedConstruct { construct: String, declaration: String },
}

} // verus!
