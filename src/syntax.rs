//! The raw, core and value trees, with the names and variables they share.
//!
//! Bound variables are De Bruijn indices; free variables carry a `Name`
//! (the locally-nameless representation). A binder stores a name hint, its
//! annotation and its body, whose index 0 refers to that binder.
use std::rc::Rc;
use vstd::prelude::*;

verus! {

/// codespan's `Span`: a region of a source file. Spans are only carried
/// through (into terms and errors) and copied; nothing here looks inside one.
#[verifier::external_type_specification]
#[verifier::external_body]
#[verifier::reject_recursive_types(I)]
pub struct ExSpan<I>(codespan::Span<I>);

/// codespan's `ByteIndex`, the index type of `ByteSpan`.
#[verifier::external_type_specification]
#[verifier::external_body]
pub struct ExByteIndex(codespan::ByteIndex);

/// A user-chosen identifier, a generated identifier, or an anonymous placeholder.
pub enum Name {
    User(String),
    Gen(u64),
    Abstract,
}

/// Two names denote the same variable.
pub open spec fn same_name(a: Name, b: Name) -> bool {
    match (a, b) {
        (Name::User(s), Name::User(t)) => s@ == t@,
        (Name::Gen(i), Name::Gen(j)) => i == j,
        (Name::Abstract, Name::Abstract) => true,
        _ => false,
    }
}

/// The generated identifier a name carries, or 0.
pub open spec fn name_gen(n: Name) -> u64 {
    match n {
        Name::Gen(i) => i,
        _ => 0,
    }
}

impl Name {
    pub fn copy(&self) -> (r: Name)
        ensures
            r == *self,
    {
        match self {
            Name::User(s) => Name::User(s.clone()),
            Name::Gen(i) => Name::Gen(*i),
            Name::Abstract => Name::Abstract,
        }
    }

    pub fn same(&self, other: &Name) -> (r: bool)
        ensures
            r == same_name(*self, *other),
    {
        match (self, other) {
            (Name::User(s), Name::User(t)) => s.eq(t),
            (Name::Gen(i), Name::Gen(j)) => *i == *j,
            (Name::Abstract, Name::Abstract) => true,
            _ => false,
        }
    }

    pub fn gen_id(&self) -> (r: u64)
        ensures
            r == name_gen(*self),
    {
        match self {
            Name::Gen(i) => *i,
            _ => 0,
        }
    }
}

/// A variable occurrence: free, or bound by the binder `index` binders out.
pub enum Var {
    Free(Name),
    Bound(Name, u64),
}

impl Var {
    pub fn copy(&self) -> (r: Var)
        ensures
            r == *self,
    {
        match self {
            Var::Free(n) => Var::Free(n.copy()),
            Var::Bound(n, i) => Var::Bound(n.copy(), *i),
        }
    }
}

/// A universe level.
#[derive(Clone, Copy, PartialEq, Eq, Structural)]
pub struct Level(pub u64);

/// The next level up; the top level is its own successor.
pub open spec fn level_succ(l: Level) -> Level {
    Level(if l.0 < u64::MAX { (l.0 + 1) as u64 } else { l.0 })
}

pub open spec fn level_max(a: Level, b: Level) -> Level {
    Level(if a.0 >= b.0 { a.0 } else { b.0 })
}

impl Level {
    pub fn succ(self) -> (r: Level)
        ensures
            r == level_succ(self),
    {
        Level(self.0.saturating_add(1))
    }

    pub fn max(self, other: Level) -> (r: Level)
        ensures
            r == level_max(self, other),
    {
        Level(if self.0 >= other.0 { self.0 } else { other.0 })
    }
}

/// Where a node stands in the source.
#[derive(Clone, Copy)]
pub struct SourceMeta {
    pub span: codespan::ByteSpan,
}

/// A literal or primitive type before elaboration. A float literal is held
/// as the bit pattern of its `f64`.
pub enum RawConstant {
    String(String),
    Char(char),
    Int(u64),
    Float(u64),
    StringType,
    CharType,
    U8Type,
    U16Type,
    U32Type,
    U64Type,
    I8Type,
    I16Type,
    I32Type,
    I64Type,
    F32Type,
    F64Type,
}

/// The literal a float constant was elaborated from: the constant is that
/// literal converted to the constant's width.
pub enum FloatLiteral {
    Int(u64),
    Float(u64),
}

/// A literal of a fixed numeric kind, or a primitive type.
pub enum Constant {
    String(String),
    Char(char),
    U8(u8),
    U16(u16),
    U32(u32),
    U64(u64),
    I8(i8),
    I16(i16),
    I32(i32),
    I64(i64),
    F32(FloatLiteral),
    F64(FloatLiteral),
    StringType,
    CharType,
    U8Type,
    U16Type,
    U32Type,
    U64Type,
    I8Type,
    I16Type,
    I32Type,
    I64Type,
    F32Type,
    F64Type,
}

impl FloatLiteral {
    pub fn copy(&self) -> (r: FloatLiteral)
        ensures
            r == *self,
    {
        match self {
            FloatLiteral::Int(v) => FloatLiteral::Int(*v),
            FloatLiteral::Float(v) => FloatLiteral::Float(*v),
        }
    }
}

impl Constant {
    pub fn copy(&self) -> (r: Constant)
        ensures
            r == *self,
    {
        match self {
            Constant::String(s) => Constant::String(s.clone()),
            Constant::Char(c) => Constant::Char(*c),
            Constant::U8(v) => Constant::U8(*v),
            Constant::U16(v) => Constant::U16(*v),
            Constant::U32(v) => Constant::U32(*v),
            Constant::U64(v) => Constant::U64(*v),
            Constant::I8(v) => Constant::I8(*v),
            Constant::I16(v) => Constant::I16(*v),
            Constant::I32(v) => Constant::I32(*v),
            Constant::I64(v) => Constant::I64(*v),
            Constant::F32(v) => Constant::F32(v.copy()),
            Constant::F64(v) => Constant::F64(v.copy()),
            Constant::StringType => Constant::StringType,
            Constant::CharType => Constant::CharType,
            Constant::U8Type => Constant::U8Type,
            Constant::U16Type => Constant::U16Type,
            Constant::U32Type => Constant::U32Type,
            Constant::U64Type => Constant::U64Type,
            Constant::I8Type => Constant::I8Type,
            Constant::I16Type => Constant::I16Type,
            Constant::I32Type => Constant::I32Type,
            Constant::I64Type => Constant::I64Type,
            Constant::F32Type => Constant::F32Type,
            Constant::F64Type => Constant::F64Type,
        }
    }
}

/// A term as desugaring delivers it: it may hold holes and untyped literals.
pub enum RawTerm {
    Ann(SourceMeta, Rc<RawTerm>, Rc<RawTerm>),
    Universe(SourceMeta, Level),
    Hole(SourceMeta),
    Constant(SourceMeta, RawConstant),
    Var(SourceMeta, Var),
    Pi(SourceMeta, Name, Rc<RawTerm>, Rc<RawTerm>),
    Lam(SourceMeta, Name, Rc<RawTerm>, Rc<RawTerm>),
    App(SourceMeta, Rc<RawTerm>, Rc<RawTerm>),
}

/// An elaborated term: every binder is annotated, every literal has a kind.
pub enum Term {
    Ann(SourceMeta, Rc<Term>, Rc<Term>),
    Universe(SourceMeta, Level),
    Constant(SourceMeta, Constant),
    Var(SourceMeta, Var),
    Pi(SourceMeta, Name, Rc<Term>, Rc<Term>),
    Lam(SourceMeta, Name, Rc<Term>, Rc<Term>),
    App(SourceMeta, Rc<Term>, Rc<Term>),
}

/// A normal form.
pub enum Value {
    Universe(Level),
    Constant(Constant),
    Pi(Name, Rc<Value>, Rc<Value>),
    Lam(Name, Rc<Value>, Rc<Value>),
    Neutral(Rc<Neutral>),
}

/// A computation stuck on a variable.
pub enum Neutral {
    Var(Var),
    App(Rc<Neutral>, Rc<Term>),
}

/// Types are values.
pub type Type = Value;

pub open spec fn raw_span(t: RawTerm) -> codespan::ByteSpan {
    match t {
        RawTerm::Ann(m, ..) => m.span,
        RawTerm::Universe(m, ..) => m.span,
        RawTerm::Hole(m) => m.span,
        RawTerm::Constant(m, ..) => m.span,
        RawTerm::Var(m, ..) => m.span,
        RawTerm::Pi(m, ..) => m.span,
        RawTerm::Lam(m, ..) => m.span,
        RawTerm::App(m, ..) => m.span,
    }
}

pub open spec fn term_span(t: Term) -> codespan::ByteSpan {
    match t {
        Term::Ann(m, ..) => m.span,
        Term::Universe(m, ..) => m.span,
        Term::Constant(m, ..) => m.span,
        Term::Var(m, ..) => m.span,
        Term::Pi(m, ..) => m.span,
        Term::Lam(m, ..) => m.span,
        Term::App(m, ..) => m.span,
    }
}

impl RawTerm {
    pub fn span(&self) -> (r: codespan::ByteSpan)
        ensures
            r == raw_span(*self),
    {
        match self {
            RawTerm::Ann(m, ..) => m.span,
            RawTerm::Universe(m, ..) => m.span,
            RawTerm::Hole(m) => m.span,
            RawTerm::Constant(m, ..) => m.span,
            RawTerm::Var(m, ..) => m.span,
            RawTerm::Pi(m, ..) => m.span,
            RawTerm::Lam(m, ..) => m.span,
            RawTerm::App(m, ..) => m.span,
        }
    }
}

impl Term {
    pub fn span(&self) -> (r: codespan::ByteSpan)
        ensures
            r == term_span(*self),
    {
        match self {
            Term::Ann(m, ..) => m.span,
            Term::Universe(m, ..) => m.span,
            Term::Constant(m, ..) => m.span,
            Term::Var(m, ..) => m.span,
            Term::Pi(m, ..) => m.span,
            Term::Lam(m, ..) => m.span,
            Term::App(m, ..) => m.span,
        }
    }
}

/// The tree behind a shared handle.
pub open spec fn term_at(r: Rc<Term>) -> Term {
    *r
}

pub open spec fn value_at(r: Rc<Value>) -> Value {
    *r
}

pub open spec fn neutral_at(r: Rc<Neutral>) -> Neutral {
    *r
}

/// The number of nodes of a raw term.
pub open spec fn raw_size(t: RawTerm) -> nat
    decreases t,
{
    match t {
        RawTerm::Ann(_, e, ty) => 1 + raw_size(*e) + raw_size(*ty),
        RawTerm::Pi(_, _, a, b) => 1 + raw_size(*a) + raw_size(*b),
        RawTerm::Lam(_, _, a, b) => 1 + raw_size(*a) + raw_size(*b),
        RawTerm::App(_, f, x) => 1 + raw_size(*f) + raw_size(*x),
        _ => 1,
    }
}

} // verus!
