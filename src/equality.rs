//! α-equivalence. Bound variables are indices, so two trees are α-equivalent
//! exactly when they agree node by node, ignoring name hints and positions.
use crate::binder::{
    inc, neutral_close, neutral_gen, neutral_open, neutral_to_term, raw_at, raw_gen, raw_open,
    term_close, term_gen, term_open, value_close, value_gen, value_open, value_to_term,
};
use crate::context::{ctx_gen, lookup, Binder, Context};
use crate::syntax::{
    neutral_at, same_name, term_at, value_at, Constant, FloatLiteral, Name, Neutral, RawConstant,
    RawTerm, SourceMeta, Term, Value, Var,
};
use std::rc::Rc;
use vstd::prelude::*;

verus! {

pub open spec fn constant_eq(a: Constant, b: Constant) -> bool {
    match (a, b) {
        (Constant::String(s), Constant::String(t)) => s@ == t@,
        _ => a == b,
    }
}

pub open spec fn var_alpha_eq(a: Var, b: Var) -> bool {
    match (a, b) {
        (Var::Free(x), Var::Free(y)) => same_name(x, y),
        (Var::Bound(_, i), Var::Bound(_, j)) => i == j,
        _ => false,
    }
}

pub open spec fn term_alpha_eq(a: Term, b: Term) -> bool
    decreases a,
{
    match (a, b) {
        (Term::Ann(_, e1, t1), Term::Ann(_, e2, t2)) => term_alpha_eq(*e1, *e2) && term_alpha_eq(
            *t1,
            *t2,
        ),
        (Term::Universe(_, l1), Term::Universe(_, l2)) => l1 == l2,
        (Term::Constant(_, c1), Term::Constant(_, c2)) => constant_eq(c1, c2),
        (Term::Var(_, v1), Term::Var(_, v2)) => var_alpha_eq(v1, v2),
        (Term::Pi(_, _, a1, b1), Term::Pi(_, _, a2, b2)) => term_alpha_eq(*a1, *a2)
            && term_alpha_eq(*b1, *b2),
        (Term::Lam(_, _, a1, b1), Term::Lam(_, _, a2, b2)) => term_alpha_eq(*a1, *a2)
            && term_alpha_eq(*b1, *b2),
        (Term::App(_, f1, x1), Term::App(_, f2, x2)) => term_alpha_eq(*f1, *f2) && term_alpha_eq(
            *x1,
            *x2,
        ),
        _ => false,
    }
}

pub open spec fn value_alpha_eq(a: Value, b: Value) -> bool
    decreases a,
{
    match (a, b) {
        (Value::Universe(l1), Value::Universe(l2)) => l1 == l2,
        (Value::Constant(c1), Value::Constant(c2)) => constant_eq(c1, c2),
        (Value::Pi(_, a1, b1), Value::Pi(_, a2, b2)) => value_alpha_eq(*a1, *a2) && value_alpha_eq(
            *b1,
            *b2,
        ),
        (Value::Lam(_, a1, b1), Value::Lam(_, a2, b2)) => value_alpha_eq(*a1, *a2)
            && value_alpha_eq(*b1, *b2),
        (Value::Neutral(n1), Value::Neutral(n2)) => neutral_alpha_eq(*n1, *n2),
        _ => false,
    }
}

pub open spec fn neutral_alpha_eq(a: Neutral, b: Neutral) -> bool
    decreases a,
{
    match (a, b) {
        (Neutral::Var(v1), Neutral::Var(v2)) => var_alpha_eq(v1, v2),
        (Neutral::App(f1, x1), Neutral::App(f2, x2)) => neutral_alpha_eq(*f1, *f2)
            && term_alpha_eq(*x1, *x2),
        _ => false,
    }
}

pub fn constants_equal(a: &Constant, b: &Constant) -> (r: bool)
    ensures
        r == constant_eq(*a, *b),
{
    match (a, b) {
        (Constant::String(s), Constant::String(t)) => s.eq(t),
        (Constant::Char(x), Constant::Char(y)) => *x == *y,
        (Constant::U8(x), Constant::U8(y)) => *x == *y,
        (Constant::U16(x), Constant::U16(y)) => *x == *y,
        (Constant::U32(x), Constant::U32(y)) => *x == *y,
        (Constant::U64(x), Constant::U64(y)) => *x == *y,
        (Constant::I8(x), Constant::I8(y)) => *x == *y,
        (Constant::I16(x), Constant::I16(y)) => *x == *y,
        (Constant::I32(x), Constant::I32(y)) => *x == *y,
        (Constant::I64(x), Constant::I64(y)) => *x == *y,
        (Constant::F32(x), Constant::F32(y)) => float_literals_equal(x, y),
        (Constant::F64(x), Constant::F64(y)) => float_literals_equal(x, y),
        (Constant::StringType, Constant::StringType) => true,
        (Constant::CharType, Constant::CharType) => true,
        (Constant::U8Type, Constant::U8Type) => true,
        (Constant::U16Type, Constant::U16Type) => true,
        (Constant::U32Type, Constant::U32Type) => true,
        (Constant::U64Type, Constant::U64Type) => true,
        (Constant::I8Type, Constant::I8Type) => true,
        (Constant::I16Type, Constant::I16Type) => true,
        (Constant::I32Type, Constant::I32Type) => true,
        (Constant::I64Type, Constant::I64Type) => true,
        (Constant::F32Type, Constant::F32Type) => true,
        (Constant::F64Type, Constant::F64Type) => true,
        _ => false,
    }
}

fn float_literals_equal(a: &FloatLiteral, b: &FloatLiteral) -> (r: bool)
    ensures
        r == (*a == *b),
{
    match (a, b) {
        (FloatLiteral::Int(x), FloatLiteral::Int(y)) => *x == *y,
        (FloatLiteral::Float(x), FloatLiteral::Float(y)) => *x == *y,
        _ => false,
    }
}

fn vars_alpha_equal(a: &Var, b: &Var) -> (r: bool)
    ensures
        r == var_alpha_eq(*a, *b),
{
    match (a, b) {
        (Var::Free(x), Var::Free(y)) => x.same(y),
        (Var::Bound(_, i), Var::Bound(_, j)) => *i == *j,
        _ => false,
    }
}

impl Term {
    /// Whether two terms are α-equivalent.
    pub fn alpha_eq(&self, other: &Term) -> (r: bool)
        ensures
            r == term_alpha_eq(*self, *other),
        decreases self,
    {
        match (self, other) {
            (Term::Ann(_, e1, t1), Term::Ann(_, e2, t2)) => e1.alpha_eq(e2) && t1.alpha_eq(t2),
            (Term::Universe(_, l1), Term::Universe(_, l2)) => l1.0 == l2.0,
            (Term::Constant(_, c1), Term::Constant(_, c2)) => constants_equal(c1, c2),
            (Term::Var(_, v1), Term::Var(_, v2)) => vars_alpha_equal(v1, v2),
            (Term::Pi(_, _, a1, b1), Term::Pi(_, _, a2, b2)) => a1.alpha_eq(a2) && b1.alpha_eq(b2),
            (Term::Lam(_, _, a1, b1), Term::Lam(_, _, a2, b2)) => a1.alpha_eq(a2) && b1.alpha_eq(
                b2,
            ),
            (Term::App(_, f1, x1), Term::App(_, f2, x2)) => f1.alpha_eq(f2) && x1.alpha_eq(x2),
            _ => false,
        }
    }
}

impl Value {
    /// Whether two values are α-equivalent.
    pub fn alpha_eq(&self, other: &Value) -> (r: bool)
        ensures
            r == value_alpha_eq(*self, *other),
        decreases self,
    {
        match (self, other) {
            (Value::Universe(l1), Value::Universe(l2)) => l1.0 == l2.0,
            (Value::Constant(c1), Value::Constant(c2)) => constants_equal(c1, c2),
            (Value::Pi(_, a1, b1), Value::Pi(_, a2, b2)) => a1.alpha_eq(a2) && b1.alpha_eq(b2),
            (Value::Lam(_, a1, b1), Value::Lam(_, a2, b2)) => a1.alpha_eq(a2) && b1.alpha_eq(b2),
            (Value::Neutral(n1), Value::Neutral(n2)) => n1.alpha_eq(n2),
            _ => false,
        }
    }
}

impl Neutral {
    /// Whether two neutral forms are α-equivalent.
    pub fn alpha_eq(&self, other: &Neutral) -> (r: bool)
        ensures
            r == neutral_alpha_eq(*self, *other),
        decreases self,
    {
        match (self, other) {
            (Neutral::Var(v1), Neutral::Var(v2)) => vars_alpha_equal(v1, v2),
            (Neutral::App(f1, x1), Neutral::App(f2, x2)) => f1.alpha_eq(f2) && x1.alpha_eq(x2),
            _ => false,
        }
    }
}

/// Two binders of the same kind with α-equivalent contents.
pub open spec fn binder_alpha_eq(a: Binder, b: Binder) -> bool {
    match (a, b) {
        (Binder::Lam { ann: a1 }, Binder::Lam { ann: a2 }) => value_alpha_eq(*a1, *a2),
        (Binder::Pi { ann: a1 }, Binder::Pi { ann: a2 }) => value_alpha_eq(*a1, *a2),
        (Binder::Let { ann: a1, value: v1 }, Binder::Let { ann: a2, value: v2 }) => value_alpha_eq(
            *a1,
            *a2,
        ) && term_alpha_eq(*v1, *v2),
        _ => false,
    }
}

/// Two contexts binding the same names, in the same order, with α-equivalent binders.
pub open spec fn ctx_alpha_eq(a: Context, b: Context) -> bool
    decreases a,
{
    match (a, b) {
        (Context::Empty, Context::Empty) => true,
        (Context::Extend(r1, y1, b1), Context::Extend(r2, y2, b2)) => same_name(y1, y2)
            && binder_alpha_eq(b1, b2) && ctx_alpha_eq(*r1, *r2),
        _ => false,
    }
}

pub proof fn lemma_term_alpha_refl(t: Term)
    ensures
        term_alpha_eq(t, t),
    decreases t,
{
    match t {
        Term::Ann(_, e, ty) => {
            lemma_term_alpha_refl(term_at(e));
            lemma_term_alpha_refl(term_at(ty));
        },
        Term::Pi(_, _, a, b) => {
            lemma_term_alpha_refl(term_at(a));
            lemma_term_alpha_refl(term_at(b));
        },
        Term::Lam(_, _, a, b) => {
            lemma_term_alpha_refl(term_at(a));
            lemma_term_alpha_refl(term_at(b));
        },
        Term::App(_, f, a) => {
            lemma_term_alpha_refl(term_at(f));
            lemma_term_alpha_refl(term_at(a));
        },
        _ => {},
    }
}

pub proof fn lemma_value_alpha_refl(v: Value)
    ensures
        value_alpha_eq(v, v),
    decreases v,
{
    match v {
        Value::Pi(_, a, b) => {
            lemma_value_alpha_refl(value_at(a));
            lemma_value_alpha_refl(value_at(b));
        },
        Value::Lam(_, a, b) => {
            lemma_value_alpha_refl(value_at(a));
            lemma_value_alpha_refl(value_at(b));
        },
        Value::Neutral(n) => lemma_neutral_alpha_refl(neutral_at(n)),
        _ => {},
    }
}

pub proof fn lemma_neutral_alpha_refl(n: Neutral)
    ensures
        neutral_alpha_eq(n, n),
    decreases n,
{
    match n {
        Neutral::App(f, a) => {
            lemma_neutral_alpha_refl(neutral_at(f));
            lemma_term_alpha_refl(term_at(a));
        },
        _ => {},
    }
}

pub proof fn lemma_ctx_alpha_refl(c: Context)
    ensures
        ctx_alpha_eq(c, c),
    decreases c,
{
    match c {
        Context::Extend(r, _, b) => {
            lemma_ctx_alpha_refl(context_at(r));
            match b {
                Binder::Lam { ann } => lemma_value_alpha_refl(value_at(ann)),
                Binder::Pi { ann } => lemma_value_alpha_refl(value_at(ann)),
                Binder::Let { ann, value } => {
                    lemma_value_alpha_refl(value_at(ann));
                    lemma_term_alpha_refl(term_at(value));
                },
            }
        },
        _ => {},
    }
}

pub open spec fn context_at(r: Rc<Context>) -> Context {
    *r
}

// α-equivalent trees have the same free variables, so the same largest
// generated identifier among them.
pub proof fn lemma_term_gen_alpha(a: Term, b: Term)
    requires
        term_alpha_eq(a, b),
    ensures
        term_gen(a) == term_gen(b),
    decreases a,
{
    match (a, b) {
        (Term::Ann(_, e1, t1), Term::Ann(_, e2, t2)) => {
            lemma_term_gen_alpha(term_at(e1), term_at(e2));
            lemma_term_gen_alpha(term_at(t1), term_at(t2));
        },
        (Term::Pi(_, _, a1, b1), Term::Pi(_, _, a2, b2)) => {
            lemma_term_gen_alpha(term_at(a1), term_at(a2));
            lemma_term_gen_alpha(term_at(b1), term_at(b2));
        },
        (Term::Lam(_, _, a1, b1), Term::Lam(_, _, a2, b2)) => {
            lemma_term_gen_alpha(term_at(a1), term_at(a2));
            lemma_term_gen_alpha(term_at(b1), term_at(b2));
        },
        (Term::App(_, f1, x1), Term::App(_, f2, x2)) => {
            lemma_term_gen_alpha(term_at(f1), term_at(f2));
            lemma_term_gen_alpha(term_at(x1), term_at(x2));
        },
        _ => {},
    }
}

pub proof fn lemma_value_gen_alpha(a: Value, b: Value)
    requires
        value_alpha_eq(a, b),
    ensures
        value_gen(a) == value_gen(b),
    decreases a,
{
    match (a, b) {
        (Value::Pi(_, a1, b1), Value::Pi(_, a2, b2)) => {
            lemma_value_gen_alpha(value_at(a1), value_at(a2));
            lemma_value_gen_alpha(value_at(b1), value_at(b2));
        },
        (Value::Lam(_, a1, b1), Value::Lam(_, a2, b2)) => {
            lemma_value_gen_alpha(value_at(a1), value_at(a2));
            lemma_value_gen_alpha(value_at(b1), value_at(b2));
        },
        (Value::Neutral(n1), Value::Neutral(n2)) => {
            lemma_neutral_gen_alpha(neutral_at(n1), neutral_at(n2));
        },
        _ => {},
    }
}

pub proof fn lemma_neutral_gen_alpha(a: Neutral, b: Neutral)
    requires
        neutral_alpha_eq(a, b),
    ensures
        neutral_gen(a) == neutral_gen(b),
    decreases a,
{
    match (a, b) {
        (Neutral::App(f1, x1), Neutral::App(f2, x2)) => {
            lemma_neutral_gen_alpha(neutral_at(f1), neutral_at(f2));
            lemma_term_gen_alpha(term_at(x1), term_at(x2));
        },
        _ => {},
    }
}

pub proof fn lemma_ctx_gen_alpha(a: Context, b: Context)
    requires
        ctx_alpha_eq(a, b),
    ensures
        ctx_gen(a) == ctx_gen(b),
    decreases a,
{
    match (a, b) {
        (Context::Extend(r1, _, b1), Context::Extend(r2, _, b2)) => {
            lemma_ctx_gen_alpha(context_at(r1), context_at(r2));
            match (b1, b2) {
                (Binder::Lam { ann: a1 }, Binder::Lam { ann: a2 }) => lemma_value_gen_alpha(
                    value_at(a1),
                    value_at(a2),
                ),
                (Binder::Pi { ann: a1 }, Binder::Pi { ann: a2 }) => lemma_value_gen_alpha(
                    value_at(a1),
                    value_at(a2),
                ),
                (Binder::Let { ann: a1, value: v1 }, Binder::Let { ann: a2, value: v2 }) => {
                    lemma_value_gen_alpha(value_at(a1), value_at(a2));
                    lemma_term_gen_alpha(term_at(v1), term_at(v2));
                },
                _ => {},
            }
        },
        _ => {},
    }
}

/// Looking up names that denote the same variable in α-equivalent contexts
/// finds α-equivalent binders, or nothing in both.
pub proof fn lemma_lookup_alpha(a: Context, b: Context, x: Name, y: Name)
    requires
        ctx_alpha_eq(a, b),
        same_name(x, y),
    ensures
        match (lookup(a, x), lookup(b, y)) {
            (None, None) => true,
            (Some(b1), Some(b2)) => binder_alpha_eq(b1, b2),
            _ => false,
        },
    decreases a,
{
    match (a, b) {
        (Context::Extend(r1, _, _), Context::Extend(r2, _, _)) => {
            lemma_lookup_alpha(context_at(r1), context_at(r2), x, y);
        },
        _ => {},
    }
}

pub proof fn lemma_term_open_alpha(a: Term, b: Term, k: u64, x: Name)
    requires
        term_alpha_eq(a, b),
    ensures
        term_alpha_eq(term_open(a, k, x), term_open(b, k, x)),
    decreases a,
{
    match (a, b) {
        (Term::Ann(_, e1, t1), Term::Ann(_, e2, t2)) => {
            lemma_term_open_alpha(term_at(e1), term_at(e2), k, x);
            lemma_term_open_alpha(term_at(t1), term_at(t2), k, x);
        },
        (Term::Pi(_, _, a1, b1), Term::Pi(_, _, a2, b2)) => {
            lemma_term_open_alpha(term_at(a1), term_at(a2), k, x);
            lemma_term_open_alpha(term_at(b1), term_at(b2), inc(k), x);
        },
        (Term::Lam(_, _, a1, b1), Term::Lam(_, _, a2, b2)) => {
            lemma_term_open_alpha(term_at(a1), term_at(a2), k, x);
            lemma_term_open_alpha(term_at(b1), term_at(b2), inc(k), x);
        },
        (Term::App(_, f1, x1), Term::App(_, f2, x2)) => {
            lemma_term_open_alpha(term_at(f1), term_at(f2), k, x);
            lemma_term_open_alpha(term_at(x1), term_at(x2), k, x);
        },
        _ => {},
    }
}

pub proof fn lemma_term_close_alpha(a: Term, b: Term, k: u64, x: Name, h1: Name, h2: Name)
    requires
        term_alpha_eq(a, b),
    ensures
        term_alpha_eq(term_close(a, k, x, h1), term_close(b, k, x, h2)),
    decreases a,
{
    match (a, b) {
        (Term::Ann(_, e1, t1), Term::Ann(_, e2, t2)) => {
            lemma_term_close_alpha(term_at(e1), term_at(e2), k, x, h1, h2);
            lemma_term_close_alpha(term_at(t1), term_at(t2), k, x, h1, h2);
        },
        (Term::Pi(_, _, a1, b1), Term::Pi(_, _, a2, b2)) => {
            lemma_term_close_alpha(term_at(a1), term_at(a2), k, x, h1, h2);
            lemma_term_close_alpha(term_at(b1), term_at(b2), inc(k), x, h1, h2);
        },
        (Term::Lam(_, _, a1, b1), Term::Lam(_, _, a2, b2)) => {
            lemma_term_close_alpha(term_at(a1), term_at(a2), k, x, h1, h2);
            lemma_term_close_alpha(term_at(b1), term_at(b2), inc(k), x, h1, h2);
        },
        (Term::App(_, f1, x1), Term::App(_, f2, x2)) => {
            lemma_term_close_alpha(term_at(f1), term_at(f2), k, x, h1, h2);
            lemma_term_close_alpha(term_at(x1), term_at(x2), k, x, h1, h2);
        },
        _ => {},
    }
}

pub proof fn lemma_value_close_alpha(a: Value, b: Value, k: u64, x: Name, h1: Name, h2: Name)
    requires
        value_alpha_eq(a, b),
    ensures
        value_alpha_eq(value_close(a, k, x, h1), value_close(b, k, x, h2)),
    decreases a,
{
    match (a, b) {
        (Value::Pi(_, a1, b1), Value::Pi(_, a2, b2)) => {
            lemma_value_close_alpha(value_at(a1), value_at(a2), k, x, h1, h2);
            lemma_value_close_alpha(value_at(b1), value_at(b2), inc(k), x, h1, h2);
        },
        (Value::Lam(_, a1, b1), Value::Lam(_, a2, b2)) => {
            lemma_value_close_alpha(value_at(a1), value_at(a2), k, x, h1, h2);
            lemma_value_close_alpha(value_at(b1), value_at(b2), inc(k), x, h1, h2);
        },
        (Value::Neutral(n1), Value::Neutral(n2)) => {
            lemma_neutral_close_alpha(neutral_at(n1), neutral_at(n2), k, x, h1, h2);
        },
        _ => {},
    }
}

pub proof fn lemma_neutral_close_alpha(
    a: Neutral,
    b: Neutral,
    k: u64,
    x: Name,
    h1: Name,
    h2: Name,
)
    requires
        neutral_alpha_eq(a, b),
    ensures
        neutral_alpha_eq(neutral_close(a, k, x, h1), neutral_close(b, k, x, h2)),
    decreases a,
{
    match (a, b) {
        (Neutral::App(f1, x1), Neutral::App(f2, x2)) => {
            lemma_neutral_close_alpha(neutral_at(f1), neutral_at(f2), k, x, h1, h2);
            lemma_term_close_alpha(term_at(x1), term_at(x2), k, x, h1, h2);
        },
        _ => {},
    }
}

pub proof fn lemma_value_to_term_alpha(a: Value, b: Value, m1: SourceMeta, m2: SourceMeta)
    requires
        value_alpha_eq(a, b),
    ensures
        term_alpha_eq(value_to_term(a, m1), value_to_term(b, m2)),
    decreases a,
{
    match (a, b) {
        (Value::Pi(_, a1, b1), Value::Pi(_, a2, b2)) => {
            lemma_value_to_term_alpha(value_at(a1), value_at(a2), m1, m2);
            lemma_value_to_term_alpha(value_at(b1), value_at(b2), m1, m2);
        },
        (Value::Lam(_, a1, b1), Value::Lam(_, a2, b2)) => {
            lemma_value_to_term_alpha(value_at(a1), value_at(a2), m1, m2);
            lemma_value_to_term_alpha(value_at(b1), value_at(b2), m1, m2);
        },
        (Value::Neutral(n1), Value::Neutral(n2)) => {
            lemma_neutral_to_term_alpha(neutral_at(n1), neutral_at(n2), m1, m2);
        },
        _ => {},
    }
}

pub proof fn lemma_neutral_to_term_alpha(a: Neutral, b: Neutral, m1: SourceMeta, m2: SourceMeta)
    requires
        neutral_alpha_eq(a, b),
    ensures
        term_alpha_eq(neutral_to_term(a, m1), neutral_to_term(b, m2)),
    decreases a,
{
    match (a, b) {
        (Neutral::App(f1, _), Neutral::App(f2, _)) => {
            lemma_neutral_to_term_alpha(neutral_at(f1), neutral_at(f2), m1, m2);
        },
        _ => {},
    }
}

pub open spec fn raw_constant_eq(a: RawConstant, b: RawConstant) -> bool {
    match (a, b) {
        (RawConstant::String(s), RawConstant::String(t)) => s@ == t@,
        _ => a == b,
    }
}

/// α-equivalence of raw terms.
pub open spec fn raw_alpha_eq(a: RawTerm, b: RawTerm) -> bool
    decreases a,
{
    match (a, b) {
        (RawTerm::Ann(_, e1, t1), RawTerm::Ann(_, e2, t2)) => raw_alpha_eq(*e1, *e2)
            && raw_alpha_eq(*t1, *t2),
        (RawTerm::Universe(_, l1), RawTerm::Universe(_, l2)) => l1 == l2,
        (RawTerm::Hole(_), RawTerm::Hole(_)) => true,
        (RawTerm::Constant(_, c1), RawTerm::Constant(_, c2)) => raw_constant_eq(c1, c2),
        (RawTerm::Var(_, v1), RawTerm::Var(_, v2)) => var_alpha_eq(v1, v2),
        (RawTerm::Pi(_, _, a1, b1), RawTerm::Pi(_, _, a2, b2)) => raw_alpha_eq(*a1, *a2)
            && raw_alpha_eq(*b1, *b2),
        (RawTerm::Lam(_, _, a1, b1), RawTerm::Lam(_, _, a2, b2)) => raw_alpha_eq(*a1, *a2)
            && raw_alpha_eq(*b1, *b2),
        (RawTerm::App(_, f1, x1), RawTerm::App(_, f2, x2)) => raw_alpha_eq(*f1, *f2)
            && raw_alpha_eq(*x1, *x2),
        _ => false,
    }
}

pub proof fn lemma_raw_gen_alpha(a: RawTerm, b: RawTerm)
    requires
        raw_alpha_eq(a, b),
    ensures
        raw_gen(a) == raw_gen(b),
    decreases a,
{
    match (a, b) {
        (RawTerm::Ann(_, e1, t1), RawTerm::Ann(_, e2, t2)) => {
            lemma_raw_gen_alpha(raw_at(e1), raw_at(e2));
            lemma_raw_gen_alpha(raw_at(t1), raw_at(t2));
        },
        (RawTerm::Pi(_, _, a1, b1), RawTerm::Pi(_, _, a2, b2)) => {
            lemma_raw_gen_alpha(raw_at(a1), raw_at(a2));
            lemma_raw_gen_alpha(raw_at(b1), raw_at(b2));
        },
        (RawTerm::Lam(_, _, a1, b1), RawTerm::Lam(_, _, a2, b2)) => {
            lemma_raw_gen_alpha(raw_at(a1), raw_at(a2));
            lemma_raw_gen_alpha(raw_at(b1), raw_at(b2));
        },
        (RawTerm::App(_, f1, x1), RawTerm::App(_, f2, x2)) => {
            lemma_raw_gen_alpha(raw_at(f1), raw_at(f2));
            lemma_raw_gen_alpha(raw_at(x1), raw_at(x2));
        },
        _ => {},
    }
}

pub proof fn lemma_raw_open_alpha(a: RawTerm, b: RawTerm, k: u64, x: Name)
    requires
        raw_alpha_eq(a, b),
    ensures
        raw_alpha_eq(raw_open(a, k, x), raw_open(b, k, x)),
    decreases a,
{
    match (a, b) {
        (RawTerm::Ann(_, e1, t1), RawTerm::Ann(_, e2, t2)) => {
            lemma_raw_open_alpha(raw_at(e1), raw_at(e2), k, x);
            lemma_raw_open_alpha(raw_at(t1), raw_at(t2), k, x);
        },
        (RawTerm::Pi(_, _, a1, b1), RawTerm::Pi(_, _, a2, b2)) => {
            lemma_raw_open_alpha(raw_at(a1), raw_at(a2), k, x);
            lemma_raw_open_alpha(raw_at(b1), raw_at(b2), inc(k), x);
        },
        (RawTerm::Lam(_, _, a1, b1), RawTerm::Lam(_, _, a2, b2)) => {
            lemma_raw_open_alpha(raw_at(a1), raw_at(a2), k, x);
            lemma_raw_open_alpha(raw_at(b1), raw_at(b2), inc(k), x);
        },
        (RawTerm::App(_, f1, x1), RawTerm::App(_, f2, x2)) => {
            lemma_raw_open_alpha(raw_at(f1), raw_at(f2), k, x);
            lemma_raw_open_alpha(raw_at(x1), raw_at(x2), k, x);
        },
        _ => {},
    }
}

pub proof fn lemma_value_open_alpha(a: Value, b: Value, k: u64, x: Name)
    requires
        value_alpha_eq(a, b),
    ensures
        value_alpha_eq(value_open(a, k, x), value_open(b, k, x)),
    decreases a,
{
    match (a, b) {
        (Value::Pi(_, a1, b1), Value::Pi(_, a2, b2)) => {
            lemma_value_open_alpha(value_at(a1), value_at(a2), k, x);
            lemma_value_open_alpha(value_at(b1), value_at(b2), inc(k), x);
        },
        (Value::Lam(_, a1, b1), Value::Lam(_, a2, b2)) => {
            lemma_value_open_alpha(value_at(a1), value_at(a2), k, x);
            lemma_value_open_alpha(value_at(b1), value_at(b2), inc(k), x);
        },
        (Value::Neutral(n1), Value::Neutral(n2)) => {
            lemma_neutral_open_alpha(neutral_at(n1), neutral_at(n2), k, x);
        },
        _ => {},
    }
}

pub proof fn lemma_neutral_open_alpha(a: Neutral, b: Neutral, k: u64, x: Name)
    requires
        neutral_alpha_eq(a, b),
    ensures
        neutral_alpha_eq(neutral_open(a, k, x), neutral_open(b, k, x)),
    decreases a,
{
    match (a, b) {
        (Neutral::App(f1, x1), Neutral::App(f2, x2)) => {
            lemma_neutral_open_alpha(neutral_at(f1), neutral_at(f2), k, x);
            lemma_term_open_alpha(term_at(x1), term_at(x2), k, x);
        },
        _ => {},
    }
}

pub proof fn lemma_term_alpha_sym_trans(a: Term, b: Term, c: Term)
    ensures
        term_alpha_eq(a, b) ==> term_alpha_eq(b, a),
        term_alpha_eq(a, b) && term_alpha_eq(b, c) ==> term_alpha_eq(a, c),
    decreases a,
{
    match (a, b, c) {
        (Term::Ann(_, e1, t1), Term::Ann(_, e2, t2), Term::Ann(_, e3, t3)) => {
            lemma_term_alpha_sym_trans(term_at(e1), term_at(e2), term_at(e3));
            lemma_term_alpha_sym_trans(term_at(t1), term_at(t2), term_at(t3));
        },
        (Term::Ann(_, e1, t1), Term::Ann(_, e2, t2), _) => {
            lemma_term_alpha_sym_trans(term_at(e1), term_at(e2), term_at(e2));
            lemma_term_alpha_sym_trans(term_at(t1), term_at(t2), term_at(t2));
        },
        (Term::Pi(_, _, a1, b1), Term::Pi(_, _, a2, b2), Term::Pi(_, _, a3, b3)) => {
            lemma_term_alpha_sym_trans(term_at(a1), term_at(a2), term_at(a3));
            lemma_term_alpha_sym_trans(term_at(b1), term_at(b2), term_at(b3));
        },
        (Term::Pi(_, _, a1, b1), Term::Pi(_, _, a2, b2), _) => {
            lemma_term_alpha_sym_trans(term_at(a1), term_at(a2), term_at(a2));
            lemma_term_alpha_sym_trans(term_at(b1), term_at(b2), term_at(b2));
        },
        (Term::Lam(_, _, a1, b1), Term::Lam(_, _, a2, b2), Term::Lam(_, _, a3, b3)) => {
            lemma_term_alpha_sym_trans(term_at(a1), term_at(a2), term_at(a3));
            lemma_term_alpha_sym_trans(term_at(b1), term_at(b2), term_at(b3));
        },
        (Term::Lam(_, _, a1, b1), Term::Lam(_, _, a2, b2), _) => {
            lemma_term_alpha_sym_trans(term_at(a1), term_at(a2), term_at(a2));
            lemma_term_alpha_sym_trans(term_at(b1), term_at(b2), term_at(b2));
        },
        (Term::App(_, f1, x1), Term::App(_, f2, x2), Term::App(_, f3, x3)) => {
            lemma_term_alpha_sym_trans(term_at(f1), term_at(f2), term_at(f3));
            lemma_term_alpha_sym_trans(term_at(x1), term_at(x2), term_at(x3));
        },
        (Term::App(_, f1, x1), Term::App(_, f2, x2), _) => {
            lemma_term_alpha_sym_trans(term_at(f1), term_at(f2), term_at(f2));
            lemma_term_alpha_sym_trans(term_at(x1), term_at(x2), term_at(x2));
        },
        _ => {},
    }
}

pub proof fn lemma_value_alpha_sym_trans(a: Value, b: Value, c: Value)
    ensures
        value_alpha_eq(a, b) ==> value_alpha_eq(b, a),
        value_alpha_eq(a, b) && value_alpha_eq(b, c) ==> value_alpha_eq(a, c),
    decreases a,
{
    match (a, b, c) {
        (Value::Pi(_, a1, b1), Value::Pi(_, a2, b2), Value::Pi(_, a3, b3)) => {
            lemma_value_alpha_sym_trans(value_at(a1), value_at(a2), value_at(a3));
            lemma_value_alpha_sym_trans(value_at(b1), value_at(b2), value_at(b3));
        },
        (Value::Pi(_, a1, b1), Value::Pi(_, a2, b2), _) => {
            lemma_value_alpha_sym_trans(value_at(a1), value_at(a2), value_at(a2));
            lemma_value_alpha_sym_trans(value_at(b1), value_at(b2), value_at(b2));
        },
        (Value::Lam(_, a1, b1), Value::Lam(_, a2, b2), Value::Lam(_, a3, b3)) => {
            lemma_value_alpha_sym_trans(value_at(a1), value_at(a2), value_at(a3));
            lemma_value_alpha_sym_trans(value_at(b1), value_at(b2), value_at(b3));
        },
        (Value::Lam(_, a1, b1), Value::Lam(_, a2, b2), _) => {
            lemma_value_alpha_sym_trans(value_at(a1), value_at(a2), value_at(a2));
            lemma_value_alpha_sym_trans(value_at(b1), value_at(b2), value_at(b2));
        },
        (Value::Neutral(n1), Value::Neutral(n2), Value::Neutral(n3)) => {
            lemma_neutral_alpha_sym_trans(neutral_at(n1), neutral_at(n2), neutral_at(n3));
        },
        (Value::Neutral(n1), Value::Neutral(n2), _) => {
            lemma_neutral_alpha_sym_trans(neutral_at(n1), neutral_at(n2), neutral_at(n2));
        },
        _ => {},
    }
}

pub proof fn lemma_neutral_alpha_sym_trans(a: Neutral, b: Neutral, c: Neutral)
    ensures
        neutral_alpha_eq(a, b) ==> neutral_alpha_eq(b, a),
        neutral_alpha_eq(a, b) && neutral_alpha_eq(b, c) ==> neutral_alpha_eq(a, c),
    decreases a,
{
    match (a, b, c) {
        (Neutral::App(f1, x1), Neutral::App(f2, x2), Neutral::App(f3, x3)) => {
            lemma_neutral_alpha_sym_trans(neutral_at(f1), neutral_at(f2), neutral_at(f3));
            lemma_term_alpha_sym_trans(term_at(x1), term_at(x2), term_at(x3));
        },
        (Neutral::App(f1, x1), Neutral::App(f2, x2), _) => {
            lemma_neutral_alpha_sym_trans(neutral_at(f1), neutral_at(f2), neutral_at(f2));
            lemma_term_alpha_sym_trans(term_at(x1), term_at(x2), term_at(x2));
        },
        _ => {},
    }
}

/// Comparing α-equivalent values with α-equivalent values gives the same answer.
pub proof fn lemma_value_alpha_congruence(a1: Value, a2: Value, b1: Value, b2: Value)
    requires
        value_alpha_eq(a1, a2),
        value_alpha_eq(b1, b2),
    ensures
        value_alpha_eq(a1, b1) == value_alpha_eq(a2, b2),
{
    lemma_value_alpha_sym_trans(a1, a2, a2);
    lemma_value_alpha_sym_trans(b1, b2, b2);
    lemma_value_alpha_sym_trans(a2, a1, b1);
    lemma_value_alpha_sym_trans(a2, b1, b2);
    lemma_value_alpha_sym_trans(a1, a2, b2);
    lemma_value_alpha_sym_trans(a1, b2, b1);
}

} // verus!
