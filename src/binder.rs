//! Binder machinery: opening a scope against a free name, closing a free name
//! back into a scope, choosing names that nothing in sight uses, and embedding
//! values back into terms.
use crate::syntax::{Name, Neutral, RawTerm, SourceMeta, Term, Value, Var};
use crate::syntax::{name_gen, raw_size, same_name};
use std::rc::Rc;
use vstd::prelude::*;

verus! {

pub open spec fn max_u64(a: u64, b: u64) -> u64 {
    if a >= b { a } else { b }
}

/// The index one binder further in (saturating at the top).
pub open spec fn inc(k: u64) -> u64 {
    if k < u64::MAX { (k + 1) as u64 } else { k }
}

fn max2(a: u64, b: u64) -> (r: u64)
    ensures
        r == max_u64(a, b),
{
    if a >= b { a } else { b }
}

// ---------------------------------------------------------------------------
// The largest generated identifier among the free variables of a tree.
pub open spec fn var_gen(v: Var) -> u64 {
    match v {
        Var::Free(n) => name_gen(n),
        Var::Bound(..) => 0,
    }
}

pub open spec fn raw_gen(t: RawTerm) -> u64
    decreases t,
{
    match t {
        RawTerm::Ann(_, e, ty) => max_u64(raw_gen(*e), raw_gen(*ty)),
        RawTerm::Var(_, v) => var_gen(v),
        RawTerm::Pi(_, _, a, b) => max_u64(raw_gen(*a), raw_gen(*b)),
        RawTerm::Lam(_, _, a, b) => max_u64(raw_gen(*a), raw_gen(*b)),
        RawTerm::App(_, f, x) => max_u64(raw_gen(*f), raw_gen(*x)),
        _ => 0,
    }
}

pub open spec fn term_gen(t: Term) -> u64
    decreases t,
{
    match t {
        Term::Ann(_, e, ty) => max_u64(term_gen(*e), term_gen(*ty)),
        Term::Var(_, v) => var_gen(v),
        Term::Pi(_, _, a, b) => max_u64(term_gen(*a), term_gen(*b)),
        Term::Lam(_, _, a, b) => max_u64(term_gen(*a), term_gen(*b)),
        Term::App(_, f, x) => max_u64(term_gen(*f), term_gen(*x)),
        _ => 0,
    }
}

pub open spec fn value_gen(v: Value) -> u64
    decreases v,
{
    match v {
        Value::Pi(_, a, b) => max_u64(value_gen(*a), value_gen(*b)),
        Value::Lam(_, a, b) => max_u64(value_gen(*a), value_gen(*b)),
        Value::Neutral(nt) => neutral_gen(*nt),
        _ => 0,
    }
}

pub open spec fn neutral_gen(n: Neutral) -> u64
    decreases n,
{
    match n {
        Neutral::Var(v) => var_gen(v),
        Neutral::App(f, x) => max_u64(neutral_gen(*f), term_gen(*x)),
    }
}

fn gen_var(v: &Var) -> (r: u64)
    ensures
        r == var_gen(*v),
{
    match v {
        Var::Free(n) => n.gen_id(),
        Var::Bound(..) => 0,
    }
}

pub fn gen_raw(t: &RawTerm) -> (r: u64)
    ensures
        r == raw_gen(*t),
    decreases t,
{
    match t {
        RawTerm::Ann(_, e, ty) => max2(gen_raw(e), gen_raw(ty)),
        RawTerm::Var(_, v) => gen_var(v),
        RawTerm::Pi(_, _, a, b) => max2(gen_raw(a), gen_raw(b)),
        RawTerm::Lam(_, _, a, b) => max2(gen_raw(a), gen_raw(b)),
        RawTerm::App(_, f, x) => max2(gen_raw(f), gen_raw(x)),
        _ => 0,
    }
}

pub fn gen_term(t: &Term) -> (r: u64)
    ensures
        r == term_gen(*t),
    decreases t,
{
    match t {
        Term::Ann(_, e, ty) => max2(gen_term(e), gen_term(ty)),
        Term::Var(_, v) => gen_var(v),
        Term::Pi(_, _, a, b) => max2(gen_term(a), gen_term(b)),
        Term::Lam(_, _, a, b) => max2(gen_term(a), gen_term(b)),
        Term::App(_, f, x) => max2(gen_term(f), gen_term(x)),
        _ => 0,
    }
}

pub fn gen_value(v: &Value) -> (r: u64)
    ensures
        r == value_gen(*v),
    decreases v,
{
    match v {
        Value::Pi(_, a, b) => max2(gen_value(a), gen_value(b)),
        Value::Lam(_, a, b) => max2(gen_value(a), gen_value(b)),
        Value::Neutral(nt) => gen_neutral(nt),
        _ => 0,
    }
}

pub fn gen_neutral(n: &Neutral) -> (r: u64)
    ensures
        r == neutral_gen(*n),
    decreases n,
{
    match n {
        Neutral::Var(v) => gen_var(v),
        Neutral::App(f, x) => max2(gen_neutral(f), gen_term(x)),
    }
}

/// The generated name just above `m`.
pub open spec fn fresh_above(m: u64) -> Name {
    Name::Gen(inc(m))
}

pub fn fresh(m: u64) -> (r: Name)
    ensures
        r == fresh_above(m),
{
    Name::Gen(m.saturating_add(1))
}

// ---------------------------------------------------------------------------
// Opening: the bound variable of index `k` becomes the free name `x`.
pub open spec fn var_open(v: Var, k: u64, x: Name) -> Var {
    match v {
        Var::Bound(_, i) => if i == k { Var::Free(x) } else { v },
        Var::Free(_) => v,
    }
}

pub open spec fn raw_open(t: RawTerm, k: u64, x: Name) -> RawTerm
    decreases t,
{
    match t {
        RawTerm::Ann(m, e, ty) => RawTerm::Ann(
            m,
            Rc::new(raw_open(*e, k, x)),
            Rc::new(raw_open(*ty, k, x)),
        ),
        RawTerm::Var(m, v) => RawTerm::Var(m, var_open(v, k, x)),
        RawTerm::Pi(m, n, a, b) => RawTerm::Pi(
            m,
            n,
            Rc::new(raw_open(*a, k, x)),
            Rc::new(raw_open(*b, inc(k), x)),
        ),
        RawTerm::Lam(m, n, a, b) => RawTerm::Lam(
            m,
            n,
            Rc::new(raw_open(*a, k, x)),
            Rc::new(raw_open(*b, inc(k), x)),
        ),
        RawTerm::App(m, f, a) => RawTerm::App(
            m,
            Rc::new(raw_open(*f, k, x)),
            Rc::new(raw_open(*a, k, x)),
        ),
        _ => t,
    }
}

pub open spec fn term_open(t: Term, k: u64, x: Name) -> Term
    decreases t,
{
    match t {
        Term::Ann(m, e, ty) => Term::Ann(
            m,
            Rc::new(term_open(*e, k, x)),
            Rc::new(term_open(*ty, k, x)),
        ),
        Term::Var(m, v) => Term::Var(m, var_open(v, k, x)),
        Term::Pi(m, n, a, b) => Term::Pi(
            m,
            n,
            Rc::new(term_open(*a, k, x)),
            Rc::new(term_open(*b, inc(k), x)),
        ),
        Term::Lam(m, n, a, b) => Term::Lam(
            m,
            n,
            Rc::new(term_open(*a, k, x)),
            Rc::new(term_open(*b, inc(k), x)),
        ),
        Term::App(m, f, a) => Term::App(
            m,
            Rc::new(term_open(*f, k, x)),
            Rc::new(term_open(*a, k, x)),
        ),
        _ => t,
    }
}

pub open spec fn value_open(v: Value, k: u64, x: Name) -> Value
    decreases v,
{
    match v {
        Value::Pi(n, a, b) => Value::Pi(
            n,
            Rc::new(value_open(*a, k, x)),
            Rc::new(value_open(*b, inc(k), x)),
        ),
        Value::Lam(n, a, b) => Value::Lam(
            n,
            Rc::new(value_open(*a, k, x)),
            Rc::new(value_open(*b, inc(k), x)),
        ),
        Value::Neutral(nt) => Value::Neutral(Rc::new(neutral_open(*nt, k, x))),
        _ => v,
    }
}

pub open spec fn neutral_open(n: Neutral, k: u64, x: Name) -> Neutral
    decreases n,
{
    match n {
        Neutral::Var(v) => Neutral::Var(var_open(v, k, x)),
        Neutral::App(f, a) => Neutral::App(
            Rc::new(neutral_open(*f, k, x)),
            Rc::new(term_open(*a, k, x)),
        ),
    }
}

fn open_var(v: &Var, k: u64, x: &Name) -> (r: Var)
    ensures
        r == var_open(*v, k, *x),
{
    match v {
        Var::Bound(n, i) => if *i == k { Var::Free(x.copy()) } else { Var::Bound(n.copy(), *i) },
        Var::Free(n) => Var::Free(n.copy()),
    }
}

pub fn open_raw(t: &Rc<RawTerm>, k: u64, x: &Name) -> (r: Rc<RawTerm>)
    ensures
        *r == raw_open(**t, k, *x),
    decreases t,
{
    match &**t {
        RawTerm::Ann(m, e, ty) => Rc::new(RawTerm::Ann(*m, open_raw(e, k, x), open_raw(ty, k, x))),
        RawTerm::Var(m, v) => Rc::new(RawTerm::Var(*m, open_var(v, k, x))),
        RawTerm::Pi(m, n, a, b) => Rc::new(
            RawTerm::Pi(*m, n.copy(), open_raw(a, k, x), open_raw(b, k.saturating_add(1), x)),
        ),
        RawTerm::Lam(m, n, a, b) => Rc::new(
            RawTerm::Lam(*m, n.copy(), open_raw(a, k, x), open_raw(b, k.saturating_add(1), x)),
        ),
        RawTerm::App(m, f, a) => Rc::new(RawTerm::App(*m, open_raw(f, k, x), open_raw(a, k, x))),
        _ => t.clone(),
    }
}

pub fn open_term(t: &Rc<Term>, k: u64, x: &Name) -> (r: Rc<Term>)
    ensures
        *r == term_open(**t, k, *x),
    decreases t,
{
    match &**t {
        Term::Ann(m, e, ty) => Rc::new(Term::Ann(*m, open_term(e, k, x), open_term(ty, k, x))),
        Term::Var(m, v) => Rc::new(Term::Var(*m, open_var(v, k, x))),
        Term::Pi(m, n, a, b) => Rc::new(
            Term::Pi(*m, n.copy(), open_term(a, k, x), open_term(b, k.saturating_add(1), x)),
        ),
        Term::Lam(m, n, a, b) => Rc::new(
            Term::Lam(*m, n.copy(), open_term(a, k, x), open_term(b, k.saturating_add(1), x)),
        ),
        Term::App(m, f, a) => Rc::new(Term::App(*m, open_term(f, k, x), open_term(a, k, x))),
        _ => t.clone(),
    }
}

pub fn open_value(v: &Rc<Value>, k: u64, x: &Name) -> (r: Rc<Value>)
    ensures
        *r == value_open(**v, k, *x),
    decreases v,
{
    match &**v {
        Value::Pi(n, a, b) => Rc::new(
            Value::Pi(n.copy(), open_value(a, k, x), open_value(b, k.saturating_add(1), x)),
        ),
        Value::Lam(n, a, b) => Rc::new(
            Value::Lam(n.copy(), open_value(a, k, x), open_value(b, k.saturating_add(1), x)),
        ),
        Value::Neutral(nt) => Rc::new(Value::Neutral(open_neutral(nt, k, x))),
        _ => v.clone(),
    }
}

pub fn open_neutral(n: &Rc<Neutral>, k: u64, x: &Name) -> (r: Rc<Neutral>)
    ensures
        *r == neutral_open(**n, k, *x),
    decreases n,
{
    match &**n {
        Neutral::Var(v) => Rc::new(Neutral::Var(open_var(v, k, x))),
        Neutral::App(f, a) => Rc::new(Neutral::App(open_neutral(f, k, x), open_term(a, k, x))),
    }
}

// ---------------------------------------------------------------------------
// Closing: the free name `x` becomes the bound variable of index `k`, with
// `hint` as its name.
pub open spec fn var_close(v: Var, k: u64, x: Name, hint: Name) -> Var {
    match v {
        Var::Free(y) => if same_name(y, x) { Var::Bound(hint, k) } else { v },
        Var::Bound(..) => v,
    }
}

pub open spec fn term_close(t: Term, k: u64, x: Name, hint: Name) -> Term
    decreases t,
{
    match t {
        Term::Ann(m, e, ty) => Term::Ann(
            m,
            Rc::new(term_close(*e, k, x, hint)),
            Rc::new(term_close(*ty, k, x, hint)),
        ),
        Term::Var(m, v) => Term::Var(m, var_close(v, k, x, hint)),
        Term::Pi(m, n, a, b) => Term::Pi(
            m,
            n,
            Rc::new(term_close(*a, k, x, hint)),
            Rc::new(term_close(*b, inc(k), x, hint)),
        ),
        Term::Lam(m, n, a, b) => Term::Lam(
            m,
            n,
            Rc::new(term_close(*a, k, x, hint)),
            Rc::new(term_close(*b, inc(k), x, hint)),
        ),
        Term::App(m, f, a) => Term::App(
            m,
            Rc::new(term_close(*f, k, x, hint)),
            Rc::new(term_close(*a, k, x, hint)),
        ),
        _ => t,
    }
}

pub open spec fn value_close(v: Value, k: u64, x: Name, hint: Name) -> Value
    decreases v,
{
    match v {
        Value::Pi(n, a, b) => Value::Pi(
            n,
            Rc::new(value_close(*a, k, x, hint)),
            Rc::new(value_close(*b, inc(k), x, hint)),
        ),
        Value::Lam(n, a, b) => Value::Lam(
            n,
            Rc::new(value_close(*a, k, x, hint)),
            Rc::new(value_close(*b, inc(k), x, hint)),
        ),
        Value::Neutral(nt) => Value::Neutral(Rc::new(neutral_close(*nt, k, x, hint))),
        _ => v,
    }
}

pub open spec fn neutral_close(n: Neutral, k: u64, x: Name, hint: Name) -> Neutral
    decreases n,
{
    match n {
        Neutral::Var(v) => Neutral::Var(var_close(v, k, x, hint)),
        Neutral::App(f, a) => Neutral::App(
            Rc::new(neutral_close(*f, k, x, hint)),
            Rc::new(term_close(*a, k, x, hint)),
        ),
    }
}

fn close_var(v: &Var, k: u64, x: &Name, hint: &Name) -> (r: Var)
    ensures
        r == var_close(*v, k, *x, *hint),
{
    match v {
        Var::Free(y) => if y.same(x) { Var::Bound(hint.copy(), k) } else { Var::Free(y.copy()) },
        Var::Bound(..) => v.copy(),
    }
}

pub fn close_term(t: &Rc<Term>, k: u64, x: &Name, hint: &Name) -> (r: Rc<Term>)
    ensures
        *r == term_close(**t, k, *x, *hint),
    decreases t,
{
    match &**t {
        Term::Ann(m, e, ty) => Rc::new(
            Term::Ann(*m, close_term(e, k, x, hint), close_term(ty, k, x, hint)),
        ),
        Term::Var(m, v) => Rc::new(Term::Var(*m, close_var(v, k, x, hint))),
        Term::Pi(m, n, a, b) => Rc::new(
            Term::Pi(
                *m,
                n.copy(),
                close_term(a, k, x, hint),
                close_term(b, k.saturating_add(1), x, hint),
            ),
        ),
        Term::Lam(m, n, a, b) => Rc::new(
            Term::Lam(
                *m,
                n.copy(),
                close_term(a, k, x, hint),
                close_term(b, k.saturating_add(1), x, hint),
            ),
        ),
        Term::App(m, f, a) => Rc::new(
            Term::App(*m, close_term(f, k, x, hint), close_term(a, k, x, hint)),
        ),
        _ => t.clone(),
    }
}

pub fn close_value(v: &Rc<Value>, k: u64, x: &Name, hint: &Name) -> (r: Rc<Value>)
    ensures
        *r == value_close(**v, k, *x, *hint),
    decreases v,
{
    match &**v {
        Value::Pi(n, a, b) => Rc::new(
            Value::Pi(
                n.copy(),
                close_value(a, k, x, hint),
                close_value(b, k.saturating_add(1), x, hint),
            ),
        ),
        Value::Lam(n, a, b) => Rc::new(
            Value::Lam(
                n.copy(),
                close_value(a, k, x, hint),
                close_value(b, k.saturating_add(1), x, hint),
            ),
        ),
        Value::Neutral(nt) => Rc::new(Value::Neutral(close_neutral(nt, k, x, hint))),
        _ => v.clone(),
    }
}

pub fn close_neutral(n: &Rc<Neutral>, k: u64, x: &Name, hint: &Name) -> (r: Rc<Neutral>)
    ensures
        *r == neutral_close(**n, k, *x, *hint),
    decreases n,
{
    match &**n {
        Neutral::Var(v) => Rc::new(Neutral::Var(close_var(v, k, x, hint))),
        Neutral::App(f, a) => Rc::new(
            Neutral::App(close_neutral(f, k, x, hint), close_term(a, k, x, hint)),
        ),
    }
}

pub open spec fn raw_close(t: RawTerm, k: u64, x: Name, hint: Name) -> RawTerm
    decreases t,
{
    match t {
        RawTerm::Ann(m, e, ty) => RawTerm::Ann(
            m,
            Rc::new(raw_close(*e, k, x, hint)),
            Rc::new(raw_close(*ty, k, x, hint)),
        ),
        RawTerm::Var(m, v) => RawTerm::Var(m, var_close(v, k, x, hint)),
        RawTerm::Pi(m, n, a, b) => RawTerm::Pi(
            m,
            n,
            Rc::new(raw_close(*a, k, x, hint)),
            Rc::new(raw_close(*b, inc(k), x, hint)),
        ),
        RawTerm::Lam(m, n, a, b) => RawTerm::Lam(
            m,
            n,
            Rc::new(raw_close(*a, k, x, hint)),
            Rc::new(raw_close(*b, inc(k), x, hint)),
        ),
        RawTerm::App(m, f, a) => RawTerm::App(
            m,
            Rc::new(raw_close(*f, k, x, hint)),
            Rc::new(raw_close(*a, k, x, hint)),
        ),
        _ => t,
    }
}

pub fn close_raw(t: &Rc<RawTerm>, k: u64, x: &Name, hint: &Name) -> (r: Rc<RawTerm>)
    ensures
        *r == raw_close(**t, k, *x, *hint),
    decreases t,
{
    match &**t {
        RawTerm::Ann(m, e, ty) => Rc::new(
            RawTerm::Ann(*m, close_raw(e, k, x, hint), close_raw(ty, k, x, hint)),
        ),
        RawTerm::Var(m, v) => Rc::new(RawTerm::Var(*m, close_var(v, k, x, hint))),
        RawTerm::Pi(m, n, a, b) => Rc::new(
            RawTerm::Pi(
                *m,
                n.copy(),
                close_raw(a, k, x, hint),
                close_raw(b, k.saturating_add(1), x, hint),
            ),
        ),
        RawTerm::Lam(m, n, a, b) => Rc::new(
            RawTerm::Lam(
                *m,
                n.copy(),
                close_raw(a, k, x, hint),
                close_raw(b, k.saturating_add(1), x, hint),
            ),
        ),
        RawTerm::App(m, f, a) => Rc::new(
            RawTerm::App(*m, close_raw(f, k, x, hint), close_raw(a, k, x, hint)),
        ),
        _ => t.clone(),
    }
}

impl RawTerm {
    /// `(x : ann) -> body`, with the free occurrences of `x` in `body` bound.
    pub fn bind_pi(m: SourceMeta, x: Name, ann: Rc<RawTerm>, body: &Rc<RawTerm>) -> (r: Rc<RawTerm>)
        ensures
            *r == RawTerm::Pi(m, x, ann, Rc::new(raw_close(**body, 0, x, x))),
    {
        let b = close_raw(body, 0, &x, &x);
        Rc::new(RawTerm::Pi(m, x, ann, b))
    }

    /// `\x : ann => body`, with the free occurrences of `x` in `body` bound.
    pub fn bind_lam(m: SourceMeta, x: Name, ann: Rc<RawTerm>, body: &Rc<RawTerm>) -> (r: Rc<RawTerm>)
        ensures
            *r == RawTerm::Lam(m, x, ann, Rc::new(raw_close(**body, 0, x, x))),
    {
        let b = close_raw(body, 0, &x, &x);
        Rc::new(RawTerm::Lam(m, x, ann, b))
    }
}

impl Term {
    /// `(x : ann) -> body`, with the free occurrences of `x` in `body` bound.
    pub fn bind_pi(m: SourceMeta, x: Name, ann: Rc<Term>, body: &Rc<Term>) -> (r: Rc<Term>)
        ensures
            *r == Term::Pi(m, x, ann, Rc::new(term_close(**body, 0, x, x))),
    {
        let b = close_term(body, 0, &x, &x);
        Rc::new(Term::Pi(m, x, ann, b))
    }

    /// `\x : ann => body`, with the free occurrences of `x` in `body` bound.
    pub fn bind_lam(m: SourceMeta, x: Name, ann: Rc<Term>, body: &Rc<Term>) -> (r: Rc<Term>)
        ensures
            *r == Term::Lam(m, x, ann, Rc::new(term_close(**body, 0, x, x))),
    {
        let b = close_term(body, 0, &x, &x);
        Rc::new(Term::Lam(m, x, ann, b))
    }
}

// ---------------------------------------------------------------------------
// Embedding values back into terms; every node gets the source position `m`.
pub open spec fn value_to_term(v: Value, m: SourceMeta) -> Term
    decreases v,
{
    match v {
        Value::Universe(l) => Term::Universe(m, l),
        Value::Constant(c) => Term::Constant(m, c),
        Value::Pi(n, a, b) => Term::Pi(
            m,
            n,
            Rc::new(value_to_term(*a, m)),
            Rc::new(value_to_term(*b, m)),
        ),
        Value::Lam(n, a, b) => Term::Lam(
            m,
            n,
            Rc::new(value_to_term(*a, m)),
            Rc::new(value_to_term(*b, m)),
        ),
        Value::Neutral(nt) => neutral_to_term(*nt, m),
    }
}

pub open spec fn neutral_to_term(n: Neutral, m: SourceMeta) -> Term
    decreases n,
{
    match n {
        Neutral::Var(v) => Term::Var(m, v),
        Neutral::App(f, a) => Term::App(m, Rc::new(neutral_to_term(*f, m)), a),
    }
}

pub fn embed_value(v: &Rc<Value>, m: SourceMeta) -> (r: Rc<Term>)
    ensures
        *r == value_to_term(**v, m),
    decreases v,
{
    match &**v {
        Value::Universe(l) => Rc::new(Term::Universe(m, *l)),
        Value::Constant(c) => Rc::new(Term::Constant(m, c.copy())),
        Value::Pi(n, a, b) => Rc::new(Term::Pi(m, n.copy(), embed_value(a, m), embed_value(b, m))),
        Value::Lam(n, a, b) => Rc::new(Term::Lam(m, n.copy(), embed_value(a, m), embed_value(b, m))),
        Value::Neutral(nt) => embed_neutral(nt, m),
    }
}

pub fn embed_neutral(n: &Rc<Neutral>, m: SourceMeta) -> (r: Rc<Term>)
    ensures
        *r == neutral_to_term(**n, m),
    decreases n,
{
    match &**n {
        Neutral::Var(v) => Rc::new(Term::Var(m, v.copy())),
        Neutral::App(f, a) => Rc::new(Term::App(m, embed_neutral(f, m), a.clone())),
    }
}

/// The raw term behind a shared handle.
pub open spec fn raw_at(r: Rc<RawTerm>) -> RawTerm {
    *r
}

/// Opening a raw term leaves its size unchanged.
pub proof fn lemma_raw_open_size(t: RawTerm, k: u64, x: Name)
    ensures
        raw_size(raw_open(t, k, x)) == raw_size(t),
    decreases t,
{
    match t {
        RawTerm::Ann(_, e, ty) => {
            lemma_raw_open_size(raw_at(e), k, x);
            lemma_raw_open_size(raw_at(ty), k, x);
        },
        RawTerm::Pi(_, _, a, b) => {
            lemma_raw_open_size(raw_at(a), k, x);
            lemma_raw_open_size(raw_at(b), inc(k), x);
        },
        RawTerm::Lam(_, _, a, b) => {
            lemma_raw_open_size(raw_at(a), k, x);
            lemma_raw_open_size(raw_at(b), inc(k), x);
        },
        RawTerm::App(_, f, a) => {
            lemma_raw_open_size(raw_at(f), k, x);
            lemma_raw_open_size(raw_at(a), k, x);
        },
        _ => {},
    }
}

} // verus!
