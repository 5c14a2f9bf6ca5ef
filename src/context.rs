//! The typing context: a persistent list of binders, newest last.
use crate::binder::{max_u64, term_gen, value_gen};
use crate::syntax::{name_gen, same_name, Name, Term, Value};
use std::rc::Rc;
use vstd::prelude::*;

verus! {

/// What the context knows of a name.
pub enum Binder {
    Lam { ann: Rc<Value> },
    Pi { ann: Rc<Value> },
    Let { ann: Rc<Value>, value: Rc<Term> },
}

impl Binder {
    pub fn copy(&self) -> (r: Binder)
        ensures
            r == *self,
    {
        match self {
            Binder::Lam { ann } => Binder::Lam { ann: ann.clone() },
            Binder::Pi { ann } => Binder::Pi { ann: ann.clone() },
            Binder::Let { ann, value } => Binder::Let { ann: ann.clone(), value: value.clone() },
        }
    }
}

/// An ordered list of binders. Extending never changes the context extended.
pub enum Context {
    Empty,
    Extend(Rc<Context>, Name, Binder),
}

/// The context with one more binder.
pub open spec fn extend(ctx: Context, x: Name, b: Binder) -> Context {
    Context::Extend(Rc::new(ctx), x, b)
}

/// The most recent binder of `x`.
pub open spec fn lookup(ctx: Context, x: Name) -> Option<Binder>
    decreases ctx,
{
    match ctx {
        Context::Empty => None,
        Context::Extend(rest, y, b) => if same_name(y, x) {
            Some(b)
        } else {
            lookup(*rest, x)
        },
    }
}

pub open spec fn binder_gen(b: Binder) -> u64 {
    match b {
        Binder::Lam { ann } => value_gen(*ann),
        Binder::Pi { ann } => value_gen(*ann),
        Binder::Let { ann, value } => max_u64(value_gen(*ann), term_gen(*value)),
    }
}

/// The largest generated identifier anywhere in the context.
pub open spec fn ctx_gen(ctx: Context) -> u64
    decreases ctx,
{
    match ctx {
        Context::Empty => 0,
        Context::Extend(rest, y, b) => max_u64(
            ctx_gen(*rest),
            max_u64(name_gen(y), binder_gen(b)),
        ),
    }
}

impl Context {
    pub fn new() -> (r: Context)
        ensures
            r == Context::Empty,
    {
        Context::Empty
    }

    pub fn copy(&self) -> (r: Context)
        ensures
            r == *self,
    {
        match self {
            Context::Empty => Context::Empty,
            Context::Extend(rest, y, b) => Context::Extend(rest.clone(), y.copy(), b.copy()),
        }
    }

    pub fn extend(&self, x: Name, b: Binder) -> (r: Context)
        ensures
            r == extend(*self, x, b),
    {
        Context::Extend(Rc::new(self.copy()), x, b)
    }

    pub fn extend_lam(&self, x: Name, ann: Rc<Value>) -> (r: Context)
        ensures
            r == extend(*self, x, Binder::Lam { ann }),
    {
        self.extend(x, Binder::Lam { ann })
    }

    pub fn extend_pi(&self, x: Name, ann: Rc<Value>) -> (r: Context)
        ensures
            r == extend(*self, x, Binder::Pi { ann }),
    {
        self.extend(x, Binder::Pi { ann })
    }

    pub fn extend_let(&self, x: Name, ann: Rc<Value>, value: Rc<Term>) -> (r: Context)
        ensures
            r == extend(*self, x, Binder::Let { ann, value }),
    {
        self.extend(x, Binder::Let { ann, value })
    }

    pub fn lookup_binder(&self, x: &Name) -> (r: Option<Binder>)
        ensures
            r == lookup(*self, *x),
        decreases self,
    {
        match self {
            Context::Empty => None,
            Context::Extend(rest, y, b) => if y.same(x) {
                Some(b.copy())
            } else {
                rest.lookup_binder(x)
            },
        }
    }

    pub fn max_gen(&self) -> (r: u64)
        ensures
            r == ctx_gen(*self),
        decreases self,
    {
        match self {
            Context::Empty => 0,
            Context::Extend(rest, y, b) => {
                let g = match b {
                    Binder::Lam { ann } => crate::binder::gen_value(ann),
                    Binder::Pi { ann } => crate::binder::gen_value(ann),
                    Binder::Let { ann, value } => {
                        let a = crate::binder::gen_value(ann);
                        let v = crate::binder::gen_term(value);
                        if a >= v { a } else { v }
                    },
                };
                let n = y.gen_id();
                let inner = if n >= g { n } else { g };
                let outer = rest.max_gen();
                if outer >= inner { outer } else { inner }
            },
        }
    }
}

/// Extending with `x` twice: the later binder shadows the earlier one in every
/// lookup, and every other name is looked up as before.
pub proof fn lemma_shadowing(ctx: Context, x: Name, first: Binder, second: Binder, y: Name)
    ensures
        lookup(extend(extend(ctx, x, first), x, second), y) == lookup(extend(ctx, x, second), y),
        same_name(x, y) ==> lookup(extend(extend(ctx, x, first), x, second), y) == Some(second),
        !same_name(x, y) ==> lookup(extend(extend(ctx, x, first), x, second), y) == lookup(ctx, y),
{
    reveal_with_fuel(lookup, 3);
}

} // verus!
