//! Evaluation of core terms to values, under the let-bindings of a context.
use crate::binder::{
    close_value, embed_value, fresh, fresh_above, gen_term, max_u64, neutral_to_term, open_term,
    term_gen, term_open, value_close, value_to_term,
};
use crate::context::{ctx_gen, extend, lookup, Binder, Context};
use crate::equality::{
    ctx_alpha_eq, lemma_ctx_gen_alpha, lemma_lookup_alpha, lemma_term_gen_alpha,
    lemma_term_open_alpha, lemma_value_close_alpha, lemma_value_to_term_alpha, term_alpha_eq,
    value_alpha_eq,
};
use crate::errors::InternalError;
use crate::syntax::{
    neutral_at, term_at, term_span, value_at, Neutral, SourceMeta, Term, Value, Var,
};
use std::rc::Rc;
use vstd::prelude::*;

verus! {

/// How many evaluation steps `normalize` may take. Evaluation of ill-typed
/// terms may not end; this bound turns that into an error.
pub const STEP_LIMIT: u64 = 0xffff_ffff_ffff_ffff;

/// `t` evaluated under `ctx`, in at most `fuel` steps.
pub open spec fn eval(ctx: Context, t: Term, fuel: nat) -> Result<Rc<Value>, InternalError>
    decreases fuel,
{
    if fuel == 0 {
        Err(InternalError::StepLimitReached { span: term_span(t) })
    } else {
        let f = (fuel - 1) as nat;
        match t {
            Term::Ann(_, e, _) => eval(ctx, *e, f),
            Term::Universe(_, l) => Ok(Rc::new(Value::Universe(l))),
            Term::Constant(_, c) => Ok(Rc::new(Value::Constant(c))),
            Term::Var(m, Var::Free(x)) => match lookup(ctx, x) {
                Some(Binder::Let { value, .. }) => eval(ctx, *value, f),
                Some(_) => Ok(Rc::new(Value::Neutral(Rc::new(Neutral::Var(Var::Free(x)))))),
                None => Err(InternalError::UndefinedName { var_span: m.span, name: x }),
            },
            Term::Var(m, Var::Bound(n, i)) => Err(
                InternalError::UnsubstitutedDebruijnIndex { span: m.span, name: n, index: i },
            ),
            Term::Pi(_, n, a, b) => {
                let x = fresh_above(max_u64(ctx_gen(ctx), term_gen(t)));
                match eval(ctx, *a, f) {
                    Err(e) => Err(e),
                    Ok(va) => match eval(
                        extend(ctx, x, Binder::Pi { ann: va }),
                        term_open(*b, 0, x),
                        f,
                    ) {
                        Err(e) => Err(e),
                        Ok(vb) => Ok(Rc::new(Value::Pi(n, va, Rc::new(value_close(*vb, 0, x, n))))),
                    },
                }
            },
            Term::Lam(_, n, a, b) => {
                let x = fresh_above(max_u64(ctx_gen(ctx), term_gen(t)));
                match eval(ctx, *a, f) {
                    Err(e) => Err(e),
                    Ok(va) => match eval(
                        extend(ctx, x, Binder::Lam { ann: va }),
                        term_open(*b, 0, x),
                        f,
                    ) {
                        Err(e) => Err(e),
                        Ok(vb) => Ok(
                            Rc::new(Value::Lam(n, va, Rc::new(value_close(*vb, 0, x, n)))),
                        ),
                    },
                }
            },
            Term::App(m, fun, arg) => match eval(ctx, *fun, f) {
                Err(e) => Err(e),
                Ok(vf) => match *vf {
                    Value::Lam(_, ann, body) => {
                        let bt = value_to_term(*body, m);
                        let x = fresh_above(
                            max_u64(ctx_gen(ctx), max_u64(term_gen(bt), term_gen(*arg))),
                        );
                        eval(
                            extend(ctx, x, Binder::Let { ann, value: arg }),
                            term_open(bt, 0, x),
                            f,
                        )
                    },
                    Value::Neutral(nt) => Ok(Rc::new(Value::Neutral(Rc::new(Neutral::App(nt, arg))))),
                    _ => Err(InternalError::ArgumentAppliedToNonFunction { span: term_span(*fun) }),
                },
            },
        }
    }
}

/// The value of `term` under `context`: its normal form, with annotations
/// erased, let-bound names unfolded and every β-redex reduced.
pub fn normalize(context: &Context, term: &Rc<Term>) -> (r: Result<Rc<Value>, InternalError>)
    ensures
        r == eval(*context, **term, STEP_LIMIT as nat),
{
    normalize_in(context, term, STEP_LIMIT)
}

/// `term` evaluated under `context` in at most `fuel` steps.
pub fn normalize_in(context: &Context, term: &Rc<Term>, fuel: u64) -> (r: Result<
    Rc<Value>,
    InternalError,
>)
    ensures
        r == eval(*context, **term, fuel as nat),
    decreases fuel,
{
    if fuel == 0 {
        return Err(InternalError::StepLimitReached { span: term.span() });
    }
    let f = fuel - 1;
    match &**term {
        Term::Ann(_, e, _) => normalize_in(context, e, f),
        Term::Universe(_, l) => Ok(Rc::new(Value::Universe(*l))),
        Term::Constant(_, c) => Ok(Rc::new(Value::Constant(c.copy()))),
        Term::Var(m, Var::Free(x)) => match context.lookup_binder(x) {
            Some(Binder::Let { value, .. }) => normalize_in(context, &value, f),
            Some(_) => Ok(Rc::new(Value::Neutral(Rc::new(Neutral::Var(Var::Free(x.copy())))))),
            None => Err(InternalError::UndefinedName { var_span: m.span, name: x.copy() }),
        },
        Term::Var(m, Var::Bound(n, i)) => Err(
            InternalError::UnsubstitutedDebruijnIndex { span: m.span, name: n.copy(), index: *i },
        ),
        Term::Pi(_, n, a, b) => {
            let g = context.max_gen();
            let h = gen_term(term);
            let x = fresh(if g >= h { g } else { h });
            let va = normalize_in(context, a, f)?;
            let body_context = context.extend_pi(x.copy(), va.clone());
            let vb = normalize_in(&body_context, &open_term(b, 0, &x), f)?;
            Ok(Rc::new(Value::Pi(n.copy(), va, close_value(&vb, 0, &x, n))))
        },
        Term::Lam(_, n, a, b) => {
            let g = context.max_gen();
            let h = gen_term(term);
            let x = fresh(if g >= h { g } else { h });
            let va = normalize_in(context, a, f)?;
            let body_context = context.extend_lam(x.copy(), va.clone());
            let vb = normalize_in(&body_context, &open_term(b, 0, &x), f)?;
            Ok(Rc::new(Value::Lam(n.copy(), va, close_value(&vb, 0, &x, n))))
        },
        Term::App(m, fun, arg) => {
            let vf = normalize_in(context, fun, f)?;
            match &*vf {
                Value::Lam(_, ann, body) => {
                    let bt = embed_value(body, *m);
                    let g = context.max_gen();
                    let h1 = gen_term(&bt);
                    let h2 = gen_term(arg);
                    let h = if h1 >= h2 { h1 } else { h2 };
                    let x = fresh(if g >= h { g } else { h });
                    let body_context = context.extend_let(x.copy(), ann.clone(), arg.clone());
                    normalize_in(&body_context, &open_term(&bt, 0, &x), f)
                },
                Value::Neutral(nt) => Ok(
                    Rc::new(Value::Neutral(Rc::new(Neutral::App(nt.clone(), arg.clone())))),
                ),
                _ => Err(InternalError::ArgumentAppliedToNonFunction { span: fun.span() }),
            }
        },
    }
}

/// A neutral form stuck on a variable that `ctx` binds by λ or Π.
pub open spec fn neutral_in(ctx: Context, n: Neutral) -> bool
    decreases n,
{
    match n {
        Neutral::Var(Var::Free(x)) => match lookup(ctx, x) {
            Some(Binder::Lam { .. }) => true,
            Some(Binder::Pi { .. }) => true,
            _ => false,
        },
        Neutral::Var(Var::Bound(..)) => false,
        Neutral::App(f, _) => neutral_in(ctx, *f),
    }
}

/// The number of nodes along the function spine of a neutral form.
pub open spec fn spine_len(n: Neutral) -> nat
    decreases n,
{
    match n {
        Neutral::Var(_) => 1,
        Neutral::App(f, _) => 1 + spine_len(*f),
    }
}

proof fn lemma_neutral_renormalizes(ctx: Context, n: Neutral, m: SourceMeta, fuel: nat)
    requires
        neutral_in(ctx, n),
        fuel >= spine_len(n),
    ensures
        eval(ctx, neutral_to_term(n, m), fuel) == Ok::<Rc<Value>, InternalError>(
            Rc::new(Value::Neutral(Rc::new(n))),
        ),
    decreases n,
{
    match n {
        Neutral::App(f, _) => {
            lemma_neutral_renormalizes(ctx, neutral_at(f), m, (fuel - 1) as nat);
        },
        _ => {},
    }
}

/// Normalizing once more the embedding of a normal form without binders (a
/// universe, a constant, or a neutral form stuck on a λ- or Π-bound variable)
/// gives that normal form back unchanged, given one step per node of its spine.
pub proof fn lemma_renormalize_binder_free(ctx: Context, v: Value, m: SourceMeta, fuel: nat)
    requires
        match v {
            Value::Universe(_) => fuel > 0,
            Value::Constant(_) => fuel > 0,
            Value::Neutral(n) => neutral_in(ctx, *n) && fuel >= spine_len(*n),
            _ => false,
        },
    ensures
        eval(ctx, value_to_term(v, m), fuel) == Ok::<Rc<Value>, InternalError>(Rc::new(v)),
{
    match v {
        Value::Neutral(n) => {
            lemma_neutral_renormalizes(ctx, neutral_at(n), m, fuel);
        },
        _ => {},
    }
}

/// Both evaluations fail, or both succeed with α-equivalent values.
pub open spec fn results_alpha_eq(
    a: Result<Rc<Value>, InternalError>,
    b: Result<Rc<Value>, InternalError>,
) -> bool {
    match (a, b) {
        (Ok(v1), Ok(v2)) => value_alpha_eq(*v1, *v2),
        (Err(_), Err(_)) => true,
        _ => false,
    }
}

proof fn lemma_eval_alpha(c1: Context, c2: Context, t1: Term, t2: Term, fuel: nat)
    requires
        ctx_alpha_eq(c1, c2),
        term_alpha_eq(t1, t2),
    ensures
        results_alpha_eq(eval(c1, t1, fuel), eval(c2, t2, fuel)),
    decreases fuel,
{
    if fuel > 0 {
        let f = (fuel - 1) as nat;
        lemma_ctx_gen_alpha(c1, c2);
        lemma_term_gen_alpha(t1, t2);
        let x = fresh_above(max_u64(ctx_gen(c1), term_gen(t1)));
        match (t1, t2) {
            (Term::Ann(_, e1, _), Term::Ann(_, e2, _)) => {
                lemma_eval_alpha(c1, c2, term_at(e1), term_at(e2), f);
            },
            (Term::Var(_, Var::Free(x1)), Term::Var(_, Var::Free(x2))) => {
                lemma_lookup_alpha(c1, c2, x1, x2);
                match (lookup(c1, x1), lookup(c2, x2)) {
                    (Some(Binder::Let { value: v1, .. }), Some(Binder::Let { value: v2, .. })) => {
                        lemma_eval_alpha(c1, c2, term_at(v1), term_at(v2), f);
                    },
                    _ => {},
                }
            },
            (Term::Pi(_, n1, a1, b1), Term::Pi(_, n2, a2, b2)) => {
                lemma_eval_alpha(c1, c2, term_at(a1), term_at(a2), f);
                match (eval(c1, term_at(a1), f), eval(c2, term_at(a2), f)) {
                    (Ok(va1), Ok(va2)) => {
                        let d1 = extend(c1, x, Binder::Pi { ann: va1 });
                        let d2 = extend(c2, x, Binder::Pi { ann: va2 });
                        lemma_term_open_alpha(term_at(b1), term_at(b2), 0, x);
                        lemma_eval_alpha(
                            d1,
                            d2,
                            term_open(term_at(b1), 0, x),
                            term_open(term_at(b2), 0, x),
                            f,
                        );
                        match (
                            eval(d1, term_open(term_at(b1), 0, x), f),
                            eval(d2, term_open(term_at(b2), 0, x), f),
                        ) {
                            (Ok(vb1), Ok(vb2)) => {
                                lemma_value_close_alpha(value_at(vb1), value_at(vb2), 0, x, n1, n2);
                            },
                            _ => {},
                        }
                    },
                    _ => {},
                }
            },
            (Term::Lam(_, n1, a1, b1), Term::Lam(_, n2, a2, b2)) => {
                lemma_eval_alpha(c1, c2, term_at(a1), term_at(a2), f);
                match (eval(c1, term_at(a1), f), eval(c2, term_at(a2), f)) {
                    (Ok(va1), Ok(va2)) => {
                        let d1 = extend(c1, x, Binder::Lam { ann: va1 });
                        let d2 = extend(c2, x, Binder::Lam { ann: va2 });
                        lemma_term_open_alpha(term_at(b1), term_at(b2), 0, x);
                        lemma_eval_alpha(
                            d1,
                            d2,
                            term_open(term_at(b1), 0, x),
                            term_open(term_at(b2), 0, x),
                            f,
                        );
                        match (
                            eval(d1, term_open(term_at(b1), 0, x), f),
                            eval(d2, term_open(term_at(b2), 0, x), f),
                        ) {
                            (Ok(vb1), Ok(vb2)) => {
                                lemma_value_close_alpha(value_at(vb1), value_at(vb2), 0, x, n1, n2);
                            },
                            _ => {},
                        }
                    },
                    _ => {},
                }
            },
            (Term::App(m1, fun1, arg1), Term::App(m2, fun2, arg2)) => {
                lemma_eval_alpha(c1, c2, term_at(fun1), term_at(fun2), f);
                match (eval(c1, term_at(fun1), f), eval(c2, term_at(fun2), f)) {
                    (Ok(vf1), Ok(vf2)) => match (value_at(vf1), value_at(vf2)) {
                        (Value::Lam(_, ann1, body1), Value::Lam(_, ann2, body2)) => {
                            let bt1 = value_to_term(value_at(body1), m1);
                            let bt2 = value_to_term(value_at(body2), m2);
                            lemma_value_to_term_alpha(value_at(body1), value_at(body2), m1, m2);
                            lemma_term_gen_alpha(bt1, bt2);
                            lemma_term_gen_alpha(term_at(arg1), term_at(arg2));
                            let y = fresh_above(
                                max_u64(ctx_gen(c1), max_u64(term_gen(bt1), term_gen(term_at(arg1)))),
                            );
                            lemma_term_open_alpha(bt1, bt2, 0, y);
                            lemma_eval_alpha(
                                extend(c1, y, Binder::Let { ann: ann1, value: arg1 }),
                                extend(c2, y, Binder::Let { ann: ann2, value: arg2 }),
                                term_open(bt1, 0, y),
                                term_open(bt2, 0, y),
                                f,
                            );
                        },
                        _ => {},
                    },
                    _ => {},
                }
            },
            _ => {},
        }
    }
}

/// Renaming bound variables consistently does not change what a term
/// evaluates to: α-equivalent terms evaluate, in α-equivalent contexts and in
/// the same number of steps, both to an error or to α-equivalent values.
pub proof fn lemma_normalize_respects_alpha(c1: Context, c2: Context, t1: Term, t2: Term, fuel: nat)
    requires
        ctx_alpha_eq(c1, c2),
        term_alpha_eq(t1, t2),
    ensures
        results_alpha_eq(eval(c1, t1, fuel), eval(c2, t2, fuel)),
{
    lemma_eval_alpha(c1, c2, t1, t2, fuel);
}

} // verus!
