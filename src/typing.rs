//! Bidirectional type checking with elaboration.
//!
//! `check` pushes a known type into a raw term; `infer` synthesizes one. Both
//! return the elaborated core term. The judgements are spelled out as spec
//! functions, which the executable code is proved to compute.
use crate::binder::{
    close_term, close_value, embed_value, fresh, fresh_above, gen_raw, gen_term, gen_value,
    lemma_raw_open_size, max_u64, open_raw, open_term, open_value, raw_at, raw_gen, raw_open,
    term_close, term_gen, term_open, value_close, value_gen, value_open, value_to_term,
};
use crate::context::{ctx_gen, extend, lookup, Binder, Context};
use crate::equality::{
    constant_eq, ctx_alpha_eq, lemma_ctx_gen_alpha, lemma_lookup_alpha, lemma_raw_gen_alpha,
    lemma_raw_open_alpha, lemma_term_close_alpha, lemma_term_gen_alpha, lemma_term_open_alpha,
    lemma_value_alpha_congruence, lemma_value_close_alpha, lemma_value_gen_alpha,
    lemma_value_open_alpha, lemma_value_to_term_alpha, raw_alpha_eq, raw_constant_eq,
    term_alpha_eq, value_alpha_eq,
};
use crate::errors::TypeError;
use crate::normalize::{eval, lemma_normalize_respects_alpha, normalize, STEP_LIMIT};
use crate::syntax::{
    level_max, level_succ, raw_size, raw_span, term_at, value_at, Constant, FloatLiteral, Level,
    Name, RawConstant, RawTerm, SourceMeta, Term, Value, Var,
};
use std::rc::Rc;
use vstd::prelude::*;

verus! {

/// Opening the body of a binder yields a term smaller than the binder.
proof fn lemma_scope_body_size(r: RawTerm)
    ensures
        match r {
            RawTerm::Pi(_, _, _, b) => forall|k: u64, x: Name|
                #[trigger] raw_size(raw_open(*b, k, x)) < raw_size(r),
            RawTerm::Lam(_, _, _, b) => forall|k: u64, x: Name|
                #[trigger] raw_size(raw_open(*b, k, x)) < raw_size(r),
            _ => true,
        },
{
    match r {
        RawTerm::Pi(_, _, _, b) => {
            let bt = raw_at(b);
            assert forall|k: u64, x: Name| #[trigger]
                raw_size(raw_open(bt, k, x)) == raw_size(bt) by {
                lemma_raw_open_size(bt, k, x);
            }
        },
        RawTerm::Lam(_, _, _, b) => {
            let bt = raw_at(b);
            assert forall|k: u64, x: Name| #[trigger]
                raw_size(raw_open(bt, k, x)) == raw_size(bt) by {
                lemma_raw_open_size(bt, k, x);
            }
        },
        _ => {},
    }
}

pub open spec fn raw_of(r: &Rc<RawTerm>) -> RawTerm {
    **r
}

/// A generic literal pushed into a primitive type: integers wrap to the
/// width of the type; float types record the literal they are converted from.
pub open spec fn coerce_constant(c: RawConstant, ty: Constant) -> Option<Constant> {
    match (c, ty) {
        (RawConstant::Int(v), Constant::U8Type) => Some(Constant::U8(v as u8)),
        (RawConstant::Int(v), Constant::U16Type) => Some(Constant::U16(v as u16)),
        (RawConstant::Int(v), Constant::U32Type) => Some(Constant::U32(v as u32)),
        (RawConstant::Int(v), Constant::U64Type) => Some(Constant::U64(v)),
        (RawConstant::Int(v), Constant::I8Type) => Some(Constant::I8(v as i8)),
        (RawConstant::Int(v), Constant::I16Type) => Some(Constant::I16(v as i16)),
        (RawConstant::Int(v), Constant::I32Type) => Some(Constant::I32(v as i32)),
        (RawConstant::Int(v), Constant::I64Type) => Some(Constant::I64(v as i64)),
        (RawConstant::Int(v), Constant::F32Type) => Some(Constant::F32(FloatLiteral::Int(v))),
        (RawConstant::Int(v), Constant::F64Type) => Some(Constant::F64(FloatLiteral::Int(v))),
        (RawConstant::Float(v), Constant::F32Type) => Some(Constant::F32(FloatLiteral::Float(v))),
        (RawConstant::Float(v), Constant::F64Type) => Some(Constant::F64(FloatLiteral::Float(v))),
        _ => None,
    }
}

/// The core constant naming a primitive type.
pub open spec fn primitive_type(c: RawConstant) -> Option<Constant> {
    match c {
        RawConstant::StringType => Some(Constant::StringType),
        RawConstant::CharType => Some(Constant::CharType),
        RawConstant::U8Type => Some(Constant::U8Type),
        RawConstant::U16Type => Some(Constant::U16Type),
        RawConstant::U32Type => Some(Constant::U32Type),
        RawConstant::U64Type => Some(Constant::U64Type),
        RawConstant::I8Type => Some(Constant::I8Type),
        RawConstant::I16Type => Some(Constant::I16Type),
        RawConstant::I32Type => Some(Constant::I32Type),
        RawConstant::I64Type => Some(Constant::I64Type),
        RawConstant::F32Type => Some(Constant::F32Type),
        RawConstant::F64Type => Some(Constant::F64Type),
        _ => None,
    }
}

/// The type a raw constant synthesizes, with its elaborated form.
pub open spec fn infer_constant(m: SourceMeta, c: RawConstant) -> Result<
    (Rc<Term>, Rc<Value>),
    TypeError,
> {
    match c {
        RawConstant::String(s) => Ok(
            (
                Rc::new(Term::Constant(m, Constant::String(s))),
                Rc::new(Value::Constant(Constant::StringType)),
            ),
        ),
        RawConstant::Char(ch) => Ok(
            (
                Rc::new(Term::Constant(m, Constant::Char(ch))),
                Rc::new(Value::Constant(Constant::CharType)),
            ),
        ),
        RawConstant::Int(_) => Err(TypeError::AmbiguousIntLiteral { span: m.span }),
        RawConstant::Float(_) => Err(TypeError::AmbiguousFloatLiteral { span: m.span }),
        _ => Ok(
            (
                Rc::new(Term::Constant(m, primitive_type(c).unwrap())),
                Rc::new(Value::Universe(Level(0))),
            ),
        ),
    }
}

/// `Γ ⊢ r ↓ V ⤳ t`: the elaborated term and synthesized type of `r`.
pub open spec fn infer_spec(ctx: Context, r: RawTerm) -> Result<(Rc<Term>, Rc<Value>), TypeError>
    decreases raw_size(r), 0nat,
    via infer_spec_decreases
{
    match r {
        RawTerm::Ann(m, e, ty) => match infer_universe_spec(ctx, *ty) {
            Err(err) => Err(err),
            Ok((elab_ty, _)) => match eval(ctx, *elab_ty, STEP_LIMIT as nat) {
                Err(err) => Err(TypeError::Internal(err)),
                Ok(simp_ty) => match check_spec(ctx, *e, *simp_ty) {
                    Err(err) => Err(err),
                    Ok(elab_e) => Ok((Rc::new(Term::Ann(m, elab_e, elab_ty)), simp_ty)),
                },
            },
        },
        RawTerm::Universe(m, l) => Ok(
            (Rc::new(Term::Universe(m, l)), Rc::new(Value::Universe(level_succ(l)))),
        ),
        RawTerm::Hole(m) => Err(TypeError::UnableToElaborateHole { span: m.span, expected: None }),
        RawTerm::Constant(m, c) => infer_constant(m, c),
        RawTerm::Var(m, Var::Free(x)) => match lookup(ctx, x) {
            Some(Binder::Lam { ann }) => Ok((Rc::new(Term::Var(m, Var::Free(x))), ann)),
            Some(Binder::Pi { ann }) => Ok((Rc::new(Term::Var(m, Var::Free(x))), ann)),
            Some(Binder::Let { ann, .. }) => Ok((Rc::new(Term::Var(m, Var::Free(x))), ann)),
            None => Err(TypeError::UndefinedName { var_span: m.span, name: x }),
        },
        RawTerm::Var(m, Var::Bound(n, i)) => Err(
            TypeError::Internal(
                crate::errors::InternalError::UnsubstitutedDebruijnIndex {
                    span: m.span,
                    name: n,
                    index: i,
                },
            ),
        ),
        RawTerm::Pi(m, n, a, b) => {
            let x = fresh_above(max_u64(ctx_gen(ctx), raw_gen(r)));
            match infer_universe_spec(ctx, *a) {
                Err(err) => Err(err),
                Ok((elab_a, level_a)) => match eval(ctx, *elab_a, STEP_LIMIT as nat) {
                    Err(err) => Err(TypeError::Internal(err)),
                    Ok(simp_a) => match infer_universe_spec(
                        extend(ctx, x, Binder::Pi { ann: simp_a }),
                        raw_open(*b, 0, x),
                    ) {
                        Err(err) => Err(err),
                        Ok((elab_b, level_b)) => Ok(
                            (
                                Rc::new(
                                    Term::Pi(m, n, elab_a, Rc::new(term_close(*elab_b, 0, x, n))),
                                ),
                                Rc::new(Value::Universe(level_max(level_a, level_b))),
                            ),
                        ),
                    },
                },
            }
        },
        RawTerm::Lam(m, n, a, b) => match *a {
            RawTerm::Hole(hm) => Err(
                TypeError::FunctionParamNeedsAnnotation {
                    param_span: hm.span,
                    var_span: None,
                    name: n,
                },
            ),
            _ => {
                let x = fresh_above(max_u64(ctx_gen(ctx), raw_gen(r)));
                match infer_universe_spec(ctx, *a) {
                    Err(err) => Err(err),
                    Ok((lam_ann, _)) => match eval(ctx, *lam_ann, STEP_LIMIT as nat) {
                        Err(err) => Err(TypeError::Internal(err)),
                        Ok(pi_ann) => match infer_spec(
                            extend(ctx, x, Binder::Lam { ann: pi_ann }),
                            raw_open(*b, 0, x),
                        ) {
                            Err(err) => Err(err),
                            Ok((lam_body, pi_body)) => Ok(
                                (
                                    Rc::new(
                                        Term::Lam(
                                            m,
                                            n,
                                            lam_ann,
                                            Rc::new(term_close(*lam_body, 0, x, n)),
                                        ),
                                    ),
                                    Rc::new(
                                        Value::Pi(
                                            n,
                                            pi_ann,
                                            Rc::new(value_close(*pi_body, 0, x, n)),
                                        ),
                                    ),
                                ),
                            ),
                        },
                    },
                }
            },
        },
        RawTerm::App(m, fe, ae) => match infer_spec(ctx, *fe) {
            Err(err) => Err(err),
            Ok((elab_f, fn_ty)) => match *fn_ty {
                Value::Pi(_, param_ann, body) => match check_spec(ctx, *ae, *param_ann) {
                    Err(err) => Err(err),
                    Ok(elab_a) => {
                        let bt = value_to_term(*body, m);
                        let x = fresh_above(
                            max_u64(ctx_gen(ctx), max_u64(term_gen(bt), term_gen(*elab_a))),
                        );
                        match eval(
                            extend(ctx, x, Binder::Let { ann: param_ann, value: elab_a }),
                            term_open(bt, 0, x),
                            STEP_LIMIT as nat,
                        ) {
                            Err(err) => Err(TypeError::Internal(err)),
                            Ok(res_ty) => Ok((Rc::new(Term::App(m, elab_f, elab_a)), res_ty)),
                        }
                    },
                },
                _ => Err(
                    TypeError::ArgAppliedToNonFunction {
                        fn_span: raw_span(*fe),
                        arg_span: raw_span(*ae),
                        found: fn_ty,
                    },
                ),
            },
        },
    }
}

/// `Γ ⊢ R ↓ Typeᵢ ⤳ T`: `R` elaborated, with the level of the universe it lives in.
pub open spec fn infer_universe_spec(ctx: Context, r: RawTerm) -> Result<
    (Rc<Term>, Level),
    TypeError,
>
    decreases raw_size(r), 1nat,
{
    match infer_spec(ctx, r) {
        Err(err) => Err(err),
        Ok((elab, ty)) => match *ty {
            Value::Universe(l) => Ok((elab, l)),
            _ => Err(TypeError::ExpectedUniverse { span: raw_span(r), found: ty }),
        },
    }
}

/// `Γ ⊢ r ↑ V ⤳ t`: `r` checked against `expected`, elaborated.
pub open spec fn check_spec(ctx: Context, r: RawTerm, expected: Value) -> Result<
    Rc<Term>,
    TypeError,
>
    decreases raw_size(r), 1nat,
    via check_spec_decreases
{
    let by_inference = match infer_spec(ctx, r) {
        Err(err) => Err(err),
        Ok((elab, ty)) => if value_alpha_eq(*ty, expected) {
            Ok(elab)
        } else {
            Err(TypeError::Mismatch { span: raw_span(r), found: ty, expected: Rc::new(expected) })
        },
    };
    match r {
        RawTerm::Lam(m, n, a, b) => match expected {
            Value::Pi(_, pi_ann, pi_body) => match *a {
                RawTerm::Hole(_) => {
                    let x = fresh_above(
                        max_u64(ctx_gen(ctx), max_u64(raw_gen(r), value_gen(expected))),
                    );
                    match check_spec(
                        extend(ctx, x, Binder::Pi { ann: pi_ann }),
                        raw_open(*b, 0, x),
                        value_open(*pi_body, 0, x),
                    ) {
                        Err(err) => Err(err),
                        Ok(body) => Ok(
                            Rc::new(
                                Term::Lam(
                                    m,
                                    n,
                                    Rc::new(value_to_term(*pi_ann, m)),
                                    Rc::new(term_close(*body, 0, x, n)),
                                ),
                            ),
                        ),
                    }
                },
                _ => by_inference,
            },
            _ => Err(TypeError::UnexpectedFunction { span: raw_span(r), expected: Rc::new(expected) }),
        },
        RawTerm::Constant(m, c) => match expected {
            Value::Constant(ty) => match coerce_constant(c, ty) {
                Some(k) => Ok(Rc::new(Term::Constant(m, k))),
                None => by_inference,
            },
            _ => by_inference,
        },
        RawTerm::Hole(m) => Err(
            TypeError::UnableToElaborateHole { span: m.span, expected: Some(Rc::new(expected)) },
        ),
        _ => by_inference,
    }
}

#[via_fn]
proof fn infer_spec_decreases(ctx: Context, r: RawTerm) {
    lemma_scope_body_size(r);
}

#[via_fn]
proof fn check_spec_decreases(ctx: Context, r: RawTerm, expected: Value) {
    lemma_scope_body_size(r);
}

fn coerce(c: &RawConstant, ty: &Constant) -> (r: Option<Constant>)
    ensures
        r == coerce_constant(*c, *ty),
{
    match (c, ty) {
        (RawConstant::Int(v), Constant::U8Type) => Some(Constant::U8(*v as u8)),
        (RawConstant::Int(v), Constant::U16Type) => Some(Constant::U16(*v as u16)),
        (RawConstant::Int(v), Constant::U32Type) => Some(Constant::U32(*v as u32)),
        (RawConstant::Int(v), Constant::U64Type) => Some(Constant::U64(*v)),
        (RawConstant::Int(v), Constant::I8Type) => Some(Constant::I8(*v as i8)),
        (RawConstant::Int(v), Constant::I16Type) => Some(Constant::I16(*v as i16)),
        (RawConstant::Int(v), Constant::I32Type) => Some(Constant::I32(*v as i32)),
        (RawConstant::Int(v), Constant::I64Type) => Some(Constant::I64(*v as i64)),
        (RawConstant::Int(v), Constant::F32Type) => Some(Constant::F32(FloatLiteral::Int(*v))),
        (RawConstant::Int(v), Constant::F64Type) => Some(Constant::F64(FloatLiteral::Int(*v))),
        (RawConstant::Float(v), Constant::F32Type) => Some(
            Constant::F32(FloatLiteral::Float(*v)),
        ),
        (RawConstant::Float(v), Constant::F64Type) => Some(
            Constant::F64(FloatLiteral::Float(*v)),
        ),
        _ => None,
    }
}

fn infer_const(m: SourceMeta, c: &RawConstant) -> (r: Result<(Rc<Term>, Rc<Value>), TypeError>)
    ensures
        r == infer_constant(m, *c),
{
    let ty_const = match c {
        RawConstant::String(s) => {
            return Ok(
                (
                    Rc::new(Term::Constant(m, Constant::String(s.clone()))),
                    Rc::new(Value::Constant(Constant::StringType)),
                ),
            );
        },
        RawConstant::Char(ch) => {
            return Ok(
                (
                    Rc::new(Term::Constant(m, Constant::Char(*ch))),
                    Rc::new(Value::Constant(Constant::CharType)),
                ),
            );
        },
        RawConstant::Int(_) => {
            return Err(TypeError::AmbiguousIntLiteral { span: m.span });
        },
        RawConstant::Float(_) => {
            return Err(TypeError::AmbiguousFloatLiteral { span: m.span });
        },
        RawConstant::StringType => Constant::StringType,
        RawConstant::CharType => Constant::CharType,
        RawConstant::U8Type => Constant::U8Type,
        RawConstant::U16Type => Constant::U16Type,
        RawConstant::U32Type => Constant::U32Type,
        RawConstant::U64Type => Constant::U64Type,
        RawConstant::I8Type => Constant::I8Type,
        RawConstant::I16Type => Constant::I16Type,
        RawConstant::I32Type => Constant::I32Type,
        RawConstant::I64Type => Constant::I64Type,
        RawConstant::F32Type => Constant::F32Type,
        RawConstant::F64Type => Constant::F64Type,
    };
    Ok((Rc::new(Term::Constant(m, ty_const)), Rc::new(Value::Universe(Level(0)))))
}

fn max3(a: u64, b: u64, c: u64) -> (r: u64)
    ensures
        r == max_u64(a, max_u64(b, c)),
{
    let bc = if b >= c { b } else { c };
    if a >= bc { a } else { bc }
}

/// Type inference: under `context`, synthesize a type for `term` and return
/// its elaborated form together with that type.
pub fn infer(context: &Context, term: &Rc<RawTerm>) -> (r: Result<(Rc<Term>, Rc<Value>), TypeError>)
    ensures
        r == infer_spec(*context, **term),
    decreases raw_size(**term), 0nat,
{
    proof {
        lemma_scope_body_size(raw_of(term));
    }
    match &**term {
        RawTerm::Ann(m, e, ty) => {
            let (elab_ty, _) = infer_universe(context, ty)?;
            let simp_ty = match normalize(context, &elab_ty) {
                Ok(v) => v,
                Err(err) => return Err(TypeError::Internal(err)),
            };
            let elab_e = check(context, e, &simp_ty)?;
            Ok((Rc::new(Term::Ann(*m, elab_e, elab_ty)), simp_ty))
        },
        RawTerm::Universe(m, l) => Ok(
            (Rc::new(Term::Universe(*m, *l)), Rc::new(Value::Universe(l.succ()))),
        ),
        RawTerm::Hole(m) => Err(TypeError::UnableToElaborateHole { span: m.span, expected: None }),
        RawTerm::Constant(m, c) => infer_const(*m, c),
        RawTerm::Var(m, Var::Free(x)) => match context.lookup_binder(x) {
            Some(Binder::Lam { ann }) => Ok((Rc::new(Term::Var(*m, Var::Free(x.copy()))), ann)),
            Some(Binder::Pi { ann }) => Ok((Rc::new(Term::Var(*m, Var::Free(x.copy()))), ann)),
            Some(Binder::Let { ann, .. }) => Ok(
                (Rc::new(Term::Var(*m, Var::Free(x.copy()))), ann),
            ),
            None => Err(TypeError::UndefinedName { var_span: m.span, name: x.copy() }),
        },
        RawTerm::Var(m, Var::Bound(n, i)) => Err(
            TypeError::Internal(
                crate::errors::InternalError::UnsubstitutedDebruijnIndex {
                    span: m.span,
                    name: n.copy(),
                    index: *i,
                },
            ),
        ),
        RawTerm::Pi(m, n, a, b) => {
            let g = context.max_gen();
            let h = gen_raw(term);
            let x = fresh(if g >= h { g } else { h });
            let (elab_a, level_a) = infer_universe(context, a)?;
            let simp_a = match normalize(context, &elab_a) {
                Ok(v) => v,
                Err(err) => return Err(TypeError::Internal(err)),
            };
            let body_context = context.extend_pi(x.copy(), simp_a);
            let (elab_b, level_b) = infer_universe(&body_context, &open_raw(b, 0, &x))?;
            Ok(
                (
                    Rc::new(Term::Pi(*m, n.copy(), elab_a, close_term(&elab_b, 0, &x, n))),
                    Rc::new(Value::Universe(level_a.max(level_b))),
                ),
            )
        },
        RawTerm::Lam(m, n, a, b) => {
            if let RawTerm::Hole(hm) = &**a {
                return Err(
                    TypeError::FunctionParamNeedsAnnotation {
                        param_span: hm.span,
                        var_span: None,
                        name: n.copy(),
                    },
                );
            }
            let g = context.max_gen();
            let h = gen_raw(term);
            let x = fresh(if g >= h { g } else { h });
            let (lam_ann, _) = infer_universe(context, a)?;
            let pi_ann = match normalize(context, &lam_ann) {
                Ok(v) => v,
                Err(err) => return Err(TypeError::Internal(err)),
            };
            let body_context = context.extend_lam(x.copy(), pi_ann.clone());
            let (lam_body, pi_body) = infer(&body_context, &open_raw(b, 0, &x))?;
            Ok(
                (
                    Rc::new(Term::Lam(*m, n.copy(), lam_ann, close_term(&lam_body, 0, &x, n))),
                    Rc::new(Value::Pi(n.copy(), pi_ann, close_value(&pi_body, 0, &x, n))),
                ),
            )
        },
        RawTerm::App(m, fe, ae) => {
            let (elab_f, fn_ty) = infer(context, fe)?;
            match &*fn_ty {
                Value::Pi(_, param_ann, body) => {
                    let elab_a = check(context, ae, param_ann)?;
                    let bt = embed_value(body, *m);
                    let x = fresh(max3(context.max_gen(), gen_term(&bt), gen_term(&elab_a)));
                    let body_context = context.extend_let(
                        x.copy(),
                        param_ann.clone(),
                        elab_a.clone(),
                    );
                    let res_ty = match normalize(&body_context, &open_term(&bt, 0, &x)) {
                        Ok(v) => v,
                        Err(err) => return Err(TypeError::Internal(err)),
                    };
                    Ok((Rc::new(Term::App(*m, elab_f, elab_a)), res_ty))
                },
                _ => Err(
                    TypeError::ArgAppliedToNonFunction {
                        fn_span: fe.span(),
                        arg_span: ae.span(),
                        found: fn_ty.clone(),
                    },
                ),
            }
        },
    }
}

/// Infer the type of `term` and demand that it is a universe; return the
/// elaborated term and the universe's level.
pub fn infer_universe(context: &Context, term: &Rc<RawTerm>) -> (r: Result<
    (Rc<Term>, Level),
    TypeError,
>)
    ensures
        r == infer_universe_spec(*context, **term),
    decreases raw_size(**term), 1nat,
{
    let (elab, ty) = infer(context, term)?;
    match &*ty {
        Value::Universe(l) => Ok((elab, *l)),
        _ => Err(TypeError::ExpectedUniverse { span: term.span(), found: ty.clone() }),
    }
}

/// Type checking: under `context`, check that `term` has type `expected`
/// and return its elaborated form.
pub fn check(context: &Context, term: &Rc<RawTerm>, expected: &Rc<Value>) -> (r: Result<
    Rc<Term>,
    TypeError,
>)
    ensures
        r == check_spec(*context, **term, **expected),
    decreases raw_size(**term), 1nat,
{
    proof {
        lemma_scope_body_size(raw_of(term));
    }
    match (&**term, &**expected) {
        (RawTerm::Lam(m, n, a, b), Value::Pi(_, pi_ann, pi_body)) => {
            if let RawTerm::Hole(_) = &**a {
                let x = fresh(max3(context.max_gen(), gen_raw(term), gen_value(expected)));
                let body_context = context.extend_pi(x.copy(), pi_ann.clone());
                let body = check(&body_context, &open_raw(b, 0, &x), &open_value(pi_body, 0, &x))?;
                return Ok(
                    Rc::new(Term::Lam(*m, n.copy(), embed_value(pi_ann, *m), close_term(&body, 0, &x, n))),
                );
            }
        },
        (RawTerm::Constant(m, c), Value::Constant(ty)) => {
            if let Some(k) = coerce(c, ty) {
                return Ok(Rc::new(Term::Constant(*m, k)));
            }
        },
        (RawTerm::Lam(..), _) => {
            return Err(TypeError::UnexpectedFunction { span: term.span(), expected: expected.clone() });
        },
        (RawTerm::Hole(m), _) => {
            return Err(
                TypeError::UnableToElaborateHole { span: m.span, expected: Some(expected.clone()) },
            );
        },
        _ => {},
    }
    let (elab, ty) = infer(context, term)?;
    if ty.alpha_eq(expected) {
        Ok(elab)
    } else {
        Err(TypeError::Mismatch { span: term.span(), found: ty, expected: expected.clone() })
    }
}

/// The free name that inference opens the scope of the binder `r` with.
pub open spec fn scope_name(ctx: Context, r: RawTerm) -> Name {
    fresh_above(max_u64(ctx_gen(ctx), raw_gen(r)))
}

/// `Typeᵢ` synthesizes `Typeᵢ₊₁`.
pub proof fn lemma_universe_type(ctx: Context, m: SourceMeta, l: Level)
    requires
        l.0 < u64::MAX,
    ensures
        infer_spec(ctx, RawTerm::Universe(m, l)) == Ok::<(Rc<Term>, Rc<Value>), TypeError>(
            (Rc::new(Term::Universe(m, l)), Rc::new(Value::Universe(Level((l.0 + 1) as u64)))),
        ),
{
}

/// A Π-type that synthesizes a type lives in `Typeₖ` with `k = max(i, j)`,
/// where `Typeᵢ` is the universe of its domain and `Typeⱼ` that of its
/// codomain, under the binder the Π-type introduces.
pub proof fn lemma_pi_level(
    ctx: Context,
    m: SourceMeta,
    n: Name,
    a: Rc<RawTerm>,
    b: Rc<RawTerm>,
)
    ensures
        match infer_spec(ctx, RawTerm::Pi(m, n, a, b)) {
            Ok((_, ty)) => match infer_universe_spec(ctx, *a) {
                Ok((elab_a, i)) => match eval(ctx, *elab_a, STEP_LIMIT as nat) {
                    Ok(dom) => match infer_universe_spec(
                        extend(
                            ctx,
                            scope_name(ctx, RawTerm::Pi(m, n, a, b)),
                            Binder::Pi { ann: dom },
                        ),
                        raw_open(*b, 0, scope_name(ctx, RawTerm::Pi(m, n, a, b))),
                    ) {
                        Ok((_, j)) => *ty == Value::Universe(level_max(i, j)),
                        Err(_) => false,
                    },
                    Err(_) => false,
                },
                Err(_) => false,
            },
            Err(_) => true,
        },
{
}

/// Both fail, or both give α-equivalent elaborated terms and types.
pub open spec fn inferred_alpha_eq(
    a: Result<(Rc<Term>, Rc<Value>), TypeError>,
    b: Result<(Rc<Term>, Rc<Value>), TypeError>,
) -> bool {
    match (a, b) {
        (Ok((t1, v1)), Ok((t2, v2))) => term_alpha_eq(*t1, *t2) && value_alpha_eq(*v1, *v2),
        (Err(_), Err(_)) => true,
        _ => false,
    }
}

pub open spec fn universe_alpha_eq(
    a: Result<(Rc<Term>, Level), TypeError>,
    b: Result<(Rc<Term>, Level), TypeError>,
) -> bool {
    match (a, b) {
        (Ok((t1, l1)), Ok((t2, l2))) => term_alpha_eq(*t1, *t2) && l1 == l2,
        (Err(_), Err(_)) => true,
        _ => false,
    }
}

/// Both fail, or both give α-equivalent elaborated terms.
pub open spec fn checked_alpha_eq(a: Result<Rc<Term>, TypeError>, b: Result<Rc<Term>, TypeError>) -> bool {
    match (a, b) {
        (Ok(t1), Ok(t2)) => term_alpha_eq(*t1, *t2),
        (Err(_), Err(_)) => true,
        _ => false,
    }
}

proof fn lemma_infer_alpha(c1: Context, c2: Context, r1: RawTerm, r2: RawTerm)
    requires
        ctx_alpha_eq(c1, c2),
        raw_alpha_eq(r1, r2),
    ensures
        inferred_alpha_eq(infer_spec(c1, r1), infer_spec(c2, r2)),
    decreases raw_size(r1), 0nat,
{
    lemma_scope_body_size(r1);
    lemma_ctx_gen_alpha(c1, c2);
    lemma_raw_gen_alpha(r1, r2);
    let x = fresh_above(max_u64(ctx_gen(c1), raw_gen(r1)));
    let fuel = STEP_LIMIT as nat;
    match (r1, r2) {
        (RawTerm::Ann(_, e1, ty1), RawTerm::Ann(_, e2, ty2)) => {
            lemma_infer_universe_alpha(c1, c2, raw_at(ty1), raw_at(ty2));
            match (infer_universe_spec(c1, raw_at(ty1)), infer_universe_spec(c2, raw_at(ty2))) {
                (Ok((et1, _)), Ok((et2, _))) => {
                    lemma_normalize_respects_alpha(c1, c2, term_at(et1), term_at(et2), fuel);
                    match (eval(c1, term_at(et1), fuel), eval(c2, term_at(et2), fuel)) {
                        (Ok(s1), Ok(s2)) => {
                            lemma_check_alpha(c1, c2, raw_at(e1), raw_at(e2), value_at(s1), value_at(s2));
                        },
                        _ => {},
                    }
                },
                _ => {},
            }
        },
        (RawTerm::Var(_, Var::Free(x1)), RawTerm::Var(_, Var::Free(x2))) => {
            lemma_lookup_alpha(c1, c2, x1, x2);
        },
        (RawTerm::Pi(_, n1, a1, b1), RawTerm::Pi(_, n2, a2, b2)) => {
            lemma_infer_universe_alpha(c1, c2, raw_at(a1), raw_at(a2));
            match (infer_universe_spec(c1, raw_at(a1)), infer_universe_spec(c2, raw_at(a2))) {
                (Ok((ea1, _)), Ok((ea2, _))) => {
                    lemma_normalize_respects_alpha(c1, c2, term_at(ea1), term_at(ea2), fuel);
                    match (eval(c1, term_at(ea1), fuel), eval(c2, term_at(ea2), fuel)) {
                        (Ok(s1), Ok(s2)) => {
                            let d1 = extend(c1, x, Binder::Pi { ann: s1 });
                            let d2 = extend(c2, x, Binder::Pi { ann: s2 });
                            let o1 = raw_open(raw_at(b1), 0, x);
                            let o2 = raw_open(raw_at(b2), 0, x);
                            lemma_raw_open_alpha(raw_at(b1), raw_at(b2), 0, x);
                            lemma_infer_universe_alpha(d1, d2, o1, o2);
                            match (infer_universe_spec(d1, o1), infer_universe_spec(d2, o2)) {
                                (Ok((eb1, _)), Ok((eb2, _))) => {
                                    lemma_term_close_alpha(term_at(eb1), term_at(eb2), 0, x, n1, n2);
                                },
                                _ => {},
                            }
                        },
                        _ => {},
                    }
                },
                _ => {},
            }
        },
        (RawTerm::Lam(_, n1, a1, b1), RawTerm::Lam(_, n2, a2, b2)) => {
            lemma_infer_universe_alpha(c1, c2, raw_at(a1), raw_at(a2));
            match (infer_universe_spec(c1, raw_at(a1)), infer_universe_spec(c2, raw_at(a2))) {
                (Ok((ea1, _)), Ok((ea2, _))) => {
                    lemma_normalize_respects_alpha(c1, c2, term_at(ea1), term_at(ea2), fuel);
                    match (eval(c1, term_at(ea1), fuel), eval(c2, term_at(ea2), fuel)) {
                        (Ok(s1), Ok(s2)) => {
                            let d1 = extend(c1, x, Binder::Lam { ann: s1 });
                            let d2 = extend(c2, x, Binder::Lam { ann: s2 });
                            let o1 = raw_open(raw_at(b1), 0, x);
                            let o2 = raw_open(raw_at(b2), 0, x);
                            lemma_raw_open_alpha(raw_at(b1), raw_at(b2), 0, x);
                            lemma_infer_alpha(d1, d2, o1, o2);
                            match (infer_spec(d1, o1), infer_spec(d2, o2)) {
                                (Ok((eb1, tb1)), Ok((eb2, tb2))) => {
                                    lemma_term_close_alpha(term_at(eb1), term_at(eb2), 0, x, n1, n2);
                                    lemma_value_close_alpha(value_at(tb1), value_at(tb2), 0, x, n1, n2);
                                },
                                _ => {},
                            }
                        },
                        _ => {},
                    }
                },
                _ => {},
            }
        },
        (RawTerm::App(m1, f1, a1), RawTerm::App(m2, f2, a2)) => {
            lemma_infer_alpha(c1, c2, raw_at(f1), raw_at(f2));
            match (infer_spec(c1, raw_at(f1)), infer_spec(c2, raw_at(f2))) {
                (Ok((_, ft1)), Ok((_, ft2))) => match (value_at(ft1), value_at(ft2)) {
                    (Value::Pi(_, pa1, pb1), Value::Pi(_, pa2, pb2)) => {
                        lemma_check_alpha(c1, c2, raw_at(a1), raw_at(a2), value_at(pa1), value_at(pa2));
                        match (
                            check_spec(c1, raw_at(a1), value_at(pa1)),
                            check_spec(c2, raw_at(a2), value_at(pa2)),
                        ) {
                            (Ok(ea1), Ok(ea2)) => {
                                let bt1 = value_to_term(value_at(pb1), m1);
                                let bt2 = value_to_term(value_at(pb2), m2);
                                lemma_value_to_term_alpha(value_at(pb1), value_at(pb2), m1, m2);
                                lemma_term_gen_alpha(bt1, bt2);
                                lemma_term_gen_alpha(term_at(ea1), term_at(ea2));
                                let y = fresh_above(
                                    max_u64(ctx_gen(c1), max_u64(term_gen(bt1), term_gen(term_at(ea1)))),
                                );
                                lemma_term_open_alpha(bt1, bt2, 0, y);
                                lemma_normalize_respects_alpha(
                                    extend(c1, y, Binder::Let { ann: pa1, value: ea1 }),
                                    extend(c2, y, Binder::Let { ann: pa2, value: ea2 }),
                                    term_open(bt1, 0, y),
                                    term_open(bt2, 0, y),
                                    fuel,
                                );
                            },
                            _ => {},
                        }
                    },
                    _ => {},
                },
                _ => {},
            }
        },
        _ => {},
    }
}

proof fn lemma_infer_universe_alpha(c1: Context, c2: Context, r1: RawTerm, r2: RawTerm)
    requires
        ctx_alpha_eq(c1, c2),
        raw_alpha_eq(r1, r2),
    ensures
        universe_alpha_eq(infer_universe_spec(c1, r1), infer_universe_spec(c2, r2)),
    decreases raw_size(r1), 1nat,
{
    lemma_infer_alpha(c1, c2, r1, r2);
}

proof fn lemma_coerce_alpha(k1: RawConstant, k2: RawConstant, t1: Constant, t2: Constant)
    requires
        raw_constant_eq(k1, k2),
        constant_eq(t1, t2),
    ensures
        match (coerce_constant(k1, t1), coerce_constant(k2, t2)) {
            (None, None) => true,
            (Some(a), Some(b)) => constant_eq(a, b),
            _ => false,
        },
{
    match (k1, t1) {
        (RawConstant::String(_), _) => {},
        (_, Constant::String(_)) => {},
        _ => {
            assert(k1 == k2);
            assert(t1 == t2);
        },
    }
}

proof fn lemma_check_alpha(c1: Context, c2: Context, r1: RawTerm, r2: RawTerm, e1: Value, e2: Value)
    requires
        ctx_alpha_eq(c1, c2),
        raw_alpha_eq(r1, r2),
        value_alpha_eq(e1, e2),
    ensures
        checked_alpha_eq(check_spec(c1, r1, e1), check_spec(c2, r2, e2)),
    decreases raw_size(r1), 1nat,
{
    lemma_scope_body_size(r1);
    lemma_infer_alpha(c1, c2, r1, r2);
    match (infer_spec(c1, r1), infer_spec(c2, r2)) {
        (Ok((_, ty1)), Ok((_, ty2))) => {
            lemma_value_alpha_congruence(value_at(ty1), value_at(ty2), e1, e2);
        },
        _ => {},
    }
    match (r1, r2) {
        (RawTerm::Lam(m1, n1, a1, b1), RawTerm::Lam(m2, n2, a2, b2)) => match (e1, e2) {
            (Value::Pi(_, pa1, pb1), Value::Pi(_, pa2, pb2)) => {
                reveal_with_fuel(raw_alpha_eq, 2);
                lemma_ctx_gen_alpha(c1, c2);
                lemma_raw_gen_alpha(r1, r2);
                lemma_value_gen_alpha(e1, e2);
                let x = fresh_above(max_u64(ctx_gen(c1), max_u64(raw_gen(r1), value_gen(e1))));
                let d1 = extend(c1, x, Binder::Pi { ann: pa1 });
                let d2 = extend(c2, x, Binder::Pi { ann: pa2 });
                let o1 = raw_open(raw_at(b1), 0, x);
                let o2 = raw_open(raw_at(b2), 0, x);
                lemma_raw_open_alpha(raw_at(b1), raw_at(b2), 0, x);
                lemma_value_open_alpha(value_at(pb1), value_at(pb2), 0, x);
                lemma_check_alpha(d1, d2, o1, o2, value_open(value_at(pb1), 0, x), value_open(value_at(pb2), 0, x));
                match (
                    check_spec(d1, o1, value_open(value_at(pb1), 0, x)),
                    check_spec(d2, o2, value_open(value_at(pb2), 0, x)),
                ) {
                    (Ok(bd1), Ok(bd2)) => {
                        lemma_term_close_alpha(term_at(bd1), term_at(bd2), 0, x, n1, n2);
                        lemma_value_to_term_alpha(value_at(pa1), value_at(pa2), m1, m2);
                    },
                    _ => {},
                }
            },
            _ => {},
        },
        (RawTerm::Constant(_, k1), RawTerm::Constant(_, k2)) => match (e1, e2) {
            (Value::Constant(t1), Value::Constant(t2)) => lemma_coerce_alpha(k1, k2, t1, t2),
            _ => {},
        },
        _ => {},
    }
}

/// Renaming bound variables consistently does not change what inference
/// gives: α-equivalent raw terms, in α-equivalent contexts, both fail or both
/// elaborate to α-equivalent terms with α-equivalent types. The same holds of
/// checking against α-equivalent types.
pub proof fn lemma_infer_respects_alpha(
    c1: Context,
    c2: Context,
    r1: RawTerm,
    r2: RawTerm,
    e1: Value,
    e2: Value,
)
    requires
        ctx_alpha_eq(c1, c2),
        raw_alpha_eq(r1, r2),
        value_alpha_eq(e1, e2),
    ensures
        inferred_alpha_eq(infer_spec(c1, r1), infer_spec(c2, r2)),
        checked_alpha_eq(check_spec(c1, r1, e1), check_spec(c2, r2, e2)),
{
    lemma_infer_alpha(c1, c2, r1, r2);
    lemma_check_alpha(c1, c2, r1, r2, e1, e2);
}

} // verus!
