use codespan::{ByteIndex, ByteSpan};
use pikelet::context::{Binder, Context};
use pikelet::errors::{InternalError, TypeError};
use pikelet::module::{check_module, RawDefinition, RawModule};
use pikelet::normalize::{normalize, normalize_in};
use pikelet::syntax::{
    Constant, FloatLiteral, Level, Name, Neutral, RawConstant, RawTerm, SourceMeta, Term, Value,
    Var,
};
use pikelet::typing::{check, infer, infer_universe};
use std::rc::Rc;

fn meta() -> SourceMeta {
    SourceMeta {
        span: ByteSpan::default(),
    }
}

fn meta_at(start: u32, end: u32) -> SourceMeta {
    SourceMeta {
        span: ByteSpan::new(ByteIndex(start), ByteIndex(end)),
    }
}

fn name(s: &str) -> Name {
    Name::User(String::from(s))
}

fn r_univ(l: u64) -> Rc<RawTerm> {
    Rc::new(RawTerm::Universe(meta(), Level(l)))
}

fn r_var(x: &str) -> Rc<RawTerm> {
    Rc::new(RawTerm::Var(meta(), Var::Free(name(x))))
}

fn r_hole() -> Rc<RawTerm> {
    Rc::new(RawTerm::Hole(meta()))
}

fn r_const(c: RawConstant) -> Rc<RawTerm> {
    Rc::new(RawTerm::Constant(meta(), c))
}

fn r_lam(x: &str, ann: Rc<RawTerm>, body: Rc<RawTerm>) -> Rc<RawTerm> {
    RawTerm::bind_lam(meta(), name(x), ann, &body)
}

fn r_lam_(x: &str, body: Rc<RawTerm>) -> Rc<RawTerm> {
    RawTerm::bind_lam(meta(), name(x), r_hole(), &body)
}

fn r_pi(x: &str, ann: Rc<RawTerm>, body: Rc<RawTerm>) -> Rc<RawTerm> {
    RawTerm::bind_pi(meta(), name(x), ann, &body)
}

fn r_arrow(a: Rc<RawTerm>, b: Rc<RawTerm>) -> Rc<RawTerm> {
    RawTerm::bind_pi(meta(), Name::Abstract, a, &b)
}

fn r_app(f: Rc<RawTerm>, a: Rc<RawTerm>) -> Rc<RawTerm> {
    Rc::new(RawTerm::App(meta(), f, a))
}

fn r_ann(e: Rc<RawTerm>, t: Rc<RawTerm>) -> Rc<RawTerm> {
    Rc::new(RawTerm::Ann(meta(), e, t))
}

fn c_univ(l: u64) -> Rc<Term> {
    Rc::new(Term::Universe(meta(), Level(l)))
}

fn c_var(x: &str) -> Rc<Term> {
    Rc::new(Term::Var(meta(), Var::Free(name(x))))
}

fn c_lam(x: &str, ann: Rc<Term>, body: Rc<Term>) -> Rc<Term> {
    Term::bind_lam(meta(), name(x), ann, &body)
}

fn c_pi(x: &str, ann: Rc<Term>, body: Rc<Term>) -> Rc<Term> {
    Term::bind_pi(meta(), name(x), ann, &body)
}

fn c_app(f: Rc<Term>, a: Rc<Term>) -> Rc<Term> {
    Rc::new(Term::App(meta(), f, a))
}

fn v_univ(l: u64) -> Rc<Value> {
    Rc::new(Value::Universe(Level(l)))
}

fn v_const(c: Constant) -> Rc<Value> {
    Rc::new(Value::Constant(c))
}

fn check_const(c: RawConstant, ty: Constant) -> Result<Rc<Term>, TypeError> {
    check(&Context::new(), &r_const(c), &v_const(ty))
}

fn elaborated_constant(t: Result<Rc<Term>, TypeError>) -> Constant {
    match t {
        Ok(t) => match &*t {
            Term::Constant(_, c) => c.copy(),
            _ => panic!("not a constant"),
        },
        Err(_) => panic!("check failed"),
    }
}

fn infer_type(ctx: &Context, r: &Rc<RawTerm>) -> Rc<Value> {
    match infer(ctx, r) {
        Ok((_, ty)) => ty,
        Err(_) => panic!("inference failed"),
    }
}

fn infer_err(r: &Rc<RawTerm>) -> TypeError {
    match infer(&Context::new(), r) {
        Ok(_) => panic!("inference succeeded"),
        Err(e) => e,
    }
}

// Scenario: the identity at `Type -> Type`.
#[test]
fn scenario_lam_type() {
    let ty = infer_type(&Context::new(), &r_lam("a", r_univ(0), r_var("a")));
    let expected = Value::Pi(name("a"), v_univ(0), v_univ(0));
    assert!(ty.alpha_eq(&expected));
}

#[test]
fn integer_literals_wrap_to_width() {
    assert!(matches!(
        elaborated_constant(check_const(RawConstant::Int(300), Constant::U8Type)),
        Constant::U8(44)
    ));
    assert!(matches!(
        elaborated_constant(check_const(RawConstant::Int(70000), Constant::U16Type)),
        Constant::U16(4464)
    ));
    assert!(matches!(
        elaborated_constant(check_const(RawConstant::Int(5), Constant::U32Type)),
        Constant::U32(5)
    ));
    assert!(matches!(
        elaborated_constant(check_const(RawConstant::Int(u64::MAX), Constant::U64Type)),
        Constant::U64(u64::MAX)
    ));
    assert!(matches!(
        elaborated_constant(check_const(RawConstant::Int(200), Constant::I8Type)),
        Constant::I8(-56)
    ));
    assert!(matches!(
        elaborated_constant(check_const(RawConstant::Int(40000), Constant::I16Type)),
        Constant::I16(-25536)
    ));
    assert!(matches!(
        elaborated_constant(check_const(RawConstant::Int(7), Constant::I32Type)),
        Constant::I32(7)
    ));
    assert!(matches!(
        elaborated_constant(check_const(RawConstant::Int(u64::MAX), Constant::I64Type)),
        Constant::I64(-1)
    ));
}

#[test]
fn float_targets_record_their_literal() {
    let bits = 1.5f64.to_bits();
    assert!(matches!(
        elaborated_constant(check_const(RawConstant::Int(3), Constant::F32Type)),
        Constant::F32(FloatLiteral::Int(3))
    ));
    assert!(matches!(
        elaborated_constant(check_const(RawConstant::Int(3), Constant::F64Type)),
        Constant::F64(FloatLiteral::Int(3))
    ));
    match elaborated_constant(check_const(RawConstant::Float(bits), Constant::F32Type)) {
        Constant::F32(FloatLiteral::Float(b)) => assert_eq!(b, bits),
        _ => panic!("expected an f32 constant"),
    }
    match elaborated_constant(check_const(RawConstant::Float(bits), Constant::F64Type)) {
        Constant::F64(FloatLiteral::Float(b)) => assert_eq!(b, bits),
        _ => panic!("expected an f64 constant"),
    }
}

#[test]
fn incompatible_literal_falls_back_to_inference() {
    let float_as_int = check_const(RawConstant::Float(0), Constant::U8Type);
    assert!(matches!(float_as_int, Err(TypeError::AmbiguousFloatLiteral { .. })));
    let string_as_int = check_const(RawConstant::String(String::from("a")), Constant::U8Type);
    match string_as_int {
        Err(TypeError::Mismatch { found, .. }) => {
            assert!(found.alpha_eq(&Value::Constant(Constant::StringType)))
        },
        _ => panic!("expected a mismatch"),
    }
}

#[test]
fn literals_alone_are_ambiguous() {
    assert!(matches!(
        infer_err(&r_const(RawConstant::Int(1))),
        TypeError::AmbiguousIntLiteral { .. }
    ));
    assert!(matches!(
        infer_err(&r_const(RawConstant::Float(0))),
        TypeError::AmbiguousFloatLiteral { .. }
    ));
}

#[test]
fn string_and_char_literals() {
    let s = infer_type(&Context::new(), &r_const(RawConstant::String(String::from("hi"))));
    assert!(s.alpha_eq(&Value::Constant(Constant::StringType)));
    let c = infer_type(&Context::new(), &r_const(RawConstant::Char('c')));
    assert!(c.alpha_eq(&Value::Constant(Constant::CharType)));
}

#[test]
fn primitive_types_live_in_type() {
    let all = vec![
        RawConstant::StringType,
        RawConstant::CharType,
        RawConstant::U8Type,
        RawConstant::U16Type,
        RawConstant::U32Type,
        RawConstant::U64Type,
        RawConstant::I8Type,
        RawConstant::I16Type,
        RawConstant::I32Type,
        RawConstant::I64Type,
        RawConstant::F32Type,
        RawConstant::F64Type,
    ];
    for c in all {
        assert!(infer_type(&Context::new(), &r_const(c)).alpha_eq(&v_univ(0)));
    }
}

#[test]
fn annotated_literal() {
    let given = r_ann(r_const(RawConstant::Int(258)), r_const(RawConstant::U8Type));
    match infer(&Context::new(), &given) {
        Ok((t, ty)) => {
            assert!(ty.alpha_eq(&Value::Constant(Constant::U8Type)));
            match &*t {
                Term::Ann(_, e, _) => assert!(matches!(&**e, Term::Constant(_, Constant::U8(2)))),
                _ => panic!("expected an annotation"),
            }
        },
        Err(_) => panic!("inference failed"),
    }
}

#[test]
fn holes_are_rejected() {
    assert!(matches!(
        infer_err(&r_hole()),
        TypeError::UnableToElaborateHole { expected: None, .. }
    ));
    let checked = check(&Context::new(), &r_hole(), &v_univ(0));
    match checked {
        Err(TypeError::UnableToElaborateHole {
            expected: Some(e), ..
        }) => assert!(e.alpha_eq(&v_univ(0))),
        _ => panic!("expected a hole error"),
    }
}

#[test]
fn unannotated_parameter_needs_a_type() {
    match infer_err(&r_lam_("x", r_var("x"))) {
        TypeError::FunctionParamNeedsAnnotation { name: n, .. } => assert!(n.same(&name("x"))),
        _ => panic!("expected a missing annotation"),
    }
}

#[test]
fn hole_annotation_filled_from_pi() {
    let expected = nf(&c_pi("a", c_univ(0), c_univ(0)));
    let elab = check(&Context::new(), &r_lam_("a", r_var("a")), &expected);
    match elab {
        Ok(t) => match &*t {
            Term::Lam(_, _, ann, _) => assert!(ann.alpha_eq(&Term::Universe(meta(), Level(0)))),
            _ => panic!("expected a lambda"),
        },
        Err(_) => panic!("check failed"),
    }
}

#[test]
fn lambda_against_non_function() {
    let checked = check(&Context::new(), &r_lam_("a", r_var("a")), &v_univ(0));
    assert!(matches!(checked, Err(TypeError::UnexpectedFunction { .. })));
}

#[test]
fn expected_universe() {
    let given = r_lam("x", r_const(RawConstant::String(String::from("s"))), r_var("x"));
    match infer_err(&given) {
        TypeError::ExpectedUniverse { found, .. } => {
            assert!(found.alpha_eq(&Value::Constant(Constant::StringType)))
        },
        _ => panic!("expected a universe error"),
    }
}

#[test]
fn application_of_non_function_reports_both_spans() {
    let f = Rc::new(RawTerm::Universe(meta_at(0, 4), Level(0)));
    let a = Rc::new(RawTerm::Universe(meta_at(5, 9), Level(0)));
    let given = Rc::new(RawTerm::App(meta_at(0, 9), f, a));
    match infer_err(&given) {
        TypeError::ArgAppliedToNonFunction {
            fn_span,
            arg_span,
            found,
        } => {
            assert_eq!(fn_span, ByteSpan::new(ByteIndex(0), ByteIndex(4)));
            assert_eq!(arg_span, ByteSpan::new(ByteIndex(5), ByteIndex(9)));
            assert!(found.alpha_eq(&v_univ(1)));
        },
        _ => panic!("expected an application error"),
    }
}

#[test]
fn bound_variable_at_root_is_internal() {
    let given = Rc::new(RawTerm::Var(meta(), Var::Bound(name("x"), 0)));
    assert!(matches!(
        infer_err(&given),
        TypeError::Internal(InternalError::UnsubstitutedDebruijnIndex { index: 0, .. })
    ));
    let core = Rc::new(Term::Var(meta(), Var::Bound(name("x"), 3)));
    assert!(matches!(
        normalize(&Context::new(), &core),
        Err(InternalError::UnsubstitutedDebruijnIndex { index: 3, .. })
    ));
}

#[test]
fn normalizing_application_of_non_function() {
    let given = c_app(c_univ(0), c_univ(0));
    assert!(matches!(
        normalize(&Context::new(), &given),
        Err(InternalError::ArgumentAppliedToNonFunction { .. })
    ));
}

#[test]
fn step_limit() {
    let given = c_app(c_lam("x", c_univ(1), c_var("x")), c_univ(0));
    assert!(matches!(
        normalize_in(&Context::new(), &given, 2),
        Err(InternalError::StepLimitReached { .. })
    ));
    match normalize_in(&Context::new(), &given, 3) {
        Ok(v) => assert!(v.alpha_eq(&Value::Universe(Level(0)))),
        Err(_) => panic!("three steps suffice"),
    }
}

#[test]
fn let_bound_names_unfold() {
    let ctx = Context::new().extend_let(name("t"), v_univ(1), c_univ(0));
    match normalize(&ctx, &c_var("t")) {
        Ok(v) => assert!(v.alpha_eq(&Value::Universe(Level(0)))),
        Err(_) => panic!("normalization failed"),
    }
    let ctx = Context::new().extend_lam(name("t"), v_univ(0));
    match normalize(&ctx, &c_var("t")) {
        Ok(v) => assert!(matches!(&*v, Value::Neutral(n) if matches!(&**n, Neutral::Var(Var::Free(_))))),
        Err(_) => panic!("normalization failed"),
    }
}

#[test]
fn neutral_application_keeps_argument() {
    let ctx = Context::new().extend_pi(name("f"), nf(&c_pi("a", c_univ(0), c_univ(0))));
    match normalize(&ctx, &c_app(c_var("f"), c_univ(0))) {
        Ok(v) => match &*v {
            Value::Neutral(n) => match &**n {
                Neutral::App(head, arg) => {
                    assert!(head.alpha_eq(&Neutral::Var(Var::Free(name("f")))));
                    assert!(arg.alpha_eq(&Term::Universe(meta(), Level(0))));
                },
                _ => panic!("expected an application"),
            },
            _ => panic!("expected a neutral value"),
        },
        Err(_) => panic!("normalization failed"),
    }
}

fn nf(t: &Rc<Term>) -> Rc<Value> {
    normalize(&Context::new(), t).ok().unwrap()
}

// Universe stratification on concrete values.
#[test]
fn universe_levels() {
    assert!(infer_type(&Context::new(), &r_univ(0)).alpha_eq(&v_univ(1)));
    assert!(infer_type(&Context::new(), &r_univ(7)).alpha_eq(&v_univ(8)));
    let pi = r_pi("a", r_univ(2), r_univ(0));
    assert!(infer_type(&Context::new(), &pi).alpha_eq(&v_univ(3)));
    let pi = r_pi("a", r_univ(0), r_univ(4));
    assert!(infer_type(&Context::new(), &pi).alpha_eq(&v_univ(5)));
    match infer_universe(&Context::new(), &r_arrow(r_univ(0), r_univ(0))) {
        Ok((_, l)) => assert_eq!(l.0, 1),
        Err(_) => panic!("expected a type"),
    }
}

// Shadowing on concrete values.
#[test]
fn later_binder_shadows() {
    let ctx = Context::new()
        .extend_pi(name("x"), v_univ(0))
        .extend_let(name("x"), v_univ(1), c_univ(0));
    match ctx.lookup_binder(&name("x")) {
        Some(Binder::Let { ann, .. }) => assert!(ann.alpha_eq(&Value::Universe(Level(1)))),
        _ => panic!("expected the let binder"),
    }
    assert!(ctx.lookup_binder(&name("y")).is_none());
    let ctx = ctx.extend_lam(name("y"), v_univ(0));
    assert!(matches!(ctx.lookup_binder(&name("x")), Some(Binder::Let { .. })));
    assert!(matches!(ctx.lookup_binder(&name("y")), Some(Binder::Lam { .. })));
}

// A checked term, written with the annotation it was given, infers the type
// it was checked against.
#[test]
fn checked_lambda_infers_its_type() {
    let expected = nf(&c_pi("a", c_univ(0), c_univ(0)));
    let elab = match check(&Context::new(), &r_lam_("a", r_var("a")), &expected) {
        Ok(t) => t,
        Err(_) => panic!("check failed"),
    };
    match &*elab {
        Term::Lam(_, _, ann, _) => assert!(ann.alpha_eq(&Term::Universe(meta(), Level(0)))),
        _ => panic!("expected a lambda"),
    }
    let read_back = r_lam("a", r_univ(0), r_var("a"));
    assert!(infer_type(&Context::new(), &read_back).alpha_eq(&expected));
}

// Normalizing a normal form again gives it back.
#[test]
fn normalize_is_idempotent_on_examples() {
    let id = c_lam("a", c_univ(0), c_lam("x", c_var("a"), c_var("x")));
    let once = nf(&id);
    let again = nf(&pikelet::binder::embed_value(&once, meta()));
    assert!(again.alpha_eq(&once));
}

// Renaming a bound variable changes nothing.
#[test]
fn renaming_bound_variables() {
    let one = c_lam("a", c_univ(0), c_lam("x", c_var("a"), c_var("x")));
    let two = c_lam("b", c_univ(0), c_lam("y", c_var("b"), c_var("y")));
    assert!(one.alpha_eq(&two));
    assert!(nf(&one).alpha_eq(&nf(&two)));
    let r1 = r_lam("a", r_univ(0), r_lam("x", r_var("a"), r_var("x")));
    let r2 = r_lam("b", r_univ(0), r_lam("y", r_var("b"), r_var("y")));
    assert!(infer_type(&Context::new(), &r1).alpha_eq(&infer_type(&Context::new(), &r2)));
}

fn definition(n: &str, term: Rc<RawTerm>, ann: Rc<RawTerm>) -> RawDefinition {
    RawDefinition {
        name: String::from(n),
        term,
        ann,
    }
}

fn small_prelude() -> RawModule {
    let ty = || r_univ(0);
    let id_ty = r_pi("a", ty(), r_arrow(r_var("a"), r_var("a")));
    let id = r_lam_("a", r_lam_("x", r_var("x")));
    let const_ty = r_pi(
        "a",
        ty(),
        r_pi("b", ty(), r_arrow(r_var("a"), r_arrow(r_var("b"), r_var("a")))),
    );
    let const_ = r_lam_("a", r_lam_("b", r_lam_("x", r_lam_("y", r_var("x")))));
    let compose_ty = r_pi(
        "a",
        ty(),
        r_pi(
            "b",
            ty(),
            r_pi(
                "c",
                ty(),
                r_arrow(
                    r_arrow(r_var("b"), r_var("c")),
                    r_arrow(r_arrow(r_var("a"), r_var("b")), r_arrow(r_var("a"), r_var("c"))),
                ),
            ),
        ),
    );
    let compose = r_lam_(
        "a",
        r_lam_(
            "b",
            r_lam_(
                "c",
                r_lam_(
                    "f",
                    r_lam_("g", r_lam_("x", r_app(r_var("f"), r_app(r_var("g"), r_var("x"))))),
                ),
            ),
        ),
    );
    RawModule {
        name: String::from("prelude"),
        definitions: vec![
            definition("id", id, id_ty),
            definition("const", const_, const_ty),
            definition("compose", compose, compose_ty),
        ],
    }
}

#[test]
fn check_small_prelude() {
    let module = match check_module(&small_prelude()) {
        Ok(m) => m,
        Err(_) => panic!("the prelude should check"),
    };
    assert_eq!(module.name, "prelude");
    assert_eq!(module.definitions.len(), 3);
    assert_eq!(module.definitions[0].name, "id");
    // Every parameter of the elaborated `id` carries its annotation.
    match &*module.definitions[0].term {
        Term::Lam(_, _, ann, body) => {
            assert!(ann.alpha_eq(&Term::Universe(meta(), Level(0))));
            match &**body {
                Term::Lam(_, _, ann, _) => {
                    assert!(ann.alpha_eq(&Term::Var(meta(), Var::Bound(name("a"), 0))))
                },
                _ => panic!("expected an inner lambda"),
            }
        },
        _ => panic!("expected a lambda"),
    }
    let id_ty = nf(&c_pi("a", c_univ(0), c_pi("x", c_var("a"), c_var("a"))));
    assert!(module.definitions[0].ann.alpha_eq(&id_ty));
}

#[test]
fn later_definitions_see_earlier_ones() {
    let module = RawModule {
        name: String::from("m"),
        definitions: vec![
            definition("T", r_univ(0), r_hole()),
            definition("f", r_lam("x", r_var("T"), r_var("x")), r_hole()),
        ],
    };
    let checked = match check_module(&module) {
        Ok(m) => m,
        Err(_) => panic!("module should check"),
    };
    assert!(checked.definitions[0].ann.alpha_eq(&v_univ(1)));
    let f_ty = Value::Pi(Name::Abstract, v_univ(0), v_univ(0));
    assert!(checked.definitions[1].ann.alpha_eq(&f_ty));
}

#[test]
fn failing_definition_aborts_module() {
    let module = RawModule {
        name: String::from("m"),
        definitions: vec![
            definition("ok", r_univ(0), r_hole()),
            definition("bad", r_var("missing"), r_hole()),
            definition("never", r_lam_("x", r_var("x")), r_hole()),
        ],
    };
    match check_module(&module) {
        Err(TypeError::UndefinedName { name: n, .. }) => assert!(n.same(&name("missing"))),
        _ => panic!("expected the second definition's error"),
    }
}

#[test]
fn declared_type_must_be_a_type() {
    let module = RawModule {
        name: String::from("m"),
        definitions: vec![definition(
            "x",
            r_univ(0),
            r_const(RawConstant::String(String::from("no"))),
        )],
    };
    assert!(matches!(check_module(&module), Err(TypeError::ExpectedUniverse { .. })));
}

#[test]
fn declared_type_mismatch() {
    let module = RawModule {
        name: String::from("m"),
        definitions: vec![definition("x", r_univ(0), r_univ(0))],
    };
    assert!(matches!(check_module(&module), Err(TypeError::Mismatch { .. })));
}
