use codespan::ByteSpan;
use pikelet::context::Context;
use pikelet::errors::{InternalError, TypeError};
use pikelet::normalize::normalize;
use pikelet::syntax::{Level, Name, Neutral, RawTerm, SourceMeta, Term, Value, Var};
use pikelet::typing::infer;
use std::rc::Rc;

fn meta() -> SourceMeta {
    SourceMeta {
        span: ByteSpan::default(),
    }
}

fn name(s: &str) -> Name {
    Name::User(String::from(s))
}

// Raw terms, binding by name.
fn r_ty() -> Rc<RawTerm> {
    r_univ(0)
}

fn r_univ(l: u64) -> Rc<RawTerm> {
    Rc::new(RawTerm::Universe(meta(), Level(l)))
}

fn r_var(x: &str) -> Rc<RawTerm> {
    Rc::new(RawTerm::Var(meta(), Var::Free(name(x))))
}

fn r_hole() -> Rc<RawTerm> {
    Rc::new(RawTerm::Hole(meta()))
}

fn r_lam(x: &str, ann: Rc<RawTerm>, body: Rc<RawTerm>) -> Rc<RawTerm> {
    RawTerm::bind_lam(meta(), name(x), ann, &body)
}

fn r_lam_(x: &str, body: Rc<RawTerm>) -> Rc<RawTerm> {
    RawTerm::bind_lam(meta(), name(x), r_hole(), &body)
}

fn r_pi(x: &str, ann: Rc<RawTerm>, body: Rc<RawTerm>) -> Rc<RawTerm> {
    RawTerm::bind_pi(meta(), name(x), ann, &body)
}

fn r_arrow(a: Rc<RawTerm>, b: Rc<RawTerm>) -> Rc<RawTerm> {
    RawTerm::bind_pi(meta(), Name::Abstract, a, &b)
}

fn r_app(f: Rc<RawTerm>, a: Rc<RawTerm>) -> Rc<RawTerm> {
    Rc::new(RawTerm::App(meta(), f, a))
}

fn r_ann(e: Rc<RawTerm>, t: Rc<RawTerm>) -> Rc<RawTerm> {
    Rc::new(RawTerm::Ann(meta(), e, t))
}

// Core terms, binding by name.
fn c_ty() -> Rc<Term> {
    c_univ(0)
}

fn c_univ(l: u64) -> Rc<Term> {
    Rc::new(Term::Universe(meta(), Level(l)))
}

fn c_var(x: &str) -> Rc<Term> {
    Rc::new(Term::Var(meta(), Var::Free(name(x))))
}

fn c_lam(x: &str, ann: Rc<Term>, body: Rc<Term>) -> Rc<Term> {
    Term::bind_lam(meta(), name(x), ann, &body)
}

fn c_pi(x: &str, ann: Rc<Term>, body: Rc<Term>) -> Rc<Term> {
    Term::bind_pi(meta(), name(x), ann, &body)
}

fn c_arrow(a: Rc<Term>, b: Rc<Term>) -> Rc<Term> {
    Term::bind_pi(meta(), Name::Abstract, a, &b)
}

fn c_app(f: Rc<Term>, a: Rc<Term>) -> Rc<Term> {
    Rc::new(Term::App(meta(), f, a))
}

// Values.
fn v_univ(l: u64) -> Rc<Value> {
    Rc::new(Value::Universe(Level(l)))
}

fn v_bound(x: &str, i: u64) -> Rc<Value> {
    Rc::new(Value::Neutral(Rc::new(Neutral::Var(Var::Bound(name(x), i)))))
}

fn nf(t: &Rc<Term>) -> Rc<Value> {
    normalize(&Context::new(), t).ok().unwrap()
}

fn inferred_type(r: &Rc<RawTerm>) -> Rc<Value> {
    match infer(&Context::new(), r) {
        Ok((_, ty)) => ty,
        Err(_) => panic!("inference failed"),
    }
}

fn assert_infers(given: Rc<RawTerm>, expected_ty: Rc<Term>) {
    let found = inferred_type(&given);
    assert!(found.alpha_eq(&nf(&expected_ty)));
}

fn infer_err(r: &Rc<RawTerm>) -> TypeError {
    match infer(&Context::new(), r) {
        Ok(_) => panic!("inference succeeded"),
        Err(e) => e,
    }
}

fn id_raw() -> Rc<RawTerm> {
    r_lam("a", r_ty(), r_lam("x", r_var("a"), r_var("x")))
}

fn id_core() -> Rc<Term> {
    c_lam("a", c_ty(), c_lam("x", c_var("a"), c_var("x")))
}

fn id_ty_core() -> Rc<Term> {
    c_pi("a", c_ty(), c_arrow(c_var("a"), c_var("a")))
}

// normalize

#[test]
fn tests_var() {
    let result = normalize(&Context::new(), &c_var("x"));
    match result {
        Err(InternalError::UndefinedName { name: n, .. }) => {
            assert!(n.same(&name("x")));
        },
        _ => panic!("expected an undefined name"),
    }
}

#[test]
fn tests_ty() {
    assert!(nf(&c_ty()).alpha_eq(&v_univ(0)));
}

#[test]
fn tests_lam() {
    let expected = Value::Lam(name("x"), v_univ(0), v_bound("x", 0));
    assert!(nf(&c_lam("x", c_ty(), c_var("x"))).alpha_eq(&expected));
}

#[test]
fn tests_pi() {
    let expected = Value::Pi(name("x"), v_univ(0), v_bound("x", 0));
    assert!(nf(&c_pi("x", c_ty(), c_var("x"))).alpha_eq(&expected));
}

fn ty_arr_value() -> Rc<Value> {
    Rc::new(Value::Pi(Name::Abstract, v_univ(0), v_univ(0)))
}

fn x1_y0() -> Rc<Value> {
    Rc::new(Value::Neutral(Rc::new(Neutral::App(
        Rc::new(Neutral::Var(Var::Bound(name("x"), 1))),
        Rc::new(Term::Var(meta(), Var::Bound(name("y"), 0))),
    ))))
}

#[test]
fn tests_lam_app() {
    let given = c_lam(
        "x",
        c_arrow(c_ty(), c_ty()),
        c_lam("y", c_ty(), c_app(c_var("x"), c_var("y"))),
    );
    let expected = Value::Lam(
        name("x"),
        ty_arr_value(),
        Rc::new(Value::Lam(name("y"), v_univ(0), x1_y0())),
    );
    assert!(nf(&given).alpha_eq(&expected));
}

#[test]
fn pi_app() {
    let given = c_pi(
        "x",
        c_arrow(c_ty(), c_ty()),
        c_lam("y", c_ty(), c_app(c_var("x"), c_var("y"))),
    );
    let expected = Value::Pi(
        name("x"),
        ty_arr_value(),
        Rc::new(Value::Lam(name("y"), v_univ(0), x1_y0())),
    );
    assert!(nf(&given).alpha_eq(&expected));
}

#[test]
fn id_app_id() {
    let given = c_app(c_app(id_core(), id_ty_core()), id_core());
    assert!(nf(&given).alpha_eq(&nf(&id_core())));
}

#[test]
fn const_app_id_ty() {
    let const_core = c_lam(
        "a",
        c_ty(),
        c_lam(
            "b",
            c_ty(),
            c_lam("x", c_var("a"), c_lam("y", c_var("b"), c_var("x"))),
        ),
    );
    let given = c_app(
        c_app(c_app(c_app(const_core, id_ty_core()), c_ty()), id_core()),
        c_ty(),
    );
    assert!(nf(&given).alpha_eq(&nf(&id_core())));
}

// infer

#[test]
fn free() {
    match infer_err(&r_var("x")) {
        TypeError::UndefinedName { name: n, .. } => assert!(n.same(&name("x"))),
        _ => panic!("expected an undefined name"),
    }
}

#[test]
fn infer_ty() {
    // Type lives in the universe one level up.
    assert!(inferred_type(&r_ty()).alpha_eq(&v_univ(1)));
}

#[test]
fn ann_ty_id() {
    let given = r_ann(r_lam_("a", r_var("a")), r_arrow(r_ty(), r_ty()));
    assert_infers(given, c_arrow(c_ty(), c_ty()));
}

#[test]
fn ann_arrow_ty_id() {
    let arr = || r_arrow(r_ty(), r_ty());
    let given = r_ann(r_lam_("a", r_var("a")), r_arrow(arr(), arr()));
    let c_arr = || c_arrow(c_ty(), c_ty());
    assert_infers(given, c_arrow(c_arr(), c_arr()));
}

#[test]
fn ann_id_as_ty() {
    let given = r_ann(r_lam_("a", r_var("a")), r_ty());
    assert!(matches!(infer_err(&given), TypeError::UnexpectedFunction { .. }));
}

#[test]
fn app() {
    // The argument `Type` has type `Type 1`, not the parameter's `Type`.
    let given = r_app(r_lam("a", r_ty(), r_var("a")), r_ty());
    match infer_err(&given) {
        TypeError::Mismatch { found, expected, .. } => {
            assert!(found.alpha_eq(&v_univ(1)));
            assert!(expected.alpha_eq(&v_univ(0)));
        },
        _ => panic!("expected a mismatch"),
    }
    let fine = r_app(r_lam("a", r_univ(1), r_var("a")), r_ty());
    assert!(inferred_type(&fine).alpha_eq(&v_univ(1)));
}

#[test]
fn app_ty() {
    let given = r_app(r_ty(), r_ty());
    assert!(matches!(infer_err(&given), TypeError::ArgAppliedToNonFunction { .. }));
}

#[test]
fn infer_lam() {
    assert_infers(r_lam("a", r_ty(), r_var("a")), c_pi("a", c_ty(), c_ty()));
}

#[test]
fn infer_pi() {
    // Quantifying over `Type` lifts the Π-type to `Type 1`.
    assert!(inferred_type(&r_pi("a", r_ty(), r_var("a"))).alpha_eq(&v_univ(1)));
}

#[test]
fn tests_id() {
    assert_infers(id_raw(), id_ty_core());
}

#[test]
fn id_ann() {
    let given = r_ann(
        r_lam_("a", r_lam("x", r_var("a"), r_var("x"))),
        r_pi("A", r_ty(), r_arrow(r_var("A"), r_var("A"))),
    );
    assert_infers(given, id_ty_core());
}

#[test]
fn id_app_ty_arr_ty() {
    // `id` takes a type in `Type`; `Type` itself lives in `Type 1`.
    let given = r_app(r_app(id_raw(), r_ty()), r_arrow(r_ty(), r_ty()));
    assert!(matches!(infer_err(&given), TypeError::Mismatch { .. }));
    let id1 = r_lam("a", r_univ(1), r_lam("x", r_var("a"), r_var("x")));
    let lifted = r_app(r_app(id1, r_ty()), r_arrow(r_ty(), r_ty()));
    assert!(matches!(infer_err(&lifted), TypeError::Mismatch { .. }));
    let id2 = r_lam("a", r_univ(2), r_lam("x", r_var("a"), r_var("x")));
    let at_type_one = r_app(r_app(id2, r_univ(1)), r_arrow(r_ty(), r_ty()));
    assert!(inferred_type(&at_type_one).alpha_eq(&v_univ(1)));
}

#[test]
fn id_app_arr_pi_ty() {
    // `\x : Type => Type` has type `Type -> Type 1`, not `Type -> Type`.
    let given = r_app(
        r_app(id_raw(), r_arrow(r_ty(), r_ty())),
        r_lam("x", r_ty(), r_ty()),
    );
    assert!(matches!(infer_err(&given), TypeError::Mismatch { .. }));
}

#[test]
fn apply() {
    let given = r_lam(
        "a",
        r_ty(),
        r_lam(
            "b",
            r_ty(),
            r_lam(
                "f",
                r_arrow(r_var("a"), r_var("b")),
                r_lam("x", r_var("a"), r_app(r_var("f"), r_var("x"))),
            ),
        ),
    );
    let expected = c_pi(
        "a",
        c_ty(),
        c_pi(
            "b",
            c_ty(),
            c_arrow(
                c_arrow(c_var("a"), c_var("b")),
                c_arrow(c_var("a"), c_var("b")),
            ),
        ),
    );
    assert_infers(given, expected);
}

fn const_like(pick: &str) -> Rc<RawTerm> {
    r_lam(
        "a",
        r_ty(),
        r_lam(
            "b",
            r_ty(),
            r_lam("x", r_var("a"), r_lam("y", r_var("b"), r_var(pick))),
        ),
    )
}

fn const_like_ty(result: &str) -> Rc<Term> {
    c_pi(
        "a",
        c_ty(),
        c_pi(
            "b",
            c_ty(),
            c_arrow(c_var("a"), c_arrow(c_var("b"), c_var(result))),
        ),
    )
}

#[test]
fn const_() {
    assert_infers(const_like("x"), const_like_ty("a"));
}

#[test]
fn const_flipped() {
    assert_infers(const_like("y"), const_like_ty("b"));
}

#[test]
fn flip() {
    let given = r_lam(
        "a",
        r_ty(),
        r_lam(
            "b",
            r_ty(),
            r_lam(
                "c",
                r_ty(),
                r_lam(
                    "f",
                    r_arrow(r_var("a"), r_arrow(r_var("b"), r_var("c"))),
                    r_lam(
                        "x",
                        r_var("a"),
                        r_lam(
                            "y",
                            r_var("b"),
                            r_app(r_app(r_var("f"), r_var("y")), r_var("x")),
                        ),
                    ),
                ),
            ),
        ),
    );
    // `f y x` applies `f : a -> b -> c` to `y : b`.
    assert!(matches!(infer_err(&given), TypeError::Mismatch { .. }));
    let fixed = r_lam(
        "a",
        r_ty(),
        r_lam(
            "b",
            r_ty(),
            r_lam(
                "c",
                r_ty(),
                r_lam(
                    "f",
                    r_arrow(r_var("a"), r_arrow(r_var("b"), r_var("c"))),
                    r_lam(
                        "y",
                        r_var("b"),
                        r_lam(
                            "x",
                            r_var("a"),
                            r_app(r_app(r_var("f"), r_var("x")), r_var("y")),
                        ),
                    ),
                ),
            ),
        ),
    );
    let expected = c_pi(
        "a",
        c_ty(),
        c_pi(
            "b",
            c_ty(),
            c_pi(
                "c",
                c_ty(),
                c_arrow(
                    c_arrow(c_var("a"), c_arrow(c_var("b"), c_var("c"))),
                    c_arrow(c_var("b"), c_arrow(c_var("a"), c_var("c"))),
                ),
            ),
        ),
    );
    assert_infers(fixed, expected);
}

#[test]
fn compose() {
    let given = r_lam(
        "a",
        r_ty(),
        r_lam(
            "b",
            r_ty(),
            r_lam(
                "c",
                r_ty(),
                r_lam(
                    "f",
                    r_arrow(r_var("b"), r_var("c")),
                    r_lam(
                        "g",
                        r_arrow(r_var("a"), r_var("b")),
                        r_lam(
                            "x",
                            r_var("a"),
                            r_app(r_var("f"), r_app(r_var("g"), r_var("x"))),
                        ),
                    ),
                ),
            ),
        ),
    );
    let expected = c_pi(
        "a",
        c_ty(),
        c_pi(
            "b",
            c_ty(),
            c_pi(
                "c",
                c_ty(),
                c_arrow(
                    c_arrow(c_var("b"), c_var("c")),
                    c_arrow(
                        c_arrow(c_var("a"), c_var("b")),
                        c_arrow(c_var("a"), c_var("c")),
                    ),
                ),
            ),
        ),
    );
    assert_infers(given, expected);
}

fn church_and_raw(p: Rc<RawTerm>, q: Rc<RawTerm>) -> Rc<RawTerm> {
    r_pi(
        "c",
        r_ty(),
        r_arrow(r_arrow(p, r_arrow(q, r_var("c"))), r_var("c")),
    )
}

fn church_and_core(p: Rc<Term>, q: Rc<Term>) -> Rc<Term> {
    c_pi(
        "c",
        c_ty(),
        c_arrow(c_arrow(p, c_arrow(q, c_var("c"))), c_var("c")),
    )
}

#[test]
fn and() {
    let given = r_lam(
        "p",
        r_ty(),
        r_lam("q", r_ty(), church_and_raw(r_var("p"), r_var("q"))),
    );
    // The conjunction quantifies over `Type`, so it lives in `Type 1`.
    assert_infers(given, c_arrow(c_ty(), c_arrow(c_ty(), c_univ(1))));
}

#[test]
fn and_intro() {
    let given = r_lam(
        "p",
        r_ty(),
        r_lam(
            "q",
            r_ty(),
            r_lam(
                "x",
                r_var("p"),
                r_lam(
                    "y",
                    r_var("q"),
                    r_lam(
                        "c",
                        r_ty(),
                        r_lam(
                            "f",
                            r_arrow(r_var("p"), r_arrow(r_var("q"), r_var("c"))),
                            r_app(r_app(r_var("f"), r_var("x")), r_var("y")),
                        ),
                    ),
                ),
            ),
        ),
    );
    let expected = c_pi(
        "p",
        c_ty(),
        c_pi(
            "q",
            c_ty(),
            c_arrow(
                c_var("p"),
                c_arrow(c_var("q"), church_and_core(c_var("p"), c_var("q"))),
            ),
        ),
    );
    assert_infers(given, expected);
}

fn and_proj(pick_ty: &str, pick: &str) -> (Rc<RawTerm>, Rc<Term>) {
    let given = r_lam(
        "p",
        r_ty(),
        r_lam(
            "q",
            r_ty(),
            r_lam(
                "pq",
                church_and_raw(r_var("p"), r_var("q")),
                r_app(
                    r_app(r_var("pq"), r_var(pick_ty)),
                    r_lam_("x", r_lam_("y", r_var(pick))),
                ),
            ),
        ),
    );
    let expected = c_pi(
        "p",
        c_ty(),
        c_pi(
            "q",
            c_ty(),
            c_arrow(church_and_core(c_var("p"), c_var("q")), c_var(pick_ty)),
        ),
    );
    (given, expected)
}

#[test]
fn and_proj_left() {
    let (given, expected) = and_proj("p", "x");
    assert_infers(given, expected);
}

#[test]
fn and_proj_right() {
    let (given, expected) = and_proj("q", "y");
    assert_infers(given, expected);
}
