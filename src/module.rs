//! Checking a module: its definitions in order, each seeing the earlier ones
//! as let-bindings.
use crate::context::{extend, Binder, Context};
use crate::errors::TypeError;
use crate::normalize::{eval, normalize, STEP_LIMIT};
use crate::syntax::{Name, RawTerm, Term, Value};
use crate::typing::{check, check_spec, infer, infer_spec, infer_universe, infer_universe_spec};
use std::rc::Rc;
use vstd::prelude::*;

verus! {

/// A definition as desugaring delivers it; a missing type is a hole.
pub struct RawDefinition {
    pub name: String,
    pub term: Rc<RawTerm>,
    pub ann: Rc<RawTerm>,
}

pub struct RawModule {
    pub name: String,
    pub definitions: Vec<RawDefinition>,
}

/// An elaborated definition: `term` has type `ann`.
pub struct Definition {
    pub name: String,
    pub term: Rc<Term>,
    pub ann: Rc<Value>,
}

pub struct Module {
    pub name: String,
    pub definitions: Vec<Definition>,
}

/// One definition elaborated under `ctx`: its term and its type. Without a
/// declared type the type is inferred; otherwise the declared type is
/// elaborated as a type, normalized, and the term is checked against it.
pub open spec fn definition_spec(ctx: Context, d: RawDefinition) -> Result<
    (Rc<Term>, Rc<Value>),
    TypeError,
> {
    match *d.ann {
        RawTerm::Hole(_) => infer_spec(ctx, *d.term),
        _ => match infer_universe_spec(ctx, *d.ann) {
            Err(err) => Err(err),
            Ok((elab_ann, _)) => match eval(ctx, *elab_ann, STEP_LIMIT as nat) {
                Err(err) => Err(TypeError::Internal(err)),
                Ok(ann) => match check_spec(ctx, *d.term, *ann) {
                    Err(err) => Err(err),
                    Ok(term) => Ok((term, ann)),
                },
            },
        },
    }
}

/// The first `n` definitions elaborated in order, with the context they leave.
pub open spec fn prefix_spec(defs: Seq<RawDefinition>, n: nat) -> Result<
    (Context, Seq<Definition>),
    TypeError,
>
    decreases n,
{
    if n == 0 || n > defs.len() {
        Ok((Context::Empty, Seq::empty()))
    } else {
        match prefix_spec(defs, (n - 1) as nat) {
            Err(err) => Err(err),
            Ok((ctx, done)) => {
                let d = defs[n - 1];
                match definition_spec(ctx, d) {
                    Err(err) => Err(err),
                    Ok((term, ann)) => Ok(
                        (
                            extend(ctx, Name::User(d.name), Binder::Let { ann, value: term }),
                            done.push(Definition { name: d.name, term, ann }),
                        ),
                    ),
                }
            },
        }
    }
}

/// All definitions elaborated in order; the first failure is the result.
pub open spec fn module_spec(defs: Seq<RawDefinition>) -> Result<Seq<Definition>, TypeError> {
    match prefix_spec(defs, defs.len()) {
        Err(err) => Err(err),
        Ok((_, done)) => Ok(done),
    }
}

proof fn lemma_prefix_error(defs: Seq<RawDefinition>, n: nat, m: nat, err: TypeError)
    requires
        0 < n <= m <= defs.len(),
        prefix_spec(defs, n) == Err::<(Context, Seq<Definition>), TypeError>(err),
    ensures
        prefix_spec(defs, m) == Err::<(Context, Seq<Definition>), TypeError>(err),
    decreases m,
{
    if m > n {
        lemma_prefix_error(defs, n, (m - 1) as nat, err);
    }
}

fn check_definition(context: &Context, d: &RawDefinition) -> (r: Result<
    (Rc<Term>, Rc<Value>),
    TypeError,
>)
    ensures
        r == definition_spec(*context, *d),
{
    if let RawTerm::Hole(_) = &*d.ann {
        return infer(context, &d.term);
    }
    let (elab_ann, _) = infer_universe(context, &d.ann)?;
    let ann = match normalize(context, &elab_ann) {
        Ok(v) => v,
        Err(err) => return Err(TypeError::Internal(err)),
    };
    let term = check(context, &d.term, &ann)?;
    Ok((term, ann))
}

/// Typecheck and elaborate a module. On success every definition is
/// elaborated, in order, each under the earlier ones; otherwise the first
/// definition that fails gives the error.
pub fn check_module(module: &RawModule) -> (r: Result<Module, TypeError>)
    ensures
        match r {
            Ok(m) => module_spec(module.definitions@) == Ok::<Seq<Definition>, TypeError>(
                m.definitions@,
            ) && m.name@ == module.name@,
            Err(err) => module_spec(module.definitions@) == Err::<Seq<Definition>, TypeError>(
                err,
            ),
        },
{
    let ghost defs = module.definitions@;
    let mut context = Context::new();
    let mut definitions: Vec<Definition> = Vec::new();
    let mut i: usize = 0;
    while i < module.definitions.len()
        invariant
            defs == module.definitions@,
            i <= defs.len(),
            prefix_spec(defs, i as nat) == Ok::<(Context, Seq<Definition>), TypeError>(
                (context, definitions@),
            ),
        decreases defs.len() - i,
    {
        let d = &module.definitions[i];
        let (term, ann) = match check_definition(&context, d) {
            Ok(p) => p,
            Err(err) => {
                proof {
                    lemma_prefix_error(defs, (i + 1) as nat, defs.len(), err);
                }
                return Err(err);
            },
        };
        context = context.extend_let(Name::User(d.name.clone()), ann.clone(), term.clone());
        definitions.push(Definition { name: d.name.clone(), term, ann });
        i += 1;
    }
    Ok(Module { name: module.name.clone(), definitions })
}

} // verus!
