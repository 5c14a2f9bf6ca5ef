//! Desugaring of grouped binders into nested single binders.
//!
//! `(a b : A) -> B` becomes `(a : A) -> (b : A) -> B`, and
//! `\(a b : A) c => t` becomes `\a : A => \b : A => \c : _ => t`, where a
//! parameter without an annotation gets a hole. A module's type claims are
//! paired with the definitions that follow them.
use crate::binder::raw_close;
use crate::module::{RawDefinition, RawModule};
use crate::syntax::{Name, RawTerm, SourceMeta};
use std::rc::Rc;
use vstd::prelude::*;

verus! {

/// Conversion of surface forms to their core representation.
pub trait ToCore<T> {
    fn to_core(&self) -> T;
}

/// A named parameter with the source position of its name.
pub type Param = (SourceMeta, String);

/// A group of parameters sharing one annotation, or none.
pub type ParamGroup = (Vec<Param>, Option<Rc<RawTerm>>);

/// `(names : ann) -> body`.
pub struct PiGroup {
    pub names: Vec<Param>,
    pub ann: Rc<RawTerm>,
    pub body: Rc<RawTerm>,
}

/// `\groups => body`.
pub struct LamGroups {
    pub params: Vec<ParamGroup>,
    pub body: Rc<RawTerm>,
}

/// Π-binders for `names`, outermost first, each annotated with `ann`.
pub open spec fn nest_pi(names: Seq<Param>, ann: Rc<RawTerm>, body: RawTerm) -> RawTerm
    decreases names.len(),
{
    if names.len() == 0 {
        body
    } else {
        let (m, s) = names[0];
        let inner = nest_pi(names.skip(1), ann, body);
        RawTerm::Pi(m, Name::User(s), ann, Rc::new(raw_close(inner, 0, Name::User(s), Name::User(s))))
    }
}

/// The annotation of a λ-parameter: the group's, or a hole at the parameter.
pub open spec fn param_ann(m: SourceMeta, ann: Option<Rc<RawTerm>>) -> Rc<RawTerm> {
    match ann {
        Some(a) => a,
        None => Rc::new(RawTerm::Hole(m)),
    }
}

/// λ-binders for `names`, outermost first.
pub open spec fn nest_lam(names: Seq<Param>, ann: Option<Rc<RawTerm>>, body: RawTerm) -> RawTerm
    decreases names.len(),
{
    if names.len() == 0 {
        body
    } else {
        let (m, s) = names[0];
        let inner = nest_lam(names.skip(1), ann, body);
        RawTerm::Lam(
            m,
            Name::User(s),
            param_ann(m, ann),
            Rc::new(raw_close(inner, 0, Name::User(s), Name::User(s))),
        )
    }
}

/// λ-binders for every group in turn, outermost first.
pub open spec fn nest_groups(groups: Seq<ParamGroup>, body: RawTerm) -> RawTerm
    decreases groups.len(),
{
    if groups.len() == 0 {
        body
    } else {
        nest_lam(groups[0].0@, groups[0].1, nest_groups(groups.skip(1), body))
    }
}

/// Nested Π-types, one for each name, all with the annotation `ann`.
pub fn pi_to_core(names: &Vec<Param>, ann: &Rc<RawTerm>, body: &Rc<RawTerm>) -> (r: Rc<RawTerm>)
    ensures
        *r == nest_pi(names@, *ann, **body),
{
    let mut term = body.clone();
    let mut i: usize = names.len();
    while i > 0
        invariant
            i <= names@.len(),
            *term == nest_pi(names@.subrange(i as int, names@.len() as int), *ann, **body),
        decreases i,
    {
        i = i - 1;
        let (m, s) = &names[i];
        let x = Name::User(s.clone());
        proof {
            let rest = names@.subrange(i as int, names@.len() as int);
            assert(rest.skip(1) =~= names@.subrange(i + 1, names@.len() as int));
        }
        term = RawTerm::bind_pi(*m, x, ann.clone(), &term);
    }
    proof {
        assert(names@.subrange(0, names@.len() as int) =~= names@);
    }
    term
}

/// Nested λ-abstractions, one for each name; without an annotation each
/// parameter gets a hole.
pub fn lam_names_to_core(
    names: &Vec<Param>,
    ann: &Option<Rc<RawTerm>>,
    body: &Rc<RawTerm>,
) -> (r: Rc<RawTerm>)
    ensures
        *r == nest_lam(names@, *ann, **body),
{
    let mut term = body.clone();
    let mut i: usize = names.len();
    while i > 0
        invariant
            i <= names@.len(),
            *term == nest_lam(names@.subrange(i as int, names@.len() as int), *ann, **body),
        decreases i,
    {
        i = i - 1;
        let (m, s) = &names[i];
        let x = Name::User(s.clone());
        let a = match ann {
            Some(a) => a.clone(),
            None => Rc::new(RawTerm::Hole(*m)),
        };
        proof {
            let rest = names@.subrange(i as int, names@.len() as int);
            assert(rest.skip(1) =~= names@.subrange(i + 1, names@.len() as int));
        }
        term = RawTerm::bind_lam(*m, x, a, &term);
    }
    proof {
        assert(names@.subrange(0, names@.len() as int) =~= names@);
    }
    term
}

/// Nested λ-abstractions for every parameter of every group, in order.
pub fn lam_to_core(params: &Vec<ParamGroup>, body: &Rc<RawTerm>) -> (r: Rc<RawTerm>)
    ensures
        *r == nest_groups(params@, **body),
{
    let mut term = body.clone();
    let mut i: usize = params.len();
    while i > 0
        invariant
            i <= params@.len(),
            *term == nest_groups(params@.subrange(i as int, params@.len() as int), **body),
        decreases i,
    {
        i = i - 1;
        let group = &params[i];
        proof {
            let rest = params@.subrange(i as int, params@.len() as int);
            assert(rest.skip(1) =~= params@.subrange(i + 1, params@.len() as int));
        }
        term = lam_names_to_core(&group.0, &group.1, &term);
    }
    proof {
        assert(params@.subrange(0, params@.len() as int) =~= params@);
    }
    term
}

impl ToCore<Rc<RawTerm>> for PiGroup {
    fn to_core(&self) -> Rc<RawTerm> {
        pi_to_core(&self.names, &self.ann, &self.body)
    }
}

impl ToCore<Rc<RawTerm>> for LamGroups {
    fn to_core(&self) -> Rc<RawTerm> {
        lam_to_core(&self.params, &self.body)
    }
}

/// A top-level declaration of a module, with its parameters still grouped.
pub enum Declaration {
    /// `import ...`: not supported.
    Import { span: codespan::ByteSpan },
    /// `name : ann`: a type claimed for a definition that follows.
    Claim { meta: SourceMeta, name: String, ann: Rc<RawTerm> },
    /// `name params = body`.
    Definition { meta: SourceMeta, name: String, params: Vec<ParamGroup>, body: Rc<RawTerm> },
    /// A declaration that did not parse.
    Error { span: codespan::ByteSpan },
}

/// A module as parsed: a name and its declarations.
pub struct SurfaceModule {
    pub name: String,
    pub declarations: Vec<Declaration>,
}

/// What desugaring does not support.
pub enum Unimplemented {
    Import { span: codespan::ByteSpan },
    ErrorRecovery { span: codespan::ByteSpan },
}

/// A claim still waiting for its definition.
pub type Claim = (SourceMeta, String, Rc<RawTerm>);

/// A claim without a definition: a hole of the claimed type.
pub open spec fn stub(c: Claim) -> RawDefinition {
    RawDefinition { name: c.1, term: Rc::new(RawTerm::Hole(c.0)), ann: c.2 }
}

/// The pending claim and the definitions so far, after one more declaration.
pub open spec fn resolve_step(
    pending: Option<Claim>,
    defs: Seq<RawDefinition>,
    d: Declaration,
) -> Result<(Option<Claim>, Seq<RawDefinition>), Unimplemented> {
    match d {
        Declaration::Import { span } => Err(Unimplemented::Import { span }),
        Declaration::Error { span } => Err(Unimplemented::ErrorRecovery { span }),
        Declaration::Claim { meta, name, ann } => match pending {
            Some(c) => Ok((Some((meta, name, ann)), defs.push(stub(c)))),
            None => Ok((Some((meta, name, ann)), defs)),
        },
        Declaration::Definition { meta, name, params, body } => {
            let term = Rc::new(nest_groups(params@, *body));
            match pending {
                None => Ok(
                    (
                        None,
                        defs.push(
                            RawDefinition { name, term, ann: Rc::new(RawTerm::Hole(meta)) },
                        ),
                    ),
                ),
                Some(c) => if c.1@ == name@ {
                    Ok((None, defs.push(RawDefinition { name, term, ann: c.2 })))
                } else {
                    Ok(
                        (
                            None,
                            defs.push(stub(c)).push(
                                RawDefinition { name, term, ann: Rc::new(RawTerm::Hole(meta)) },
                            ),
                        ),
                    )
                },
            }
        },
    }
}

/// The first `n` declarations resolved in order.
pub open spec fn resolve_prefix(decls: Seq<Declaration>, n: nat) -> Result<
    (Option<Claim>, Seq<RawDefinition>),
    Unimplemented,
>
    decreases n,
{
    if n == 0 || n > decls.len() {
        Ok((None, Seq::empty()))
    } else {
        match resolve_prefix(decls, (n - 1) as nat) {
            Err(e) => Err(e),
            Ok((pending, defs)) => resolve_step(pending, defs, decls[n - 1]),
        }
    }
}

/// The definitions of a module: each claim paired with the definition of the
/// same name that follows it, a claim with no such definition becoming a
/// hole of the claimed type, and a definition with no claim getting a hole
/// for its type. Imports and unparsed declarations are refused.
pub open spec fn resolve_module(decls: Seq<Declaration>) -> Result<Seq<RawDefinition>, Unimplemented> {
    match resolve_prefix(decls, decls.len()) {
        Err(e) => Err(e),
        Ok((None, defs)) => Ok(defs),
        Ok((Some(c), defs)) => Ok(defs.push(stub(c))),
    }
}

proof fn lemma_resolve_error(decls: Seq<Declaration>, n: nat, m: nat, e: Unimplemented)
    requires
        0 < n <= m <= decls.len(),
        resolve_prefix(decls, n) == Err::<(Option<Claim>, Seq<RawDefinition>), Unimplemented>(e),
    ensures
        resolve_prefix(decls, m) == Err::<(Option<Claim>, Seq<RawDefinition>), Unimplemented>(e),
    decreases m,
{
    if m > n {
        lemma_resolve_error(decls, n, (m - 1) as nat, e);
    }
}

fn copy_claim(c: &Claim) -> (r: Claim)
    ensures
        r == *c,
{
    (c.0, c.1.clone(), c.2.clone())
}

fn stub_of(c: Claim) -> (r: RawDefinition)
    ensures
        r == stub(c),
{
    RawDefinition { name: c.1, term: Rc::new(RawTerm::Hole(c.0)), ann: c.2 }
}

/// The definitions of a module, with claims paired to their definitions and
/// parameter groups desugared.
pub fn module_to_core(module: &SurfaceModule) -> (r: Result<RawModule, Unimplemented>)
    ensures
        match r {
            Ok(m) => resolve_module(module.declarations@) == Ok::<
                Seq<RawDefinition>,
                Unimplemented,
            >(m.definitions@) && m.name@ == module.name@,
            Err(e) => resolve_module(module.declarations@) == Err::<
                Seq<RawDefinition>,
                Unimplemented,
            >(e),
        },
{
    let ghost decls = module.declarations@;
    let mut pending: Option<Claim> = None;
    let mut definitions: Vec<RawDefinition> = Vec::new();
    let mut i: usize = 0;
    while i < module.declarations.len()
        invariant
            decls == module.declarations@,
            i <= decls.len(),
            resolve_prefix(decls, i as nat) == Ok::<
                (Option<Claim>, Seq<RawDefinition>),
                Unimplemented,
            >((pending, definitions@)),
        decreases decls.len() - i,
    {
        match &module.declarations[i] {
            Declaration::Import { span } => {
                proof {
                    lemma_resolve_error(decls, (i + 1) as nat, decls.len(), Unimplemented::Import { span: *span });
                }
                return Err(Unimplemented::Import { span: *span });
            },
            Declaration::Error { span } => {
                proof {
                    lemma_resolve_error(
                        decls,
                        (i + 1) as nat,
                        decls.len(),
                        Unimplemented::ErrorRecovery { span: *span },
                    );
                }
                return Err(Unimplemented::ErrorRecovery { span: *span });
            },
            Declaration::Claim { meta, name, ann } => {
                if let Some(c) = &pending {
                    definitions.push(stub_of(copy_claim(c)));
                }
                pending = Some((*meta, name.clone(), ann.clone()));
            },
            Declaration::Definition { meta, name, params, body } => {
                let term = lam_to_core(params, body);
                match &pending {
                    None => {
                        definitions.push(
                            RawDefinition {
                                name: name.clone(),
                                term,
                                ann: Rc::new(RawTerm::Hole(*meta)),
                            },
                        );
                    },
                    Some(c) => {
                        if c.1.eq(name) {
                            definitions.push(
                                RawDefinition { name: name.clone(), term, ann: c.2.clone() },
                            );
                        } else {
                            definitions.push(stub_of(copy_claim(c)));
                            definitions.push(
                                RawDefinition {
                                    name: name.clone(),
                                    term,
                                    ann: Rc::new(RawTerm::Hole(*meta)),
                                },
                            );
                        }
                    },
                }
                pending = None;
            },
        }
        i += 1;
    }
    if let Some(c) = pending {
        definitions.push(stub_of(c));
    }
    Ok(RawModule { name: module.name.clone(), definitions })
}

impl ToCore<Result<RawModule, Unimplemented>> for SurfaceModule {
    fn to_core(&self) -> Result<RawModule, Unimplemented> {
        module_to_core(self)
    }
}

} // verus!
