//! The traversal framework: a capability trait with one hook per node kind,
//! and free recursion procedures (`walk_*`) implementing the canonical
//! child-visit order for each compound kind.
//!
//! A visitor's observable behaviour is modelled as a sequence of [`Visit`]
//! events: each hook appends to (or, in general, transforms) the visitor's
//! abstract event record, as described by the visitor's own `step` function,
//! and each compound hook answers with a [`Flow`] that decides whether the
//! framework recurses into that node's children. The default recursion for
//! every compound kind is a public `walk_*` procedure, and every `walk_*`
//! ensures exactly which hooks run, in which order, via the matching
//! `*_trace` specification.

use vstd::prelude::*;

use crate::terms::Call;
use crate::terms::Constraints;
use crate::terms::Dictionary;
use crate::terms::ExternalInstance;
use crate::terms::InstanceLiteral;
use crate::terms::Numeric;
use crate::terms::Operation;
use crate::terms::Operator;
use crate::terms::Pattern;
use crate::terms::PatternV;
use crate::terms::Symbol;
use crate::terms::Term;
use crate::terms::TermList;
use crate::terms::TermV;
use crate::terms::Value;
use crate::terms::FieldsV;
use crate::terms::InstanceLiteralV;
use crate::terms::CallV;
use crate::terms::OperationV;
use crate::terms::ConstraintsV;
use crate::terms::fields_view;
use crate::terms::literal_view;
use crate::terms::call_view;
use crate::terms::operation_view;
use crate::terms::constraints_view;
use crate::terms::pattern_view;
use crate::terms::term_view;
use crate::terms::terms_view;

verus! {

/// One hook invocation, as recorded in a visitor's abstract event record:
/// which hook ran, with the view of its argument.
pub enum Visit {
    Number(Numeric),
    String(Seq<char>),
    Boolean(bool),
    Id(u64),
    Name(Seq<char>),
    Field(Seq<char>, TermV),
    Variable(Seq<char>),
    RestVariable(Seq<char>),
    Operator(Operator),
    Term(TermV),
    ExternalInstance(u64),
    InstanceLiteral(InstanceLiteralV),
    Dictionary(FieldsV),
    Pattern(PatternV),
    Call(CallV),
    List(Seq<TermV>),
    Operation(OperationV),
    Partial(ConstraintsV),
}

/// A compound hook's answer: whether the framework should run the paired
/// `walk_*` procedure over the node's children.
#[derive(Clone, Copy, PartialEq, Eq, Debug)]
pub enum Flow {
    Recurse,
    Prune,
}

/// The capability interface: one hook per node kind.
///
/// Atom hooks (number, string, boolean, opaque id, bare name, field entry,
/// variable, rest variable, operator tag) have no children; overriding one
/// never affects recursion elsewhere. Compound hooks answer with a [`Flow`]:
/// [`Flow::Recurse`] resumes the canonical recursion of the paired `walk_*`
/// procedure, [`Flow::Prune`] replaces it with nothing, so a pruning hook's
/// own body is all that happens at that node.
///
/// Each implementation describes itself with three specification functions:
/// `events` abstracts the visitor's state as the sequence of events it has
/// recorded; `step` says how one hook invocation transforms that sequence;
/// `flow` says which compound nodes are pruned. Every hook's contract ties
/// the executable body to those descriptions, which is what lets the
/// `walk_*` procedures promise an exact trace to every caller.
///
/// The default behaviour of a hook is reproduced by a body that does
/// nothing (an atom hook) or answers [`Flow::Recurse`] (a compound hook);
/// [`crate::visitors::DefaultVisitor`] does exactly that at every hook.
pub trait Visitor: Sized {
    /// The visitor's abstract record of the hook invocations it has seen.
    spec fn events(&self) -> Seq<Visit>;

    /// How one hook invocation transforms the abstract record.
    spec fn step(pre: Seq<Visit>, v: Visit) -> Seq<Visit>;

    /// Whether a compound hook resumes the canonical recursion.
    spec fn flow(v: Visit) -> Flow;

    fn visit_number(&mut self, n: &Numeric)
        ensures
            final(self).events() == Self::step(old(self).events(), Visit::Number(*n)),
    ;

    fn visit_string(&mut self, s: &str)
        ensures
            final(self).events() == Self::step(old(self).events(), Visit::String(s@)),
    ;

    fn visit_boolean(&mut self, b: bool)
        ensures
            final(self).events() == Self::step(old(self).events(), Visit::Boolean(b)),
    ;

    fn visit_id(&mut self, id: u64)
        ensures
            final(self).events() == Self::step(old(self).events(), Visit::Id(id)),
    ;

    fn visit_name(&mut self, tag: &Symbol)
        ensures
            final(self).events() == Self::step(old(self).events(), Visit::Name(tag@)),
    ;

    fn visit_field(&mut self, name: &Symbol, value: &Term)
        ensures
            final(self).events() == Self::step(
                old(self).events(),
                Visit::Field(name@, term_view(*value)),
            ),
    ;

    fn visit_variable(&mut self, v: &Symbol)
        ensures
            final(self).events() == Self::step(old(self).events(), Visit::Variable(v@)),
    ;

    fn visit_rest_variable(&mut self, r: &Symbol)
        ensures
            final(self).events() == Self::step(old(self).events(), Visit::RestVariable(r@)),
    ;

    fn visit_operator(&mut self, o: &Operator)
        ensures
            final(self).events() == Self::step(old(self).events(), Visit::Operator(*o)),
    ;

    fn visit_term(&mut self, t: &Term) -> (flow: Flow)
        ensures
            final(self).events() == Self::step(old(self).events(), Visit::Term(term_view(*t))),
            flow == Self::flow(Visit::Term(term_view(*t))),
    ;

    fn visit_external_instance(&mut self, e: &ExternalInstance) -> (flow: Flow)
        ensures
            final(self).events() == Self::step(
                old(self).events(),
                Visit::ExternalInstance(e.instance_id),
            ),
            flow == Self::flow(Visit::ExternalInstance(e.instance_id)),
    ;

    fn visit_instance_literal(&mut self, i: &InstanceLiteral) -> (flow: Flow)
        ensures
            final(self).events() == Self::step(
                old(self).events(),
                Visit::InstanceLiteral(literal_view(*i)),
            ),
            flow == Self::flow(Visit::InstanceLiteral(literal_view(*i))),
    ;

    fn visit_dictionary(&mut self, d: &Dictionary) -> (flow: Flow)
        ensures
            final(self).events() == Self::step(
                old(self).events(),
                Visit::Dictionary(fields_view(d.fields@)),
            ),
            flow == Self::flow(Visit::Dictionary(fields_view(d.fields@))),
    ;

    fn visit_pattern(&mut self, p: &Pattern) -> (flow: Flow)
        ensures
            final(self).events() == Self::step(
                old(self).events(),
                Visit::Pattern(pattern_view(*p)),
            ),
            flow == Self::flow(Visit::Pattern(pattern_view(*p))),
    ;

    fn visit_call(&mut self, c: &Call) -> (flow: Flow)
        ensures
            final(self).events() == Self::step(old(self).events(), Visit::Call(call_view(*c))),
            flow == Self::flow(Visit::Call(call_view(*c))),
    ;

    fn visit_list(&mut self, l: &TermList) -> (flow: Flow)
        ensures
            final(self).events() == Self::step(old(self).events(), Visit::List(terms_view(l@))),
            flow == Self::flow(Visit::List(terms_view(l@))),
    ;

    fn visit_operation(&mut self, o: &Operation) -> (flow: Flow)
        ensures
            final(self).events() == Self::step(
                old(self).events(),
                Visit::Operation(operation_view(*o)),
            ),
            flow == Self::flow(Visit::Operation(operation_view(*o))),
    ;

    fn visit_partial(&mut self, c: &Constraints) -> (flow: Flow)
        ensures
            final(self).events() == Self::step(
                old(self).events(),
                Visit::Partial(constraints_view(*c)),
            ),
            flow == Self::flow(Visit::Partial(constraints_view(*c))),
    ;
}

// ---------------------------------------------------------------------------
// Traces: for each procedure, the exact sequence of hook invocations it
// performs, as a transformation of the visitor's abstract event record.
// ---------------------------------------------------------------------------

/// The trace of consulting the term hook on `t` and, if it answers
/// [`Flow::Recurse`], running [`walk_term`].
pub open spec fn visit_term_trace<V: Visitor>(pre: Seq<Visit>, t: Term) -> Seq<Visit>
    decreases t, 1int,
{
    let p = V::step(pre, Visit::Term(term_view(t)));
    if V::flow(Visit::Term(term_view(t))) is Recurse {
        walk_term_trace::<V>(p, t)
    } else {
        p
    }
}

/// The trace of [`walk_term`]: dispatch to the one hook matching the term's
/// value, recursing according to that hook's flow.
pub open spec fn walk_term_trace<V: Visitor>(pre: Seq<Visit>, t: Term) -> Seq<Visit>
    decreases t, 0int,
{
    match t.value {
        Value::Number(n) => V::step(pre, Visit::Number(n)),
        Value::String(s) => V::step(pre, Visit::String(s@)),
        Value::Boolean(b) => V::step(pre, Visit::Boolean(b)),
        Value::ExternalInstance(e) => visit_external_instance_trace::<V>(pre, e),
        Value::InstanceLiteral(i) => visit_instance_literal_trace::<V>(pre, i),
        Value::Dictionary(d) => visit_dictionary_trace::<V>(pre, d),
        Value::Pattern(p) => visit_pattern_trace::<V>(pre, p),
        Value::Call(c) => visit_call_trace::<V>(pre, c),
        Value::List(l) => visit_list_trace::<V>(pre, l),
        Value::Variable(v) => V::step(pre, Visit::Variable(v@)),
        Value::RestVariable(r) => V::step(pre, Visit::RestVariable(r@)),
        Value::Expression(o) => visit_operation_trace::<V>(pre, o),
        Value::Partial(c) => visit_partial_trace::<V>(pre, c),
    }
}

pub open spec fn visit_external_instance_trace<V: Visitor>(
    pre: Seq<Visit>,
    e: ExternalInstance,
) -> Seq<Visit>
    decreases e, 1int,
{
    let p = V::step(pre, Visit::ExternalInstance(e.instance_id));
    if V::flow(Visit::ExternalInstance(e.instance_id)) is Recurse {
        walk_external_instance_trace::<V>(p, e)
    } else {
        p
    }
}

/// The trace of [`walk_external_instance`]: the opaque id is visited.
pub open spec fn walk_external_instance_trace<V: Visitor>(
    pre: Seq<Visit>,
    e: ExternalInstance,
) -> Seq<Visit>
    decreases e, 0int,
{
    V::step(pre, Visit::Id(e.instance_id))
}

pub open spec fn visit_instance_literal_trace<V: Visitor>(
    pre: Seq<Visit>,
    i: InstanceLiteral,
) -> Seq<Visit>
    decreases i, 1int,
{
    let p = V::step(pre, Visit::InstanceLiteral(literal_view(i)));
    if V::flow(Visit::InstanceLiteral(literal_view(i))) is Recurse {
        walk_instance_literal_trace::<V>(p, i)
    } else {
        p
    }
}

/// The trace of [`walk_instance_literal`]: the tag name, then each field in
/// dictionary order.
pub open spec fn walk_instance_literal_trace<V: Visitor>(
    pre: Seq<Visit>,
    i: InstanceLiteral,
) -> Seq<Visit>
    decreases i, 0int,
{
    walk_fields_trace::<V>(V::step(pre, Visit::Name(i.tag@)), i.fields.fields@)
}

pub open spec fn visit_dictionary_trace<V: Visitor>(pre: Seq<Visit>, d: Dictionary) -> Seq<Visit>
    decreases d, 1int,
{
    let p = V::step(pre, Visit::Dictionary(fields_view(d.fields@)));
    if V::flow(Visit::Dictionary(fields_view(d.fields@))) is Recurse {
        walk_dictionary_trace::<V>(p, d)
    } else {
        p
    }
}

/// The trace of [`walk_dictionary`]: each `(key, value)` field in order.
pub open spec fn walk_dictionary_trace<V: Visitor>(pre: Seq<Visit>, d: Dictionary) -> Seq<Visit>
    decreases d, 0int,
{
    walk_fields_trace::<V>(pre, d.fields@)
}

/// The field entries of one field map, visited left to right.
pub open spec fn walk_fields_trace<V: Visitor>(
    pre: Seq<Visit>,
    s: Seq<(Symbol, Term)>,
) -> Seq<Visit>
    decreases s,
{
    if s.len() == 0 {
        pre
    } else {
        walk_fields_trace::<V>(
            V::step(pre, Visit::Field(s[0].0@, term_view(s[0].1))),
            s.drop_first(),
        )
    }
}

pub open spec fn visit_pattern_trace<V: Visitor>(pre: Seq<Visit>, p: Pattern) -> Seq<Visit>
    decreases p, 1int,
{
    let q = V::step(pre, Visit::Pattern(pattern_view(p)));
    if V::flow(Visit::Pattern(pattern_view(p))) is Recurse {
        walk_pattern_trace::<V>(q, p)
    } else {
        q
    }
}

/// The trace of [`walk_pattern`]: a dictionary pattern visits its fields in
/// order; an instance pattern delegates entirely to instance-literal
/// visitation.
pub open spec fn walk_pattern_trace<V: Visitor>(pre: Seq<Visit>, p: Pattern) -> Seq<Visit>
    decreases p, 0int,
{
    match p {
        Pattern::Dictionary(d) => walk_fields_trace::<V>(pre, d.fields@),
        Pattern::Instance(i) => visit_instance_literal_trace::<V>(pre, i),
    }
}

pub open spec fn visit_call_trace<V: Visitor>(pre: Seq<Visit>, c: Call) -> Seq<Visit>
    decreases c, 1int,
{
    let p = V::step(pre, Visit::Call(call_view(c)));
    if V::flow(Visit::Call(call_view(c))) is Recurse {
        walk_call_trace::<V>(p, c)
    } else {
        p
    }
}

/// The trace of [`walk_call`]: the call's name, then each argument left to
/// right.
pub open spec fn walk_call_trace<V: Visitor>(pre: Seq<Visit>, c: Call) -> Seq<Visit>
    decreases c, 0int,
{
    walk_terms_trace::<V>(V::step(pre, Visit::Name(c.name@)), c.args@)
}

pub open spec fn visit_list_trace<V: Visitor>(pre: Seq<Visit>, l: TermList) -> Seq<Visit>
    decreases l, 1int,
{
    let p = V::step(pre, Visit::List(terms_view(l@)));
    if V::flow(Visit::List(terms_view(l@))) is Recurse {
        walk_terms_trace::<V>(p, l@)
    } else {
        p
    }
}

/// The elements of one term sequence, each consulted through the term hook
/// and walked on [`Flow::Recurse`], left to right. This is the trace of
/// [`walk_list`].
pub open spec fn walk_terms_trace<V: Visitor>(pre: Seq<Visit>, s: Seq<Term>) -> Seq<Visit>
    decreases s, 2int,
{
    if s.len() == 0 {
        pre
    } else {
        walk_terms_trace::<V>(visit_term_trace::<V>(pre, s[0]), s.drop_first())
    }
}

pub open spec fn visit_operation_trace<V: Visitor>(pre: Seq<Visit>, o: Operation) -> Seq<Visit>
    decreases o, 1int,
{
    let p = V::step(pre, Visit::Operation(operation_view(o)));
    if V::flow(Visit::Operation(operation_view(o))) is Recurse {
        walk_operation_trace::<V>(p, o)
    } else {
        p
    }
}

/// The trace of [`walk_operation`]: the operator tag, then each argument
/// left to right.
pub open spec fn walk_operation_trace<V: Visitor>(pre: Seq<Visit>, o: Operation) -> Seq<Visit>
    decreases o, 0int,
{
    walk_terms_trace::<V>(V::step(pre, Visit::Operator(o.operator)), o.args@)
}

pub open spec fn visit_partial_trace<V: Visitor>(pre: Seq<Visit>, c: Constraints) -> Seq<Visit>
    decreases c, 1int,
{
    let p = V::step(pre, Visit::Partial(constraints_view(c)));
    if V::flow(Visit::Partial(constraints_view(c))) is Recurse {
        walk_partial_trace::<V>(p, c)
    } else {
        p
    }
}

/// The trace of [`walk_partial`]: the constrained variable's name, then each
/// accumulated operation in order, each consulted through the operation hook.
pub open spec fn walk_partial_trace<V: Visitor>(pre: Seq<Visit>, c: Constraints) -> Seq<Visit>
    decreases c, 0int,
{
    walk_operations_trace::<V>(V::step(pre, Visit::Name(c.variable@)), c.operations@)
}

/// The elements of one operation sequence, each consulted through the
/// operation hook and walked on [`Flow::Recurse`], left to right.
pub open spec fn walk_operations_trace<V: Visitor>(pre: Seq<Visit>, s: Seq<Operation>) -> Seq<
    Visit,
>
    decreases s, 2int,
{
    if s.len() == 0 {
        pre
    } else {
        walk_operations_trace::<V>(visit_operation_trace::<V>(pre, s[0]), s.drop_first())
    }
}

// ---------------------------------------------------------------------------
// The recursion procedures.
// ---------------------------------------------------------------------------

/// The entry point of a traversal: consults the term hook on the root and,
/// if it answers [`Flow::Recurse`], resumes the canonical recursion.
pub fn visit<V: Visitor>(visitor: &mut V, term: &Term)
    ensures
        final(visitor).events() == visit_term_trace::<V>(old(visitor).events(), *term),
{
    let flow = visitor.visit_term(term);
    match flow {
        Flow::Recurse => walk_term(visitor, term),
        Flow::Prune => (),
    }
}

/// Dispatches to the one hook matching the term's value; a compound hook
/// answering [`Flow::Recurse`] resumes its paired `walk_*` procedure.
pub fn walk_term<V: Visitor>(visitor: &mut V, term: &Term)
    ensures
        final(visitor).events() == walk_term_trace::<V>(old(visitor).events(), *term),
    decreases *term,
{
    match &term.value {
        Value::Number(n) => visitor.visit_number(n),
        Value::String(s) => visitor.visit_string(s.as_str()),
        Value::Boolean(b) => visitor.visit_boolean(*b),
        Value::ExternalInstance(e) => {
            let flow = visitor.visit_external_instance(e);
            match flow {
                Flow::Recurse => walk_external_instance(visitor, e),
                Flow::Prune => (),
            }
        },
        Value::InstanceLiteral(i) => {
            let flow = visitor.visit_instance_literal(i);
            match flow {
                Flow::Recurse => walk_instance_literal(visitor, i),
                Flow::Prune => (),
            }
        },
        Value::Dictionary(d) => {
            let flow = visitor.visit_dictionary(d);
            match flow {
                Flow::Recurse => walk_dictionary(visitor, d),
                Flow::Prune => (),
            }
        },
        Value::Pattern(p) => {
            let flow = visitor.visit_pattern(p);
            match flow {
                Flow::Recurse => walk_pattern(visitor, p),
                Flow::Prune => (),
            }
        },
        Value::Call(c) => {
            let flow = visitor.visit_call(c);
            match flow {
                Flow::Recurse => walk_call(visitor, c),
                Flow::Prune => (),
            }
        },
        Value::List(l) => {
            let flow = visitor.visit_list(l);
            match flow {
                Flow::Recurse => walk_list(visitor, l),
                Flow::Prune => (),
            }
        },
        Value::Variable(v) => visitor.visit_variable(v),
        Value::RestVariable(r) => visitor.visit_rest_variable(r),
        Value::Expression(o) => {
            let flow = visitor.visit_operation(o);
            match flow {
                Flow::Recurse => walk_operation(visitor, o),
                Flow::Prune => (),
            }
        },
        Value::Partial(c) => {
            let flow = visitor.visit_partial(c);
            match flow {
                Flow::Recurse => walk_partial(visitor, c),
                Flow::Prune => (),
            }
        },
    }
}

/// The canonical recursion for an external instance: visit its opaque id.
pub fn walk_external_instance<V: Visitor>(visitor: &mut V, instance: &ExternalInstance)
    ensures
        final(visitor).events() == walk_external_instance_trace::<V>(
            old(visitor).events(),
            *instance,
        ),
{
    visitor.visit_id(instance.instance_id);
}

/// The canonical recursion for an instance literal: visit the tag name, then
/// each `(key, value)` field in dictionary order.
pub fn walk_instance_literal<V: Visitor>(visitor: &mut V, instance: &InstanceLiteral)
    ensures
        final(visitor).events() == walk_instance_literal_trace::<V>(
            old(visitor).events(),
            *instance,
        ),
    decreases *instance,
{
    visitor.visit_name(&instance.tag);
    walk_dictionary(visitor, &instance.fields);
}

/// The canonical recursion for a dictionary: visit each `(key, value)` field
/// in order. Field values are handed to the field hook, not recursed into.
pub fn walk_dictionary<V: Visitor>(visitor: &mut V, dict: &Dictionary)
    ensures
        final(visitor).events() == walk_dictionary_trace::<V>(old(visitor).events(), *dict),
    decreases *dict,
{
    let ghost pre = visitor.events();
    proof {
        assert(dict.fields@.skip(0) =~= dict.fields@);
    }
    let n = dict.fields.len();
    let mut i: usize = 0;
    while i < n
        invariant
            n == dict.fields.len(),
            i <= n,
            walk_fields_trace::<V>(pre, dict.fields@) == walk_fields_trace::<V>(
                visitor.events(),
                dict.fields@.skip(i as int),
            ),
        decreases n - i,
    {
        let ghost cur = visitor.events();
        let pair = &dict.fields[i];
        visitor.visit_field(&pair.0, &pair.1);
        i += 1;
        proof {
            let rest = dict.fields@.skip(i - 1);
            assert(rest[0] == dict.fields@[i - 1]);
            assert(rest.drop_first() =~= dict.fields@.skip(i as int));
            assert(walk_fields_trace::<V>(cur, rest) == walk_fields_trace::<V>(
                visitor.events(),
                dict.fields@.skip(i as int),
            ));
        }
    }
    proof {
        assert(dict.fields@.skip(n as int) =~= Seq::<(Symbol, Term)>::empty());
    }
}

/// The canonical recursion for a pattern: a dictionary pattern visits its
/// fields in order; an instance pattern delegates entirely to
/// instance-literal visitation.
pub fn walk_pattern<V: Visitor>(visitor: &mut V, pattern: &Pattern)
    ensures
        final(visitor).events() == walk_pattern_trace::<V>(old(visitor).events(), *pattern),
    decreases *pattern,
{
    match pattern {
        Pattern::Dictionary(d) => walk_dictionary(visitor, d),
        Pattern::Instance(i) => {
            let flow = visitor.visit_instance_literal(i);
            match flow {
                Flow::Recurse => walk_instance_literal(visitor, i),
                Flow::Prune => (),
            }
        },
    }
}

/// The canonical recursion for a call: visit its name, then each argument
/// term left to right.
pub fn walk_call<V: Visitor>(visitor: &mut V, call: &Call)
    ensures
        final(visitor).events() == walk_call_trace::<V>(old(visitor).events(), *call),
    decreases *call,
{
    visitor.visit_name(&call.name);
    walk_list(visitor, &call.args);
}

/// The canonical recursion for a list: visit each element term left to
/// right, consulting the term hook for each.
pub fn walk_list<V: Visitor>(visitor: &mut V, list: &TermList)
    ensures
        final(visitor).events() == walk_terms_trace::<V>(old(visitor).events(), list@),
    decreases *list,
{
    let ghost pre = visitor.events();
    proof {
        assert(list@.skip(0) =~= list@);
    }
    let n = list.len();
    let mut i: usize = 0;
    while i < n
        invariant
            n == list.len(),
            i <= n,
            walk_terms_trace::<V>(pre, list@) == walk_terms_trace::<V>(
                visitor.events(),
                list@.skip(i as int),
            ),
        decreases n - i,
    {
        let ghost cur = visitor.events();
        let flow = visitor.visit_term(&list[i]);
        match flow {
            Flow::Recurse => walk_term(visitor, &list[i]),
            Flow::Prune => (),
        }
        i += 1;
        proof {
            let rest = list@.skip(i - 1);
            assert(rest[0] == list@[i - 1]);
            assert(rest.drop_first() =~= list@.skip(i as int));
            assert(visitor.events() == visit_term_trace::<V>(cur, list@[i - 1]));
            assert(walk_terms_trace::<V>(cur, rest) == walk_terms_trace::<V>(
                visitor.events(),
                list@.skip(i as int),
            ));
        }
    }
    proof {
        assert(list@.skip(n as int) =~= Seq::<Term>::empty());
    }
}

/// The canonical recursion for an operation: visit the operator tag, then
/// each argument term left to right.
pub fn walk_operation<V: Visitor>(visitor: &mut V, expr: &Operation)
    ensures
        final(visitor).events() == walk_operation_trace::<V>(old(visitor).events(), *expr),
    decreases *expr,
{
    visitor.visit_operator(&expr.operator);
    walk_list(visitor, &expr.args);
}

/// The canonical recursion for a constraint set: visit the constrained
/// variable's name, then each accumulated operation in order, each
/// consulted through the operation hook.
pub fn walk_partial<V: Visitor>(visitor: &mut V, partial: &Constraints)
    ensures
        final(visitor).events() == walk_partial_trace::<V>(old(visitor).events(), *partial),
    decreases *partial,
{
    visitor.visit_name(&partial.variable);
    let ghost pre = visitor.events();
    proof {
        assert(partial.operations@.skip(0) =~= partial.operations@);
    }
    let n = partial.operations.len();
    let mut i: usize = 0;
    while i < n
        invariant
            n == partial.operations.len(),
            i <= n,
            walk_operations_trace::<V>(pre, partial.operations@) == walk_operations_trace::<V>(
                visitor.events(),
                partial.operations@.skip(i as int),
            ),
        decreases n - i,
    {
        let ghost cur = visitor.events();
        let flow = visitor.visit_operation(&partial.operations[i]);
        match flow {
            Flow::Recurse => walk_operation(visitor, &partial.operations[i]),
            Flow::Prune => (),
        }
        i += 1;
        proof {
            let rest = partial.operations@.skip(i - 1);
            assert(rest[0] == partial.operations@[i - 1]);
            assert(rest.drop_first() =~= partial.operations@.skip(i as int));
            assert(visitor.events() == visit_operation_trace::<V>(cur, partial.operations@[i - 1]));
            assert(walk_operations_trace::<V>(cur, rest) == walk_operations_trace::<V>(
                visitor.events(),
                partial.operations@.skip(i as int),
            ));
        }
    }
    proof {
        assert(partial.operations@.skip(n as int) =~= Seq::<Operation>::empty());
    }
}

} // verus!
