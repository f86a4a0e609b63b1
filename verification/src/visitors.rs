//! Ready-made visitors, and the laws that hold of them.
//!
//! [`DefaultVisitor`] does nothing at every hook and recurses everywhere: a
//! traversal with it terminates, panics on nothing, and records nothing.
//! [`AtomRecorder`] records every atom it sees, with default recursion
//! everywhere: a traversal with it records exactly the atoms reachable in
//! the tree, in the canonical left-to-right, outer-to-inner order
//! ([`lemma_atom_recorder_complete`]). [`ListPruner`] records atoms too but
//! prunes every list node: a traversal with it visits zero elements of any
//! list anywhere in the tree, while visiting atoms outside lists normally
//! ([`lemma_list_pruner_contained`]).

use vstd::prelude::*;

use crate::terms::Call;
use crate::terms::Constraints;
use crate::terms::Dictionary;
use crate::terms::ExternalInstance;
use crate::terms::InstanceLiteral;
use crate::terms::Numeric;
use crate::terms::Operation;
use crate::terms::Operator;
use crate::terms::Pattern;
use crate::terms::Symbol;
use crate::terms::Term;
use crate::terms::TermList;
use crate::terms::Value;
use crate::terms::term_view;
use crate::walker::Flow;
use crate::walker::Visit;
use crate::walker::Visitor;
use crate::walker::visit_term_trace;
use crate::walker::walk_term_trace;
use crate::walker::walk_dictionary_trace;
use crate::walker::walk_call_trace;
use crate::walker::visit_operation_trace;
use crate::walker::walk_operation_trace;
use crate::walker::walk_fields_trace;
use crate::walker::walk_terms_trace;
use crate::walker::walk_operations_trace;

verus! {

/// Whether a hook invocation is an atom visit: a visit of a node attribute
/// with no children of its own.
pub open spec fn is_atom_visit(v: Visit) -> bool {
    match v {
        Visit::Number(_) => true,
        Visit::String(_) => true,
        Visit::Boolean(_) => true,
        Visit::Id(_) => true,
        Visit::Name(_) => true,
        Visit::Field(_, _) => true,
        Visit::Variable(_) => true,
        Visit::RestVariable(_) => true,
        Visit::Operator(_) => true,
        _ => false,
    }
}

// ---------------------------------------------------------------------------
// The canonical atom sequence of a tree: what a complete traversal shows to
// the atom hooks, in order.
// ---------------------------------------------------------------------------

/// The atoms a canonical traversal of `t` visits, in visit order.
pub open spec fn term_atoms(t: Term) -> Seq<Visit>
    decreases t, 1int,
{
    match t.value {
        Value::Number(n) => seq![Visit::Number(n)],
        Value::String(s) => seq![Visit::String(s@)],
        Value::Boolean(b) => seq![Visit::Boolean(b)],
        Value::ExternalInstance(e) => seq![Visit::Id(e.instance_id)],
        Value::InstanceLiteral(i) => literal_atoms(i),
        Value::Dictionary(d) => fields_atoms(d.fields@),
        Value::Pattern(p) => pattern_atoms(p),
        Value::Call(c) => seq![Visit::Name(c.name@)] + terms_atoms(c.args@),
        Value::List(l) => terms_atoms(l@),
        Value::Variable(v) => seq![Visit::Variable(v@)],
        Value::RestVariable(r) => seq![Visit::RestVariable(r@)],
        Value::Expression(o) => operation_atoms(o),
        Value::Partial(c) => seq![Visit::Name(c.variable@)] + operations_atoms(c.operations@),
    }
}

/// The atoms of the elements of a term sequence, left to right.
pub open spec fn terms_atoms(s: Seq<Term>) -> Seq<Visit>
    decreases s, 2int,
{
    if s.len() == 0 {
        Seq::empty()
    } else {
        term_atoms(s[0]) + terms_atoms(s.drop_first())
    }
}

/// The field entries of a field map, in insertion order.
pub open spec fn fields_atoms(s: Seq<(Symbol, Term)>) -> Seq<Visit>
    decreases s,
{
    if s.len() == 0 {
        Seq::empty()
    } else {
        seq![Visit::Field(s[0].0@, term_view(s[0].1))] + fields_atoms(s.drop_first())
    }
}

/// The atoms of an instance literal: its tag name, then its fields in order.
pub open spec fn literal_atoms(i: InstanceLiteral) -> Seq<Visit>
    decreases i,
{
    seq![Visit::Name(i.tag@)] + fields_atoms(i.fields.fields@)
}

/// The atoms of a pattern: a dictionary pattern shows its fields; an
/// instance pattern shows its literal.
pub open spec fn pattern_atoms(p: Pattern) -> Seq<Visit>
    decreases p,
{
    match p {
        Pattern::Dictionary(d) => fields_atoms(d.fields@),
        Pattern::Instance(i) => literal_atoms(i),
    }
}

/// The atoms of an operation: its operator tag, then its arguments' atoms.
pub open spec fn operation_atoms(o: Operation) -> Seq<Visit>
    decreases o, 1int,
{
    seq![Visit::Operator(o.operator)] + terms_atoms(o.args@)
}

/// The atoms of the elements of an operation sequence, left to right.
pub open spec fn operations_atoms(s: Seq<Operation>) -> Seq<Visit>
    decreases s, 2int,
{
    if s.len() == 0 {
        Seq::empty()
    } else {
        operation_atoms(s[0]) + operations_atoms(s.drop_first())
    }
}

// ---------------------------------------------------------------------------
// The default visitor: every hook a no-op, every compound recursed into.
// ---------------------------------------------------------------------------

/// The default visitor: does nothing at every hook and never prunes. A
/// traversal with it is a terminating walk over the whole tree that records
/// nothing; see [`lemma_default_visitor_silent`].
#[derive(Clone, Copy, PartialEq, Eq, Debug)]
pub struct DefaultVisitor;

impl Visitor for DefaultVisitor {
    open spec fn events(&self) -> Seq<Visit> {
        Seq::empty()
    }

    open spec fn step(pre: Seq<Visit>, v: Visit) -> Seq<Visit> {
        pre
    }

    open spec fn flow(v: Visit) -> Flow {
        Flow::Recurse
    }

    fn visit_number(&mut self, _n: &Numeric) {
    }

    fn visit_string(&mut self, _s: &str) {
    }

    fn visit_boolean(&mut self, _b: bool) {
    }

    fn visit_id(&mut self, _id: u64) {
    }

    fn visit_name(&mut self, _tag: &Symbol) {
    }

    fn visit_field(&mut self, _name: &Symbol, _value: &Term) {
    }

    fn visit_variable(&mut self, _v: &Symbol) {
    }

    fn visit_rest_variable(&mut self, _r: &Symbol) {
    }

    fn visit_operator(&mut self, _o: &Operator) {
    }

    fn visit_term(&mut self, _t: &Term) -> Flow {
        Flow::Recurse
    }

    fn visit_external_instance(&mut self, _e: &ExternalInstance) -> Flow {
        Flow::Recurse
    }

    fn visit_instance_literal(&mut self, _i: &InstanceLiteral) -> Flow {
        Flow::Recurse
    }

    fn visit_dictionary(&mut self, _d: &Dictionary) -> Flow {
        Flow::Recurse
    }

    fn visit_pattern(&mut self, _p: &Pattern) -> Flow {
        Flow::Recurse
    }

    fn visit_call(&mut self, _c: &Call) -> Flow {
        Flow::Recurse
    }

    fn visit_list(&mut self, _l: &TermList) -> Flow {
        Flow::Recurse
    }

    fn visit_operation(&mut self, _o: &Operation) -> Flow {
        Flow::Recurse
    }

    fn visit_partial(&mut self, _c: &Constraints) -> Flow {
        Flow::Recurse
    }
}

/// A whole traversal with the default visitor leaves the record untouched:
/// the walk happens — every hook is reached, as the traces say — and none
/// of them adds anything. Termination and panic-freedom of that traversal
/// hold for every well-formed tree, because [`crate::walker::visit`] and
/// the `walk_*` procedures are verified total.
pub proof fn lemma_default_visitor_silent(pre: Seq<Visit>, t: Term)
    ensures
        visit_term_trace::<DefaultVisitor>(pre, t) == pre,
        walk_term_trace::<DefaultVisitor>(pre, t) == pre,
    decreases t, 1int,
{
    match t.value {
        Value::InstanceLiteral(i) => {
            lemma_default_fields(pre, i.fields.fields@);
        },
        Value::Dictionary(d) => {
            lemma_default_fields(pre, d.fields@);
        },
        Value::Pattern(p) => {
            match p {
                Pattern::Dictionary(d) => lemma_default_fields(pre, d.fields@),
                Pattern::Instance(i) => lemma_default_fields(pre, i.fields.fields@),
            }
        },
        Value::Call(c) => {
            lemma_default_terms(pre, c.args@);
        },
        Value::List(l) => {
            lemma_default_terms(pre, l@);
        },
        Value::Expression(o) => {
            lemma_default_terms(pre, o.args@);
        },
        Value::Partial(c) => {
            lemma_default_operations(pre, c.operations@);
        },
        _ => {},
    }
}

proof fn lemma_default_terms(pre: Seq<Visit>, s: Seq<Term>)
    ensures
        walk_terms_trace::<DefaultVisitor>(pre, s) == pre,
    decreases s, 2int,
{
    if s.len() > 0 {
        lemma_default_visitor_silent(pre, s[0]);
        lemma_default_terms(pre, s.drop_first());
    }
}

proof fn lemma_default_fields(pre: Seq<Visit>, s: Seq<(Symbol, Term)>)
    ensures
        walk_fields_trace::<DefaultVisitor>(pre, s) == pre,
    decreases s,
{
    if s.len() > 0 {
        lemma_default_fields(pre, s.drop_first());
    }
}

proof fn lemma_default_operations(pre: Seq<Visit>, s: Seq<Operation>)
    ensures
        walk_operations_trace::<DefaultVisitor>(pre, s) == pre,
    decreases s, 2int,
{
    if s.len() > 0 {
        lemma_default_operation(pre, s[0]);
        lemma_default_operations(pre, s.drop_first());
    }
}

proof fn lemma_default_operation(pre: Seq<Visit>, o: Operation)
    ensures
        visit_operation_trace::<DefaultVisitor>(pre, o) == pre,
    decreases o, 1int,
{
    lemma_default_terms(pre, o.args@);
}

// ---------------------------------------------------------------------------
// The atom recorder: records every atom it sees, default recursion
// everywhere.
// ---------------------------------------------------------------------------

/// One recorded atom visit, as owned data.
#[derive(PartialEq, Eq, Debug)]
pub enum Atom {
    Number(Numeric),
    String(String),
    Boolean(bool),
    Id(u64),
    Name(Symbol),
    Field(Symbol, Term),
    Variable(Symbol),
    RestVariable(Symbol),
    Operator(Operator),
}

/// The view of one recorded atom: the hook invocation it stands for.
pub open spec fn atom_view(a: Atom) -> Visit {
    match a {
        Atom::Number(n) => Visit::Number(n),
        Atom::String(s) => Visit::String(s@),
        Atom::Boolean(b) => Visit::Boolean(b),
        Atom::Id(id) => Visit::Id(id),
        Atom::Name(sym) => Visit::Name(sym@),
        Atom::Field(k, t) => Visit::Field(k@, term_view(t)),
        Atom::Variable(v) => Visit::Variable(v@),
        Atom::RestVariable(r) => Visit::RestVariable(r@),
        Atom::Operator(o) => Visit::Operator(o),
    }
}

/// A visitor that records every atom it sees, in visit order, and leaves
/// every compound hook at its default: record nothing, recurse. Driven over
/// a tree it records exactly the atoms reachable in the tree, in canonical
/// order; see [`lemma_atom_recorder_complete`].
#[derive(PartialEq, Eq, Debug)]
pub struct AtomRecorder {
    pub visited: Vec<Atom>,
}

impl AtomRecorder {
    /// A fresh recorder with an empty record.
    pub fn new() -> (r: AtomRecorder)
        ensures
            r.events() == Seq::<Visit>::empty(),
    {
        let r = AtomRecorder { visited: Vec::new() };
        proof {
            assert(r.events() =~= Seq::<Visit>::empty());
        }
        r
    }
}

impl Visitor for AtomRecorder {
    open spec fn events(&self) -> Seq<Visit> {
        self.visited@.map_values(|a: Atom| atom_view(a))
    }

    open spec fn step(pre: Seq<Visit>, v: Visit) -> Seq<Visit> {
        if is_atom_visit(v) {
            pre + seq![v]
        } else {
            pre
        }
    }

    open spec fn flow(v: Visit) -> Flow {
        Flow::Recurse
    }

    fn visit_number(&mut self, n: &Numeric) {
        self.visited.push(Atom::Number(*n));
        proof {
            assert(self.events() =~= old(self).events() + seq![Visit::Number(*n)]);
        }
    }

    fn visit_string(&mut self, s: &str) {
        self.visited.push(Atom::String(s.to_string()));
        proof {
            assert(self.events() =~= old(self).events() + seq![Visit::String(s@)]);
        }
    }

    fn visit_boolean(&mut self, b: bool) {
        self.visited.push(Atom::Boolean(b));
        proof {
            assert(self.events() =~= old(self).events() + seq![Visit::Boolean(b)]);
        }
    }

    fn visit_id(&mut self, id: u64) {
        self.visited.push(Atom::Id(id));
        proof {
            assert(self.events() =~= old(self).events() + seq![Visit::Id(id)]);
        }
    }

    fn visit_name(&mut self, tag: &Symbol) {
        self.visited.push(Atom::Name(tag.clone()));
        proof {
            assert(self.events() =~= old(self).events() + seq![Visit::Name(tag@)]);
        }
    }

    fn visit_field(&mut self, name: &Symbol, value: &Term) {
        self.visited.push(Atom::Field(name.clone(), value.clone()));
        proof {
            assert(self.events() =~= old(self).events() + seq![
                Visit::Field(name@, term_view(*value)),
            ]);
        }
    }

    fn visit_variable(&mut self, v: &Symbol) {
        self.visited.push(Atom::Variable(v.clone()));
        proof {
            assert(self.events() =~= old(self).events() + seq![Visit::Variable(v@)]);
        }
    }

    fn visit_rest_variable(&mut self, r: &Symbol) {
        self.visited.push(Atom::RestVariable(r.clone()));
        proof {
            assert(self.events() =~= old(self).events() + seq![Visit::RestVariable(r@)]);
        }
    }

    fn visit_operator(&mut self, o: &Operator) {
        self.visited.push(Atom::Operator(*o));
        proof {
            assert(self.events() =~= old(self).events() + seq![Visit::Operator(*o)]);
        }
    }

    fn visit_term(&mut self, _t: &Term) -> Flow {
        Flow::Recurse
    }

    fn visit_external_instance(&mut self, _e: &ExternalInstance) -> Flow {
        Flow::Recurse
    }

    fn visit_instance_literal(&mut self, _i: &InstanceLiteral) -> Flow {
        Flow::Recurse
    }

    fn visit_dictionary(&mut self, _d: &Dictionary) -> Flow {
        Flow::Recurse
    }

    fn visit_pattern(&mut self, _p: &Pattern) -> Flow {
        Flow::Recurse
    }

    fn visit_call(&mut self, _c: &Call) -> Flow {
        Flow::Recurse
    }

    fn visit_list(&mut self, _l: &TermList) -> Flow {
        Flow::Recurse
    }

    fn visit_operation(&mut self, _o: &Operation) -> Flow {
        Flow::Recurse
    }

    fn visit_partial(&mut self, _c: &Constraints) -> Flow {
        Flow::Recurse
    }
}

/// Completeness of the recording traversal: driving [`AtomRecorder`] over
/// any tree, with default compound behaviour, appends exactly the sequence
/// of atoms reachable in the tree, in the canonical left-to-right,
/// outer-to-inner order — no atom missed, none invented, none reordered.
pub proof fn lemma_atom_recorder_complete(pre: Seq<Visit>, t: Term)
    ensures
        visit_term_trace::<AtomRecorder>(pre, t) == pre + term_atoms(t),
        walk_term_trace::<AtomRecorder>(pre, t) == pre + term_atoms(t),
    decreases t, 1int,
{
    match t.value {
        Value::InstanceLiteral(i) => {
            lemma_recorder_fields(pre + seq![Visit::Name(i.tag@)], i.fields.fields@);
            assert((pre + seq![Visit::Name(i.tag@)]) + fields_atoms(i.fields.fields@) =~= pre + (
            seq![Visit::Name(i.tag@)] + fields_atoms(i.fields.fields@)));
        },
        Value::Dictionary(d) => {
            lemma_recorder_fields(pre, d.fields@);
        },
        Value::Pattern(p) => {
            match p {
                Pattern::Dictionary(d) => lemma_recorder_fields(pre, d.fields@),
                Pattern::Instance(i) => {
                    lemma_recorder_fields(pre + seq![Visit::Name(i.tag@)], i.fields.fields@);
                    assert((pre + seq![Visit::Name(i.tag@)]) + fields_atoms(i.fields.fields@) =~= pre
                        + (seq![Visit::Name(i.tag@)] + fields_atoms(i.fields.fields@)));
                },
            }
        },
        Value::Call(c) => {
            lemma_recorder_terms(pre + seq![Visit::Name(c.name@)], c.args@);
            assert((pre + seq![Visit::Name(c.name@)]) + terms_atoms(c.args@) =~= pre + (seq![
                Visit::Name(c.name@),
            ] + terms_atoms(c.args@)));
        },
        Value::List(l) => {
            lemma_recorder_terms(pre, l@);
        },
        Value::Expression(o) => {
            lemma_recorder_operation(pre, o);
        },
        Value::Partial(c) => {
            lemma_recorder_operations(pre + seq![Visit::Name(c.variable@)], c.operations@);
            assert((pre + seq![Visit::Name(c.variable@)]) + operations_atoms(c.operations@) =~= pre
                + (seq![Visit::Name(c.variable@)] + operations_atoms(c.operations@)));
        },
        _ => {},
    }
}

proof fn lemma_recorder_terms(pre: Seq<Visit>, s: Seq<Term>)
    ensures
        walk_terms_trace::<AtomRecorder>(pre, s) == pre + terms_atoms(s),
    decreases s, 2int,
{
    if s.len() == 0 {
        assert(pre + Seq::<Visit>::empty() =~= pre);
    } else {
        lemma_atom_recorder_complete(pre, s[0]);
        lemma_recorder_terms(pre + term_atoms(s[0]), s.drop_first());
        assert((pre + term_atoms(s[0])) + terms_atoms(s.drop_first()) =~= pre + (term_atoms(s[0])
            + terms_atoms(s.drop_first())));
    }
}

proof fn lemma_recorder_fields(pre: Seq<Visit>, s: Seq<(Symbol, Term)>)
    ensures
        walk_fields_trace::<AtomRecorder>(pre, s) == pre + fields_atoms(s),
    decreases s,
{
    if s.len() == 0 {
        assert(pre + Seq::<Visit>::empty() =~= pre);
    } else {
        let head = seq![Visit::Field(s[0].0@, term_view(s[0].1))];
        lemma_recorder_fields(pre + head, s.drop_first());
        assert((pre + head) + fields_atoms(s.drop_first()) =~= pre + (head + fields_atoms(
            s.drop_first(),
        )));
    }
}

proof fn lemma_recorder_operations(pre: Seq<Visit>, s: Seq<Operation>)
    ensures
        walk_operations_trace::<AtomRecorder>(pre, s) == pre + operations_atoms(s),
    decreases s, 2int,
{
    if s.len() == 0 {
        assert(pre + Seq::<Visit>::empty() =~= pre);
    } else {
        lemma_recorder_operation(pre, s[0]);
        lemma_recorder_operations(pre + operation_atoms(s[0]), s.drop_first());
        assert((pre + operation_atoms(s[0])) + operations_atoms(s.drop_first()) =~= pre + (
        operation_atoms(s[0]) + operations_atoms(s.drop_first())));
    }
}

proof fn lemma_recorder_operation(pre: Seq<Visit>, o: Operation)
    ensures
        visit_operation_trace::<AtomRecorder>(pre, o) == pre + operation_atoms(o),
        walk_operation_trace::<AtomRecorder>(pre, o) == pre + operation_atoms(o),
    decreases o, 1int,
{
    lemma_recorder_terms(pre + seq![Visit::Operator(o.operator)], o.args@);
    assert((pre + seq![Visit::Operator(o.operator)]) + terms_atoms(o.args@) =~= pre + (seq![
        Visit::Operator(o.operator),
    ] + terms_atoms(o.args@)));
}

/// Order fidelity for calls: walking a call with three arguments records
/// the call's name first, then each argument's atoms, left to right.
pub proof fn lemma_call_visit_order(pre: Seq<Visit>, c: Call)
    requires
        c.args@.len() == 3,
    ensures
        walk_call_trace::<AtomRecorder>(pre, c) == pre + seq![Visit::Name(c.name@)] + term_atoms(
            c.args@[0],
        ) + term_atoms(c.args@[1]) + term_atoms(c.args@[2]),
{
    let s = c.args@;
    lemma_recorder_terms(pre + seq![Visit::Name(c.name@)], s);
    assert(s.drop_first()[0] == s[1]);
    assert(s.drop_first().drop_first()[0] == s[2]);
    assert(s.drop_first().drop_first().drop_first().len() == 0);
    assert(terms_atoms(s.drop_first().drop_first().drop_first()) == Seq::<Visit>::empty());
    assert(terms_atoms(s.drop_first().drop_first()) == term_atoms(s[2]) + Seq::<Visit>::empty());
    assert(terms_atoms(s.drop_first()) == term_atoms(s[1]) + terms_atoms(
        s.drop_first().drop_first(),
    ));
    assert(terms_atoms(s) == term_atoms(s[0]) + terms_atoms(s.drop_first()));
    assert((pre + seq![Visit::Name(c.name@)]) + terms_atoms(s) =~= pre + seq![
        Visit::Name(c.name@),
    ] + term_atoms(s[0]) + term_atoms(s[1]) + term_atoms(s[2]));
}

/// Dictionary field order: walking a dictionary records one field entry per
/// field, in insertion order — the entry at position `i` is the field that
/// was inserted at position `i`, never reordered by any key ordering.
pub proof fn lemma_dictionary_field_order(pre: Seq<Visit>, d: Dictionary)
    ensures
        walk_dictionary_trace::<AtomRecorder>(pre, d) == pre + fields_atoms(d.fields@),
        fields_atoms(d.fields@).len() == d.fields@.len(),
        forall|i: int|
            0 <= i < d.fields@.len() ==> #[trigger] fields_atoms(d.fields@)[i] == Visit::Field(
                d.fields@[i].0@,
                term_view(d.fields@[i].1),
            ),
{
    lemma_recorder_fields(pre, d.fields@);
    lemma_fields_atoms_index(d.fields@);
}

proof fn lemma_fields_atoms_index(s: Seq<(Symbol, Term)>)
    ensures
        fields_atoms(s).len() == s.len(),
        forall|i: int|
            0 <= i < s.len() ==> #[trigger] fields_atoms(s)[i] == Visit::Field(
                s[i].0@,
                term_view(s[i].1),
            ),
    decreases s,
{
    if s.len() > 0 {
        lemma_fields_atoms_index(s.drop_first());
    }
}

// ---------------------------------------------------------------------------
// The list pruner: overrides only the list hook, to prune.
// ---------------------------------------------------------------------------

/// The atoms a traversal that prunes every list node visits, in visit
/// order: as [`term_atoms`], except that a list contributes nothing at all
/// — none of its elements is entered.
pub open spec fn term_atoms_outside_lists(t: Term) -> Seq<Visit>
    decreases t, 1int,
{
    match t.value {
        Value::Number(n) => seq![Visit::Number(n)],
        Value::String(s) => seq![Visit::String(s@)],
        Value::Boolean(b) => seq![Visit::Boolean(b)],
        Value::ExternalInstance(e) => seq![Visit::Id(e.instance_id)],
        Value::InstanceLiteral(i) => literal_atoms(i),
        Value::Dictionary(d) => fields_atoms(d.fields@),
        Value::Pattern(p) => pattern_atoms(p),
        Value::Call(c) => seq![Visit::Name(c.name@)] + terms_atoms_outside_lists(c.args@),
        Value::List(_) => Seq::empty(),
        Value::Variable(v) => seq![Visit::Variable(v@)],
        Value::RestVariable(r) => seq![Visit::RestVariable(r@)],
        Value::Expression(o) => operation_atoms_outside_lists(o),
        Value::Partial(c) => seq![Visit::Name(c.variable@)] + operations_atoms_outside_lists(
            c.operations@,
        ),
    }
}

/// The pruned atoms of the elements of a term sequence, left to right.
pub open spec fn terms_atoms_outside_lists(s: Seq<Term>) -> Seq<Visit>
    decreases s, 2int,
{
    if s.len() == 0 {
        Seq::empty()
    } else {
        term_atoms_outside_lists(s[0]) + terms_atoms_outside_lists(s.drop_first())
    }
}

/// The pruned atoms of an operation.
pub open spec fn operation_atoms_outside_lists(o: Operation) -> Seq<Visit>
    decreases o, 1int,
{
    seq![Visit::Operator(o.operator)] + terms_atoms_outside_lists(o.args@)
}

/// The pruned atoms of the elements of an operation sequence.
pub open spec fn operations_atoms_outside_lists(s: Seq<Operation>) -> Seq<Visit>
    decreases s, 2int,
{
    if s.len() == 0 {
        Seq::empty()
    } else {
        operation_atoms_outside_lists(s[0]) + operations_atoms_outside_lists(s.drop_first())
    }
}

/// A visitor that records atoms like [`AtomRecorder`] but overrides only
/// the list hook, answering [`Flow::Prune`] there and recording nothing for
/// the list itself: no element of any list, anywhere in the tree, is
/// visited, while atoms outside lists are visited normally; see
/// [`lemma_list_pruner_contained`].
#[derive(PartialEq, Eq, Debug)]
pub struct ListPruner {
    pub visited: Vec<Atom>,
}

impl ListPruner {
    /// A fresh pruning recorder with an empty record.
    pub fn new() -> (r: ListPruner)
        ensures
            r.events() == Seq::<Visit>::empty(),
    {
        let r = ListPruner { visited: Vec::new() };
        proof {
            assert(r.events() =~= Seq::<Visit>::empty());
        }
        r
    }
}

impl Visitor for ListPruner {
    open spec fn events(&self) -> Seq<Visit> {
        self.visited@.map_values(|a: Atom| atom_view(a))
    }

    open spec fn step(pre: Seq<Visit>, v: Visit) -> Seq<Visit> {
        if is_atom_visit(v) {
            pre + seq![v]
        } else {
            pre
        }
    }

    open spec fn flow(v: Visit) -> Flow {
        match v {
            Visit::List(_) => Flow::Prune,
            _ => Flow::Recurse,
        }
    }

    fn visit_number(&mut self, n: &Numeric) {
        self.visited.push(Atom::Number(*n));
        proof {
            assert(self.events() =~= old(self).events() + seq![Visit::Number(*n)]);
        }
    }

    fn visit_string(&mut self, s: &str) {
        self.visited.push(Atom::String(s.to_string()));
        proof {
            assert(self.events() =~= old(self).events() + seq![Visit::String(s@)]);
        }
    }

    fn visit_boolean(&mut self, b: bool) {
        self.visited.push(Atom::Boolean(b));
        proof {
            assert(self.events() =~= old(self).events() + seq![Visit::Boolean(b)]);
        }
    }

    fn visit_id(&mut self, id: u64) {
        self.visited.push(Atom::Id(id));
        proof {
            assert(self.events() =~= old(self).events() + seq![Visit::Id(id)]);
        }
    }

    fn visit_name(&mut self, tag: &Symbol) {
        self.visited.push(Atom::Name(tag.clone()));
        proof {
            assert(self.events() =~= old(self).events() + seq![Visit::Name(tag@)]);
        }
    }

    fn visit_field(&mut self, name: &Symbol, value: &Term) {
        self.visited.push(Atom::Field(name.clone(), value.clone()));
        proof {
            assert(self.events() =~= old(self).events() + seq![
                Visit::Field(name@, term_view(*value)),
            ]);
        }
    }

    fn visit_variable(&mut self, v: &Symbol) {
        self.visited.push(Atom::Variable(v.clone()));
        proof {
            assert(self.events() =~= old(self).events() + seq![Visit::Variable(v@)]);
        }
    }

    fn visit_rest_variable(&mut self, r: &Symbol) {
        self.visited.push(Atom::RestVariable(r.clone()));
        proof {
            assert(self.events() =~= old(self).events() + seq![Visit::RestVariable(r@)]);
        }
    }

    fn visit_operator(&mut self, o: &Operator) {
        self.visited.push(Atom::Operator(*o));
        proof {
            assert(self.events() =~= old(self).events() + seq![Visit::Operator(*o)]);
        }
    }

    fn visit_term(&mut self, _t: &Term) -> Flow {
        Flow::Recurse
    }

    fn visit_external_instance(&mut self, _e: &ExternalInstance) -> Flow {
        Flow::Recurse
    }

    fn visit_instance_literal(&mut self, _i: &InstanceLiteral) -> Flow {
        Flow::Recurse
    }

    fn visit_dictionary(&mut self, _d: &Dictionary) -> Flow {
        Flow::Recurse
    }

    fn visit_pattern(&mut self, _p: &Pattern) -> Flow {
        Flow::Recurse
    }

    fn visit_call(&mut self, _c: &Call) -> Flow {
        Flow::Recurse
    }

    fn visit_list(&mut self, _l: &TermList) -> Flow {
        Flow::Prune
    }

    fn visit_operation(&mut self, _o: &Operation) -> Flow {
        Flow::Recurse
    }

    fn visit_partial(&mut self, _c: &Constraints) -> Flow {
        Flow::Recurse
    }
}

/// Partial-override containment: a traversal with [`ListPruner`] — which
/// overrides only the list hook, recording and recursing nowhere inside a
/// list — appends exactly the atoms outside lists, in canonical order, and
/// not one atom of any list's elements, anywhere in the tree.
pub proof fn lemma_list_pruner_contained(pre: Seq<Visit>, t: Term)
    ensures
        visit_term_trace::<ListPruner>(pre, t) == pre + term_atoms_outside_lists(t),
        walk_term_trace::<ListPruner>(pre, t) == pre + term_atoms_outside_lists(t),
    decreases t, 1int,
{
    match t.value {
        Value::InstanceLiteral(i) => {
            lemma_pruner_fields(pre + seq![Visit::Name(i.tag@)], i.fields.fields@);
            assert((pre + seq![Visit::Name(i.tag@)]) + fields_atoms(i.fields.fields@) =~= pre + (
            seq![Visit::Name(i.tag@)] + fields_atoms(i.fields.fields@)));
        },
        Value::Dictionary(d) => {
            lemma_pruner_fields(pre, d.fields@);
        },
        Value::Pattern(p) => {
            match p {
                Pattern::Dictionary(d) => lemma_pruner_fields(pre, d.fields@),
                Pattern::Instance(i) => {
                    lemma_pruner_fields(pre + seq![Visit::Name(i.tag@)], i.fields.fields@);
                    assert((pre + seq![Visit::Name(i.tag@)]) + fields_atoms(i.fields.fields@) =~= pre
                        + (seq![Visit::Name(i.tag@)] + fields_atoms(i.fields.fields@)));
                },
            }
        },
        Value::Call(c) => {
            lemma_pruner_terms(pre + seq![Visit::Name(c.name@)], c.args@);
            assert((pre + seq![Visit::Name(c.name@)]) + terms_atoms_outside_lists(c.args@) =~= pre
                + (seq![Visit::Name(c.name@)] + terms_atoms_outside_lists(c.args@)));
        },
        Value::List(l) => {
            assert(pre + Seq::<Visit>::empty() =~= pre);
        },
        Value::Expression(o) => {
            lemma_pruner_operation(pre, o);
        },
        Value::Partial(c) => {
            lemma_pruner_operations(pre + seq![Visit::Name(c.variable@)], c.operations@);
            assert((pre + seq![Visit::Name(c.variable@)]) + operations_atoms_outside_lists(
                c.operations@,
            ) =~= pre + (seq![Visit::Name(c.variable@)] + operations_atoms_outside_lists(
                c.operations@,
            )));
        },
        _ => {},
    }
}

proof fn lemma_pruner_terms(pre: Seq<Visit>, s: Seq<Term>)
    ensures
        walk_terms_trace::<ListPruner>(pre, s) == pre + terms_atoms_outside_lists(s),
    decreases s, 2int,
{
    if s.len() == 0 {
        assert(pre + Seq::<Visit>::empty() =~= pre);
    } else {
        lemma_list_pruner_contained(pre, s[0]);
        lemma_pruner_terms(pre + term_atoms_outside_lists(s[0]), s.drop_first());
        assert((pre + term_atoms_outside_lists(s[0])) + terms_atoms_outside_lists(s.drop_first())
            =~= pre + (term_atoms_outside_lists(s[0]) + terms_atoms_outside_lists(
            s.drop_first(),
        )));
    }
}

proof fn lemma_pruner_fields(pre: Seq<Visit>, s: Seq<(Symbol, Term)>)
    ensures
        walk_fields_trace::<ListPruner>(pre, s) == pre + fields_atoms(s),
    decreases s,
{
    if s.len() == 0 {
        assert(pre + Seq::<Visit>::empty() =~= pre);
    } else {
        let head = seq![Visit::Field(s[0].0@, term_view(s[0].1))];
        lemma_pruner_fields(pre + head, s.drop_first());
        assert((pre + head) + fields_atoms(s.drop_first()) =~= pre + (head + fields_atoms(
            s.drop_first(),
        )));
    }
}

proof fn lemma_pruner_operations(pre: Seq<Visit>, s: Seq<Operation>)
    ensures
        walk_operations_trace::<ListPruner>(pre, s) == pre + operations_atoms_outside_lists(s),
    decreases s, 2int,
{
    if s.len() == 0 {
        assert(pre + Seq::<Visit>::empty() =~= pre);
    } else {
        lemma_pruner_operation(pre, s[0]);
        lemma_pruner_operations(pre + operation_atoms_outside_lists(s[0]), s.drop_first());
        assert((pre + operation_atoms_outside_lists(s[0])) + operations_atoms_outside_lists(
            s.drop_first(),
        ) =~= pre + (operation_atoms_outside_lists(s[0]) + operations_atoms_outside_lists(
            s.drop_first(),
        )));
    }
}

proof fn lemma_pruner_operation(pre: Seq<Visit>, o: Operation)
    ensures
        visit_operation_trace::<ListPruner>(pre, o) == pre + operation_atoms_outside_lists(o),
        walk_operation_trace::<ListPruner>(pre, o) == pre + operation_atoms_outside_lists(o),
    decreases o, 1int,
{
    lemma_pruner_terms(pre + seq![Visit::Operator(o.operator)], o.args@);
    assert((pre + seq![Visit::Operator(o.operator)]) + terms_atoms_outside_lists(o.args@) =~= pre
        + (seq![Visit::Operator(o.operator)] + terms_atoms_outside_lists(o.args@)));
}

} // verus!
