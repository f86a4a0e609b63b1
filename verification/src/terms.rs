//! The term tree: a closed, exhaustively matchable set of node kinds forming
//! an acyclic, immutable tree, together with its mathematical view.
//!
//! Every node is owned by its parent; the whole tree hangs off a single root
//! held by value. The traversal framework only reads these shapes; it never
//! mutates, reorders or drops nodes.

use vstd::prelude::*;

verus! {

/// A literal number: an integer, or a floating-point value carried opaquely
/// as its raw bit pattern. Nothing in this crate interprets the payload.
#[derive(Clone, Copy, PartialEq, Eq, Debug)]
pub enum Numeric {
    Integer(i64),
    Float(u64),
}

/// An owned name. Two symbols are the same name exactly when their text is
/// the same; the view of a symbol is that text.
#[derive(PartialEq, Eq, Debug)]
pub struct Symbol(pub String);

/// The tag of a logical or arithmetic operation. The traversal never
/// interprets an operator; only the tag itself is handed to visitors.
#[derive(Clone, Copy, PartialEq, Eq, Debug)]
pub enum Operator {
    Debug,
    Print,
    Cut,
    In,
    Isa,
    New,
    Dot,
    Not,
    Mul,
    Div,
    Mod,
    Rem,
    Add,
    Sub,
    Geq,
    Leq,
    Neq,
    Eq,
    Gt,
    Lt,
    Unify,
    Or,
    And,
    ForAll,
    Assign,
}

/// One node of the expression tree, wrapping exactly one [`Value`].
#[derive(PartialEq, Eq, Debug)]
pub struct Term {
    pub value: Value,
}

/// An ordered collection of terms.
pub type TermList = Vec<Term>;

/// The discriminated union of node kinds; exactly one variant is active per
/// [`Term`].
#[derive(PartialEq, Eq, Debug)]
pub enum Value {
    Number(Numeric),
    String(String),
    Boolean(bool),
    ExternalInstance(ExternalInstance),
    InstanceLiteral(InstanceLiteral),
    Dictionary(Dictionary),
    Pattern(Pattern),
    Call(Call),
    List(TermList),
    Variable(Symbol),
    RestVariable(Symbol),
    Expression(Operation),
    Partial(Constraints),
}

/// An opaque handle to a host-side object. This crate never dereferences the
/// id; it is only forwarded to visitors.
#[derive(Clone, Copy, PartialEq, Eq, Debug)]
pub struct ExternalInstance {
    pub instance_id: u64,
}

/// A field map: an ordered sequence of `(key, value)` pairs. Insertion order
/// is significant and is preserved by the traversal; keys are meant to be
/// unique within one dictionary (see [`Dictionary::wf`]).
#[derive(PartialEq, Eq, Debug)]
pub struct Dictionary {
    pub fields: Vec<(Symbol, Term)>,
}

/// A tagged record literal: a tag name and its fields.
#[derive(PartialEq, Eq, Debug)]
pub struct InstanceLiteral {
    pub tag: Symbol,
    pub fields: Dictionary,
}

/// A match pattern: either a bare field map or an instance literal.
#[derive(PartialEq, Eq, Debug)]
pub enum Pattern {
    Dictionary(Dictionary),
    Instance(InstanceLiteral),
}

/// A predicate or function invocation: a name and its ordered arguments.
/// Argument order is evaluation-significant.
#[derive(PartialEq, Eq, Debug)]
pub struct Call {
    pub name: Symbol,
    pub args: TermList,
}

/// A compound expression: an operator tag applied to ordered arguments.
#[derive(PartialEq, Eq, Debug)]
pub struct Operation {
    pub operator: Operator,
    pub args: TermList,
}

/// Deferred symbolic constraints accumulated on one unbound variable. The
/// order of the operations is the accumulation order and is preserved by the
/// traversal.
#[derive(PartialEq, Eq, Debug)]
pub struct Constraints {
    pub variable: Symbol,
    pub operations: Vec<Operation>,
}

// ---------------------------------------------------------------------------
// Views: the mathematical model of a tree, over `Seq` and plain values.
// ---------------------------------------------------------------------------

/// The view of one node: the same shape as [`Value`], with text as
/// `Seq<char>` and collections as `Seq`.
pub enum TermV {
    Number(Numeric),
    String(Seq<char>),
    Boolean(bool),
    ExternalInstance(u64),
    InstanceLiteral(InstanceLiteralV),
    Dictionary(FieldsV),
    Pattern(PatternV),
    Call(CallV),
    List(Seq<TermV>),
    Variable(Seq<char>),
    RestVariable(Seq<char>),
    Expression(OperationV),
    Partial(ConstraintsV),
}

/// The view of a field map: the `(key, value)` pairs in insertion order.
pub type FieldsV = Seq<(Seq<char>, TermV)>;

/// The view of an instance literal.
pub struct InstanceLiteralV {
    pub tag: Seq<char>,
    pub fields: FieldsV,
}

/// The view of a pattern.
pub enum PatternV {
    Dictionary(FieldsV),
    Instance(InstanceLiteralV),
}

/// The view of a call.
pub struct CallV {
    pub name: Seq<char>,
    pub args: Seq<TermV>,
}

/// The view of an operation.
pub struct OperationV {
    pub operator: Operator,
    pub args: Seq<TermV>,
}

/// The view of a constraint set.
pub struct ConstraintsV {
    pub variable: Seq<char>,
    pub operations: Seq<OperationV>,
}

pub open spec fn term_view(t: Term) -> TermV
    decreases t,
{
    value_view(t.value)
}

pub open spec fn value_view(v: Value) -> TermV
    decreases v,
{
    match v {
        Value::Number(n) => TermV::Number(n),
        Value::String(s) => TermV::String(s@),
        Value::Boolean(b) => TermV::Boolean(b),
        Value::ExternalInstance(e) => TermV::ExternalInstance(e.instance_id),
        Value::InstanceLiteral(i) => TermV::InstanceLiteral(literal_view(i)),
        Value::Dictionary(d) => TermV::Dictionary(fields_view(d.fields@)),
        Value::Pattern(p) => TermV::Pattern(pattern_view(p)),
        Value::Call(c) => TermV::Call(call_view(c)),
        Value::List(l) => TermV::List(terms_view(l@)),
        Value::Variable(s) => TermV::Variable(s@),
        Value::RestVariable(s) => TermV::RestVariable(s@),
        Value::Expression(o) => TermV::Expression(operation_view(o)),
        Value::Partial(c) => TermV::Partial(constraints_view(c)),
    }
}

pub open spec fn literal_view(i: InstanceLiteral) -> InstanceLiteralV
    decreases i,
{
    InstanceLiteralV { tag: i.tag@, fields: fields_view(i.fields.fields@) }
}

pub open spec fn pattern_view(p: Pattern) -> PatternV
    decreases p,
{
    match p {
        Pattern::Dictionary(d) => PatternV::Dictionary(fields_view(d.fields@)),
        Pattern::Instance(i) => PatternV::Instance(literal_view(i)),
    }
}

pub open spec fn call_view(c: Call) -> CallV
    decreases c,
{
    CallV { name: c.name@, args: terms_view(c.args@) }
}

pub open spec fn operation_view(o: Operation) -> OperationV
    decreases o,
{
    OperationV { operator: o.operator, args: terms_view(o.args@) }
}

pub open spec fn constraints_view(c: Constraints) -> ConstraintsV
    decreases c,
{
    ConstraintsV { variable: c.variable@, operations: operations_view(c.operations@) }
}

pub open spec fn terms_view(s: Seq<Term>) -> Seq<TermV>
    decreases s,
{
    if s.len() == 0 {
        Seq::empty()
    } else {
        seq![term_view(s[0])] + terms_view(s.drop_first())
    }
}

pub open spec fn fields_view(s: Seq<(Symbol, Term)>) -> FieldsV
    decreases s,
{
    if s.len() == 0 {
        Seq::empty()
    } else {
        seq![(s[0].0@, term_view(s[0].1))] + fields_view(s.drop_first())
    }
}

pub open spec fn operations_view(s: Seq<Operation>) -> Seq<OperationV>
    decreases s,
{
    if s.len() == 0 {
        Seq::empty()
    } else {
        seq![operation_view(s[0])] + operations_view(s.drop_first())
    }
}

impl View for Symbol {
    type V = Seq<char>;

    open spec fn view(&self) -> Seq<char> {
        self.0@
    }
}

impl View for Term {
    type V = TermV;

    open spec fn view(&self) -> TermV {
        term_view(*self)
    }
}

impl View for Value {
    type V = TermV;

    open spec fn view(&self) -> TermV {
        value_view(*self)
    }
}

impl View for InstanceLiteral {
    type V = InstanceLiteralV;

    open spec fn view(&self) -> InstanceLiteralV {
        literal_view(*self)
    }
}

impl View for Dictionary {
    type V = FieldsV;

    open spec fn view(&self) -> FieldsV {
        fields_view(self.fields@)
    }
}

impl View for Pattern {
    type V = PatternV;

    open spec fn view(&self) -> PatternV {
        pattern_view(*self)
    }
}

impl View for Call {
    type V = CallV;

    open spec fn view(&self) -> CallV {
        call_view(*self)
    }
}

impl View for Operation {
    type V = OperationV;

    open spec fn view(&self) -> OperationV {
        operation_view(*self)
    }
}

impl View for Constraints {
    type V = ConstraintsV;

    open spec fn view(&self) -> ConstraintsV {
        constraints_view(*self)
    }
}

impl Dictionary {
    /// The data-model invariant of a field map: keys are unique within one
    /// dictionary. The traversal itself is total over any tree and does not
    /// require it.
    pub open spec fn wf(&self) -> bool {
        forall|i: int, j: int|
            0 <= i < j < self.fields@.len() ==> self.fields@[i].0@ != self.fields@[j].0@
    }
}

// ---------------------------------------------------------------------------
// Cloning. Term trees are immutable, so a visitor that wants to keep a node
// must copy it; these impls promise that a copy has the same view.
// ---------------------------------------------------------------------------

impl Clone for Symbol {
    fn clone(&self) -> (r: Symbol)
        ensures
            r == *self,
    {
        Symbol(self.0.clone())
    }
}

impl Clone for Term {
    fn clone(&self) -> (r: Term)
        ensures
            r@ == self@,
        decreases self,
    {
        Term { value: self.value.clone() }
    }
}

impl Clone for Value {
    fn clone(&self) -> (r: Value)
        ensures
            r@ == self@,
        decreases self,
    {
        match self {
            Value::Number(n) => Value::Number(*n),
            Value::String(s) => Value::String(s.clone()),
            Value::Boolean(b) => Value::Boolean(*b),
            Value::ExternalInstance(e) => Value::ExternalInstance(*e),
            Value::InstanceLiteral(i) => Value::InstanceLiteral(i.clone()),
            Value::Dictionary(d) => Value::Dictionary(d.clone()),
            Value::Pattern(p) => Value::Pattern(p.clone()),
            Value::Call(c) => Value::Call(c.clone()),
            Value::List(l) => Value::List(clone_terms(l)),
            Value::Variable(s) => Value::Variable(s.clone()),
            Value::RestVariable(s) => Value::RestVariable(s.clone()),
            Value::Expression(o) => Value::Expression(o.clone()),
            Value::Partial(c) => Value::Partial(c.clone()),
        }
    }
}

impl Clone for InstanceLiteral {
    fn clone(&self) -> (r: InstanceLiteral)
        ensures
            r@ == self@,
        decreases self,
    {
        InstanceLiteral { tag: self.tag.clone(), fields: self.fields.clone() }
    }
}

impl Clone for Dictionary {
    fn clone(&self) -> (r: Dictionary)
        ensures
            r@ == self@,
        decreases self,
    {
        Dictionary { fields: clone_fields(&self.fields) }
    }
}

impl Clone for Pattern {
    fn clone(&self) -> (r: Pattern)
        ensures
            r@ == self@,
        decreases self,
    {
        match self {
            Pattern::Dictionary(d) => Pattern::Dictionary(d.clone()),
            Pattern::Instance(i) => Pattern::Instance(i.clone()),
        }
    }
}

impl Clone for Call {
    fn clone(&self) -> (r: Call)
        ensures
            r@ == self@,
        decreases self,
    {
        Call { name: self.name.clone(), args: clone_terms(&self.args) }
    }
}

impl Clone for Operation {
    fn clone(&self) -> (r: Operation)
        ensures
            r@ == self@,
        decreases self,
    {
        Operation { operator: self.operator, args: clone_terms(&self.args) }
    }
}

impl Clone for Constraints {
    fn clone(&self) -> (r: Constraints)
        ensures
            r@ == self@,
        decreases self,
    {
        Constraints { variable: self.variable.clone(), operations: clone_operations(&self.operations) }
    }
}

/// Copies a term list element by element; the copy has the same view.
fn clone_terms(v: &Vec<Term>) -> (r: Vec<Term>)
    ensures
        terms_view(r@) == terms_view(v@),
    decreases *v,
{
    let mut r: Vec<Term> = Vec::new();
    let n = v.len();
    let mut i: usize = 0;
    while i < n
        invariant
            n == v.len(),
            i <= n,
            r@.len() == i,
            forall|j: int| 0 <= j < i ==> #[trigger] term_view(r@[j]) == term_view(v@[j]),
        decreases n - i,
    {
        r.push(v[i].clone());
        i += 1;
    }
    proof {
        lemma_terms_view(r@);
        lemma_terms_view(v@);
        assert(terms_view(r@) =~= terms_view(v@));
    }
    r
}

/// Copies a field list element by element; the copy has the same view.
fn clone_fields(v: &Vec<(Symbol, Term)>) -> (r: Vec<(Symbol, Term)>)
    ensures
        fields_view(r@) == fields_view(v@),
    decreases *v,
{
    let mut r: Vec<(Symbol, Term)> = Vec::new();
    let n = v.len();
    let mut i: usize = 0;
    while i < n
        invariant
            n == v.len(),
            i <= n,
            r@.len() == i,
            forall|j: int|
                0 <= j < i ==> #[trigger] r@[j].0@ == v@[j].0@ && term_view(r@[j].1) == term_view(
                    v@[j].1,
                ),
        decreases n - i,
    {
        let pair = &v[i];
        r.push((pair.0.clone(), pair.1.clone()));
        i += 1;
    }
    proof {
        lemma_fields_view(r@);
        lemma_fields_view(v@);
        assert(fields_view(r@) =~= fields_view(v@));
    }
    r
}

/// Copies an operation list element by element; the copy has the same view.
fn clone_operations(v: &Vec<Operation>) -> (r: Vec<Operation>)
    ensures
        operations_view(r@) == operations_view(v@),
    decreases *v,
{
    let mut r: Vec<Operation> = Vec::new();
    let n = v.len();
    let mut i: usize = 0;
    while i < n
        invariant
            n == v.len(),
            i <= n,
            r@.len() == i,
            forall|j: int| 0 <= j < i ==> #[trigger] operation_view(r@[j]) == operation_view(v@[j]),
        decreases n - i,
    {
        r.push(v[i].clone());
        i += 1;
    }
    proof {
        lemma_operations_view(r@);
        lemma_operations_view(v@);
        assert(operations_view(r@) =~= operations_view(v@));
    }
    r
}

// ---------------------------------------------------------------------------
// Pointwise descriptions of the view of a sequence of nodes.
// ---------------------------------------------------------------------------

pub proof fn lemma_terms_view(s: Seq<Term>)
    ensures
        terms_view(s).len() == s.len(),
        forall|i: int| 0 <= i < s.len() ==> #[trigger] terms_view(s)[i] == term_view(s[i]),
    decreases s,
{
    if s.len() > 0 {
        lemma_terms_view(s.drop_first());
    }
}

pub proof fn lemma_fields_view(s: Seq<(Symbol, Term)>)
    ensures
        fields_view(s).len() == s.len(),
        forall|i: int|
            0 <= i < s.len() ==> #[trigger] fields_view(s)[i] == (s[i].0@, term_view(s[i].1)),
    decreases s,
{
    if s.len() > 0 {
        lemma_fields_view(s.drop_first());
    }
}

pub proof fn lemma_operations_view(s: Seq<Operation>)
    ensures
        operations_view(s).len() == s.len(),
        forall|i: int|
            0 <= i < s.len() ==> #[trigger] operations_view(s)[i] == operation_view(s[i]),
    decreases s,
{
    if s.len() > 0 {
        lemma_operations_view(s.drop_first());
    }
}

} // verus!
