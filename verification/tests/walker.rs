use term_walker::terms::Call;
use term_walker::terms::Constraints;
use term_walker::terms::Dictionary;
use term_walker::terms::ExternalInstance;
use term_walker::terms::InstanceLiteral;
use term_walker::terms::Numeric;
use term_walker::terms::Operation;
use term_walker::terms::Operator;
use term_walker::terms::Pattern;
use term_walker::terms::Symbol;
use term_walker::terms::Term;
use term_walker::terms::Value;
use term_walker::visitors::Atom;
use term_walker::visitors::AtomRecorder;
use term_walker::visitors::DefaultVisitor;
use term_walker::visitors::ListPruner;
use term_walker::walker::visit;
use term_walker::walker::walk_call;
use term_walker::walker::walk_dictionary;
use term_walker::walker::walk_external_instance;
use term_walker::walker::walk_instance_literal;
use term_walker::walker::walk_list;
use term_walker::walker::walk_operation;
use term_walker::walker::walk_partial;
use term_walker::walker::walk_pattern;
use term_walker::walker::walk_term;

fn term(value: Value) -> Term {
    Term { value }
}

fn sym(name: &str) -> Symbol {
    Symbol(name.to_string())
}

fn num(i: i64) -> Term {
    term(Value::Number(Numeric::Integer(i)))
}

#[test]
fn test_walk_term() {
    let t = term(Value::List(vec![
        num(1),
        term(Value::String("Hi there!".to_string())),
        term(Value::Boolean(true)),
    ]));
    let mut v = AtomRecorder::new();
    visit(&mut v, &t);
    assert_eq!(
        v.visited,
        vec![
            Atom::Number(Numeric::Integer(1)),
            Atom::String("Hi there!".to_string()),
            Atom::Boolean(true),
        ]
    );
}

#[test]
fn test_default_visitor_is_total() {
    // A default (no-op) visitor walks the whole tree, terminates and panics
    // on nothing, whatever the shapes are.
    let t = term(Value::Expression(Operation {
        operator: Operator::And,
        args: vec![
            term(Value::Call(Call {
                name: sym("f"),
                args: vec![term(Value::Variable(sym("x"))), num(3)],
            })),
            term(Value::List(vec![num(1), term(Value::RestVariable(sym("rest")))])),
            term(Value::Partial(Constraints {
                variable: sym("y"),
                operations: vec![Operation { operator: Operator::Unify, args: vec![num(2)] }],
            })),
        ],
    }));
    let mut v = DefaultVisitor;
    visit(&mut v, &t);
    visit(&mut v, &t);
    assert_eq!(v, DefaultVisitor);
}

#[test]
fn test_atoms_recorded_in_canonical_order() {
    let t = term(Value::List(vec![
        term(Value::Call(Call {
            name: sym("g"),
            args: vec![num(7), term(Value::Variable(sym("v")))],
        })),
        term(Value::ExternalInstance(ExternalInstance { instance_id: 42 })),
        term(Value::Number(Numeric::Float(0x3FF0000000000000))),
    ]));
    let mut v = AtomRecorder::new();
    visit(&mut v, &t);
    assert_eq!(
        v.visited,
        vec![
            Atom::Name(sym("g")),
            Atom::Number(Numeric::Integer(7)),
            Atom::Variable(sym("v")),
            Atom::Id(42),
            Atom::Number(Numeric::Float(0x3FF0000000000000)),
        ]
    );
}

#[test]
fn test_call_visit_order() {
    // name first, then the arguments left to right.
    let c = Call { name: sym("f"), args: vec![num(1), num(2), num(3)] };
    let mut v = AtomRecorder::new();
    walk_call(&mut v, &c);
    assert_eq!(
        v.visited,
        vec![
            Atom::Name(sym("f")),
            Atom::Number(Numeric::Integer(1)),
            Atom::Number(Numeric::Integer(2)),
            Atom::Number(Numeric::Integer(3)),
        ]
    );
}

#[test]
fn test_list_pruner_skips_every_list() {
    // Lists are pruned wherever they stand; atoms outside lists are still
    // visited normally.
    let t = term(Value::Expression(Operation {
        operator: Operator::And,
        args: vec![
            term(Value::List(vec![num(1), num(2)])),
            term(Value::Variable(sym("y"))),
            term(Value::Call(Call {
                name: sym("h"),
                args: vec![term(Value::List(vec![num(9)])), num(5)],
            })),
        ],
    }));
    let mut v = ListPruner::new();
    visit(&mut v, &t);
    assert_eq!(
        v.visited,
        vec![
            Atom::Operator(Operator::And),
            Atom::Variable(sym("y")),
            Atom::Name(sym("h")),
            Atom::Number(Numeric::Integer(5)),
        ]
    );
}

#[test]
fn test_dictionary_field_order() {
    // Fields are visited in insertion order, not reordered by any canonical
    // key ordering.
    let d = Dictionary { fields: vec![(sym("x"), num(1)), (sym("y"), num(2))] };
    let mut v = AtomRecorder::new();
    walk_dictionary(&mut v, &d);
    assert_eq!(
        v.visited,
        vec![Atom::Field(sym("x"), num(1)), Atom::Field(sym("y"), num(2))]
    );

    let reversed = Dictionary { fields: vec![(sym("y"), num(2)), (sym("x"), num(1))] };
    let mut w = AtomRecorder::new();
    walk_dictionary(&mut w, &reversed);
    assert_eq!(
        w.visited,
        vec![Atom::Field(sym("y"), num(2)), Atom::Field(sym("x"), num(1))]
    );
}

#[test]
fn test_operation_scenario() {
    // And, then f, then x, in that order.
    let t = term(Value::Expression(Operation {
        operator: Operator::And,
        args: vec![term(Value::Call(Call {
            name: sym("f"),
            args: vec![term(Value::Variable(sym("x")))],
        }))],
    }));
    let mut v = AtomRecorder::new();
    visit(&mut v, &t);
    assert_eq!(
        v.visited,
        vec![
            Atom::Operator(Operator::And),
            Atom::Name(sym("f")),
            Atom::Variable(sym("x")),
        ]
    );
}

#[test]
fn test_walk_operation_directly() {
    let o = Operation { operator: Operator::Add, args: vec![num(1), num(2)] };
    let mut v = AtomRecorder::new();
    walk_operation(&mut v, &o);
    assert_eq!(
        v.visited,
        vec![
            Atom::Operator(Operator::Add),
            Atom::Number(Numeric::Integer(1)),
            Atom::Number(Numeric::Integer(2)),
        ]
    );
}

#[test]
fn test_walk_partial_order() {
    // The constrained variable's name, then each operation in accumulation
    // order, each as operator then arguments.
    let c = Constraints {
        variable: sym("x"),
        operations: vec![
            Operation { operator: Operator::Gt, args: vec![num(1)] },
            Operation { operator: Operator::Lt, args: vec![num(9)] },
        ],
    };
    let mut v = AtomRecorder::new();
    walk_partial(&mut v, &c);
    assert_eq!(
        v.visited,
        vec![
            Atom::Name(sym("x")),
            Atom::Operator(Operator::Gt),
            Atom::Number(Numeric::Integer(1)),
            Atom::Operator(Operator::Lt),
            Atom::Number(Numeric::Integer(9)),
        ]
    );
}

#[test]
fn test_walk_instance_literal_and_pattern() {
    // An instance literal shows its tag, then its fields in order; a
    // pattern over it delegates entirely to instance-literal visitation.
    let lit = InstanceLiteral {
        tag: sym("Point"),
        fields: Dictionary { fields: vec![(sym("a"), num(1)), (sym("b"), num(2))] },
    };
    let mut v = AtomRecorder::new();
    walk_instance_literal(&mut v, &lit);
    let expected = vec![
        Atom::Name(sym("Point")),
        Atom::Field(sym("a"), num(1)),
        Atom::Field(sym("b"), num(2)),
    ];
    assert_eq!(v.visited, expected);

    let p = Pattern::Instance(lit);
    let mut w = AtomRecorder::new();
    walk_pattern(&mut w, &p);
    assert_eq!(w.visited, expected);

    let q = Pattern::Dictionary(Dictionary { fields: vec![(sym("k"), num(3))] });
    let mut u = AtomRecorder::new();
    walk_pattern(&mut u, &q);
    assert_eq!(u.visited, vec![Atom::Field(sym("k"), num(3))]);
}

#[test]
fn test_field_values_are_not_recursed_into() {
    // A dictionary hands each (key, value) pair to the field hook; the
    // value term's own atoms are not visited.
    let d = Dictionary {
        fields: vec![(sym("inner"), term(Value::List(vec![num(1), num(2)])))],
    };
    let mut v = AtomRecorder::new();
    walk_dictionary(&mut v, &d);
    assert_eq!(
        v.visited,
        vec![Atom::Field(sym("inner"), term(Value::List(vec![num(1), num(2)])))]
    );
}

#[test]
fn test_walk_external_instance() {
    let e = ExternalInstance { instance_id: 7 };
    let mut v = AtomRecorder::new();
    walk_external_instance(&mut v, &e);
    assert_eq!(v.visited, vec![Atom::Id(7)]);
}

#[test]
fn test_empty_list_visits_nothing() {
    let t = term(Value::List(vec![]));
    let mut v = AtomRecorder::new();
    visit(&mut v, &t);
    assert_eq!(v.visited, vec![]);

    let empty: Vec<Term> = vec![];
    let mut w = AtomRecorder::new();
    walk_list(&mut w, &empty);
    assert_eq!(w.visited, vec![]);
}

#[test]
fn test_rest_variable_and_walk_term_entry() {
    let t = term(Value::List(vec![
        term(Value::Variable(sym("head"))),
        term(Value::RestVariable(sym("tail"))),
    ]));
    let mut v = AtomRecorder::new();
    walk_term(&mut v, &t);
    assert_eq!(
        v.visited,
        vec![Atom::Variable(sym("head")), Atom::RestVariable(sym("tail"))]
    );
}

#[test]
fn test_recorder_is_reusable_across_trees() {
    // One visitor instance may be driven over several disjoint trees in
    // sequence; its record accumulates.
    let a = num(1);
    let b = term(Value::Boolean(false));
    let mut v = AtomRecorder::new();
    visit(&mut v, &a);
    visit(&mut v, &b);
    assert_eq!(
        v.visited,
        vec![Atom::Number(Numeric::Integer(1)), Atom::Boolean(false)]
    );
}

#[test]
fn test_clone_preserves_a_tree() {
    let t = term(Value::Expression(Operation {
        operator: Operator::Unify,
        args: vec![
            term(Value::Variable(sym("x"))),
            term(Value::InstanceLiteral(InstanceLiteral {
                tag: sym("Tag"),
                fields: Dictionary { fields: vec![(sym("f"), num(3))] },
            })),
        ],
    }));
    let copy = t.clone();
    assert_eq!(copy, t);

    let mut v = AtomRecorder::new();
    visit(&mut v, &copy);
    let mut w = AtomRecorder::new();
    visit(&mut w, &t);
    assert_eq!(v.visited, w.visited);
}
