use std::convert::TryFrom;

use rio_api::gmodel::{GeneralizedQuad, GeneralizedTerm, StrictRdfCause, StrictRdfError, Variable};
use rio_api::model::{BlankNode, Literal, NamedNode, NamedOrBlankNode, Quad, Term, Triple};

fn var(name: &str) -> GeneralizedTerm<'_> {
    GeneralizedTerm::from(Variable { name })
}

fn iri(iri: &str) -> NamedNode<'_> {
    NamedNode { iri }
}

fn err(cause: StrictRdfCause) -> StrictRdfError {
    StrictRdfError { cause }
}

#[test]
fn variable_renders_with_question_mark() {
    assert_eq!("?foobar", Variable { name: "foobar" }.render());
}

#[test]
fn quad_in_default_graph_renders_as_pattern() {
    let q = GeneralizedQuad {
        subject: var("s"),
        predicate: var("p"),
        object: var("o"),
        graph_name: None,
    };
    assert_eq!("?s ?p ?o .", q.render());
}

#[test]
fn quad_in_named_graph_renders_inside_graph_block() {
    let q = GeneralizedQuad {
        subject: var("s"),
        predicate: var("p"),
        object: var("o"),
        graph_name: Some(var("g")),
    };
    assert_eq!("GRAPH ?g { ?s ?p ?o .}", q.render());
}

#[test]
fn concrete_terms_render_in_ntriples_syntax() {
    assert_eq!("<http://e/a>", GeneralizedTerm::from(iri("http://e/a")).render());
    assert_eq!("_:b0", GeneralizedTerm::from(BlankNode { id: "b0" }).render());
    assert_eq!(
        "\"hi\"",
        GeneralizedTerm::from(Literal::Simple { value: "hi" }).render()
    );
    assert_eq!(
        "\"chat\"@fr",
        GeneralizedTerm::from(Literal::LanguageTaggedString { value: "chat", language: "fr" })
            .render()
    );
    assert_eq!(
        "\"1\"^^<http://www.w3.org/2001/XMLSchema#integer>",
        GeneralizedTerm::from(Literal::Typed {
            value: "1",
            datatype: iri("http://www.w3.org/2001/XMLSchema#integer"),
        })
        .render()
    );
}

#[test]
fn literal_rendering_escapes_quotes_backslashes_and_line_breaks() {
    let l = Literal::Simple { value: "a\"b\\c\nd\re" };
    assert_eq!("\"a\\\"b\\\\c\\nd\\re\"", l.render());
    assert_eq!("\"\"", Literal::Simple { value: "" }.render());
    assert_eq!("\"é\"", Literal::Simple { value: "é" }.render());
}

#[test]
fn quad_with_concrete_terms_renders_each_term() {
    let q = GeneralizedQuad::from(Quad {
        subject: NamedOrBlankNode::BlankNode(BlankNode { id: "x" }),
        predicate: iri("http://e/p"),
        object: Term::Literal(Literal::Simple { value: "v" }),
        graph_name: Some(NamedOrBlankNode::NamedNode(iri("http://e/g"))),
    });
    assert_eq!("GRAPH <http://e/g> { _:x <http://e/p> \"v\" .}", q.render());
}

#[test]
fn named_node_round_trips_through_every_target() {
    let n = iri("http://e/a");
    let g = GeneralizedTerm::from(n);
    assert_eq!(Ok(n), NamedNode::try_from(g));
    assert_eq!(Ok(NamedOrBlankNode::NamedNode(n)), NamedOrBlankNode::try_from(g));
    assert_eq!(Ok(Term::NamedNode(n)), Term::try_from(g));
}

#[test]
fn blank_node_round_trips_as_subject_and_object() {
    let b = BlankNode { id: "b" };
    let g = GeneralizedTerm::from(b);
    assert_eq!(Ok(NamedOrBlankNode::BlankNode(b)), NamedOrBlankNode::try_from(g));
    assert_eq!(Ok(Term::BlankNode(b)), Term::try_from(g));
    assert_eq!(Err(err(StrictRdfCause::BlankNodeAsPredicate)), NamedNode::try_from(g));
}

#[test]
fn strict_unions_round_trip() {
    let s = NamedOrBlankNode::BlankNode(BlankNode { id: "b" });
    assert_eq!(GeneralizedTerm::BlankNode(BlankNode { id: "b" }), GeneralizedTerm::from(s));
    assert_eq!(Ok(s), NamedOrBlankNode::try_from(GeneralizedTerm::from(s)));
    let t = Term::Literal(Literal::LanguageTaggedString { value: "x", language: "en" });
    assert_eq!(Ok(t), Term::try_from(GeneralizedTerm::from(t)));
}

#[test]
fn quad_and_triple_round_trip() {
    let q = Quad {
        subject: NamedOrBlankNode::NamedNode(iri("http://e/s")),
        predicate: iri("http://e/p"),
        object: Term::BlankNode(BlankNode { id: "o" }),
        graph_name: Some(NamedOrBlankNode::BlankNode(BlankNode { id: "g" })),
    };
    let g = GeneralizedQuad::from(q);
    assert_eq!(Some(GeneralizedTerm::BlankNode(BlankNode { id: "g" })), g.graph_name);
    assert_eq!(Ok(q), Quad::try_from(g));
    let t = Triple {
        subject: NamedOrBlankNode::BlankNode(BlankNode { id: "s" }),
        predicate: iri("http://e/p"),
        object: Term::Literal(Literal::Simple { value: "v" }),
    };
    let g = GeneralizedQuad::from(t);
    assert_eq!(None, g.graph_name);
    assert_eq!(Ok(t), Triple::try_from(g));
}

#[test]
fn variable_is_refused_by_every_target() {
    let g = var("x");
    let e = err(StrictRdfCause::VariableNotConcrete);
    assert_eq!(Err(e), NamedNode::try_from(g));
    assert_eq!(Err(e), NamedOrBlankNode::try_from(g));
    assert_eq!(Err(e), Term::try_from(g));
}

#[test]
fn literal_is_accepted_only_as_object() {
    let l = Literal::Simple { value: "v" };
    let g = GeneralizedTerm::from(l);
    assert_eq!(Err(err(StrictRdfCause::LiteralAsPredicate)), NamedNode::try_from(g));
    assert_eq!(Err(err(StrictRdfCause::LiteralAsSubject)), NamedOrBlankNode::try_from(g));
    assert_eq!(Ok(Term::Literal(l)), Term::try_from(g));
}

#[test]
fn default_graph_triple_equals_quad_without_graph() {
    let g = GeneralizedQuad {
        subject: GeneralizedTerm::from(iri("http://e/s")),
        predicate: GeneralizedTerm::from(iri("http://e/p")),
        object: GeneralizedTerm::from(Literal::Simple { value: "o" }),
        graph_name: None,
    };
    let q = Quad::try_from(g.clone()).unwrap();
    let t = Triple::try_from(g).unwrap();
    assert_eq!(None, q.graph_name);
    assert_eq!(
        Triple { subject: q.subject, predicate: q.predicate, object: q.object },
        t
    );
}

#[test]
fn named_graph_quad_is_refused_as_triple() {
    let g = GeneralizedQuad {
        subject: GeneralizedTerm::from(iri("http://e/s")),
        predicate: GeneralizedTerm::from(iri("http://e/p")),
        object: GeneralizedTerm::from(iri("http://e/o")),
        graph_name: Some(GeneralizedTerm::from(iri("g"))),
    };
    assert_eq!(Err(err(StrictRdfCause::NamedGraphInTriple)), Triple::try_from(g.clone()));
    assert!(Quad::try_from(g).is_ok());
    let bad = GeneralizedQuad {
        subject: var("s"),
        predicate: var("p"),
        object: var("o"),
        graph_name: Some(GeneralizedTerm::from(iri("g"))),
    };
    assert_eq!(Err(err(StrictRdfCause::NamedGraphInTriple)), Triple::try_from(bad));
}

#[test]
fn subject_violation_is_reported_before_object_violation() {
    let g = GeneralizedQuad {
        subject: GeneralizedTerm::from(Literal::Simple { value: "s" }),
        predicate: GeneralizedTerm::from(iri("http://e/p")),
        object: var("o"),
        graph_name: None,
    };
    assert_eq!(Err(err(StrictRdfCause::LiteralAsSubject)), Quad::try_from(g.clone()));
    assert_eq!(Err(err(StrictRdfCause::LiteralAsSubject)), Triple::try_from(g));
}

#[test]
fn predicate_and_graph_name_violations_are_reported() {
    let g = GeneralizedQuad {
        subject: GeneralizedTerm::from(iri("http://e/s")),
        predicate: GeneralizedTerm::from(BlankNode { id: "p" }),
        object: var("o"),
        graph_name: None,
    };
    assert_eq!(Err(err(StrictRdfCause::BlankNodeAsPredicate)), Quad::try_from(g));
    let g = GeneralizedQuad {
        subject: GeneralizedTerm::from(iri("http://e/s")),
        predicate: GeneralizedTerm::from(iri("http://e/p")),
        object: GeneralizedTerm::from(iri("http://e/o")),
        graph_name: Some(GeneralizedTerm::from(Literal::Simple { value: "g" })),
    };
    assert_eq!(Err(err(StrictRdfCause::LiteralAsSubject)), Quad::try_from(g));
    let g = GeneralizedQuad {
        subject: GeneralizedTerm::from(iri("http://e/s")),
        predicate: GeneralizedTerm::from(iri("http://e/p")),
        object: var("o"),
        graph_name: None,
    };
    assert_eq!(Err(err(StrictRdfCause::VariableNotConcrete)), Quad::try_from(g));
}

#[test]
fn error_messages_name_the_broken_rule() {
    assert_eq!(
        "blank node cannot be a predicate",
        err(StrictRdfCause::BlankNodeAsPredicate).message()
    );
    assert_eq!("literal cannot be a predicate", err(StrictRdfCause::LiteralAsPredicate).message());
    assert_eq!("literal cannot be a subject", err(StrictRdfCause::LiteralAsSubject).message());
    assert_eq!(
        "variable cannot be converted to a concrete term",
        err(StrictRdfCause::VariableNotConcrete).message()
    );
    assert_eq!(
        "a quad naming a graph cannot be converted to a triple",
        err(StrictRdfCause::NamedGraphInTriple).message()
    );
    assert_eq!(
        "StrictRdfError: literal cannot be a subject",
        err(StrictRdfCause::LiteralAsSubject).render()
    );
}
