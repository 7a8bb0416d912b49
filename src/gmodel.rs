//! Generalized RDF: terms that may be variables, and statements that allow any
//! kind of term in any position.
//!
//! Widening a strict value into the generalized model never fails. Narrowing a
//! generalized value back into the strict model fails, with a cause that names
//! the broken positional rule, exactly when the value is not strict RDF.
use vstd::prelude::*;
use crate::model::{BlankNode, Literal, NamedNode, NamedOrBlankNode, Quad, Term, Triple};
use crate::model::{named_node_text, blank_node_text, literal_text};
use vstd::std_specs::convert::{FromSpecImpl, TryFromSpecImpl};

verus! {

/// A SPARQL variable.
#[derive(Eq, PartialEq, Ord, PartialOrd, Debug, Clone, Copy, Hash)]
pub struct Variable<'a> {
    /// The name of the variable, without the leading `?`.
    pub name: &'a str,
}

/// A generalized RDF term: an IRI, a blank node, a literal or a variable.
#[derive(Eq, PartialEq, Debug, Clone, Copy, Hash)]
pub enum GeneralizedTerm<'a> {
    NamedNode(NamedNode<'a>),
    BlankNode(BlankNode<'a>),
    Literal(Literal<'a>),
    Variable(Variable<'a>),
}

/// Why a generalized value is not strict RDF.
#[derive(Eq, PartialEq, Debug, Clone, Copy, Hash)]
pub enum StrictRdfCause {
    /// A blank node stands where only an IRI may.
    BlankNodeAsPredicate,
    /// A literal stands where only an IRI may.
    LiteralAsPredicate,
    /// A literal stands where only an IRI or a blank node may.
    LiteralAsSubject,
    /// A variable stands where a concrete term is required.
    VariableNotConcrete,
    /// A statement in a named graph was asked for as a triple.
    NamedGraphInTriple,
}

/// An error raised when generalized RDF cannot be converted to strict RDF.
#[derive(Eq, PartialEq, Debug, Clone, Copy, Hash)]
pub struct StrictRdfError {
    /// The positional rule that the value broke.
    pub cause: StrictRdfCause,
}

/// The error that carries `cause`.
pub open spec fn strict_error(cause: StrictRdfCause) -> StrictRdfError {
    StrictRdfError { cause }
}

/// A strict subject or graph name, as a generalized term.
pub open spec fn widen_named_or_blank<'a>(n: NamedOrBlankNode<'a>) -> GeneralizedTerm<'a> {
    match n {
        NamedOrBlankNode::NamedNode(inner) => GeneralizedTerm::NamedNode(inner),
        NamedOrBlankNode::BlankNode(inner) => GeneralizedTerm::BlankNode(inner),
    }
}

/// A strict term, as a generalized term.
pub open spec fn widen_term<'a>(t: Term<'a>) -> GeneralizedTerm<'a> {
    match t {
        Term::NamedNode(inner) => GeneralizedTerm::NamedNode(inner),
        Term::BlankNode(inner) => GeneralizedTerm::BlankNode(inner),
        Term::Literal(inner) => GeneralizedTerm::Literal(inner),
    }
}

/// A generalized term in predicate position: only an IRI is strict there.
pub open spec fn narrow_predicate<'a>(g: GeneralizedTerm<'a>) -> Result<NamedNode<'a>, StrictRdfError> {
    match g {
        GeneralizedTerm::NamedNode(inner) => Ok(inner),
        GeneralizedTerm::BlankNode(_) => Err(strict_error(StrictRdfCause::BlankNodeAsPredicate)),
        GeneralizedTerm::Literal(_) => Err(strict_error(StrictRdfCause::LiteralAsPredicate)),
        GeneralizedTerm::Variable(_) => Err(strict_error(StrictRdfCause::VariableNotConcrete)),
    }
}

/// A generalized term in subject or graph name position: an IRI or a blank node
/// is strict there.
pub open spec fn narrow_subject<'a>(g: GeneralizedTerm<'a>) -> Result<NamedOrBlankNode<'a>, StrictRdfError> {
    match g {
        GeneralizedTerm::NamedNode(inner) => Ok(NamedOrBlankNode::NamedNode(inner)),
        GeneralizedTerm::BlankNode(inner) => Ok(NamedOrBlankNode::BlankNode(inner)),
        GeneralizedTerm::Literal(_) => Err(strict_error(StrictRdfCause::LiteralAsSubject)),
        GeneralizedTerm::Variable(_) => Err(strict_error(StrictRdfCause::VariableNotConcrete)),
    }
}

/// A generalized term in object position: every term but a variable is strict
/// there.
pub open spec fn narrow_object<'a>(g: GeneralizedTerm<'a>) -> Result<Term<'a>, StrictRdfError> {
    match g {
        GeneralizedTerm::NamedNode(inner) => Ok(Term::NamedNode(inner)),
        GeneralizedTerm::BlankNode(inner) => Ok(Term::BlankNode(inner)),
        GeneralizedTerm::Literal(inner) => Ok(Term::Literal(inner)),
        GeneralizedTerm::Variable(_) => Err(strict_error(StrictRdfCause::VariableNotConcrete)),
    }
}

impl<'a> From<NamedNode<'a>> for GeneralizedTerm<'a> {
    fn from(other: NamedNode<'a>) -> GeneralizedTerm<'a> {
        GeneralizedTerm::NamedNode(other)
    }
}

impl<'a> FromSpecImpl<NamedNode<'a>> for GeneralizedTerm<'a> {
    open spec fn obeys_from_spec() -> bool {
        true
    }

    open spec fn from_spec(v: NamedNode<'a>) -> GeneralizedTerm<'a> {
        GeneralizedTerm::NamedNode(v)
    }
}

impl<'a> TryFrom<GeneralizedTerm<'a>> for NamedNode<'a> {
    type Error = StrictRdfError;

    fn try_from(other: GeneralizedTerm<'a>) -> Result<NamedNode<'a>, StrictRdfError> {
        match other {
            GeneralizedTerm::NamedNode(inner) => Ok(inner),
            GeneralizedTerm::BlankNode(_) => Err(StrictRdfError { cause: StrictRdfCause::BlankNodeAsPredicate }),
            GeneralizedTerm::Literal(_) => Err(StrictRdfError { cause: StrictRdfCause::LiteralAsPredicate }),
            GeneralizedTerm::Variable(_) => Err(StrictRdfError { cause: StrictRdfCause::VariableNotConcrete }),
        }
    }
}

impl<'a> TryFromSpecImpl<GeneralizedTerm<'a>> for NamedNode<'a> {
    open spec fn obeys_try_from_spec() -> bool {
        true
    }

    open spec fn try_from_spec(v: GeneralizedTerm<'a>) -> Result<NamedNode<'a>, StrictRdfError> {
        narrow_predicate(v)
    }
}

impl<'a> From<BlankNode<'a>> for GeneralizedTerm<'a> {
    fn from(other: BlankNode<'a>) -> GeneralizedTerm<'a> {
        GeneralizedTerm::BlankNode(other)
    }
}

impl<'a> FromSpecImpl<BlankNode<'a>> for GeneralizedTerm<'a> {
    open spec fn obeys_from_spec() -> bool {
        true
    }

    open spec fn from_spec(v: BlankNode<'a>) -> GeneralizedTerm<'a> {
        GeneralizedTerm::BlankNode(v)
    }
}

impl<'a> From<Literal<'a>> for GeneralizedTerm<'a> {
    fn from(other: Literal<'a>) -> GeneralizedTerm<'a> {
        GeneralizedTerm::Literal(other)
    }
}

impl<'a> FromSpecImpl<Literal<'a>> for GeneralizedTerm<'a> {
    open spec fn obeys_from_spec() -> bool {
        true
    }

    open spec fn from_spec(v: Literal<'a>) -> GeneralizedTerm<'a> {
        GeneralizedTerm::Literal(v)
    }
}

impl<'a> From<Variable<'a>> for GeneralizedTerm<'a> {
    fn from(other: Variable<'a>) -> GeneralizedTerm<'a> {
        GeneralizedTerm::Variable(other)
    }
}

impl<'a> FromSpecImpl<Variable<'a>> for GeneralizedTerm<'a> {
    open spec fn obeys_from_spec() -> bool {
        true
    }

    open spec fn from_spec(v: Variable<'a>) -> GeneralizedTerm<'a> {
        GeneralizedTerm::Variable(v)
    }
}

impl<'a> From<NamedOrBlankNode<'a>> for GeneralizedTerm<'a> {
    fn from(other: NamedOrBlankNode<'a>) -> GeneralizedTerm<'a> {
        match other {
            NamedOrBlankNode::NamedNode(inner) => GeneralizedTerm::NamedNode(inner),
            NamedOrBlankNode::BlankNode(inner) => GeneralizedTerm::BlankNode(inner),
        }
    }
}

impl<'a> FromSpecImpl<NamedOrBlankNode<'a>> for GeneralizedTerm<'a> {
    open spec fn obeys_from_spec() -> bool {
        true
    }

    open spec fn from_spec(v: NamedOrBlankNode<'a>) -> GeneralizedTerm<'a> {
        widen_named_or_blank(v)
    }
}

impl<'a> From<Term<'a>> for GeneralizedTerm<'a> {
    fn from(other: Term<'a>) -> GeneralizedTerm<'a> {
        match other {
            Term::NamedNode(inner) => GeneralizedTerm::NamedNode(inner),
            Term::BlankNode(inner) => GeneralizedTerm::BlankNode(inner),
            Term::Literal(inner) => GeneralizedTerm::Literal(inner),
        }
    }
}

impl<'a> FromSpecImpl<Term<'a>> for GeneralizedTerm<'a> {
    open spec fn obeys_from_spec() -> bool {
        true
    }

    open spec fn from_spec(v: Term<'a>) -> GeneralizedTerm<'a> {
        widen_term(v)
    }
}

impl<'a> TryFrom<GeneralizedTerm<'a>> for NamedOrBlankNode<'a> {
    type Error = StrictRdfError;

    fn try_from(other: GeneralizedTerm<'a>) -> Result<NamedOrBlankNode<'a>, StrictRdfError> {
        match other {
            GeneralizedTerm::NamedNode(inner) => Ok(NamedOrBlankNode::NamedNode(inner)),
            GeneralizedTerm::BlankNode(inner) => Ok(NamedOrBlankNode::BlankNode(inner)),
            GeneralizedTerm::Literal(_) => Err(StrictRdfError { cause: StrictRdfCause::LiteralAsSubject }),
            GeneralizedTerm::Variable(_) => Err(StrictRdfError { cause: StrictRdfCause::VariableNotConcrete }),
        }
    }
}

impl<'a> TryFromSpecImpl<GeneralizedTerm<'a>> for NamedOrBlankNode<'a> {
    open spec fn obeys_try_from_spec() -> bool {
        true
    }

    open spec fn try_from_spec(v: GeneralizedTerm<'a>) -> Result<NamedOrBlankNode<'a>, StrictRdfError> {
        narrow_subject(v)
    }
}

impl<'a> TryFrom<GeneralizedTerm<'a>> for Term<'a> {
    type Error = StrictRdfError;

    fn try_from(other: GeneralizedTerm<'a>) -> Result<Term<'a>, StrictRdfError> {
        match other {
            GeneralizedTerm::NamedNode(inner) => Ok(Term::NamedNode(inner)),
            GeneralizedTerm::BlankNode(inner) => Ok(Term::BlankNode(inner)),
            GeneralizedTerm::Literal(inner) => Ok(Term::Literal(inner)),
            GeneralizedTerm::Variable(_) => Err(StrictRdfError { cause: StrictRdfCause::VariableNotConcrete }),
        }
    }
}

impl<'a> TryFromSpecImpl<GeneralizedTerm<'a>> for Term<'a> {
    open spec fn obeys_try_from_spec() -> bool {
        true
    }

    open spec fn try_from_spec(v: GeneralizedTerm<'a>) -> Result<Term<'a>, StrictRdfError> {
        narrow_object(v)
    }
}

/// A generalized statement: any term in any position, in the default graph
/// where `graph_name` is `None`.
#[derive(Eq, PartialEq, Debug, Clone, Copy, Hash)]
pub struct GeneralizedQuad<'a> {
    pub subject: GeneralizedTerm<'a>,
    pub predicate: GeneralizedTerm<'a>,
    pub object: GeneralizedTerm<'a>,
    pub graph_name: Option<GeneralizedTerm<'a>>,
}

/// A strict graph name, or its absence, in the generalized model.
pub open spec fn widen_graph_name<'a>(n: Option<NamedOrBlankNode<'a>>) -> Option<GeneralizedTerm<'a>> {
    match n {
        Some(inner) => Some(widen_named_or_blank(inner)),
        None => None,
    }
}

/// A strict quad, as a generalized statement, field by field.
pub open spec fn widen_quad<'a>(q: Quad<'a>) -> GeneralizedQuad<'a> {
    GeneralizedQuad {
        subject: widen_named_or_blank(q.subject),
        predicate: GeneralizedTerm::NamedNode(q.predicate),
        object: widen_term(q.object),
        graph_name: widen_graph_name(q.graph_name),
    }
}

/// A strict triple, as a generalized statement in the default graph.
pub open spec fn widen_triple<'a>(t: Triple<'a>) -> GeneralizedQuad<'a> {
    GeneralizedQuad {
        subject: widen_named_or_blank(t.subject),
        predicate: GeneralizedTerm::NamedNode(t.predicate),
        object: widen_term(t.object),
        graph_name: None,
    }
}

/// A graph name narrowed as a subject is; an absent one stays absent.
pub open spec fn narrow_graph_name<'a>(g: Option<GeneralizedTerm<'a>>) -> Result<Option<NamedOrBlankNode<'a>>, StrictRdfError> {
    match g {
        None => Ok(None),
        Some(inner) => match narrow_subject(inner) {
            Ok(n) => Ok(Some(n)),
            Err(e) => Err(e),
        },
    }
}

/// A generalized statement as a strict quad: subject, predicate, object and
/// graph name are narrowed in that order, and the first failure is the result.
pub open spec fn narrow_quad<'a>(g: GeneralizedQuad<'a>) -> Result<Quad<'a>, StrictRdfError> {
    match narrow_subject(g.subject) {
        Err(e) => Err(e),
        Ok(subject) => match narrow_predicate(g.predicate) {
            Err(e) => Err(e),
            Ok(predicate) => match narrow_object(g.object) {
                Err(e) => Err(e),
                Ok(object) => match narrow_graph_name(g.graph_name) {
                    Err(e) => Err(e),
                    Ok(graph_name) => Ok(Quad { subject, predicate, object, graph_name }),
                },
            },
        },
    }
}

/// A generalized statement as a strict triple: one in a named graph is refused
/// before any field is looked at; otherwise subject, predicate and object are
/// narrowed in that order, and the first failure is the result.
pub open spec fn narrow_triple<'a>(g: GeneralizedQuad<'a>) -> Result<Triple<'a>, StrictRdfError> {
    if g.graph_name is Some {
        Err(strict_error(StrictRdfCause::NamedGraphInTriple))
    } else {
        match narrow_subject(g.subject) {
            Err(e) => Err(e),
            Ok(subject) => match narrow_predicate(g.predicate) {
                Err(e) => Err(e),
                Ok(predicate) => match narrow_object(g.object) {
                    Err(e) => Err(e),
                    Ok(object) => Ok(Triple { subject, predicate, object }),
                },
            },
        }
    }
}

impl<'a> From<Quad<'a>> for GeneralizedQuad<'a> {
    fn from(other: Quad<'a>) -> GeneralizedQuad<'a> {
        let graph_name = match other.graph_name {
            Some(inner) => Some(GeneralizedTerm::from(inner)),
            None => None,
        };
        GeneralizedQuad {
            subject: GeneralizedTerm::from(other.subject),
            predicate: GeneralizedTerm::from(other.predicate),
            object: GeneralizedTerm::from(other.object),
            graph_name,
        }
    }
}

impl<'a> FromSpecImpl<Quad<'a>> for GeneralizedQuad<'a> {
    open spec fn obeys_from_spec() -> bool {
        true
    }

    open spec fn from_spec(v: Quad<'a>) -> GeneralizedQuad<'a> {
        widen_quad(v)
    }
}

impl<'a> From<Triple<'a>> for GeneralizedQuad<'a> {
    fn from(other: Triple<'a>) -> GeneralizedQuad<'a> {
        GeneralizedQuad {
            subject: GeneralizedTerm::from(other.subject),
            predicate: GeneralizedTerm::from(other.predicate),
            object: GeneralizedTerm::from(other.object),
            graph_name: None,
        }
    }
}

impl<'a> FromSpecImpl<Triple<'a>> for GeneralizedQuad<'a> {
    open spec fn obeys_from_spec() -> bool {
        true
    }

    open spec fn from_spec(v: Triple<'a>) -> GeneralizedQuad<'a> {
        widen_triple(v)
    }
}

impl<'a> TryFrom<GeneralizedQuad<'a>> for Quad<'a> {
    type Error = StrictRdfError;

    fn try_from(other: GeneralizedQuad<'a>) -> Result<Quad<'a>, StrictRdfError> {
        let subject = match NamedOrBlankNode::try_from(other.subject) {
            Ok(n) => n,
            Err(e) => return Err(e),
        };
        let predicate = match NamedNode::try_from(other.predicate) {
            Ok(n) => n,
            Err(e) => return Err(e),
        };
        let object = match Term::try_from(other.object) {
            Ok(t) => t,
            Err(e) => return Err(e),
        };
        let graph_name = match other.graph_name {
            None => None,
            Some(inner) => match NamedOrBlankNode::try_from(inner) {
                Ok(n) => Some(n),
                Err(e) => return Err(e),
            },
        };
        Ok(Quad { subject, predicate, object, graph_name })
    }
}

impl<'a> TryFromSpecImpl<GeneralizedQuad<'a>> for Quad<'a> {
    open spec fn obeys_try_from_spec() -> bool {
        true
    }

    open spec fn try_from_spec(v: GeneralizedQuad<'a>) -> Result<Quad<'a>, StrictRdfError> {
        narrow_quad(v)
    }
}

impl<'a> TryFrom<GeneralizedQuad<'a>> for Triple<'a> {
    type Error = StrictRdfError;

    fn try_from(other: GeneralizedQuad<'a>) -> Result<Triple<'a>, StrictRdfError> {
        if other.graph_name.is_some() {
            return Err(StrictRdfError { cause: StrictRdfCause::NamedGraphInTriple });
        }
        let subject = match NamedOrBlankNode::try_from(other.subject) {
            Ok(n) => n,
            Err(e) => return Err(e),
        };
        let predicate = match NamedNode::try_from(other.predicate) {
            Ok(n) => n,
            Err(e) => return Err(e),
        };
        let object = match Term::try_from(other.object) {
            Ok(t) => t,
            Err(e) => return Err(e),
        };
        Ok(Triple { subject, predicate, object })
    }
}

impl<'a> TryFromSpecImpl<GeneralizedQuad<'a>> for Triple<'a> {
    open spec fn obeys_try_from_spec() -> bool {
        true
    }

    open spec fn try_from_spec(v: GeneralizedQuad<'a>) -> Result<Triple<'a>, StrictRdfError> {
        narrow_triple(v)
    }
}

/// The SPARQL form of a variable: `?` and the name.
pub open spec fn variable_text(v: Variable) -> Seq<char> {
    "?"@ + v.name@
}

/// The N-Triples form of a concrete term, and the SPARQL form of a variable.
pub open spec fn generalized_term_text(g: GeneralizedTerm) -> Seq<char> {
    match g {
        GeneralizedTerm::NamedNode(inner) => named_node_text(inner),
        GeneralizedTerm::BlankNode(inner) => blank_node_text(inner),
        GeneralizedTerm::Literal(inner) => literal_text(inner),
        GeneralizedTerm::Variable(inner) => variable_text(inner),
    }
}

/// The three terms of a statement, one space apart, and ` .` after them.
pub open spec fn triple_pattern_text(q: GeneralizedQuad) -> Seq<char> {
    generalized_term_text(q.subject) + " "@ + generalized_term_text(q.predicate) + " "@
        + generalized_term_text(q.object) + " ."@
}

/// The SPARQL pattern form of a statement: `s p o .`, and inside
/// `GRAPH g { ...}` where it names a graph.
pub open spec fn generalized_quad_text(q: GeneralizedQuad) -> Seq<char> {
    match q.graph_name {
        None => triple_pattern_text(q),
        Some(g) => "GRAPH "@ + generalized_term_text(g) + " { "@ + triple_pattern_text(q) + "}"@,
    }
}

/// The message that explains a cause.
pub open spec fn cause_message(c: StrictRdfCause) -> Seq<char> {
    match c {
        StrictRdfCause::BlankNodeAsPredicate => "blank node cannot be a predicate"@,
        StrictRdfCause::LiteralAsPredicate => "literal cannot be a predicate"@,
        StrictRdfCause::LiteralAsSubject => "literal cannot be a subject"@,
        StrictRdfCause::VariableNotConcrete => "variable cannot be converted to a concrete term"@,
        StrictRdfCause::NamedGraphInTriple => "a quad naming a graph cannot be converted to a triple"@,
    }
}

impl<'a> Variable<'a> {
    /// Renders the variable as `?name`.
    pub fn render(&self) -> (r: String)
        ensures
            r@ == variable_text(*self),
    {
        let mut out = String::new();
        out.append("?");
        out.append(self.name);
        out
    }
}

impl<'a> GeneralizedTerm<'a> {
    /// Renders the term: a concrete one in N-Triples syntax, a variable as
    /// `?name`.
    pub fn render(&self) -> (r: String)
        ensures
            r@ == generalized_term_text(*self),
    {
        match self {
            GeneralizedTerm::NamedNode(inner) => inner.render(),
            GeneralizedTerm::BlankNode(inner) => inner.render(),
            GeneralizedTerm::Literal(inner) => inner.render(),
            GeneralizedTerm::Variable(inner) => inner.render(),
        }
    }
}

impl<'a> GeneralizedQuad<'a> {
    /// Renders the statement as a SPARQL pattern: `s p o .`, or
    /// `GRAPH g { s p o .}` where it names a graph.
    pub fn render(&self) -> (r: String)
        ensures
            r@ == generalized_quad_text(*self),
    {
        let mut out = String::new();
        if let Some(graph_name) = self.graph_name {
            out.append("GRAPH ");
            let g = graph_name.render();
            out.append(g.as_str());
            out.append(" { ");
        }
        let s = self.subject.render();
        out.append(s.as_str());
        out.append(" ");
        let p = self.predicate.render();
        out.append(p.as_str());
        out.append(" ");
        let o = self.object.render();
        out.append(o.as_str());
        out.append(" .");
        if self.graph_name.is_some() {
            out.append("}");
        }
        out
    }
}

impl StrictRdfError {
    /// The message that explains why the value is not strict RDF.
    pub fn message(&self) -> (r: &'static str)
        ensures
            r@ == cause_message(self.cause),
    {
        match self.cause {
            StrictRdfCause::BlankNodeAsPredicate => "blank node cannot be a predicate",
            StrictRdfCause::LiteralAsPredicate => "literal cannot be a predicate",
            StrictRdfCause::LiteralAsSubject => "literal cannot be a subject",
            StrictRdfCause::VariableNotConcrete => "variable cannot be converted to a concrete term",
            StrictRdfCause::NamedGraphInTriple => "a quad naming a graph cannot be converted to a triple",
        }
    }

    /// Renders the error as `StrictRdfError: ` followed by its message.
    pub fn render(&self) -> (r: String)
        ensures
            r@ == "StrictRdfError: "@ + cause_message(self.cause),
    {
        let mut out = String::new();
        out.append("StrictRdfError: ");
        out.append(self.message());
        out
    }
}

} // verus!
