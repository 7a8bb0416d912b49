//! What holds of widening and narrowing taken together.
use vstd::prelude::*;
use crate::model::{BlankNode, Literal, NamedNode, NamedOrBlankNode, Quad, Term, Triple};
use crate::gmodel::{GeneralizedQuad, GeneralizedTerm, StrictRdfCause, StrictRdfError, Variable};
use crate::gmodel::{narrow_object, narrow_predicate, narrow_quad, narrow_subject, narrow_triple};
use crate::gmodel::{strict_error, widen_named_or_blank, widen_quad, widen_term, widen_triple};

verus! {

/// A named node, widened, narrows back to itself for each of the three
/// targets: as a predicate, as a subject and as an object.
pub proof fn round_trip_named_node(n: NamedNode)
    ensures
        narrow_predicate(GeneralizedTerm::NamedNode(n)) == Ok::<NamedNode, StrictRdfError>(n),
        narrow_subject(GeneralizedTerm::NamedNode(n)) == Ok::<NamedOrBlankNode, StrictRdfError>(
            NamedOrBlankNode::NamedNode(n),
        ),
        narrow_object(GeneralizedTerm::NamedNode(n)) == Ok::<Term, StrictRdfError>(
            Term::NamedNode(n),
        ),
{
}

/// A blank node, widened, narrows back to itself as a subject and as an object.
pub proof fn round_trip_blank_node(b: BlankNode)
    ensures
        narrow_subject(GeneralizedTerm::BlankNode(b)) == Ok::<NamedOrBlankNode, StrictRdfError>(
            NamedOrBlankNode::BlankNode(b),
        ),
        narrow_object(GeneralizedTerm::BlankNode(b)) == Ok::<Term, StrictRdfError>(
            Term::BlankNode(b),
        ),
{
}

/// A literal, widened, narrows back to itself as an object.
pub proof fn round_trip_literal(l: Literal)
    ensures
        narrow_object(GeneralizedTerm::Literal(l)) == Ok::<Term, StrictRdfError>(Term::Literal(l)),
{
}

/// A strict subject, widened, narrows back to itself as a subject.
pub proof fn round_trip_named_or_blank_node(n: NamedOrBlankNode)
    ensures
        narrow_subject(widen_named_or_blank(n)) == Ok::<NamedOrBlankNode, StrictRdfError>(n),
{
}

/// A strict term, widened, narrows back to itself as an object.
pub proof fn round_trip_term(t: Term)
    ensures
        narrow_object(widen_term(t)) == Ok::<Term, StrictRdfError>(t),
{
}

/// A strict quad, widened, narrows back to itself.
pub proof fn round_trip_quad(q: Quad)
    ensures
        narrow_quad(widen_quad(q)) == Ok::<Quad, StrictRdfError>(q),
{
}

/// A strict triple, widened, narrows back to itself.
pub proof fn round_trip_triple(t: Triple)
    ensures
        narrow_triple(widen_triple(t)) == Ok::<Triple, StrictRdfError>(t),
{
}

/// A variable is refused by every narrowing target, always because it is not a
/// concrete term.
pub proof fn variable_is_never_strict(v: Variable)
    ensures
        narrow_predicate(GeneralizedTerm::Variable(v)) == Err::<NamedNode, StrictRdfError>(
            strict_error(StrictRdfCause::VariableNotConcrete),
        ),
        narrow_subject(GeneralizedTerm::Variable(v)) == Err::<NamedOrBlankNode, StrictRdfError>(
            strict_error(StrictRdfCause::VariableNotConcrete),
        ),
        narrow_object(GeneralizedTerm::Variable(v)) == Err::<Term, StrictRdfError>(
            strict_error(StrictRdfCause::VariableNotConcrete),
        ),
{
}

/// A literal is refused as a predicate and as a subject, and accepted as an
/// object.
pub proof fn literal_only_as_object(l: Literal)
    ensures
        narrow_predicate(GeneralizedTerm::Literal(l)) is Err,
        narrow_subject(GeneralizedTerm::Literal(l)) is Err,
        narrow_object(GeneralizedTerm::Literal(l)) == Ok::<Term, StrictRdfError>(Term::Literal(l)),
{
}

/// In the default graph, narrowing to a triple gives what narrowing to a quad
/// gives, with the absent graph name dropped; and the same error where that
/// fails.
pub proof fn default_graph_triple_matches_quad(g: GeneralizedQuad)
    requires
        g.graph_name is None,
    ensures
        narrow_quad(g) matches Ok(q) ==> q.graph_name is None && narrow_triple(g) == Ok::<
            Triple,
            StrictRdfError,
        >((Triple { subject: q.subject, predicate: q.predicate, object: q.object })),
        narrow_quad(g) matches Err(e) ==> narrow_triple(g) == Err::<Triple, StrictRdfError>(e),
{
}

/// A statement that names a graph is refused as a triple, whatever its fields.
pub proof fn named_graph_is_never_a_triple(g: GeneralizedQuad)
    requires
        g.graph_name is Some,
    ensures
        narrow_triple(g) == Err::<Triple, StrictRdfError>(
            strict_error(StrictRdfCause::NamedGraphInTriple),
        ),
{
}

/// Where the subject is not strict, narrowing the statement reports the
/// subject's error, whatever else is wrong with it.
pub proof fn subject_error_comes_first(g: GeneralizedQuad)
    requires
        narrow_subject(g.subject) is Err,
    ensures
        narrow_quad(g) == Err::<Quad, StrictRdfError>(narrow_subject(g.subject)->Err_0),
        g.graph_name is None ==> narrow_triple(g) == Err::<Triple, StrictRdfError>(
            narrow_subject(g.subject)->Err_0,
        ),
{
}

} // verus!
