//! Strict RDF 1.1 terms and statements, and their N-Triples text.
//!
//! The values here borrow their text from whoever produced them; nothing in
//! this module checks what that text holds, only where a term may stand.
use vstd::prelude::*;

verus! {

/// An IRI, as it stands in a named node.
#[derive(Eq, PartialEq, Debug, Clone, Copy, Hash)]
pub struct NamedNode<'a> {
    /// The IRI itself, without the angle brackets.
    pub iri: &'a str,
}

/// A blank node.
#[derive(Eq, PartialEq, Debug, Clone, Copy, Hash)]
pub struct BlankNode<'a> {
    /// The blank node identifier, without the `_:` prefix.
    pub id: &'a str,
}

/// A literal: a lexical form, with a language tag or a datatype IRI.
#[derive(Eq, PartialEq, Debug, Clone, Copy, Hash)]
pub enum Literal<'a> {
    /// A literal of datatype `xsd:string`, written without a datatype.
    Simple { value: &'a str },
    /// A literal of datatype `rdf:langString`.
    LanguageTaggedString { value: &'a str, language: &'a str },
    /// A literal with an explicit datatype IRI.
    Typed { value: &'a str, datatype: NamedNode<'a> },
}

/// What may stand as the subject or the graph name of a strict statement.
#[derive(Eq, PartialEq, Debug, Clone, Copy, Hash)]
pub enum NamedOrBlankNode<'a> {
    NamedNode(NamedNode<'a>),
    BlankNode(BlankNode<'a>),
}

/// Any strict RDF term: what may stand as the object of a strict statement.
#[derive(Eq, PartialEq, Debug, Clone, Copy, Hash)]
pub enum Term<'a> {
    NamedNode(NamedNode<'a>),
    BlankNode(BlankNode<'a>),
    Literal(Literal<'a>),
}

/// A strict RDF triple.
#[derive(Eq, PartialEq, Debug, Clone, Copy, Hash)]
pub struct Triple<'a> {
    pub subject: NamedOrBlankNode<'a>,
    pub predicate: NamedNode<'a>,
    pub object: Term<'a>,
}

/// A strict RDF triple in a dataset: in a named graph, or in the default graph
/// where `graph_name` is `None`.
#[derive(Eq, PartialEq, Debug, Clone, Copy, Hash)]
pub struct Quad<'a> {
    pub subject: NamedOrBlankNode<'a>,
    pub predicate: NamedNode<'a>,
    pub object: Term<'a>,
    pub graph_name: Option<NamedOrBlankNode<'a>>,
}

/// The N-Triples form of a named node: the IRI between angle brackets.
pub open spec fn named_node_text(n: NamedNode) -> Seq<char> {
    "<"@ + n.iri@ + ">"@
}

/// The N-Triples form of a blank node: `_:` and the identifier.
pub open spec fn blank_node_text(b: BlankNode) -> Seq<char> {
    "_:"@ + b.id@
}

/// How one character of a lexical form is written between double quotes.
pub open spec fn escaped_char(c: char) -> Seq<char> {
    if c == '\n' {
        "\\n"@
    } else if c == '\r' {
        "\\r"@
    } else if c == '"' {
        "\\\""@
    } else if c == '\\' {
        "\\\\"@
    } else {
        seq![c]
    }
}

/// The characters of `s`, each written as `escaped_char` writes it.
pub open spec fn escaped(s: Seq<char>) -> Seq<char>
    decreases s.len(),
{
    if s.len() == 0 {
        Seq::empty()
    } else {
        escaped(s.drop_last()) + escaped_char(s.last())
    }
}

/// A lexical form as a quoted string.
pub open spec fn quoted_text(s: Seq<char>) -> Seq<char> {
    "\""@ + escaped(s) + "\""@
}

/// The N-Triples form of a literal.
pub open spec fn literal_text(l: Literal) -> Seq<char> {
    match l {
        Literal::Simple { value } => quoted_text(value@),
        Literal::LanguageTaggedString { value, language } => quoted_text(value@) + "@"@
            + language@,
        Literal::Typed { value, datatype } => quoted_text(value@) + "^^"@ + named_node_text(
            datatype,
        ),
    }
}

/// The N-Triples form of a subject or graph name.
pub open spec fn named_or_blank_node_text(n: NamedOrBlankNode) -> Seq<char> {
    match n {
        NamedOrBlankNode::NamedNode(inner) => named_node_text(inner),
        NamedOrBlankNode::BlankNode(inner) => blank_node_text(inner),
    }
}

/// The N-Triples form of a strict term.
pub open spec fn term_text(t: Term) -> Seq<char> {
    match t {
        Term::NamedNode(inner) => named_node_text(inner),
        Term::BlankNode(inner) => blank_node_text(inner),
        Term::Literal(inner) => literal_text(inner),
    }
}

/// Appends `s` to `out` between double quotes, escaping as `escaped_char` says.
fn append_quoted(out: &mut String, s: &str)
    ensures
        final(out)@ == old(out)@ + quoted_text(s@),
{
    out.append("\"");
    let n = s.unicode_len();
    let mut i: usize = 0;
    while i < n
        invariant
            n == s@.len(),
            i <= n,
            out@ == old(out)@ + "\""@ + escaped(s@.subrange(0, i as int)),
        decreases n - i,
    {
        let c = s.get_char(i);
        let ghost before = out@;
        if c == '\n' {
            out.append("\\n");
        } else if c == '\r' {
            out.append("\\r");
        } else if c == '"' {
            out.append("\\\"");
        } else if c == '\\' {
            out.append("\\\\");
        } else {
            let one = s.substring_char(i, i + 1);
            assert(one@ =~= seq![c]);
            out.append(one);
        }
        assert(s@.subrange(0, i + 1).drop_last() =~= s@.subrange(0, i as int));
        assert(out@ == before + escaped_char(c));
        i = i + 1;
    }
    assert(s@.subrange(0, n as int) =~= s@);
    out.append("\"");
}

impl<'a> NamedNode<'a> {
    /// Renders the node as `<iri>`.
    pub fn render(&self) -> (r: String)
        ensures
            r@ == named_node_text(*self),
    {
        let mut out = String::new();
        out.append("<");
        out.append(self.iri);
        out.append(">");
        out
    }
}

impl<'a> BlankNode<'a> {
    /// Renders the node as `_:id`.
    pub fn render(&self) -> (r: String)
        ensures
            r@ == blank_node_text(*self),
    {
        let mut out = String::new();
        out.append("_:");
        out.append(self.id);
        out
    }
}

impl<'a> Literal<'a> {
    /// Renders the literal in N-Triples syntax: the quoted lexical form, then
    /// `@language` or `^^<datatype>` where the literal has one.
    pub fn render(&self) -> (r: String)
        ensures
            r@ == literal_text(*self),
    {
        let mut out = String::new();
        match self {
            Literal::Simple { value } => {
                append_quoted(&mut out, value);
            },
            Literal::LanguageTaggedString { value, language } => {
                append_quoted(&mut out, value);
                out.append("@");
                out.append(language);
            },
            Literal::Typed { value, datatype } => {
                append_quoted(&mut out, value);
                out.append("^^");
                let dt = datatype.render();
                out.append(dt.as_str());
            },
        }
        out
    }
}

impl<'a> NamedOrBlankNode<'a> {
    /// Renders the node in N-Triples syntax.
    pub fn render(&self) -> (r: String)
        ensures
            r@ == named_or_blank_node_text(*self),
    {
        match self {
            NamedOrBlankNode::NamedNode(inner) => inner.render(),
            NamedOrBlankNode::BlankNode(inner) => inner.render(),
        }
    }
}

impl<'a> Term<'a> {
    /// Renders the term in N-Triples syntax.
    pub fn render(&self) -> (r: String)
        ensures
            r@ == term_text(*self),
    {
        match self {
            Term::NamedNode(inner) => inner.render(),
            Term::BlankNode(inner) => inner.render(),
            Term::Literal(inner) => inner.render(),
        }
    }
}

} // verus!
