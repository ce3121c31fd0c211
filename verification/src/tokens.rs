//! A plain-data model of macro token streams.
//!
//! The compiler's token types carry spans and live behind an opaque API; this
//! module holds the same information as ordinary values so that the context
//! passing logic can be stated and proved over it.  Spans are not kept: a
//! `SerializedSpan` is empty and stands for the call site.
use vstd::prelude::*;
use vstd::string::StringExecFns;

verus! {

/// A sequence of token trees.
pub struct SerializedTokenStream {
    pub tokens: Vec<SerializedTokenTree>,
}

/// One token tree: a delimited group, an identifier, a punctuation character
/// or a literal.
pub enum SerializedTokenTree {
    Group(SerializedGroup),
    Ident(SerializedIdent),
    Punct(SerializedPunct),
    Literal(SerializedLiteral),
}

/// A delimited group and the stream between its delimiters.
pub struct SerializedGroup {
    pub delimiter: SerializedDelimiter,
    pub stream: SerializedTokenStream,
    pub span: SerializedSpan,
}

/// An identifier, held by its text.
pub struct SerializedIdent {
    pub sym: String,
    pub span: SerializedSpan,
}

/// A single punctuation character.
pub struct SerializedPunct {
    pub ch: char,
    pub spacing: SerializedSpacing,
    pub span: SerializedSpan,
}

/// A literal, held by its source text.
pub struct SerializedLiteral {
    pub repr: String,
    pub span: SerializedSpan,
}

#[derive(Clone, Copy, Debug, PartialEq, Eq, Structural)]
pub enum SerializedDelimiter {
    Parenthesis,
    Brace,
    Bracket,
    /// An invisible delimiter (`Delimiter::None` in the compiler's API).
    Invisible,
}

#[derive(Clone, Copy, Debug, PartialEq, Eq, Structural)]
pub enum SerializedSpacing {
    Alone,
    Joint,
}

/// A span; the model keeps no location, every token is placed at the call site.
#[derive(Clone, Copy, Debug, PartialEq, Eq, Structural)]
pub struct SerializedSpan {}

/// The abstract value of a token tree: what remains of it without spans.
pub enum Token {
    Group(SerializedDelimiter, Seq<Token>),
    Ident(Seq<char>),
    Punct(char, SerializedSpacing),
    Literal(Seq<char>),
}

/// The abstract value of one token tree.
pub open spec fn tree_model(t: SerializedTokenTree) -> Token
    decreases t,
{
    match t {
        SerializedTokenTree::Group(g) => Token::Group(g.delimiter, trees_model(g.stream.tokens@)),
        SerializedTokenTree::Ident(i) => Token::Ident(i.sym@),
        SerializedTokenTree::Punct(p) => Token::Punct(p.ch, p.spacing),
        SerializedTokenTree::Literal(l) => Token::Literal(l.repr@),
    }
}

/// The abstract value of a sequence of token trees, element by element.
pub open spec fn trees_model(ts: Seq<SerializedTokenTree>) -> Seq<Token>
    decreases ts,
{
    if ts.len() == 0 {
        Seq::empty()
    } else {
        trees_model(ts.drop_last()).push(tree_model(ts.last()))
    }
}

impl View for SerializedTokenStream {
    type V = Seq<Token>;

    open spec fn view(&self) -> Seq<Token> {
        trees_model(self.tokens@)
    }
}

impl View for SerializedTokenTree {
    type V = Token;

    open spec fn view(&self) -> Token {
        tree_model(*self)
    }
}

/// The model of a sequence of trees has one entry per tree, each the model of that tree.
pub proof fn lemma_trees_model_index(ts: Seq<SerializedTokenTree>)
    ensures
        trees_model(ts).len() == ts.len(),
        forall|i: int| 0 <= i < ts.len() ==> #[trigger] trees_model(ts)[i] == tree_model(ts[i]),
    decreases ts.len(),
{
    if ts.len() > 0 {
        lemma_trees_model_index(ts.drop_last());
    }
}

/// Appending one tree appends its model.
pub proof fn lemma_trees_model_push(ts: Seq<SerializedTokenTree>, t: SerializedTokenTree)
    ensures
        trees_model(ts.push(t)) == trees_model(ts).push(tree_model(t)),
{
    assert(ts.push(t).drop_last() =~= ts);
}

/// The model of a concatenation is the concatenation of the models.
pub proof fn lemma_trees_model_add(a: Seq<SerializedTokenTree>, b: Seq<SerializedTokenTree>)
    ensures
        trees_model(a + b) == trees_model(a) + trees_model(b),
    decreases b.len(),
{
    if b.len() == 0 {
        assert(a + b =~= a);
        assert(trees_model(a) + trees_model(b) =~= trees_model(a));
    } else {
        lemma_trees_model_add(a, b.drop_last());
        assert((a + b).drop_last() =~= a + b.drop_last());
        assert((a + b).last() == b.last());
        assert(trees_model(a) + trees_model(b) =~= (trees_model(a) + trees_model(b.drop_last())).push(
            tree_model(b.last()),
        ));
    }
}

/// Two sequences of trees whose models agree element by element have the same model.
pub proof fn lemma_trees_model_ext(a: Seq<SerializedTokenTree>, b: Seq<SerializedTokenTree>)
    requires
        a.len() == b.len(),
        forall|i: int| 0 <= i < a.len() ==> tree_model(#[trigger] a[i]) == tree_model(b[i]),
    ensures
        trees_model(a) == trees_model(b),
{
    lemma_trees_model_index(a);
    lemma_trees_model_index(b);
    assert(trees_model(a) =~= trees_model(b));
}

/// Copies a token stream; the copy has the same model.
pub fn clone_stream(s: &SerializedTokenStream) -> (r: SerializedTokenStream)
    ensures
        r@ == s@,
    decreases s, 1nat,
{
    let mut tokens: Vec<SerializedTokenTree> = Vec::new();
    let n = s.tokens.len();
    for i in 0..n
        invariant
            n == s.tokens@.len(),
            tokens@.len() == i,
            forall|j: int| 0 <= j < i ==> tree_model(#[trigger] tokens@[j]) == tree_model(s.tokens@[j]),
    {
        let t = clone_tree(&s.tokens[i]);
        tokens.push(t);
    }
    proof {
        lemma_trees_model_ext(tokens@, s.tokens@);
    }
    SerializedTokenStream { tokens }
}

/// Copies a token tree; the copy has the same model.
pub fn clone_tree(t: &SerializedTokenTree) -> (r: SerializedTokenTree)
    ensures
        tree_model(r) == tree_model(*t),
    decreases t, 0nat,
{
    match t {
        SerializedTokenTree::Group(g) => {
            let stream = clone_stream(&g.stream);
            SerializedTokenTree::Group(
                SerializedGroup { delimiter: g.delimiter, stream, span: SerializedSpan {  } },
            )
        },
        SerializedTokenTree::Ident(i) => SerializedTokenTree::Ident(
            SerializedIdent { sym: i.sym.clone(), span: SerializedSpan {  } },
        ),
        SerializedTokenTree::Punct(p) => SerializedTokenTree::Punct(
            SerializedPunct { ch: p.ch, spacing: p.spacing, span: SerializedSpan {  } },
        ),
        SerializedTokenTree::Literal(l) => SerializedTokenTree::Literal(
            SerializedLiteral { repr: l.repr.clone(), span: SerializedSpan {  } },
        ),
    }
}

impl Clone for SerializedTokenStream {
    fn clone(&self) -> (r: Self)
        ensures
            r@ == self@,
    {
        clone_stream(self)
    }
}

impl Clone for SerializedTokenTree {
    fn clone(&self) -> (r: Self)
        ensures
            r@ == self@,
    {
        clone_tree(self)
    }
}

/// The models of a sequence of streams.
pub open spec fn streams_model(ss: Seq<SerializedTokenStream>) -> Seq<Seq<Token>> {
    ss.map_values(|s: SerializedTokenStream| s@)
}

/// An identifier token with the given text.
pub fn ident_token(sym: &str) -> (t: SerializedTokenTree)
    ensures
        t@ == Token::Ident(sym@),
{
    SerializedTokenTree::Ident(SerializedIdent { sym: String::from_str(sym), span: SerializedSpan {  } })
}

/// A punctuation token.
pub fn punct_token(ch: char, spacing: SerializedSpacing) -> (t: SerializedTokenTree)
    ensures
        t@ == Token::Punct(ch, spacing),
{
    SerializedTokenTree::Punct(SerializedPunct { ch, spacing, span: SerializedSpan {  } })
}

/// A literal token with the given source text.
pub fn literal_token(repr: &str) -> (t: SerializedTokenTree)
    ensures
        t@ == Token::Literal(repr@),
{
    SerializedTokenTree::Literal(SerializedLiteral { repr: String::from_str(repr), span: SerializedSpan {  } })
}

/// A group token around the given stream.
pub fn group_token(delimiter: SerializedDelimiter, stream: SerializedTokenStream) -> (t:
    SerializedTokenTree)
    ensures
        t@ == Token::Group(delimiter, stream@),
{
    SerializedTokenTree::Group(SerializedGroup { delimiter, stream, span: SerializedSpan {  } })
}

impl SerializedTokenStream {
    /// The empty stream.
    pub fn empty() -> (s: SerializedTokenStream)
        ensures
            s@ == Seq::<Token>::empty(),
    {
        SerializedTokenStream { tokens: Vec::new() }
    }

    /// Appends one tree.
    pub fn push_tree(&mut self, t: SerializedTokenTree)
        ensures
            final(self)@ == old(self)@.push(t@),
    {
        proof {
            lemma_trees_model_push(self.tokens@, t);
        }
        self.tokens.push(t);
    }

    /// Appends all trees of another stream.
    pub fn append_stream(&mut self, other: SerializedTokenStream)
        ensures
            final(self)@ == old(self)@ + other@,
    {
        let mut other_tokens = other.tokens;
        proof {
            lemma_trees_model_add(self.tokens@, other_tokens@);
        }
        self.tokens.append(&mut other_tokens);
    }
}

} // verus!
