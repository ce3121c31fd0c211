//! The context-passing invocation format.
//!
//! A macro that needs data exported by other macros is re-invoked as
//!
//! ```text
//! path! { __import_context_passer [ {input}* (path)* ] args }
//! ```
//!
//! where the brace groups carry the data gathered so far and the parenthesised
//! groups name the macros still to visit, the last of them being the macro that
//! asked.  This module states that format and parses it.
use vstd::prelude::*;
use vstd::string::StringExecFns;
use crate::tokens::{
    group_token, ident_token, punct_token,
    lemma_trees_model_index, streams_model, tree_model, trees_model, SerializedDelimiter,
    SerializedSpacing, SerializedTokenStream, SerializedTokenTree, Token,
};

verus! {

/// The marker identifier that opens a context-passing invocation.
pub open spec fn passer_keyword() -> Seq<char> {
    "__import_context_passer"@
}

/// Each stream wrapped in a group with the given delimiter.
pub open spec fn wrapped(delimiter: SerializedDelimiter, ss: Seq<Seq<Token>>) -> Seq<Token> {
    ss.map_values(|s: Seq<Token>| Token::Group(delimiter, s))
}

/// The body of a context-passing invocation: the marker, then a bracketed
/// group holding the gathered inputs in braces and the remaining paths in
/// parentheses, then the macro's own arguments.
pub open spec fn passer_body(inputs: Seq<Seq<Token>>, paths: Seq<Seq<Token>>, args: Seq<Token>) -> Seq<
    Token,
> {
    seq![
        Token::Ident(passer_keyword()),
        Token::Group(
            SerializedDelimiter::Bracket,
            wrapped(SerializedDelimiter::Brace, inputs) + wrapped(
                SerializedDelimiter::Parenthesis,
                paths,
            ),
        ),
    ] + args
}

/// A macro call `path! { body }`.
pub open spec fn macro_call(path: Seq<Token>, body: Seq<Token>) -> Seq<Token> {
    path + seq![
        Token::Punct('!', SerializedSpacing::Alone),
        Token::Group(SerializedDelimiter::Brace, body),
    ]
}

/// Whether every tree is a brace-delimited group.
pub open spec fn all_braced(ts: Seq<Token>) -> bool {
    forall|i: int|
        0 <= i < ts.len() ==> #[trigger] ts[i] matches Token::Group(SerializedDelimiter::Brace, _)
}

/// The streams inside a sequence of groups.
pub open spec fn group_streams(ts: Seq<Token>) -> Seq<Seq<Token>> {
    ts.map_values(
        |t: Token|
            match t {
                Token::Group(_, s) => s,
                _ => Seq::empty(),
            },
    )
}

/// The input syntax after the marker identifier was not a bracketed group of
/// brace-delimited groups.
#[derive(Clone, Copy, Debug, PartialEq, Eq, Structural)]
pub struct InvalidPasserSyntax;

/// What a macro receives, split into the data passed to it and its own arguments.
///
/// Input that does not start with the marker carries no data and is passed on
/// whole.  Input that starts with it must continue with a bracketed group
/// holding only brace-delimited groups; their contents are the data, and what
/// follows the bracketed group is the macro's own input.
pub open spec fn parse_passer(input: Seq<Token>) -> Result<
    (Seq<Seq<Token>>, Seq<Token>),
    InvalidPasserSyntax,
> {
    if input.len() > 0 && input[0] == Token::Ident(passer_keyword()) {
        if input.len() < 2 {
            Err(InvalidPasserSyntax)
        } else {
            match input[1] {
                Token::Group(SerializedDelimiter::Bracket, body) => if all_braced(body) {
                    Ok((group_streams(body), input.skip(2)))
                } else {
                    Err(InvalidPasserSyntax)
                },
                _ => Err(InvalidPasserSyntax),
            }
        }
    } else {
        Ok((Seq::empty(), input))
    }
}

/// Whether `s` is the marker identifier.
fn is_passer_keyword(s: &String) -> (b: bool)
    ensures
        b == (s@ == passer_keyword()),
{
    let keyword = String::from_str("__import_context_passer");
    *s == keyword
}

/// Splits what a macro receives into the data passed to it and its own input.
pub fn parse_context_passer(input: SerializedTokenStream) -> (r: Result<
    (Vec<SerializedTokenStream>, SerializedTokenStream),
    InvalidPasserSyntax,
>)
    ensures
        match r {
            Ok((inputs, rest)) => parse_passer(input@) == Ok::<
                (Seq<Seq<Token>>, Seq<Token>),
                InvalidPasserSyntax,
            >((streams_model(inputs@), rest@)),
            Err(_) => parse_passer(input@) is Err,
        },
        input@.len() == 0 || input@[0] != Token::Ident(passer_keyword()) ==> (r matches Ok(
            (inputs, rest),
        ) && inputs@.len() == 0 && rest@ == input@),
{
    let ghost model = input@;
    proof {
        if input@.len() == 0 || input@[0] != Token::Ident(passer_keyword()) {
            lemma_unmarked_input_passes_through(input@);
        }
    }
    proof {
        lemma_trees_model_index(input.tokens@);
    }
    let mut tokens = input.tokens;
    if tokens.len() == 0 {
        let none: Vec<SerializedTokenStream> = Vec::new();
        assert(streams_model(none@) =~= Seq::<Seq<Token>>::empty());
        return Ok((none, SerializedTokenStream { tokens }));
    }
    let is_marker = match &tokens[0] {
        SerializedTokenTree::Ident(i) => is_passer_keyword(&i.sym),
        _ => false,
    };
    if !is_marker {
        let none: Vec<SerializedTokenStream> = Vec::new();
        assert(streams_model(none@) =~= Seq::<Seq<Token>>::empty());
        assert(model[0] == tree_model(tokens@[0]));
        return Ok((none, SerializedTokenStream { tokens }));
    }
    if tokens.len() < 2 {
        return Err(InvalidPasserSyntax);
    }
    let ghost all = tokens@;
    let rest = tokens.split_off(2);
    proof {
        lemma_trees_model_index(rest@);
        assert(trees_model(rest@) =~= model.skip(2));
    }
    let second = tokens.pop().unwrap();
    assert(second == all[1]);
    let group = match second {
        SerializedTokenTree::Group(g) => g,
        _ => {
            return Err(InvalidPasserSyntax);
        },
    };
    if group.delimiter != SerializedDelimiter::Bracket {
        return Err(InvalidPasserSyntax);
    }
    assert(model[1] == tree_model(all[1]));
    let inner = group.stream.tokens;
    let ghost body = trees_model(inner@);
    proof {
        lemma_trees_model_index(inner@);
    }
    let mut inputs: Vec<SerializedTokenStream> = Vec::new();
    let n = inner.len();
    for t in it: inner.into_iter()
        invariant
            it.seq() == inner@,
            n == inner@.len(),
            body == trees_model(inner@),
            model == input@,
            model.len() >= 2,
            model[0] == Token::Ident(passer_keyword()),
            model[1] == Token::Group(SerializedDelimiter::Bracket, body),
            body.len() == inner@.len(),
            forall|i: int| 0 <= i < inner@.len() ==> #[trigger] body[i] == tree_model(inner@[i]),
            inputs@.len() == it.index(),
            forall|j: int| 0 <= j < it.index() ==> #[trigger] body[j] matches Token::Group(
                SerializedDelimiter::Brace,
                _,
            ),
            streams_model(inputs@) =~= group_streams(body).take(it.index() as int),
    {
        let ghost k = it.index();
        match t {
            SerializedTokenTree::Group(h) => {
                if h.delimiter != SerializedDelimiter::Brace {
                    assert(!all_braced(body));
                    return Err(InvalidPasserSyntax);
                }
                inputs.push(h.stream);
            },
            _ => {
                assert(!all_braced(body));
                return Err(InvalidPasserSyntax);
            },
        }
        assert(body[k] == tree_model(inner@[k]));
    }
    assert(all_braced(body));
    assert(group_streams(body).take(n as int) =~= group_streams(body));
    let rest = SerializedTokenStream { tokens: rest };
    assert(parse_passer(model) == Ok::<(Seq<Seq<Token>>, Seq<Token>), InvalidPasserSyntax>(
        (streams_model(inputs@), rest@),
    ));
    Ok((inputs, rest))
}

/// Wraps each stream in a group with the given delimiter, in order.
fn wrap_streams(delimiter: SerializedDelimiter, ss: Vec<SerializedTokenStream>) -> (r:
    SerializedTokenStream)
    ensures
        r@ == wrapped(delimiter, streams_model(ss@)),
{
    let mut out = SerializedTokenStream::empty();
    for s in it: ss.into_iter()
        invariant
            it.seq() == ss@,
            out@ =~= wrapped(delimiter, streams_model(ss@).take(it.index() as int)),
    {
        let ghost k = it.index();
        out.push_tree(group_token(delimiter, s));
        assert(streams_model(ss@).take(k + 1) =~= streams_model(ss@).take(k as int).push(s@));
    }
    assert(streams_model(ss@).take(ss@.len() as int) =~= streams_model(ss@));
    out
}

/// Builds the call `path! { __import_context_passer [ {input}* (path)* ] args }`.
pub(crate) fn passer_invocation(
    path: SerializedTokenStream,
    inputs: Vec<SerializedTokenStream>,
    paths: Vec<SerializedTokenStream>,
    args: SerializedTokenStream,
) -> (call: SerializedTokenStream)
    ensures
        call@ == macro_call(path@, passer_body(streams_model(inputs@), streams_model(paths@), args@)),
        call@.len() == path@.len() + 2,
        call@.subrange(0, path@.len() as int) == path@,
        call@[path@.len() as int] == Token::Punct('!', SerializedSpacing::Alone),
        call@[path@.len() + 1int] == Token::Group(
            SerializedDelimiter::Brace,
            passer_body(streams_model(inputs@), streams_model(paths@), args@),
        ),
{
    let mut passed = wrap_streams(SerializedDelimiter::Brace, inputs);
    passed.append_stream(wrap_streams(SerializedDelimiter::Parenthesis, paths));
    let mut body = SerializedTokenStream::empty();
    body.push_tree(ident_token("__import_context_passer"));
    body.push_tree(group_token(SerializedDelimiter::Bracket, passed));
    body.append_stream(args);
    let mut call = path;
    call.push_tree(punct_token('!', SerializedSpacing::Alone));
    call.push_tree(group_token(SerializedDelimiter::Brace, body));
    assert(body@ =~= passer_body(streams_model(inputs@), streams_model(paths@), args@));
    proof {
        lemma_macro_call_shape(path@, body@);
    }
    call
}

/// A macro call is the whole path, token for token, then `!`, then the body
/// in braces, whatever the length of the path.
pub proof fn lemma_macro_call_shape(path: Seq<Token>, body: Seq<Token>)
    ensures
        macro_call(path, body).len() == path.len() + 2,
        macro_call(path, body).subrange(0, path.len() as int) == path,
        macro_call(path, body)[path.len() as int] == Token::Punct('!', SerializedSpacing::Alone),
        macro_call(path, body)[path.len() + 1int] == Token::Group(SerializedDelimiter::Brace, body),
{
    assert(macro_call(path, body).subrange(0, path.len() as int) =~= path);
}

/// Input that does not start with the marker identifier carries no data and
/// is handed on whole, whatever its first token is.
pub proof fn lemma_unmarked_input_passes_through(input: Seq<Token>)
    requires
        input.len() == 0 || input[0] != Token::Ident(passer_keyword()),
    ensures
        parse_passer(input) == Ok::<(Seq<Seq<Token>>, Seq<Token>), InvalidPasserSyntax>(
            (Seq::empty(), input),
        ),
{
}

} // verus!
