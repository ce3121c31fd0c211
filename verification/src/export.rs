//! Exporting data: the macro that relays an exported datum along a
//! context-passing chain, and the unique names such macros are given.
use vstd::prelude::*;
use crate::tokens::{
    group_token, ident_token, literal_token, punct_token, SerializedDelimiter, SerializedIdent,
    SerializedSpacing, SerializedSpan, SerializedTokenStream, Token,
};

verus! {

/// The exported tokens end with the hidden `use` item that re-exports the
/// generated macro: `#[doc(hidden)]`, the whole visibility `vis`, then
/// `use id as name ;`, for every visibility and name.
pub proof fn lemma_export_ends_with_use(
    vis: Seq<Token>,
    name: Seq<Token>,
    data: Seq<Token>,
    id: Seq<char>,
)
    ensures
        ({
            let out = export_tokens(vis, name, data, id);
            let tail = doc_hidden() + vis + seq![
                Token::Ident("use"@),
                Token::Ident(id),
                Token::Ident("as"@),
            ] + name + seq![punct(';')];
            &&& out.len() >= tail.len()
            &&& tail.len() == doc_hidden().len() + vis.len() + name.len() + 4
            &&& out.skip(out.len() - tail.len()) == tail
        }),
{
    let out = export_tokens(vis, name, data, id);
    let tail = doc_hidden() + vis + seq![Token::Ident("use"@), Token::Ident(id), Token::Ident("as"@)]
        + name + seq![punct(';')];
    let head = attribute(seq![Token::Ident("macro_export"@)]) + doc_hidden() + seq![
        Token::Ident("macro_rules"@),
        punct('!'),
        Token::Ident(id),
        brace(
            seq![paren(relay_pattern())] + fat_arrow() + seq![
                brace(relay_expansion(data)),
                punct(';'),
            ] + refusal_rule(),
        ),
    ];
    assert(out =~= head + tail);
    assert(out.skip(out.len() - tail.len()) =~= tail);
}

/// A lone punctuation character.
pub open spec fn punct(c: char) -> Token {
    Token::Punct(c, SerializedSpacing::Alone)
}

/// A punctuation character joined to the next one.
pub open spec fn joint(c: char) -> Token {
    Token::Punct(c, SerializedSpacing::Joint)
}

/// A parenthesised group.
pub open spec fn paren(ts: Seq<Token>) -> Token {
    Token::Group(SerializedDelimiter::Parenthesis, ts)
}

/// A brace-delimited group.
pub open spec fn brace(ts: Seq<Token>) -> Token {
    Token::Group(SerializedDelimiter::Brace, ts)
}

/// A bracketed group.
pub open spec fn bracket(ts: Seq<Token>) -> Token {
    Token::Group(SerializedDelimiter::Bracket, ts)
}

/// `$name`
pub open spec fn metavar(name: Seq<char>) -> Seq<Token> {
    seq![punct('$'), Token::Ident(name)]
}

/// `$name:kind`
pub open spec fn fragment(name: Seq<char>, kind: Seq<char>) -> Seq<Token> {
    metavar(name) + seq![punct(':'), Token::Ident(kind)]
}

/// `$( inner )*`
pub open spec fn repetition(inner: Seq<Token>) -> Seq<Token> {
    seq![punct('$'), paren(inner), punct('*')]
}

/// `#[ inner ]`
pub open spec fn attribute(inner: Seq<Token>) -> Seq<Token> {
    seq![punct('#'), bracket(inner)]
}

/// `#[doc(hidden)]`
pub open spec fn doc_hidden() -> Seq<Token> {
    attribute(seq![Token::Ident("doc"@), paren(seq![Token::Ident("hidden"@)])])
}

/// `=>`
pub open spec fn fat_arrow() -> Seq<Token> {
    seq![joint('='), punct('>')]
}

/// `::`
pub open spec fn path_sep() -> Seq<Token> {
    seq![joint(':'), punct(':')]
}

/// The pattern of the relaying rule:
/// `__import_context_passer [ $({ $($input:tt)* })* ($next_path:path) $(($later_path:path))* ] $($args:tt)*`
pub open spec fn relay_pattern() -> Seq<Token> {
    seq![
        Token::Ident("__import_context_passer"@),
        bracket(
            repetition(seq![brace(repetition(fragment("input"@, "tt"@)))]) + seq![
                paren(fragment("next_path"@, "path"@)),
            ] + repetition(seq![paren(fragment("later_path"@, "path"@))]),
        ),
    ] + repetition(fragment("args"@, "tt"@))
}

/// The expansion of the relaying rule: the next macro is called with the
/// exported data appended to the gathered inputs.
/// `$next_path! { __import_context_passer [ $({ $($input)* })* { data } $(($later_path))* ] $($args)* }`
pub open spec fn relay_expansion(data: Seq<Token>) -> Seq<Token> {
    metavar("next_path"@) + seq![
        punct('!'),
        brace(
            seq![
                Token::Ident("__import_context_passer"@),
                bracket(
                    repetition(seq![brace(repetition(metavar("input"@)))]) + seq![brace(data)]
                        + repetition(seq![paren(metavar("later_path"@))]),
                ),
            ] + repetition(metavar("args"@)),
        ),
    ]
}

/// The rule that refuses a direct call:
/// `($($tt:tt)*) => { ::core::compile_error!("cannot call this item directly as a macro") };`
pub open spec fn refusal_rule() -> Seq<Token> {
    seq![paren(repetition(fragment("tt"@, "tt"@)))] + fat_arrow() + seq![
        brace(
            path_sep() + seq![Token::Ident("core"@)] + path_sep() + seq![
                Token::Ident("compile_error"@),
                punct('!'),
                paren(seq![Token::Literal("\"cannot call this item directly as a macro\""@)]),
            ],
        ),
        punct(';'),
    ]
}

/// The tokens that `export` produces: an exported, hidden `macro_rules!`
/// macro named `id` that relays `data`, and a hidden `use` item that makes it
/// visible as `name` with visibility `vis`.
pub open spec fn export_tokens(vis: Seq<Token>, name: Seq<Token>, data: Seq<Token>, id: Seq<char>) -> Seq<
    Token,
> {
    attribute(seq![Token::Ident("macro_export"@)]) + doc_hidden() + seq![
        Token::Ident("macro_rules"@),
        punct('!'),
        Token::Ident(id),
        brace(
            seq![paren(relay_pattern())] + fat_arrow() + seq![
                brace(relay_expansion(data)),
                punct(';'),
            ] + refusal_rule(),
        ),
    ] + doc_hidden() + vis + seq![Token::Ident("use"@), Token::Ident(id), Token::Ident("as"@)]
        + name + seq![punct(';')]
}

/// Appends a lone punctuation character.
fn push_punct(s: &mut SerializedTokenStream, c: char)
    ensures
        final(s)@ == old(s)@.push(punct(c)),
{
    s.push_tree(punct_token(c, SerializedSpacing::Alone));
}

/// Appends an identifier.
fn push_ident(s: &mut SerializedTokenStream, sym: &str)
    ensures
        final(s)@ == old(s)@.push(Token::Ident(sym@)),
{
    s.push_tree(ident_token(sym));
}

/// Appends a group around `inner`.
fn push_group(s: &mut SerializedTokenStream, d: SerializedDelimiter, inner: SerializedTokenStream)
    ensures
        final(s)@ == old(s)@.push(Token::Group(d, inner@)),
{
    s.push_tree(group_token(d, inner));
}

/// `$name`
fn metavar_tokens(name: &str) -> (s: SerializedTokenStream)
    ensures
        s@ == metavar(name@),
{
    let mut s = SerializedTokenStream::empty();
    push_punct(&mut s, '$');
    push_ident(&mut s, name);
    assert(s@ =~= metavar(name@));
    s
}

/// `$name:kind`
fn fragment_tokens(name: &str, kind: &str) -> (s: SerializedTokenStream)
    ensures
        s@ == fragment(name@, kind@),
{
    let mut s = metavar_tokens(name);
    push_punct(&mut s, ':');
    push_ident(&mut s, kind);
    assert(s@ =~= fragment(name@, kind@));
    s
}

/// `$( inner )*`
fn repetition_tokens(inner: SerializedTokenStream) -> (s: SerializedTokenStream)
    ensures
        s@ == repetition(inner@),
{
    let mut s = SerializedTokenStream::empty();
    push_punct(&mut s, '$');
    push_group(&mut s, SerializedDelimiter::Parenthesis, inner);
    push_punct(&mut s, '*');
    assert(s@ =~= repetition(inner@));
    s
}

/// A stream holding one group around `inner`.
fn single_group(d: SerializedDelimiter, inner: SerializedTokenStream) -> (s: SerializedTokenStream)
    ensures
        s@ == seq![Token::Group(d, inner@)],
{
    let mut s = SerializedTokenStream::empty();
    push_group(&mut s, d, inner);
    assert(s@ =~= seq![Token::Group(d, inner@)]);
    s
}

/// `#[ inner ]`
fn attribute_tokens(inner: SerializedTokenStream) -> (s: SerializedTokenStream)
    ensures
        s@ == attribute(inner@),
{
    let mut s = SerializedTokenStream::empty();
    push_punct(&mut s, '#');
    push_group(&mut s, SerializedDelimiter::Bracket, inner);
    assert(s@ =~= attribute(inner@));
    s
}

/// `#[doc(hidden)]`
fn doc_hidden_tokens() -> (s: SerializedTokenStream)
    ensures
        s@ == doc_hidden(),
{
    let mut hidden = SerializedTokenStream::empty();
    push_ident(&mut hidden, "hidden");
    let mut inner = SerializedTokenStream::empty();
    push_ident(&mut inner, "doc");
    push_group(&mut inner, SerializedDelimiter::Parenthesis, hidden);
    assert(inner@ =~= seq![Token::Ident("doc"@), paren(seq![Token::Ident("hidden"@)])]);
    attribute_tokens(inner)
}

/// Appends `=>`.
fn push_fat_arrow(s: &mut SerializedTokenStream)
    ensures
        final(s)@ == old(s)@ + fat_arrow(),
{
    s.push_tree(punct_token('=', SerializedSpacing::Joint));
    push_punct(s, '>');
    assert(final(s)@ =~= old(s)@ + fat_arrow());
}

/// Appends `::`.
fn push_path_sep(s: &mut SerializedTokenStream)
    ensures
        final(s)@ == old(s)@ + path_sep(),
{
    s.push_tree(punct_token(':', SerializedSpacing::Joint));
    push_punct(s, ':');
    assert(final(s)@ =~= old(s)@ + path_sep());
}

/// The pattern of the relaying rule.
fn relay_pattern_tokens() -> (s: SerializedTokenStream)
    ensures
        s@ == relay_pattern(),
{
    let inputs = repetition_tokens(
        single_group(SerializedDelimiter::Brace, repetition_tokens(fragment_tokens("input", "tt"))),
    );
    let mut passed = inputs;
    push_group(&mut passed, SerializedDelimiter::Parenthesis, fragment_tokens("next_path", "path"));
    passed.append_stream(
        repetition_tokens(
            single_group(SerializedDelimiter::Parenthesis, fragment_tokens("later_path", "path")),
        ),
    );
    assert(passed@ =~= repetition(seq![brace(repetition(fragment("input"@, "tt"@)))]) + seq![
        paren(fragment("next_path"@, "path"@)),
    ] + repetition(seq![paren(fragment("later_path"@, "path"@))]));
    let mut s = SerializedTokenStream::empty();
    push_ident(&mut s, "__import_context_passer");
    push_group(&mut s, SerializedDelimiter::Bracket, passed);
    s.append_stream(repetition_tokens(fragment_tokens("args", "tt")));
    assert(s@ =~= relay_pattern());
    s
}

/// The expansion of the relaying rule.
fn relay_expansion_tokens(data: SerializedTokenStream) -> (s: SerializedTokenStream)
    ensures
        s@ == relay_expansion(data@),
{
    let mut passed = repetition_tokens(
        single_group(SerializedDelimiter::Brace, repetition_tokens(metavar_tokens("input"))),
    );
    push_group(&mut passed, SerializedDelimiter::Brace, data);
    passed.append_stream(
        repetition_tokens(single_group(SerializedDelimiter::Parenthesis, metavar_tokens("later_path"))),
    );
    assert(passed@ =~= repetition(seq![brace(repetition(metavar("input"@)))]) + seq![brace(data@)]
        + repetition(seq![paren(metavar("later_path"@))]));
    let mut body = SerializedTokenStream::empty();
    push_ident(&mut body, "__import_context_passer");
    push_group(&mut body, SerializedDelimiter::Bracket, passed);
    body.append_stream(repetition_tokens(metavar_tokens("args")));
    assert(body@ =~= seq![
        Token::Ident("__import_context_passer"@),
        bracket(
            repetition(seq![brace(repetition(metavar("input"@)))]) + seq![brace(data@)]
                + repetition(seq![paren(metavar("later_path"@))]),
        ),
    ] + repetition(metavar("args"@)));
    let mut s = metavar_tokens("next_path");
    push_punct(&mut s, '!');
    push_group(&mut s, SerializedDelimiter::Brace, body);
    assert(s@ =~= relay_expansion(data@));
    s
}

/// The rule that refuses a direct call.
fn refusal_rule_tokens() -> (s: SerializedTokenStream)
    ensures
        s@ == refusal_rule(),
{
    let mut call = SerializedTokenStream::empty();
    push_path_sep(&mut call);
    push_ident(&mut call, "core");
    push_path_sep(&mut call);
    push_ident(&mut call, "compile_error");
    push_punct(&mut call, '!');
    let mut message = SerializedTokenStream::empty();
    message.push_tree(literal_token("\"cannot call this item directly as a macro\""));
    push_group(&mut call, SerializedDelimiter::Parenthesis, message);
    assert(call@ =~= path_sep() + seq![Token::Ident("core"@)] + path_sep() + seq![
        Token::Ident("compile_error"@),
        punct('!'),
        paren(seq![Token::Literal("\"cannot call this item directly as a macro\""@)]),
    ]);
    let mut s = single_group(
        SerializedDelimiter::Parenthesis,
        repetition_tokens(fragment_tokens("tt", "tt")),
    );
    push_fat_arrow(&mut s);
    push_group(&mut s, SerializedDelimiter::Brace, call);
    push_punct(&mut s, ';');
    assert(s@ =~= refusal_rule());
    s
}

/// Exports `data` under `name`: produces the definition of a macro named `id`
/// that relays `data` along a context-passing chain, made visible as `name`
/// with visibility `vis`.  Returns `id` with the tokens.
pub fn export(
    vis: SerializedTokenStream,
    name: SerializedTokenStream,
    data: SerializedTokenStream,
    id: SerializedIdent,
) -> (r: (SerializedIdent, SerializedTokenStream))
    ensures
        r.0.sym@ == id.sym@,
        r.1@ == export_tokens(vis@, name@, data@, id.sym@),
        r.1@.len() >= doc_hidden().len() + vis@.len() + name@.len() + 4,
        r.1@.skip(r.1@.len() - (doc_hidden().len() + vis@.len() + name@.len() + 4)) == doc_hidden()
            + vis@ + seq![Token::Ident("use"@), Token::Ident(id.sym@), Token::Ident("as"@)] + name@
            + seq![punct(';')],
{
    let mut rules = single_group(SerializedDelimiter::Parenthesis, relay_pattern_tokens());
    push_fat_arrow(&mut rules);
    push_group(&mut rules, SerializedDelimiter::Brace, relay_expansion_tokens(data));
    push_punct(&mut rules, ';');
    rules.append_stream(refusal_rule_tokens());
    assert(rules@ =~= seq![paren(relay_pattern())] + fat_arrow() + seq![
        brace(relay_expansion(data@)),
        punct(';'),
    ] + refusal_rule());

    let mut export_attr = SerializedTokenStream::empty();
    push_ident(&mut export_attr, "macro_export");
    let mut s = attribute_tokens(export_attr);
    s.append_stream(doc_hidden_tokens());
    push_ident(&mut s, "macro_rules");
    push_punct(&mut s, '!');
    s.push_tree(ident_token(id.sym.as_str()));
    push_group(&mut s, SerializedDelimiter::Brace, rules);
    s.append_stream(doc_hidden_tokens());
    s.append_stream(vis);
    push_ident(&mut s, "use");
    s.push_tree(ident_token(id.sym.as_str()));
    push_ident(&mut s, "as");
    s.append_stream(name);
    push_punct(&mut s, ';');
    assert(s@ =~= export_tokens(vis@, name@, data@, id.sym@));
    proof {
        lemma_export_ends_with_use(vis@, name@, data@, id.sym@);
    }
    (SerializedIdent { sym: id.sym, span: SerializedSpan {  } }, s)
}

} // verus!
