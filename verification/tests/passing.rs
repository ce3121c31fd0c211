use import_context::passer::{parse_context_passer, InvalidPasserSyntax};
use import_context::session::{begin_import, import, MissingContext};
use import_context::tokens::{
    group_token, ident_token, literal_token, punct_token, SerializedDelimiter, SerializedSpacing,
    SerializedTokenStream, SerializedTokenTree,
};

/// Renders a stream in a compact text form, one token after another.
fn render(s: &SerializedTokenStream) -> String {
    let mut out = String::new();
    for (i, t) in s.tokens.iter().enumerate() {
        if i > 0 {
            out.push(' ');
        }
        match t {
            SerializedTokenTree::Group(g) => {
                let (open, close) = match g.delimiter {
                    SerializedDelimiter::Parenthesis => ("(", ")"),
                    SerializedDelimiter::Brace => ("{", "}"),
                    SerializedDelimiter::Bracket => ("[", "]"),
                    SerializedDelimiter::Invisible => ("«", "»"),
                };
                out.push_str(open);
                out.push_str(&render(&g.stream));
                out.push_str(close);
            }
            SerializedTokenTree::Ident(id) => out.push_str(&id.sym),
            SerializedTokenTree::Punct(p) => {
                out.push(p.ch);
                if p.spacing == SerializedSpacing::Joint {
                    out.push('~');
                }
            }
            SerializedTokenTree::Literal(l) => out.push_str(&l.repr),
        }
    }
    out
}

fn stream(trees: Vec<SerializedTokenTree>) -> SerializedTokenStream {
    SerializedTokenStream { tokens: trees }
}

fn idents(words: &[&str]) -> SerializedTokenStream {
    stream(words.iter().map(|w| ident_token(w)).collect())
}

fn brace(inner: SerializedTokenStream) -> SerializedTokenTree {
    group_token(SerializedDelimiter::Brace, inner)
}

fn bracket(inner: SerializedTokenStream) -> SerializedTokenTree {
    group_token(SerializedDelimiter::Bracket, inner)
}

#[test]
fn input_without_marker_passes_through() {
    let input = stream(vec![ident_token("struct"), ident_token("Foo"), punct_token(';', SerializedSpacing::Alone)]);
    let (inputs, rest) = parse_context_passer(input).unwrap();
    assert!(inputs.is_empty());
    assert_eq!(render(&rest), "struct Foo ;");
}

#[test]
fn empty_input_has_no_context() {
    let (inputs, rest) = parse_context_passer(stream(vec![])).unwrap();
    assert!(inputs.is_empty());
    assert!(rest.tokens.is_empty());
}

#[test]
fn passer_prefix_is_split_off() {
    let input = stream(vec![
        ident_token("__import_context_passer"),
        bracket(stream(vec![brace(idents(&["a", "b"])), brace(idents(&[]))])),
        ident_token("rest"),
        literal_token("1"),
    ]);
    let (inputs, rest) = parse_context_passer(input).unwrap();
    assert_eq!(inputs.len(), 2);
    assert_eq!(render(&inputs[0]), "a b");
    assert_eq!(render(&inputs[1]), "");
    assert_eq!(render(&rest), "rest 1");
}

#[test]
fn marker_without_bracket_is_rejected() {
    let input = stream(vec![ident_token("__import_context_passer"), ident_token("x")]);
    assert_eq!(parse_context_passer(input).err(), Some(InvalidPasserSyntax));
    let lone = stream(vec![ident_token("__import_context_passer")]);
    assert_eq!(parse_context_passer(lone).err(), Some(InvalidPasserSyntax));
}

#[test]
fn marker_with_parenthesised_entry_is_rejected() {
    let input = stream(vec![
        ident_token("__import_context_passer"),
        bracket(stream(vec![brace(idents(&["a"])), group_token(SerializedDelimiter::Parenthesis, idents(&["p"]))])),
    ]);
    assert_eq!(parse_context_passer(input).err(), Some(InvalidPasserSyntax));
}

#[test]
fn marker_inside_a_later_position_is_ordinary_input() {
    let input = stream(vec![ident_token("x"), ident_token("__import_context_passer")]);
    let (inputs, rest) = parse_context_passer(input).unwrap();
    assert!(inputs.is_empty());
    assert_eq!(render(&rest), "x __import_context_passer");
}

#[test]
fn imports_are_answered_in_order() {
    let input = stream(vec![
        ident_token("__import_context_passer"),
        bracket(stream(vec![brace(idents(&["first"])), brace(idents(&["second"]))])),
        ident_token("body"),
    ]);
    let (mut session, rest) = begin_import(input).unwrap();
    assert_eq!(render(&rest), "body");
    let a = import(&mut session, idents(&["path_a"]));
    let b = import(&mut session, idents(&["path_b"]));
    let c = import(&mut session, idents(&["path_c"]));
    assert_eq!(render(&a.clone_eval().unwrap()), "first");
    assert_eq!(render(&a.eval().unwrap()), "first");
    assert_eq!(render(&b.eval().unwrap()), "second");
    assert_eq!(c.clone_eval().err(), Some(MissingContext));
    assert_eq!(c.eval().err(), Some(MissingContext));
}

#[test]
fn retry_calls_first_unanswered_request() {
    let input = stream(vec![
        ident_token("__import_context_passer"),
        bracket(stream(vec![brace(idents(&["one"]))])),
        ident_token("body"),
    ]);
    let (mut session, rest) = begin_import(input).unwrap();
    let _ = import(&mut session, idents(&["m1"]));
    let _ = import(&mut session, idents(&["m2"]));
    let _ = import(&mut session, idents(&["m3"]));
    let call = session.retry_invocation(idents(&["me"]), rest).unwrap();
    assert_eq!(
        render(&call),
        "m2 ! {__import_context_passer [{one} (m3) (me)] body}"
    );
}

#[test]
fn no_retry_when_everything_was_answered() {
    let input = stream(vec![
        ident_token("__import_context_passer"),
        bracket(stream(vec![brace(idents(&["one"]))])),
    ]);
    let (mut session, rest) = begin_import(input).unwrap();
    let _ = import(&mut session, idents(&["m1"]));
    assert!(session.retry_invocation(idents(&["me"]), rest).is_none());
}

#[test]
fn first_run_retry_carries_no_data() {
    let (mut session, rest) = begin_import(idents(&["item"])).unwrap();
    let a = import(&mut session, idents(&["dep"]));
    assert!(a.eval().is_err());
    let call = session.retry_invocation(idents(&["me"]), rest).unwrap();
    assert_eq!(render(&call), "dep ! {__import_context_passer [(me)] item}");
}

#[test]
fn retried_call_round_trips_to_the_importer() {
    // The call the last relaying macro makes: `me! { __import_context_passer [{d1} {d2}] body }`.
    let body = stream(vec![
        ident_token("__import_context_passer"),
        bracket(stream(vec![brace(idents(&["d1"])), brace(idents(&["d2"]))])),
        ident_token("body"),
    ]);
    let (mut session, rest) = begin_import(body).unwrap();
    assert_eq!(render(&rest), "body");
    assert_eq!(render(&import(&mut session, idents(&["x"])).eval().unwrap()), "d1");
    assert_eq!(render(&import(&mut session, idents(&["y"])).eval().unwrap()), "d2");
}

#[test]
fn clone_keeps_tokens() {
    let s = stream(vec![
        ident_token("a"),
        brace(stream(vec![punct_token('+', SerializedSpacing::Joint), literal_token("\"x\"")])),
    ]);
    let c = s.clone();
    assert_eq!(render(&c), render(&s));
    assert_eq!(render(&c), "a {+~ \"x\"}");
}

/// Plays the part of the macros made by `export`: the called macro appends
/// the datum it exports to the passed data and calls the next path, until
/// the call reaches `me`; returns what `me` then receives.
fn run_relay(call: SerializedTokenStream, exported: fn(&str) -> &'static str) -> SerializedTokenStream {
    let mut tokens = call.tokens;
    let body = match tokens.pop() {
        Some(SerializedTokenTree::Group(g)) => g.stream,
        _ => panic!("a call ends with its body"),
    };
    tokens.pop(); // `!`
    let mut target = render(&stream(tokens));
    let mut body = body;
    loop {
        if target == "me" {
            return body;
        }
        let mut parts = body.tokens.into_iter();
        let marker = parts.next().unwrap();
        let passed = match parts.next() {
            Some(SerializedTokenTree::Group(g)) => g.stream.tokens,
            _ => panic!("the body passes data"),
        };
        let args: Vec<SerializedTokenTree> = parts.collect();
        let mut inputs = Vec::new();
        let mut paths = Vec::new();
        for t in passed {
            match t {
                SerializedTokenTree::Group(g) if g.delimiter == SerializedDelimiter::Brace => inputs.push(g.stream),
                SerializedTokenTree::Group(g) => paths.push(g.stream),
                _ => panic!("unexpected token among passed data"),
            }
        }
        inputs.push(idents(&[exported(&target)]));
        let next = paths.remove(0);
        let mut contents: Vec<SerializedTokenTree> = inputs.into_iter().map(brace).collect();
        contents.extend(paths.into_iter().map(|p| group_token(SerializedDelimiter::Parenthesis, p)));
        let mut new_body = vec![marker, bracket(stream(contents))];
        new_body.extend(args);
        target = render(&next);
        body = stream(new_body);
    }
}

fn exported_by(path: &str) -> &'static str {
    match path {
        "m1" => "data_of_m1",
        "m2" => "data_of_m2",
        "m3" => "data_of_m3",
        _ => panic!("no such exporter"),
    }
}

#[test]
fn every_request_is_answered_by_the_macro_it_names() {
    // First run: nothing was passed in, so the first import stops the run.
    let (mut session, rest) = begin_import(idents(&["item"])).unwrap();
    for p in ["m1", "m2", "m3"] {
        let _ = import(&mut session, idents(&[p]));
    }
    let call = session.retry_invocation(idents(&["me"]), rest).unwrap();
    let received = run_relay(call, exported_by);

    // Second run: every request is answered by the datum of the macro it names.
    let (mut session, rest) = begin_import(received).unwrap();
    assert_eq!(render(&rest), "item");
    for p in ["m1", "m2", "m3"] {
        let answer = import(&mut session, idents(&[p])).eval().unwrap();
        assert_eq!(render(&answer), exported_by(p));
    }
    assert!(session.retry_invocation(idents(&["me"]), rest).is_none());
}

#[test]
fn later_requests_are_gathered_in_a_later_round() {
    // A run that received one datum and asks for two more.
    let (mut session, rest) = begin_import(passed_one()).unwrap();
    let first = import(&mut session, idents(&["m1"])).eval().unwrap();
    assert_eq!(render(&first), "data_of_m1");
    let _ = import(&mut session, idents(&["m2"]));
    let _ = import(&mut session, idents(&["m3"]));
    let call = session.retry_invocation(idents(&["me"]), rest).unwrap();
    let received = run_relay(call, exported_by);
    let (mut session, _) = begin_import(received).unwrap();
    for p in ["m1", "m2", "m3"] {
        assert_eq!(render(&import(&mut session, idents(&[p])).eval().unwrap()), exported_by(p));
    }
}

fn passed_one() -> SerializedTokenStream {
    stream(vec![
        ident_token("__import_context_passer"),
        bracket(stream(vec![brace(idents(&["data_of_m1"]))])),
        ident_token("item"),
    ])
}
