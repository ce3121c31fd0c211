use import_context::lazy::{LazyImportGroup, NotComputed};
use import_context::session::{begin_import, MissingContext};
use import_context::tokens::{
    group_token, ident_token, SerializedDelimiter, SerializedTokenStream, SerializedTokenTree,
};

fn stream(trees: Vec<SerializedTokenTree>) -> SerializedTokenStream {
    SerializedTokenStream { tokens: trees }
}

fn idents(words: &[&str]) -> SerializedTokenStream {
    stream(words.iter().map(|w| ident_token(w)).collect())
}

/// `__import_context_passer [ {d}* ] body` for the given data.
fn passed(data: &[&[&str]]) -> SerializedTokenStream {
    stream(vec![
        ident_token("__import_context_passer"),
        group_token(
            SerializedDelimiter::Bracket,
            stream(
                data.iter()
                    .map(|d| group_token(SerializedDelimiter::Brace, idents(d)))
                    .collect(),
            ),
        ),
        ident_token("body"),
    ])
}

fn count(ts: SerializedTokenStream) -> Result<usize, String> {
    Ok(ts.tokens.len())
}

#[test]
fn evaluated_group_hands_out_values() {
    let (mut session, _) = begin_import(passed(&[&["a", "b"], &["c"]])).unwrap();
    let mut group: LazyImportGroup<String> = LazyImportGroup::new();
    let first = group.import(&mut session, idents(&["p1"]), count);
    let mut second = group.import(&mut session, idents(&["p2"]), |ts: SerializedTokenStream| {
        Ok::<String, String>(ts.tokens.len().to_string())
    });
    assert_eq!(group.eval(), Ok(None));
    assert_eq!(first.into_inner(), Ok(2));
    assert!(second.init());
    assert_eq!(second.get(), Some(&"1".to_string()));
    assert!(second.init());
    assert_eq!(second.into_inner(), Ok("1".to_string()));
}

#[test]
fn group_collects_errors_in_order() {
    let (mut session, _) = begin_import(passed(&[&["x"], &["y", "z"], &[]])).unwrap();
    let mut group: LazyImportGroup<String> = LazyImportGroup::default();
    let fail = |ts: SerializedTokenStream| Err::<u8, String>(format!("bad {}", ts.tokens.len()));
    let a = group.import(&mut session, idents(&["a"]), fail);
    let b = group.import(&mut session, idents(&["b"]), count);
    let c = group.import(&mut session, idents(&["c"]), fail);
    assert_eq!(
        group.eval(),
        Ok(Some(vec!["bad 1".to_string(), "bad 0".to_string()]))
    );
    assert_eq!(a.into_inner(), Err(NotComputed));
    assert_eq!(b.into_inner(), Ok(2));
    assert_eq!(c.into_inner(), Err(NotComputed));
    // The group is empty afterwards.
    assert_eq!(group.eval(), Ok(None));
}

#[test]
fn group_missing_context_asks_for_everything() {
    let (mut session, rest) = begin_import(passed(&[&["only"]])).unwrap();
    let mut group: LazyImportGroup<String> = LazyImportGroup::new();
    let a = group.import(&mut session, idents(&["m1"]), count);
    let _b = group.import(&mut session, idents(&["m2"]), count);
    let _c = group.import(&mut session, idents(&["m3"]), count);
    assert_eq!(group.eval(), Err(MissingContext));
    let call = session.retry_invocation(idents(&["me"]), rest).unwrap();
    // m2 ! { __import_context_passer [ {only} (m3) (me) ] body }
    assert_eq!(call.tokens.len(), 3);
    match &call.tokens[0] {
        SerializedTokenTree::Ident(i) => assert_eq!(i.sym, "m2"),
        _ => panic!("expected the first unanswered path"),
    }
    match &call.tokens[2] {
        SerializedTokenTree::Group(g) => {
            assert_eq!(g.delimiter, SerializedDelimiter::Brace);
            match &g.stream.tokens[1] {
                SerializedTokenTree::Group(inner) => assert_eq!(inner.stream.tokens.len(), 3),
                _ => panic!("expected the passed data"),
            }
        }
        _ => panic!("expected the call body"),
    }
    // The import that was answered before the run stopped got its value computed.
    assert_eq!(a.into_inner(), Ok(1));
}

#[test]
fn value_is_not_available_before_evaluation() {
    let (mut session, _) = begin_import(passed(&[&["v"]])).unwrap();
    let mut group: LazyImportGroup<String> = LazyImportGroup::new();
    let mut a = group.import(&mut session, idents(&["m"]), count);
    assert!(!a.init());
    assert_eq!(a.get(), None);
    assert_eq!(group.eval(), Ok(None));
    assert!(a.init());
    assert_eq!(a.into_inner(), Ok(1));
}
