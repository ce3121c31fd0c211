use std::str::FromStr;

use import_context::export::export;
use import_context::naming::unique_ident;
use import_context::tokens::{
    ident_token, SerializedDelimiter, SerializedGroup, SerializedIdent, SerializedLiteral,
    SerializedPunct, SerializedSpacing, SerializedSpan, SerializedTokenStream,
    SerializedTokenTree,
};

/// Reads Rust source text into the token model, the way the compiler would tokenize it.
fn tokens(src: &str) -> SerializedTokenStream {
    fn stream(ts: proc_macro2::TokenStream) -> SerializedTokenStream {
        SerializedTokenStream { tokens: ts.into_iter().map(tree).collect() }
    }
    fn tree(t: proc_macro2::TokenTree) -> SerializedTokenTree {
        let span = SerializedSpan {};
        match t {
            proc_macro2::TokenTree::Group(g) => SerializedTokenTree::Group(SerializedGroup {
                delimiter: match g.delimiter() {
                    proc_macro2::Delimiter::Parenthesis => SerializedDelimiter::Parenthesis,
                    proc_macro2::Delimiter::Brace => SerializedDelimiter::Brace,
                    proc_macro2::Delimiter::Bracket => SerializedDelimiter::Bracket,
                    proc_macro2::Delimiter::None => SerializedDelimiter::Invisible,
                },
                stream: stream(g.stream()),
                span,
            }),
            proc_macro2::TokenTree::Ident(i) => {
                SerializedTokenTree::Ident(SerializedIdent { sym: i.to_string(), span })
            }
            proc_macro2::TokenTree::Punct(p) => SerializedTokenTree::Punct(SerializedPunct {
                ch: p.as_char(),
                spacing: match p.spacing() {
                    proc_macro2::Spacing::Alone => SerializedSpacing::Alone,
                    proc_macro2::Spacing::Joint => SerializedSpacing::Joint,
                },
                span,
            }),
            proc_macro2::TokenTree::Literal(l) => {
                SerializedTokenTree::Literal(SerializedLiteral { repr: l.to_string(), span })
            }
        }
    }
    stream(proc_macro2::TokenStream::from_str(src).unwrap())
}

/// A structural rendering that shows delimiters and spacing.
fn render(s: &SerializedTokenStream) -> String {
    let mut out = String::new();
    for t in &s.tokens {
        match t {
            SerializedTokenTree::Group(g) => {
                let (open, close) = match g.delimiter {
                    SerializedDelimiter::Parenthesis => ("(", ")"),
                    SerializedDelimiter::Brace => ("{", "}"),
                    SerializedDelimiter::Bracket => ("[", "]"),
                    SerializedDelimiter::Invisible => ("«", "»"),
                };
                out.push_str(open);
                out.push_str(&render(&g.stream));
                out.push_str(close);
            }
            SerializedTokenTree::Ident(id) => {
                out.push_str(&id.sym);
                out.push(' ');
            }
            SerializedTokenTree::Punct(p) => {
                out.push(p.ch);
                out.push(if p.spacing == SerializedSpacing::Joint { '~' } else { ' ' });
            }
            SerializedTokenTree::Literal(l) => {
                out.push_str(&l.repr);
                out.push(' ');
            }
        }
    }
    out
}

#[test]
fn export_produces_the_relaying_macro() {
    let id = SerializedIdent { sym: "__unique_ident_7_3".to_string(), span: SerializedSpan {} };
    let (returned, out) = export(tokens("pub"), tokens("my_data"), tokens("struct Foo ;"), id);
    assert_eq!(returned.sym, "__unique_ident_7_3");
    let expected = tokens(
        r#"
        #[macro_export]
        #[doc(hidden)]
        macro_rules! __unique_ident_7_3 {
            (
                __import_context_passer [
                    $({ $($input:tt)* })*
                    ($next_path:path) $(($later_path:path))*
                ]
                $($args:tt)*
            ) => {
                $next_path! {
                    __import_context_passer [
                        $({ $($input)* })* { struct Foo ; }
                        $(($later_path))*
                    ]
                    $($args)*
                }
            };
            ($($tt:tt)*) => { ::core::compile_error!("cannot call this item directly as a macro") };
        }

        #[doc(hidden)]
        pub use __unique_ident_7_3 as my_data;
        "#,
    );
    assert_eq!(render(&out), render(&expected));
}

#[test]
fn export_with_empty_visibility_and_data() {
    let id = SerializedIdent { sym: "m".to_string(), span: SerializedSpan {} };
    let (_, out) = export(tokens(""), tokens("name"), tokens(""), id);
    let text = render(&out);
    assert!(text.ends_with("# [doc (hidden )]use m as name ; "));
    assert!(text.contains("{}$ (($ later_path ))* ]"));
}

#[test]
fn unique_ident_formats_tag_and_counter() {
    assert_eq!(unique_ident(123, 0).sym, "__unique_ident_123_0");
    assert_eq!(unique_ident(0, 45).sym, "__unique_ident_0_45");
    assert_eq!(unique_ident(10, 100).sym, "__unique_ident_10_100");
    assert_eq!(
        unique_ident(u64::MAX, u64::MAX).sym,
        "__unique_ident_18446744073709551615_18446744073709551615"
    );
}

#[test]
fn unique_idents_differ_by_counter() {
    let names: Vec<String> = (0..200).map(|n| unique_ident(42, n).sym).collect();
    for i in 0..names.len() {
        for j in (i + 1)..names.len() {
            assert_ne!(names[i], names[j]);
        }
    }
    // A tag and counter that run together in the digits still give different names.
    assert_ne!(unique_ident(1, 23).sym, unique_ident(12, 3).sym);
}

#[test]
fn ident_token_holds_its_text() {
    match ident_token("abc") {
        SerializedTokenTree::Ident(i) => assert_eq!(i.sym, "abc"),
        _ => panic!("not an identifier"),
    }
}
