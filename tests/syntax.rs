use cxx_qt_gen::foreignmod::{
    foreign_item_to_type, foreign_mod_from_parts, foreign_mod_to_foreign_item_types,
    verbatim_to_foreign_mod, verbatim_to_foreign_type, BlockItem, ItemForeignMod, ItemKind,
};
use cxx_qt_gen::properties::RustObj;
use cxx_qt_gen::receiver::{
    self_type_from_foreign_fn, FnArg, Pat, PatIdent, PatType, Receiver, Signature, Type,
};
use cxx_qt_gen::token::{Anchor, Attr, Delim, ErrorKind, Punct, PunctSpacing, Token, Visibility};
use quote::ToTokens;

fn from_stream(ts: proc_macro2::TokenStream) -> Vec<Token> {
    ts.into_iter()
        .map(|tt| match tt {
            proc_macro2::TokenTree::Ident(i) => Token::Ident(i.to_string()),
            proc_macro2::TokenTree::Punct(p) => Token::Punct(
                Punct::new(
                    p.as_char(),
                    match p.spacing() {
                        proc_macro2::Spacing::Alone => PunctSpacing::Alone,
                        proc_macro2::Spacing::Joint => PunctSpacing::Joint,
                    },
                )
                .unwrap(),
            ),
            proc_macro2::TokenTree::Literal(l) => Token::Literal(l.to_string()),
            proc_macro2::TokenTree::Group(g) => Token::Group(
                match g.delimiter() {
                    proc_macro2::Delimiter::Parenthesis => Delim::Parenthesis,
                    proc_macro2::Delimiter::Brace => Delim::Brace,
                    proc_macro2::Delimiter::Bracket => Delim::Bracket,
                    proc_macro2::Delimiter::None => Delim::Invisible,
                },
                from_stream(g.stream()),
            ),
        })
        .collect()
}

fn to_stream(tokens: &[Token]) -> proc_macro2::TokenStream {
    tokens
        .iter()
        .map(|t| -> proc_macro2::TokenTree {
            match t {
                Token::Ident(s) => {
                    proc_macro2::Ident::new(s, proc_macro2::Span::call_site()).into()
                }
                Token::Punct(p) => proc_macro2::Punct::new(
                    p.as_char(),
                    match p.spacing() {
                        PunctSpacing::Alone => proc_macro2::Spacing::Alone,
                        PunctSpacing::Joint => proc_macro2::Spacing::Joint,
                    },
                )
                .into(),
                Token::Literal(s) => s.parse::<proc_macro2::Literal>().unwrap().into(),
                Token::Group(d, body) => proc_macro2::Group::new(
                    match d {
                        Delim::Parenthesis => proc_macro2::Delimiter::Parenthesis,
                        Delim::Brace => proc_macro2::Delimiter::Brace,
                        Delim::Bracket => proc_macro2::Delimiter::Bracket,
                        Delim::Invisible => proc_macro2::Delimiter::None,
                    },
                    to_stream(body),
                )
                .into(),
            }
        })
        .collect()
}

fn lex(src: &str) -> Vec<Token> {
    from_stream(src.parse::<proc_macro2::TokenStream>().unwrap())
}

fn attribute(attr: &syn::Attribute) -> Attr {
    let mut inside = attr.path.to_token_stream();
    inside.extend(attr.tokens.clone());
    Attr {
        inner: matches!(attr.style, syn::AttrStyle::Inner(_)),
        tokens: from_stream(inside),
    }
}

fn signature(src: &str) -> Signature {
    let item: syn::ForeignItemFn = syn::parse_str(src).unwrap();
    let sig = item.sig;
    Signature {
        ident: sig.ident.to_string(),
        inputs: sig
            .inputs
            .iter()
            .map(|arg| match arg {
                syn::FnArg::Receiver(r) => FnArg::Receiver(Receiver {
                    attrs: r.attrs.iter().map(attribute).collect(),
                    reference: r.reference.is_some(),
                    mutability: r.mutability.is_some(),
                }),
                syn::FnArg::Typed(pt) => FnArg::Typed(PatType {
                    attrs: pt.attrs.iter().map(attribute).collect(),
                    pat: match &*pt.pat {
                        syn::Pat::Ident(pi) => Pat::Ident(PatIdent {
                            attrs: pi.attrs.iter().map(attribute).collect(),
                            by_ref: pi.by_ref.is_some(),
                            mutability: pi.mutability.is_some(),
                            ident: pi.ident.to_string(),
                            subpat: pi
                                .subpat
                                .as_ref()
                                .map(|(_, p)| from_stream(p.to_token_stream())),
                        }),
                        other => Pat::Other(from_stream(other.to_token_stream())),
                    },
                    ty: Type {
                        tokens: from_stream(pt.ty.to_token_stream()),
                    },
                }),
            })
            .collect(),
        output: match &sig.output {
            syn::ReturnType::Default => None,
            syn::ReturnType::Type(_, ty) => Some(Type {
                tokens: from_stream(ty.to_token_stream()),
            }),
        },
    }
}

fn foreign_mod(src: &str) -> ItemForeignMod {
    let item: syn::ItemForeignMod = syn::parse_str(src).unwrap();
    ItemForeignMod {
        attrs: item.attrs.iter().map(attribute).collect(),
        abi: item.abi.name.as_ref().map(|name| name.to_token_stream().to_string()),
        items: item
            .items
            .iter()
            .map(|it| match it {
                syn::ForeignItem::Type(t) => BlockItem::Type(
                    verbatim_to_foreign_type(from_stream(t.to_token_stream()))
                        .unwrap()
                        .unwrap(),
                ),
                syn::ForeignItem::Verbatim(ts) => BlockItem::Verbatim(from_stream(ts.clone())),
                other => BlockItem::Other(from_stream(other.to_token_stream())),
            })
            .collect(),
    }
}

fn text(tokens: &[Token]) -> String {
    to_stream(tokens).to_string()
}

#[test]
fn test_foreign_mod_to_foreign_item_types() {
    let item = foreign_mod(
        r#"
        extern "C++" {
            #[namespace = "a"]
            type A;

            #[cxx_name = "D"]
            type B = C;
        }
        "#,
    );
    let result = foreign_mod_to_foreign_item_types(item).unwrap();
    assert_eq!(result.len(), 2);
    assert_eq!(result[0].attrs.len(), 1);
    assert_eq!(result[0].ident, "A");

    assert_eq!(result[1].attrs.len(), 1);
    assert_eq!(result[1].ident, "B");
}

#[test]
fn punct_accepts_only_punctuation() {
    assert!(Punct::new('a', PunctSpacing::Alone).is_none());
    let p = Punct::new(':', PunctSpacing::Joint).unwrap();
    assert_eq!(p.as_char(), ':');
    assert_eq!(p.spacing(), PunctSpacing::Joint);
}

#[test]
fn test_verbatim_to_foreign_mod() {
    let tokens = lex(r#"
        #[namespace = "a"]
        unsafe extern "C++" {
            type A;
        }
    "#);
    let result = verbatim_to_foreign_mod(tokens).unwrap();
    let result = result.unwrap();
    assert_eq!(result.attrs.len(), 1);
    assert_eq!(result.items.len(), 1);
}

#[test]
fn test_foreign_fn_self() {
    let sig = signature("fn foo(self: &qobject::T, a: A) -> B;");
    let result = self_type_from_foreign_fn(sig).unwrap();
    assert_eq!(result.ident, "self");
    assert_eq!(text(&result.typ.tokens), "& qobject :: T");
}

#[test]
fn test_foreign_fn_invalid_self() {
    let cases = [
        // Missing self
        "fn foo(a: A) -> B;",
        // self without type
        "fn foo(self);",
        // self with mut
        "fn foo(mut self: T);",
        // self reference
        "fn foo(&self);",
        // self reference with mut
        "fn foo(&mut self);",
        // attribute on self type
        "fn foo(#[attr] self: T);",
    ];
    for case in cases {
        assert!(self_type_from_foreign_fn(signature(case)).is_err(), "{}", case);
    }
}

#[test]
fn alias_with_attribute_keeps_only_name_and_attribute() {
    let decl = verbatim_to_foreign_type(lex("#[cxx_name = \"D\"] type B = C;"))
        .unwrap()
        .unwrap();
    assert_eq!(decl.ident, "B");
    assert_eq!(decl.attrs.len(), 1);
    assert!(!decl.attrs[0].inner);
    assert_eq!(text(&decl.attrs[0].tokens), "cxx_name = \"D\"");
    assert!(matches!(decl.vis, Visibility::Inherited));
    assert!(!text(&decl.attrs[0].tokens).contains('C'));
}

#[test]
fn alias_keeps_visibility() {
    let decl = verbatim_to_foreign_type(lex("pub(crate) type B<T> = C<T>;"))
        .unwrap()
        .unwrap();
    assert_eq!(decl.ident, "B");
    assert!(decl.attrs.is_empty());
    match decl.vis {
        Visibility::Restricted(inside) => assert_eq!(text(&inside), "crate"),
        _ => panic!("expected a restricted visibility"),
    }
    let decl = verbatim_to_foreign_type(lex("pub type B = C;")).unwrap().unwrap();
    assert!(matches!(decl.vis, Visibility::Public));
}

#[test]
fn verbatim_other_than_type_is_not_applicable() {
    assert!(verbatim_to_foreign_type(lex("#[a] static X: i32 = 1;"))
        .unwrap()
        .is_none());
    assert!(verbatim_to_foreign_type(Vec::new()).unwrap().is_none());
}

#[test]
fn verbatim_without_terminator_fails() {
    let err = verbatim_to_foreign_type(lex("type B = C")).unwrap_err();
    assert_eq!(err.kind, ErrorKind::MissingSemicolon);
    // anchored where the scan started: after `type B`, two tokens are left
    assert_eq!(err.anchor, Anchor::Tokens(2));
}

#[test]
fn semicolon_inside_group_is_no_terminator() {
    let err = verbatim_to_foreign_type(lex("type B = [u8; 4]")).unwrap_err();
    assert_eq!(err.kind, ErrorKind::MissingSemicolon);
    let decl = verbatim_to_foreign_type(lex("type B = [u8; 4];")).unwrap().unwrap();
    assert_eq!(decl.ident, "B");
}

#[test]
fn verbatim_type_errors() {
    let err = verbatim_to_foreign_type(lex("type = C;")).unwrap_err();
    assert_eq!(err.kind, ErrorKind::ExpectedIdent);
    assert_eq!(err.anchor, Anchor::Tokens(3));

    let err = verbatim_to_foreign_type(lex("type B = C; type D;")).unwrap_err();
    assert_eq!(err.kind, ErrorKind::UnexpectedToken);
    assert_eq!(err.anchor, Anchor::Tokens(3));

    let err = verbatim_to_foreign_type(lex("# type B;")).unwrap_err();
    assert_eq!(err.kind, ErrorKind::MalformedAttribute);
    assert_eq!(err.anchor, Anchor::Tokens(4));
}

#[test]
fn other_items_are_dropped_in_order() {
    let item = foreign_mod(
        r#"
        extern "C++" {
            type A;
            fn f(self: &A);
            #[x] type B = C;
            static S: i32;
            #[y] #[z] type D;
        }
        "#,
    );
    assert_eq!(item.items.len(), 5);
    assert!(matches!(item.items[0], BlockItem::Type(_)));
    assert!(matches!(item.items[1], BlockItem::Other(_)));
    assert!(matches!(item.items[2], BlockItem::Verbatim(_)));
    assert!(matches!(item.items[3], BlockItem::Other(_)));
    assert!(matches!(item.items[4], BlockItem::Type(_)));
    let result = foreign_mod_to_foreign_item_types(item).unwrap();
    let names: Vec<&str> = result.iter().map(|t| t.ident.as_str()).collect();
    assert_eq!(names, vec!["A", "B", "D"]);
    let counts: Vec<usize> = result.iter().map(|t| t.attrs.len()).collect();
    assert_eq!(counts, vec![0, 1, 2]);
}

#[test]
fn classifier_surfaces_reparse_error() {
    let item = ItemForeignMod {
        attrs: Vec::new(),
        abi: None,
        items: vec![
            BlockItem::Verbatim(lex("type A = B;")),
            BlockItem::Verbatim(lex("type C = D")),
        ],
    };
    let err = foreign_mod_to_foreign_item_types(item).unwrap_err();
    assert_eq!(err.kind, ErrorKind::MissingSemicolon);
}

#[test]
fn foreign_item_kinds() {
    let plain = foreign_item_to_type(BlockItem::Verbatim(lex("type E = F;")))
        .unwrap()
        .unwrap();
    assert_eq!(plain.ident, "E");
    assert!(foreign_item_to_type(BlockItem::Other(lex("fn g();")))
        .unwrap()
        .is_none());
}

#[test]
fn leading_attributes_come_before_inner_ones() {
    let tokens = lex(r#"
        #[first] #[second]
        unsafe extern "C++" {
            #![inner]
            type A;
            type B = C;
        }
    "#);
    let result = verbatim_to_foreign_mod(tokens).unwrap().unwrap();
    let attrs: Vec<String> = result.attrs.iter().map(|a| text(&a.tokens)).collect();
    assert_eq!(attrs, vec!["first", "second", "inner"]);
    assert!(!result.attrs[0].inner && !result.attrs[1].inner && result.attrs[2].inner);
    assert_eq!(result.abi.as_deref(), Some("\"C++\""));
    assert_eq!(result.items.len(), 2);
}

#[test]
fn not_a_block_is_not_applicable() {
    assert!(verbatim_to_foreign_mod(lex("#[a] extern \"C++\" { type A; }"))
        .unwrap()
        .is_none());
    assert!(verbatim_to_foreign_mod(lex("fn f() {}")).unwrap().is_none());
}

#[test]
fn malformed_block_errors() {
    let err = verbatim_to_foreign_mod(lex("unsafe extern \"C++\" type A;")).unwrap_err();
    assert_eq!(err.kind, ErrorKind::MalformedBlock);
    // anchored at `extern`: five tokens from there to the end
    assert_eq!(err.anchor, Anchor::Tokens(5));
    let err = verbatim_to_foreign_mod(lex("unsafe extern { type A; } x")).unwrap_err();
    assert_eq!(err.kind, ErrorKind::MalformedBlock);
    assert_eq!(err.anchor, Anchor::Tokens(3));
    let err = verbatim_to_foreign_mod(lex("unsafe extern { type A }")).unwrap_err();
    assert_eq!(err.kind, ErrorKind::MalformedBlock);
    let err = verbatim_to_foreign_mod(lex("unsafe extern \"C++\" { fn; }")).unwrap_err();
    assert_eq!(err.kind, ErrorKind::MalformedBlock);
    let err = verbatim_to_foreign_mod(lex("unsafe extern 1 { type A; }")).unwrap_err();
    assert_eq!(err.kind, ErrorKind::MalformedBlock);
    let err = verbatim_to_foreign_mod(lex("unsafe extern \"C\" fn f() {}")).unwrap_err();
    assert_eq!(err.kind, ErrorKind::MalformedBlock);
    let err = verbatim_to_foreign_mod(lex("#[a] # unsafe extern { }")).unwrap_err();
    assert_eq!(err.kind, ErrorKind::MalformedAttribute);
}

#[test]
fn brace_macro_item_is_kept_apart() {
    let tokens = lex(r#"
        #[outer]
        unsafe extern "C++" {
            #![own]
            m! {}
            type A;
        }
    "#);
    let result = verbatim_to_foreign_mod(tokens).unwrap().unwrap();
    let attrs: Vec<String> = result.attrs.iter().map(|a| text(&a.tokens)).collect();
    assert_eq!(attrs, vec!["outer", "own"]);
    assert_eq!(result.items.len(), 2);
    assert!(matches!(result.items[0], BlockItem::Other(_)));
    assert!(matches!(result.items[1], BlockItem::Type(_)));
    let types = foreign_mod_to_foreign_item_types(result).unwrap();
    assert_eq!(types.len(), 1);
    assert_eq!(types[0].ident, "A");
}

#[test]
fn restricted_visibility_follows_syn() {
    let decl = verbatim_to_foreign_type(lex("pub(in crate::a) type B = C;")).unwrap().unwrap();
    match decl.vis {
        Visibility::Restricted(inside) => assert_eq!(text(&inside), "in crate :: a"),
        _ => panic!("expected a restricted visibility"),
    }
    // `pub(x)` restricts nothing: the group is left and `type` is not reached
    assert!(verbatim_to_foreign_type(lex("pub(x) type B;")).unwrap().is_none());
}

#[test]
fn receiver_error_anchors() {
    let err = self_type_from_foreign_fn(signature("fn foo();")).unwrap_err();
    assert_eq!(err.kind, ErrorKind::ExpectedSelfReceiver);
    assert_eq!(err.anchor, Anchor::Signature);

    let err = self_type_from_foreign_fn(signature("fn foo(#[attr] self: T);")).unwrap_err();
    assert_eq!(err.kind, ErrorKind::ReceiverAttributes);
    assert_eq!(err.anchor, Anchor::FirstArg);

    let err = self_type_from_foreign_fn(signature("fn foo(#[attr] other: T);")).unwrap_err();
    assert_eq!(err.kind, ErrorKind::ReceiverAttributes);

    let err = self_type_from_foreign_fn(signature("fn foo(this: &T, a: A);")).unwrap_err();
    assert_eq!(err.kind, ErrorKind::ExpectedSelfReceiver);
    assert_eq!(err.anchor, Anchor::FirstArg);
}

#[test]
fn receiver_type_is_kept_verbatim() {
    let result = self_type_from_foreign_fn(signature("fn foo(self: Pin<&mut T>);")).unwrap();
    assert_eq!(text(&result.typ.tokens), "Pin < & mut T >");
    let result = self_type_from_foreign_fn(signature("fn foo(self: *const T);")).unwrap();
    assert_eq!(text(&result.typ.tokens), "* const T");
}

#[test]
fn receiver_with_subpattern_is_rejected() {
    let sig = Signature {
        ident: "foo".to_string(),
        inputs: vec![FnArg::Typed(PatType {
            attrs: Vec::new(),
            pat: Pat::Ident(PatIdent {
                attrs: Vec::new(),
                by_ref: false,
                mutability: false,
                ident: "self".to_string(),
                subpat: Some(lex("x")),
            }),
            ty: Type { tokens: lex("T") },
        })],
        output: None,
    };
    assert!(self_type_from_foreign_fn(sig).is_err());
}

#[test]
fn rust_obj_default() {
    let _obj: RustObj = RustObj::default();
}

#[test]
fn keyword_is_no_type_name() {
    let err = verbatim_to_foreign_type(lex("type fn = C;")).unwrap_err();
    assert_eq!(err.kind, ErrorKind::ExpectedIdent);
    let err = verbatim_to_foreign_mod(lex("unsafe extern { type self; }")).unwrap_err();
    assert_eq!(err.kind, ErrorKind::MalformedBlock);
    let decl = verbatim_to_foreign_type(lex("type Name;")).unwrap().unwrap();
    assert_eq!(decl.ident, "Name");
}

#[test]
fn attribute_without_path_fails() {
    let err = verbatim_to_foreign_mod(lex("#[] struct S")).unwrap_err();
    assert_eq!(err.kind, ErrorKind::MalformedAttribute);
    assert_eq!(err.anchor, Anchor::Tokens(4));
    let err = verbatim_to_foreign_type(lex("#[1] type A;")).unwrap_err();
    assert_eq!(err.kind, ErrorKind::MalformedAttribute);
    let err = verbatim_to_foreign_type(lex("#[a] #[= x] type A;")).unwrap_err();
    assert_eq!(err.kind, ErrorKind::MalformedAttribute);
    let decl = verbatim_to_foreign_type(lex("#[a::b(c)] type A;")).unwrap().unwrap();
    assert_eq!(text(&decl.attrs[0].tokens), "a :: b (c)");
}

#[test]
fn crate_visibility_is_read() {
    let decl = verbatim_to_foreign_type(lex("crate type A = B;")).unwrap().unwrap();
    assert_eq!(decl.ident, "A");
    assert!(matches!(decl.vis, Visibility::Crate));
    let decl = verbatim_to_foreign_type(lex("pub(self) type A;")).unwrap().unwrap();
    match decl.vis {
        Visibility::Restricted(inside) => assert_eq!(text(&inside), "self"),
        _ => panic!("expected a restricted visibility"),
    }
}

#[test]
fn restricted_visibility_without_path_fails() {
    let err = verbatim_to_foreign_type(lex("pub(in) type A;")).unwrap_err();
    assert_eq!(err.kind, ErrorKind::MalformedVisibility);
    assert_eq!(err.anchor, Anchor::Tokens(5));
}

#[test]
fn block_from_parts_puts_leading_attributes_first() {
    let leading = vec![Attr { inner: false, tokens: lex("first") }];
    let own = vec![Attr { inner: true, tokens: lex("own") }];
    let raw = vec![
        (ItemKind::Other, lex("fn f();")),
        (ItemKind::Type, lex("#[x] type A;")),
        (ItemKind::Verbatim, lex("type B = C;")),
    ];
    let m = foreign_mod_from_parts(leading, own, Some("\"C++\"".to_string()), raw).unwrap();
    let attrs: Vec<String> = m.attrs.iter().map(|a| text(&a.tokens)).collect();
    assert_eq!(attrs, vec!["first", "own"]);
    assert_eq!(m.abi.as_deref(), Some("\"C++\""));
    assert!(matches!(m.items[0], BlockItem::Other(_)));
    match &m.items[1] {
        BlockItem::Type(t) => {
            assert_eq!(t.ident, "A");
            assert_eq!(t.attrs.len(), 1);
        }
        _ => panic!("expected a type item"),
    }
    assert!(matches!(m.items[2], BlockItem::Verbatim(_)));
    // a type item that does not read back as a declaration
    let raw = vec![(ItemKind::Type, lex("type fn;"))];
    assert!(foreign_mod_from_parts(Vec::new(), Vec::new(), None, raw).is_none());
}
