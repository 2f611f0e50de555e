use venial::{
    parse_declaration, emit_declaration, Declaration, Delim, ParseError, StructFields, Token,
};

fn id(s: &str) -> Token {
    Token::Ident(s.to_string())
}

fn pc(c: char) -> Token {
    Token::Punct(c)
}

fn lit(s: &str) -> Token {
    Token::Literal(s.to_string())
}

fn paren(v: Vec<Token>) -> Token {
    Token::Group(Delim::Paren, v)
}

fn bracket(v: Vec<Token>) -> Token {
    Token::Group(Delim::Bracket, v)
}

fn brace(v: Vec<Token>) -> Token {
    Token::Group(Delim::Brace, v)
}

fn checked(toks: Vec<Token>) -> Declaration {
    let decl = parse_declaration(&toks).unwrap();
    assert_eq!(emit_declaration(&decl), toks);
    decl
}

fn named_body() -> Token {
    brace(vec![
        id("a"), pc(':'), id("A"), pc(','),
        id("b"), pc(':'), id("B"), pc(','),
    ])
}

fn enum_body() -> Token {
    brace(vec![
        id("A"), pc(','),
        id("B"), paren(vec![id("Foo"), pc(','), id("Bar")]), pc(','),
        id("C"), brace(vec![id("foo"), pc(':'), id("Foo"), pc(','), id("bar"), pc(':'), id("Bar")]), pc(','),
    ])
}

#[test]
fn parse_unit_struct() {
    let d = checked(vec![id("struct"), id("Hello"), pc(';')]);
    match d {
        Declaration::Struct(s) => {
            assert_eq!(s.name, "Hello");
            assert!(matches!(s.fields, StructFields::Unit));
        }
        _ => panic!("expected a struct"),
    }
}

#[test]
fn parse_tuple_struct() {
    let d = checked(vec![id("struct"), id("Hello"), paren(vec![id("A"), pc(','), id("B")]), pc(';')]);
    match d {
        Declaration::Struct(s) => match s.fields {
            StructFields::Tuple(fs) => {
                assert_eq!(fs.len(), 2);
                assert_eq!(fs[0].ty.tokens, vec![id("A")]);
                assert_eq!(fs[1].ty.tokens, vec![id("B")]);
            }
            _ => panic!("expected tuple fields"),
        },
        _ => panic!("expected a struct"),
    }
}

#[test]
fn parse_normal_struct() {
    let d = checked(vec![id("struct"), id("Hello"), named_body()]);
    match d {
        Declaration::Struct(s) => match s.fields {
            StructFields::Named(fs) => {
                assert_eq!(fs.len(), 2);
                assert_eq!(fs[0].name, "a");
                assert_eq!(fs[1].name, "b");
            }
            _ => panic!("expected named fields"),
        },
        _ => panic!("expected a struct"),
    }
}

#[test]
fn parse_enum() {
    let d = checked(vec![id("enum"), id("Hello"), enum_body()]);
    match d {
        Declaration::Enum(e) => {
            assert_eq!(e.variants.len(), 3);
            assert!(matches!(e.variants[0].contents, StructFields::Unit));
            assert!(matches!(e.variants[1].contents, StructFields::Tuple(_)));
            assert!(matches!(e.variants[2].contents, StructFields::Named(_)));
        }
        _ => panic!("expected an enum"),
    }
}

#[test]
fn parse_union() {
    let d = checked(vec![id("union"), id("Hello"), named_body()]);
    assert!(matches!(d, Declaration::Union(_)));
}

#[test]
fn parse_empty_tuple() {
    let d = checked(vec![id("struct"), id("Hello"), paren(vec![]), pc(';')]);
    match d {
        Declaration::Struct(s) => assert!(matches!(s.fields, StructFields::Tuple(fs) if fs.is_empty())),
        _ => panic!("expected a struct"),
    }
}

#[test]
fn parse_empty_struct() {
    let d = checked(vec![id("struct"), id("Hello"), brace(vec![])]);
    match d {
        Declaration::Struct(s) => assert!(matches!(s.fields, StructFields::Named(fs) if fs.is_empty())),
        _ => panic!("expected a struct"),
    }
}

#[test]
fn parse_empty_enum() {
    let d = checked(vec![id("enum"), id("Hello"), brace(vec![])]);
    match d {
        Declaration::Enum(e) => assert!(e.variants.is_empty()),
        _ => panic!("expected an enum"),
    }
}

#[test]
fn parse_unit_struct_vis() {
    let d1 = checked(vec![id("pub"), id("struct"), id("Hello"), pc(';')]);
    let d2 = checked(vec![id("pub"), paren(vec![id("crate")]), id("struct"), id("Hello"), pc(';')]);
    let d3 = checked(vec![id("crate"), id("struct"), id("Hello"), pc(';')]);
    assert!(matches!(d1, Declaration::Struct(_)));
    assert!(matches!(d2, Declaration::Struct(_)));
    assert!(matches!(d3, Declaration::Struct(_)));
}

#[test]
fn parse_tuple_struct_vis() {
    let fields = || paren(vec![id("A"), pc(','), id("B")]);
    let d1 = checked(vec![id("pub"), id("struct"), id("Hello"), fields(), pc(';')]);
    let d2 = checked(vec![id("pub"), paren(vec![id("crate")]), id("struct"), id("Hello"), fields(), pc(';')]);
    let d3 = checked(vec![id("crate"), id("struct"), id("Hello"), fields(), pc(';')]);
    assert!(matches!(d1, Declaration::Struct(_)));
    assert!(matches!(d2, Declaration::Struct(_)));
    assert!(matches!(d3, Declaration::Struct(_)));
}

#[test]
fn parse_normal_struct_vis() {
    let d1 = checked(vec![id("pub"), id("struct"), id("Hello"), named_body()]);
    let d2 = checked(vec![id("pub"), paren(vec![id("crate")]), id("struct"), id("Hello"), named_body()]);
    let d3 = checked(vec![id("crate"), id("struct"), id("Hello"), named_body()]);
    assert!(matches!(d1, Declaration::Struct(_)));
    assert!(matches!(d2, Declaration::Struct(_)));
    assert!(matches!(d3, Declaration::Struct(_)));
}

#[test]
fn parse_enum_vis() {
    let d1 = checked(vec![id("pub"), id("enum"), id("Hello"), enum_body()]);
    let d2 = checked(vec![id("pub"), paren(vec![id("crate")]), id("enum"), id("Hello"), enum_body()]);
    let d3 = checked(vec![id("crate"), id("enum"), id("Hello"), enum_body()]);
    assert!(matches!(d1, Declaration::Enum(_)));
    assert!(matches!(d2, Declaration::Enum(_)));
    assert!(matches!(d3, Declaration::Enum(_)));
}

#[test]
fn parse_struct_fields_vis() {
    let d = checked(vec![
        id("pub"), id("struct"), id("Hello"),
        brace(vec![
            id("pub"), id("a"), pc(':'), id("A"), pc(','),
            id("pub"), paren(vec![id("super")]), id("b"), pc(':'), id("B"), pc(','),
            id("crate"), id("c"), pc(':'), id("C"), pc(','),
            id("d"), pc(':'), id("D"), pc(','),
        ]),
    ]);
    assert!(matches!(d, Declaration::Struct(_)));
}

#[test]
fn parse_tuple_fields_vis() {
    let d = checked(vec![
        id("pub"), id("struct"), id("Hello"),
        paren(vec![
            id("pub"), id("A"), pc(','),
            id("pub"), paren(vec![id("super")]), id("B"), pc(','),
            id("crate"), id("C"), pc(','),
            id("D"),
        ]),
        pc(';'),
    ]);
    assert!(matches!(d, Declaration::Struct(_)));
}

#[test]
fn parse_unit_struct_attributes() {
    let d = checked(vec![pc('#'), bracket(vec![id("hello")]), id("pub"), id("struct"), id("Hello"), pc(';')]);
    assert!(matches!(d, Declaration::Struct(_)));
}

#[test]
fn parse_tuple_struct_attributes() {
    let d = checked(vec![
        pc('#'), bracket(vec![id("hello")]),
        id("pub"), id("struct"), id("Hello"),
        paren(vec![id("A"), pc(','), id("B")]), pc(';'),
    ]);
    assert!(matches!(d, Declaration::Struct(_)));
}

#[test]
fn parse_normal_struct_attributes() {
    let d = checked(vec![
        pc('#'), bracket(vec![id("hello")]),
        id("pub"), id("struct"), id("Hello"), named_body(),
    ]);
    assert!(matches!(d, Declaration::Struct(_)));
}

#[test]
fn parse_enum_attributes() {
    let d = checked(vec![
        pc('#'), bracket(vec![id("hello")]),
        id("pub"), id("enum"), id("Hello"), enum_body(),
    ]);
    assert!(matches!(d, Declaration::Enum(_)));
}

#[test]
fn parse_struct_fields_attributes() {
    let d = checked(vec![
        id("pub"), id("struct"), id("Hello"),
        brace(vec![
            pc('#'), bracket(vec![id("hello")]),
            id("a"), pc(':'), id("A"), pc(','),
            id("b"), pc(':'), id("B"), pc(','),
            pc('#'), bracket(vec![id("hello")]),
            pc('#'), bracket(vec![id("hello")]),
            pc('#'), bracket(vec![id("hello")]),
            id("c"), pc(':'), id("C"), pc(','),
            id("d"), pc(':'), id("D"), pc(','),
        ]),
    ]);
    assert!(matches!(d, Declaration::Struct(_)));
}

#[test]
fn parse_tuple_fields_attributes() {
    let d = checked(vec![
        id("pub"), id("struct"), id("Hello"),
        paren(vec![
            pc('#'), bracket(vec![id("hello")]), id("A"), pc(','),
            id("B"), pc(','),
            pc('#'), bracket(vec![id("hello")]),
            pc('#'), bracket(vec![id("hello")]),
            pc('#'), bracket(vec![id("hello")]),
            id("C"), pc(','),
            id("D"), pc(','),
        ]),
        pc(';'),
    ]);
    assert!(matches!(d, Declaration::Struct(_)));
}

fn where_tokens_semi() -> Vec<Token> {
    vec![
        id("where"), id("A"), pc(':'), id("B"), pc(','),
        id("C"), pc('<'), id("D"), pc('>'), pc(':'), id("E"), pc('<'), id("F"), pc('>'), pc(';'),
    ]
}

fn where_tokens_comma() -> Vec<Token> {
    vec![
        id("where"), id("A"), pc(':'), id("B"), pc(','),
        id("C"), pc('<'), id("D"), pc('>'), pc(':'), id("E"), pc('<'), id("F"), pc('>'), pc(','),
    ]
}

#[test]
fn parse_unit_struct_where_clause() {
    let mut toks = vec![id("struct"), id("Hello")];
    toks.extend(where_tokens_semi());
    let d = checked(toks);
    match d {
        Declaration::Struct(s) => assert!(s.where_clause.is_some()),
        _ => panic!("expected a struct"),
    }
}

#[test]
fn parse_tuple_struct_where_clause() {
    let mut toks = vec![id("struct"), id("Hello"), paren(vec![id("A"), pc(','), id("B")])];
    toks.extend(where_tokens_semi());
    let d = checked(toks);
    match d {
        Declaration::Struct(s) => assert!(s.where_clause.is_some()),
        _ => panic!("expected a struct"),
    }
}

#[test]
fn parse_normal_struct_where_clause() {
    let mut toks = vec![id("struct"), id("Hello")];
    toks.extend(where_tokens_comma());
    toks.push(named_body());
    let d = checked(toks);
    match d {
        Declaration::Struct(s) => assert!(s.where_clause.is_some()),
        _ => panic!("expected a struct"),
    }
}

#[test]
fn parse_enum_where_clause() {
    let mut toks = vec![id("enum"), id("Hello")];
    toks.extend(where_tokens_comma());
    toks.push(enum_body());
    let d = checked(toks);
    match d {
        Declaration::Enum(e) => assert!(e.where_clause.is_some()),
        _ => panic!("expected an enum"),
    }
}

#[test]
fn parse_unit_struct_empty_where_clause() {
    let d = checked(vec![id("struct"), id("Hello"), id("where"), pc(';')]);
    match d {
        Declaration::Struct(s) => assert!(s.where_clause.unwrap().tokens.is_empty()),
        _ => panic!("expected a struct"),
    }
}

#[test]
fn parse_tuple_struct_empty_where_clause() {
    let d = checked(vec![
        id("struct"), id("Hello"), paren(vec![id("A"), pc(','), id("B")]), id("where"), pc(';'),
    ]);
    match d {
        Declaration::Struct(s) => assert!(s.where_clause.unwrap().tokens.is_empty()),
        _ => panic!("expected a struct"),
    }
}

#[test]
fn parse_normal_struct_empty_where_clause() {
    let d = checked(vec![id("struct"), id("Hello"), id("where"), named_body()]);
    match d {
        Declaration::Struct(s) => assert!(s.where_clause.unwrap().tokens.is_empty()),
        _ => panic!("expected a struct"),
    }
}

#[test]
fn parse_enum_empty_where_clause() {
    let d = checked(vec![id("enum"), id("Hello"), id("where"), enum_body()]);
    match d {
        Declaration::Enum(e) => assert!(e.where_clause.unwrap().tokens.is_empty()),
        _ => panic!("expected an enum"),
    }
}

fn generic_params() -> Vec<Token> {
    vec![
        pc('<'), id("X"), pc(','), id("Y"), pc(':'), id("Z"), pc('<'), id("A"), pc('>'),
        pc(','), id("Z"), pc('>'),
    ]
}

#[test]
fn parse_unit_struct_generic_params() {
    let mut toks = vec![id("struct"), id("Hello")];
    toks.extend(generic_params());
    toks.push(pc(';'));
    let d = checked(toks);
    match d {
        Declaration::Struct(s) => {
            let g = s.generic_params.unwrap();
            assert_eq!(g.params.len(), 3);
            assert_eq!(g.params[0].name, "X");
            assert_eq!(g.params[1].name, "Y");
            assert_eq!(
                g.params[1].bound.as_ref().unwrap(),
                &vec![id("Z"), pc('<'), id("A"), pc('>')]
            );
            assert_eq!(g.params[2].name, "Z");
        }
        _ => panic!("expected a struct"),
    }
}

#[test]
fn parse_tuple_struct_generic_params() {
    let mut toks = vec![id("struct"), id("Hello")];
    toks.extend(generic_params());
    toks.push(paren(vec![id("A"), pc(','), id("B")]));
    toks.push(pc(';'));
    let d = checked(toks);
    match d {
        Declaration::Struct(s) => {
            assert_eq!(s.generic_params.unwrap().params.len(), 3);
            assert!(matches!(s.fields, StructFields::Tuple(fs) if fs.len() == 2));
        }
        _ => panic!("expected a struct"),
    }
}

#[test]
fn parse_normal_struct_generic_params() {
    let mut toks = vec![id("struct"), id("Hello")];
    toks.extend(generic_params());
    toks.push(brace(vec![
        id("a"), pc(':'), id("A"), pc(','),
        id("b"), pc(':'), id("B"), pc('<'), id("X"), pc(','), id("Y"), pc(','), id("Z"), pc('>'), pc(','),
    ]));
    let d = checked(toks);
    assert!(matches!(d, Declaration::Struct(_)));
}

#[test]
fn parse_enum_generic_params() {
    let mut toks = vec![id("enum"), id("Hello")];
    toks.extend(generic_params());
    toks.push(brace(vec![
        id("A"), pc(','),
        id("B"), paren(vec![
            id("Foo"), pc(','), id("Bar"), pc('<'), id("X"), pc(','), id("Y"), pc(','), id("Z"), pc('>'),
        ]), pc(','),
        id("C"), brace(vec![
            id("foo"), pc(':'), id("Foo"), pc('<'), id("X"), pc(','), id("Y"), pc(','), id("Z"), pc('>'),
            pc(','), id("bar"), pc(':'), id("Bar"),
        ]), pc(','),
    ]));
    let d = checked(toks);
    assert!(matches!(d, Declaration::Enum(_)));
}

#[test]
fn parse_enum_empty_generic_params() {
    let toks = vec![
        id("enum"), id("Hello"), pc('<'), pc('>'),
        id("where"), id("A"), pc('<'), pc('>'), pc(':'), id("B"), pc('<'), pc('>'), pc(','),
        brace(vec![
            id("A"), pc(','),
            id("B"), paren(vec![id("Foo"), pc(','), id("Bar"), pc('<'), pc('>')]), pc(','),
            id("C"), brace(vec![id("foo"), pc(':'), id("Foo"), pc('<'), pc('>'), pc(','), id("bar"), pc(':'), id("Bar")]), pc(','),
        ]),
    ];
    let d = checked(toks);
    match d {
        Declaration::Enum(e) => {
            assert!(e.generic_params.unwrap().params.is_empty());
        }
        _ => panic!("expected an enum"),
    }
}

#[test]
fn parse_enum_discriminant() {
    let d = checked(vec![
        id("enum"), id("Hello"),
        brace(vec![
            id("A"), pc('='), lit("1"), pc(','),
            id("B"), paren(vec![id("Foo"), pc(','), id("Bar")]), pc('='),
            id("call"), pc(':'), pc(':'), id("some"), pc(':'), pc(':'), id("function"),
            paren(vec![lit("1"), pc(','), lit("2"), pc(','), brace(vec![lit("3")])]), pc(','),
            id("C"), brace(vec![id("foo"), pc(':'), id("Foo"), pc(','), id("bar"), pc(':'), id("Bar")]), pc('='),
            id("A"), pc('<'), id("B"), pc('>'), paren(vec![id("c")]), pc('+'), brace(vec![id("D")]), pc(','),
        ]),
    ]);
    match d {
        Declaration::Enum(e) => {
            assert_eq!(e.variants[0].discriminant.as_ref().unwrap(), &vec![lit("1")]);
            assert!(e.variants[1].discriminant.is_some());
            assert!(e.variants[2].discriminant.is_some());
        }
        _ => panic!("expected an enum"),
    }
}

#[test]
fn parse_const_generics() {
    let d = checked(vec![
        id("struct"), id("Hello"),
        paren(vec![
            id("Array"), pc('<'), id("A"), pc(','),
            brace(vec![lit("123"), pc('+'), paren(vec![lit("1"), pc(','), lit("2"), pc(','), lit("3")])]),
            pc('>'), pc(','),
            id("B"), pc('<'), brace(vec![lit("1")]), pc(','), brace(vec![lit("2")]), pc('>'),
        ]),
        pc(';'),
    ]);
    assert!(matches!(d, Declaration::Struct(_)));
}

#[test]
fn parse_fn_traits() {
    let d = checked(vec![
        id("struct"), id("Hello"),
        paren(vec![
            id("fn"), paren(vec![id("A"), pc(','), id("B")]), pc('-'), pc('>'), id("C"), pc(','),
            id("A"), pc('<'), id("FnOnce"),
            paren(vec![id("A"), pc(','), id("B"), pc(','), id("C"), pc('<'), id("D"), pc('>')]),
            pc('-'), pc('>'), id("E"), pc(','),
        ]),
        pc(';'),
    ]);
    assert!(matches!(d, Declaration::Struct(_)));
}

#[test]
fn parse_multiple_brackets() {
    let d = checked(vec![
        id("struct"), id("Hello"),
        paren(vec![
            id("A"), pc('<'), id("B"), pc('<'), id("C"), pc('>'), pc('>'), pc(','),
            id("A"), pc('<'), id("B"), pc('<'), id("C"), pc(','), id("D"), pc('>'), pc('>'), pc(','),
            pc('<'), pc('<'), id("D"), id("as"), id("Trait"), pc('>'), pc(':'), pc(':'), id("X"),
            id("as"), id("Trait"), pc('>'), pc(':'), pc(':'), id("Y"), pc(','),
        ]),
        pc(';'),
    ]);
    assert!(matches!(d, Declaration::Struct(_)));
}

#[test]
fn parse_closure_as_discriminant() {
    let toks = vec![
        id("enum"), id("Hello"),
        brace(vec![id("A"), pc('='), pc('|'), id("b"), pc(','), id("c"), pc('|'), id("b"), pc('+'), id("c"), pc(',')]),
        pc(';'),
    ];
    assert!(matches!(parse_declaration(&toks), Err(ParseError::UnrecognizedVariantShape)));
}

#[test]
fn parse_macro_in_where_clause() {
    let toks = vec![
        id("enum"), id("A"),
        id("where"), id("b"), pc(':'), id("c"), pc('!'), brace(vec![pc(':')]), pc(':'), pc(','),
        brace(vec![]),
    ];
    assert!(matches!(parse_declaration(&toks), Err(ParseError::ExpectedIdentifier)));
}

#[test]
fn parse_fn() {
    let d = checked(vec![
        id("fn"), id("hello"),
        paren(vec![id("a"), pc(':'), id("i32"), pc(','), id("b"), pc(':'), id("f32")]),
        pc('-'), pc('>'), id("String"), brace(vec![]),
    ]);
    match d {
        Declaration::Function(f) => {
            assert_eq!(f.name, "hello");
            assert_eq!(f.params.len(), 2);
            assert_eq!(f.params[0].name, "a");
            assert_eq!(f.params[0].ty.tokens, vec![id("i32")]);
            assert_eq!(f.params[1].name, "b");
            assert_eq!(f.params[1].ty.tokens, vec![id("f32")]);
            assert_eq!(f.return_ty.unwrap().tokens, vec![id("String")]);
            assert_eq!(f.body.unwrap(), vec![]);
        }
        _ => panic!("expected a function"),
    }
}

#[test]
fn parse_empty_fn() {
    let d = checked(vec![id("fn"), id("test_me"), paren(vec![]), brace(vec![])]);
    match d {
        Declaration::Function(f) => {
            assert_eq!(f.name, "test_me");
            assert!(f.params.is_empty());
        }
        _ => panic!("expected a function"),
    }
}

#[test]
fn parse_generic_fn() {
    let d = checked(vec![
        id("fn"), id("generic"), pc('<'), id("T"), pc(','), id("B"), pc('>'),
        paren(vec![id("a"), pc(':'), id("T")]),
        pc('-'), pc('>'), id("B"), brace(vec![]),
    ]);
    assert!(matches!(d, Declaration::Function(_)));
}

#[test]
fn parse_where_fn() {
    let d = checked(vec![
        id("fn"), id("where_clause"), pc('<'), id("T"), pc('>'), paren(vec![]),
        pc('-'), pc('>'), id("T"),
        id("where"), id("T"), pc(':'), id("Debug"),
        brace(vec![]),
    ]);
    match d {
        Declaration::Function(f) => assert!(f.where_clause.is_some()),
        _ => panic!("expected a function"),
    }
    let d2 = checked(vec![
        id("fn"), id("where_clause"), pc('<'), id("T"), pc('>'), paren(vec![]),
        id("where"), id("T"), pc(':'), id("Debug"),
        brace(vec![]),
    ]);
    match d2 {
        Declaration::Function(f) => assert!(f.where_clause.is_some()),
        _ => panic!("expected a function"),
    }
}

#[test]
fn parse_attr_fn() {
    let d = checked(vec![
        pc('#'), bracket(vec![id("my_attr")]),
        id("fn"), id("my_attr_fn"), paren(vec![id("a"), pc(':'), id("i32")]), brace(vec![]),
    ]);
    match d {
        Declaration::Function(f) => assert_eq!(f.attributes.len(), 1),
        _ => panic!("expected a function"),
    }
}

#[test]
fn parse_visi_fn() {
    let d = checked(vec![
        id("pub"), id("fn"), id("visibility"), paren(vec![id("b"), pc(':'), id("f32")]), brace(vec![]),
    ]);
    match d {
        Declaration::Function(f) => assert!(f.vis_marker.is_some()),
        _ => panic!("expected a function"),
    }
}

#[test]
fn parse_default_fn() {
    let d = checked(vec![
        id("pub"), id("default"), id("fn"), id("default_fn"),
        paren(vec![id("b"), pc(':'), id("f32")]), brace(vec![]),
    ]);
    match d {
        Declaration::Function(f) => assert!(f.qualifiers.is_default),
        _ => panic!("expected a function"),
    }
}

#[test]
fn parse_const_fn() {
    let d = checked(vec![
        id("pub"), id("const"), id("fn"), id("const_fn"),
        paren(vec![id("b"), pc(':'), id("f32")]), brace(vec![]),
    ]);
    match d {
        Declaration::Function(f) => assert!(f.qualifiers.is_const),
        _ => panic!("expected a function"),
    }
}

#[test]
fn parse_async_fn() {
    let d = checked(vec![
        id("pub"), id("async"), id("fn"), id("async_fn"),
        paren(vec![id("b"), pc(':'), id("f32")]), brace(vec![]),
    ]);
    match d {
        Declaration::Function(f) => assert!(f.qualifiers.is_async),
        _ => panic!("expected a function"),
    }
}

#[test]
fn parse_unsafe_fn() {
    let d = checked(vec![
        id("pub"), id("unsafe"), id("fn"), id("unsafe_fn"),
        paren(vec![id("b"), pc(':'), id("f32")]), brace(vec![]),
    ]);
    match d {
        Declaration::Function(f) => assert!(f.qualifiers.is_unsafe),
        _ => panic!("expected a function"),
    }
}

#[test]
fn parse_extern_abi_fn() {
    let d = checked(vec![
        id("pub"), id("extern"), lit("\"C\""), id("fn"), id("extern_fn"),
        paren(vec![id("b"), pc(':'), id("f32")]), brace(vec![]),
    ]);
    match d {
        Declaration::Function(f) => {
            assert!(f.qualifiers.is_extern);
            assert_eq!(f.qualifiers.extern_abi.unwrap(), "\"C\"");
        }
        _ => panic!("expected a function"),
    }
}

#[test]
fn parse_extern_fn() {
    let d = checked(vec![
        id("pub"), id("extern"), id("fn"), id("extern_fn"),
        paren(vec![id("b"), pc(':'), id("f32")]), brace(vec![]),
    ]);
    match d {
        Declaration::Function(f) => {
            assert!(f.qualifiers.is_extern);
            assert!(f.qualifiers.extern_abi.is_none());
        }
        _ => panic!("expected a function"),
    }
}

#[test]
fn parse_all_kw_fn() {
    let d = checked(vec![
        id("pub"), id("default"), id("const"), id("async"), id("unsafe"),
        id("extern"), lit("\"C\""), id("fn"), id("all_kw"),
        paren(vec![id("b"), pc(':'), id("f32")]), brace(vec![]),
    ]);
    match d {
        Declaration::Function(f) => {
            assert!(f.qualifiers.is_default);
            assert!(f.qualifiers.is_const);
            assert!(f.qualifiers.is_async);
            assert!(f.qualifiers.is_unsafe);
            assert!(f.qualifiers.is_extern);
        }
        _ => panic!("expected a function"),
    }
}

#[test]
fn parse_param_attr_fn() {
    let d = checked(vec![
        id("pub"), id("async"), id("fn"), id("visibility"),
        paren(vec![pc('#'), bracket(vec![id("my_attr")]), id("b"), pc(':'), id("f32")]),
        brace(vec![]),
    ]);
    match d {
        Declaration::Function(f) => assert_eq!(f.params[0].attributes.len(), 1),
        _ => panic!("expected a function"),
    }
}

#[test]
fn parse_fn_body() {
    let d = checked(vec![
        id("fn"), id("hello_world"),
        paren(vec![id("a"), pc(':'), id("i32"), pc(','), id("b"), pc(':'), id("f32")]),
        pc('-'), pc('>'), id("String"),
        brace(vec![id("println"), pc('!'), paren(vec![lit("\"hello world\"")])]),
    ]);
    match d {
        Declaration::Function(f) => assert!(f.body.unwrap().len() == 3),
        _ => panic!("expected a function"),
    }
}

#[test]
fn parse_fn_prototype() {
    let d = checked(vec![
        id("fn"), id("prototype"),
        paren(vec![id("a"), pc(':'), id("i32"), pc(','), id("b"), pc(':'), id("f32")]),
        pc('-'), pc('>'), id("String"), pc(';'),
    ]);
    match d {
        Declaration::Function(f) => assert!(f.body.is_none()),
        _ => panic!("expected a function"),
    }
}

#[test]
fn parse_fn_pattern_arg() {
    let toks = vec![
        id("fn"), id("foobar"),
        paren(vec![
            paren(vec![id("a"), pc(','), id("b")]), pc(':'),
            paren(vec![id("i32"), pc(','), id("i32")]),
        ]),
        brace(vec![]),
    ];
    assert!(matches!(parse_declaration(&toks), Err(ParseError::UnsupportedParameterPattern)));
}

#[test]
fn parse_fn_c_variadics() {
    let toks = vec![
        id("fn"), id("foobar"),
        paren(vec![id("a"), pc(':'), id("i32"), pc(','), pc('.'), pc('.'), pc('.')]),
        brace(vec![]),
    ];
    assert!(matches!(parse_declaration(&toks), Err(ParseError::UnsupportedParameterPattern)));
}

#[test]
fn parse_fn_no_pattern() {
    let toks = vec![id("fn"), id("foobar"), paren(vec![id("i32")]), brace(vec![])];
    assert!(matches!(parse_declaration(&toks), Err(ParseError::UnexpectedEof)));
}

#[test]
fn parse_fn_self_param() {
    let cases = vec![
        vec![id("fn"), id("foobar"), paren(vec![id("self")]), brace(vec![])],
        vec![id("fn"), id("foobar"), paren(vec![pc('&'), id("self")]), brace(vec![])],
        vec![id("fn"), id("foobar"), paren(vec![id("mut"), id("self")]), brace(vec![])],
        vec![id("fn"), id("foobar"), paren(vec![pc('&'), id("mut"), id("self")]), brace(vec![])],
    ];
    for toks in cases {
        assert!(matches!(parse_declaration(&toks), Err(ParseError::UnsupportedParameterPattern)));
    }
}

#[test]
fn reject_unknown_declaration() {
    let toks = vec![id("impl"), id("Foo"), brace(vec![])];
    assert!(matches!(parse_declaration(&toks), Err(ParseError::UnrecognizedDeclaration)));
}

#[test]
fn reject_leading_punct() {
    let toks = vec![pc(';')];
    assert!(matches!(parse_declaration(&toks), Err(ParseError::UnrecognizedDeclaration)));
}

#[test]
fn reject_empty_input() {
    assert!(matches!(parse_declaration(&vec![]), Err(ParseError::UnexpectedEof)));
}

#[test]
fn reject_malformed_attribute() {
    let toks = vec![pc('#'), id("hello"), id("struct"), id("A"), pc(';')];
    assert!(matches!(parse_declaration(&toks), Err(ParseError::MalformedAttribute)));
}

#[test]
fn reject_missing_colon_in_named_field() {
    let toks = vec![id("struct"), id("A"), brace(vec![id("a"), id("b")])];
    assert!(matches!(parse_declaration(&toks), Err(ParseError::ExpectedColon)));
}

#[test]
fn reject_unbalanced_tuple_field() {
    let toks = vec![id("struct"), id("Hello"), paren(vec![id("A"), pc('>'), pc(','), id("B")]), pc(';')];
    assert!(matches!(parse_declaration(&toks), Err(ParseError::UnbalancedBrackets)));
}

#[test]
fn eof_after_struct_keyword() {
    let toks = vec![id("struct")];
    assert!(matches!(parse_declaration(&toks), Err(ParseError::UnexpectedEof)));
}
