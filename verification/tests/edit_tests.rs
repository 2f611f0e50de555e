use venial::{
    parse_declaration, emit_declaration, Declaration, Delim, GenericParam, Struct, Token,
    WhereClauseItem,
};

fn id(s: &str) -> Token {
    Token::Ident(s.to_string())
}

fn pc(c: char) -> Token {
    Token::Punct(c)
}

fn brace(v: Vec<Token>) -> Token {
    Token::Group(Delim::Brace, v)
}

fn parse_struct(toks: Vec<Token>) -> Struct {
    match parse_declaration(&toks).unwrap() {
        Declaration::Struct(s) => s,
        _ => panic!("not a struct"),
    }
}

fn named_body() -> Token {
    brace(vec![
        id("a"), pc(':'), id("A"), pc(','),
        id("b"), pc(':'), id("B"), pc(','),
    ])
}

fn emitted(s: Struct) -> Vec<Token> {
    emit_declaration(&Declaration::Struct(s))
}

#[test]
fn add_lifetime() {
    let basic = parse_struct(vec![id("struct"), id("Hello"), named_body()]);
    let with_args = parse_struct(vec![
        id("struct"), id("Hello"), pc('<'), id("A"), pc(','), id("B"), pc('>'), named_body(),
    ]);
    let with_lifetime = parse_struct(vec![
        id("struct"), id("Hello"), pc('<'), pc('\''), id("a"), pc(','), id("A"), pc(','),
        id("B"), pc('>'),
        brace(vec![
            id("a"), pc(':'), pc('&'), pc('\''), id("a"), id("A"), pc(','),
            id("b"), pc(':'), id("B"), pc(','),
        ]),
    ]);

    let basic = basic.with_param(GenericParam::lifetime("b"));
    let with_args = with_args.with_param(GenericParam::lifetime("b"));
    let with_lifetime = with_lifetime.with_param(GenericParam::lifetime("b"));

    assert_eq!(
        emitted(basic),
        vec![id("struct"), id("Hello"), pc('<'), pc('\''), id("b"), pc('>'), named_body()]
    );
    assert_eq!(
        emitted(with_args),
        vec![
            id("struct"), id("Hello"), pc('<'), id("A"), pc(','), id("B"), pc(','),
            pc('\''), id("b"), pc('>'), named_body(),
        ]
    );
    assert_eq!(
        emitted(with_lifetime),
        vec![
            id("struct"), id("Hello"), pc('<'), pc('\''), id("a"), pc(','), id("A"), pc(','),
            id("B"), pc(','), pc('\''), id("b"), pc('>'),
            brace(vec![
                id("a"), pc(':'), pc('&'), pc('\''), id("a"), id("A"), pc(','),
                id("b"), pc(':'), id("B"), pc(','),
            ]),
        ]
    );
}

#[test]
fn add_bounded_lifetime() {
    let basic = parse_struct(vec![id("struct"), id("Hello"), named_body()]);
    let basic = basic.with_param(GenericParam::bounded_lifetime(
        "b",
        vec![id("c"), pc('+'), id("d")],
    ));
    assert_eq!(
        emitted(basic),
        vec![
            id("struct"), id("Hello"),
            pc('<'), pc('\''), id("b"), pc(':'), id("c"), pc('+'), id("d"), pc('>'),
            named_body(),
        ]
    );
}

#[test]
fn add_ty_param() {
    let basic = parse_struct(vec![id("struct"), id("Hello"), named_body()]);
    let with_args = parse_struct(vec![
        id("struct"), id("Hello"), pc('<'), id("A"), pc(','), id("B"), pc('>'), named_body(),
    ]);

    let basic = basic.with_param(GenericParam::ty("T"));
    let with_args = with_args.with_param(GenericParam::ty("T"));

    assert_eq!(
        emitted(basic),
        vec![id("struct"), id("Hello"), pc('<'), id("T"), pc('>'), named_body()]
    );
    assert_eq!(
        emitted(with_args),
        vec![
            id("struct"), id("Hello"),
            pc('<'), id("A"), pc(','), id("B"), pc(','), id("T"), pc('>'),
            named_body(),
        ]
    );
}

#[test]
fn add_bounded_ty_param() {
    let basic = parse_struct(vec![id("struct"), id("Hello"), named_body()]);
    let basic = basic.with_param(GenericParam::bounded_ty("T", vec![id("Clone")]));
    assert_eq!(
        emitted(basic),
        vec![
            id("struct"), id("Hello"),
            pc('<'), id("T"), pc(':'), id("Clone"), pc('>'),
            named_body(),
        ]
    );
}

#[test]
fn add_const_param() {
    let basic = parse_struct(vec![id("struct"), id("Hello"), named_body()]);
    let with_args = parse_struct(vec![
        id("struct"), id("Hello"), pc('<'), id("A"), pc(','), id("B"), pc('>'), named_body(),
    ]);

    let basic = basic.with_param(GenericParam::const_param("N", vec![id("u32")]));
    let with_args = with_args.with_param(GenericParam::const_param("N", vec![id("u32")]));

    assert_eq!(
        emitted(basic),
        vec![
            id("struct"), id("Hello"),
            pc('<'), id("const"), id("N"), pc(':'), id("u32"), pc('>'),
            named_body(),
        ]
    );
    assert_eq!(
        emitted(with_args),
        vec![
            id("struct"), id("Hello"),
            pc('<'), id("A"), pc(','), id("B"), pc(','), id("const"), id("N"), pc(':'), id("u32"), pc('>'),
            named_body(),
        ]
    );
}

#[test]
fn add_where_item() {
    let basic = parse_struct(vec![id("struct"), id("Hello"), named_body()]);
    let with_args = parse_struct(vec![
        id("struct"), id("Hello"), pc('<'), id("A"), pc(','), id("B"), pc('>'),
        id("where"),
        id("A"), pc(':'), id("Clone"), pc(','),
        id("B"), pc(':'), id("Clone"), pc(','),
        named_body(),
    ]);

    let item = || WhereClauseItem::parse(vec![id("Self"), pc(':'), id("Sized")]);
    let basic = basic.with_where_item(item());
    let with_args = with_args.with_where_item(item());

    assert_eq!(
        emitted(basic),
        vec![
            id("struct"), id("Hello"),
            id("where"), id("Self"), pc(':'), id("Sized"),
            named_body(),
        ]
    );
    assert_eq!(
        emitted(with_args),
        vec![
            id("struct"), id("Hello"), pc('<'), id("A"), pc(','), id("B"), pc('>'),
            id("where"),
            id("A"), pc(':'), id("Clone"), pc(','),
            id("B"), pc(':'), id("Clone"), pc(','),
            id("Self"), pc(':'), id("Sized"),
            named_body(),
        ]
    );
}

#[test]
fn add_param_then_reparse() {
    let basic = parse_struct(vec![id("struct"), id("Hello"), named_body()]);
    let edited = basic.with_param(GenericParam::ty("T"));
    let toks = emitted(edited);
    let reparsed = parse_struct(toks.clone());
    let g = reparsed.generic_params.unwrap();
    assert_eq!(g.params.len(), 1);
    assert_eq!(g.params[0].name, "T");
    assert_eq!(emitted(parse_struct(toks.clone())), toks);
}
