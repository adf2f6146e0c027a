use dotgen::ast::DeclId;
use dotgen::ast::PathId;
use dotgen::ast::Statement;
use dotgen::parser::parse;

#[test]
fn reserved_words_are_case_insensitive_keywords() {
    for src in ["graph", "Graph", "GRAPH", "gRaPh"] {
        let ast = parse(src).expect("a reserved word alone is a declaration");
        assert_eq!(ast.len(), 1);
        match &ast[0] {
            Statement::Decl { id: DeclId::Keyword(k), attrs: None } => assert_eq!(k, "graph"),
            other => panic!("expected a keyword declaration, got {:?}", other),
        }
    }
    for src in ["node", "EDGE", "Subgraph"] {
        let ast = parse(src).expect("a reserved word alone is a declaration");
        match &ast[0] {
            Statement::Decl { id: DeclId::Keyword(_), attrs: None } => {}
            other => panic!("expected a keyword declaration, got {:?}", other),
        }
    }
}

#[test]
fn reserved_word_is_not_a_node_id() {
    // In a path position a reserved word matches nothing, so the second id
    // is missing and the leftover text makes the parse fail.
    assert!(parse("graph x").is_err());
    assert!(parse("a Node").is_err());
    // An identifier that merely contains a reserved word is a plain node.
    let ast = parse("graphx").expect("a longer identifier is fine");
    match &ast[0] {
        Statement::Decl { id: DeclId::Node(t), attrs: None } => assert_eq!(t, "graphx"),
        other => panic!("expected a node declaration, got {:?}", other),
    }
}

#[test]
fn path_needs_two_ids() {
    let ast = parse("a b").expect("two ids are a path");
    match &ast[0] {
        Statement::Path { ids, attrs: None } => {
            assert_eq!(ids.len(), 2);
            assert!(matches!(&ids[0], PathId::Node(t) if t == "a"));
            assert!(matches!(&ids[1], PathId::Node(t) if t == "b"));
        }
        other => panic!("expected a path, got {:?}", other),
    }
    let ast = parse("a").expect("one id is a declaration");
    assert!(matches!(&ast[0], Statement::Decl { .. }));
}

#[test]
fn numbers_are_node_ids() {
    let ast = parse("3 -2.5 .5 3.").expect("numbers chain into a path");
    match &ast[0] {
        Statement::Path { ids, attrs: None } => {
            let texts: Vec<&str> = ids
                .iter()
                .map(|p| match p {
                    PathId::Node(t) => t.as_str(),
                    _ => panic!("expected plain nodes"),
                })
                .collect();
            assert_eq!(texts, ["3", "-2.5", ".5", "3."]);
        }
        other => panic!("expected a path, got {:?}", other),
    }
    assert!(parse("-").is_err());
    assert!(parse(".").is_err());
}

#[test]
fn label_shorthand_and_key_values() {
    let ast = parse("x : \"hi\", color=red").expect("attributes parse");
    match &ast[0] {
        Statement::Decl { id: DeclId::Node(t), attrs: Some(al) } => {
            assert_eq!(t, "x");
            assert_eq!(al.len(), 2);
            assert_eq!(al[0].key, "label");
            assert_eq!(al[0].value, "\"hi\"");
            assert_eq!(al[1].key, "color");
            assert_eq!(al[1].value, "red");
        }
        other => panic!("expected a declaration with attributes, got {:?}", other),
    }
}

#[test]
fn attributes_separated_by_spaces_or_commas() {
    let ast = parse("n : a=1 b=2, \"t\"").expect("mixed separators parse");
    match &ast[0] {
        Statement::Decl { attrs: Some(al), .. } => {
            let pairs: Vec<(&str, &str)> =
                al.iter().map(|a| (a.key.as_str(), a.value.as_str())).collect();
            assert_eq!(pairs, [("a", "1"), ("b", "2"), ("label", "\"t\"")]);
        }
        other => panic!("expected a declaration with attributes, got {:?}", other),
    }
}

#[test]
fn string_escapes_are_kept_verbatim() {
    let ast = parse("x : \"a\\\"b\\nc\"").expect("escaped string parses");
    match &ast[0] {
        Statement::Decl { attrs: Some(al), .. } => {
            assert_eq!(al[0].value, "\"a\\\"b\\nc\"");
        }
        other => panic!("expected a declaration, got {:?}", other),
    }
    assert!(parse("x : \"abc").is_err(), "unterminated string");
    assert!(parse("x : \"a\\qb\"").is_err(), "bad escape");
}

#[test]
fn subgraph_statement_nests() {
    let ast = parse("{a;b}").expect("a brace block is a subgraph statement");
    match &ast[0] {
        Statement::Subgraph(v) => {
            assert_eq!(v.len(), 2);
            assert!(matches!(&v[0], Statement::Decl { id: DeclId::Node(t), .. } if t == "a"));
            assert!(matches!(&v[1], Statement::Decl { id: DeclId::Node(t), .. } if t == "b"));
        }
        other => panic!("expected a subgraph, got {:?}", other),
    }
}

#[test]
fn inline_subgraph_is_a_path_endpoint() {
    let ast = parse("x {a; b} : color=red").expect("inline subgraph parses");
    match &ast[0] {
        Statement::Path { ids, attrs: Some(al) } => {
            assert_eq!(ids.len(), 2);
            assert!(matches!(&ids[0], PathId::Node(t) if t == "x"));
            match &ids[1] {
                PathId::Subgraph(v) => assert_eq!(v.len(), 2),
                other => panic!("expected an inline subgraph, got {:?}", other),
            }
            assert_eq!(al[0].key, "color");
        }
        other => panic!("expected a path, got {:?}", other),
    }
}

#[test]
fn trailing_input_is_a_parse_failure() {
    assert!(parse("a\n}").is_err(), "stray closing brace");
    assert!(parse("a}").is_err());
    assert!(parse("a;").is_err(), "a separator must be followed by a statement");
    assert!(parse("a b :").is_err(), "a colon must be followed by attributes");
}

#[test]
fn empty_input_is_a_parse_failure() {
    assert!(parse("").is_err());
    assert!(parse("  \n\t").is_err());
    assert!(parse("// only a comment").is_err());
}

#[test]
fn comments_and_blank_lines_between_statements() {
    let ast = parse("/* head */a\n// mid\nb\n#tail\n").expect("comments are trivia");
    assert_eq!(ast.len(), 2);
    let ast = parse("\r\n a \r\n b \r\n").expect("carriage returns separate");
    assert_eq!(ast.len(), 2);
}

#[test]
fn comment_inside_a_statement_is_rejected() {
    // Trivia is legal around separators, not between a statement and the
    // text that follows it on the same line.
    assert!(parse("a // c\nb").is_err());
    assert!(parse("a /*c*/ b").is_err());
}

#[test]
fn statements_separated_by_semicolons_and_newlines() {
    let ast = parse("a; b\nc ;\td").expect("all separator forms");
    assert_eq!(ast.len(), 4);
}

#[test]
fn lone_carriage_return_separates_but_breaks_comments() {
    let ast = parse("a\rb").expect("a bare carriage return is a separator");
    assert_eq!(ast.len(), 2);
    // A line comment must end in a line feed or at the end of input; a
    // carriage return without a following line feed is not a line ending.
    assert!(parse("#x\ra").is_err());
    let ast = parse("#x\r\na").expect("a full line break ends the comment");
    assert_eq!(ast.len(), 1);
}

#[test]
fn unterminated_block_comment_is_rejected() {
    assert!(parse("/* open\na").is_err());
    assert!(parse("a\n/*").is_err());
}

#[test]
fn tabs_count_as_spaces_around_tokens() {
    let ast = parse("x\t:\tcolor=red").expect("tabs surround the colon");
    match &ast[0] {
        Statement::Decl { attrs: Some(al), .. } => assert_eq!(al[0].key, "color"),
        other => panic!("expected a declaration, got {:?}", other),
    }
    // A tab is not a path separator any less than a space is.
    let ast = parse("a\tb").expect("tab-separated path");
    assert!(matches!(&ast[0], Statement::Path { ids, .. } if ids.len() == 2));
}
