use dotgen::ast::Attr;
use dotgen::ast::DeclId;
use dotgen::ast::PathId;
use dotgen::ast::Statement;
use dotgen::codegen::decl_to_str;
use dotgen::codegen::graph_to_str;
use dotgen::codegen::path_to_str;
use dotgen::parser::parse;

fn node(t: &str) -> PathId {
    PathId::Node(String::from(t))
}

#[test]
fn path_renders_with_direction_operator() {
    let ids = vec![node("a"), node("b"), node("c")];
    assert_eq!(path_to_str(&ids, &None, true, ""), "a -> b -> c");
    let ids = vec![node("a"), node("b"), node("c")];
    assert_eq!(path_to_str(&ids, &None, false, ""), "a -- b -- c");
}

#[test]
fn decl_renders_label_shorthand() {
    let attrs = Some(vec![
        Attr { key: String::from("label"), value: String::from("\"hi\"") },
        Attr { key: String::from("color"), value: String::from("red") },
    ]);
    let id = DeclId::Node(String::from("x"));
    assert_eq!(decl_to_str(&id, &attrs, ""), "x [label=\"hi\", color=red]");
}

#[test]
fn parse_then_generate_label_shorthand() {
    let ast = parse("x : \"hi\", color=red").unwrap();
    let out = graph_to_str(&ast, false, true, String::from("circle"));
    assert_eq!(
        out,
        "graph {\n  overlap=false;\n  node [shape=circle, style=filled, fillcolor=\"#ffffff00\"];\n  x [label=\"hi\", color=red]\n}"
    );
}

#[test]
fn autolabel_controls_label_injection() {
    let ast = parse("a").unwrap();
    let with_injection = graph_to_str(&ast, true, false, String::from("circle"));
    assert_eq!(
        with_injection,
        "digraph {\n  overlap=false;\n  node [label=\"\", shape=circle, style=filled, fillcolor=\"#ffffff00\"];\n  a\n}"
    );
    let without_injection = graph_to_str(&ast, true, true, String::from("circle"));
    assert_eq!(
        without_injection,
        "digraph {\n  overlap=false;\n  node [shape=circle, style=filled, fillcolor=\"#ffffff00\"];\n  a\n}"
    );
}

#[test]
fn subgraph_body_is_indented_one_level() {
    let ast = parse("{a;b}").unwrap();
    let out = graph_to_str(&ast, false, true, String::from("circle"));
    assert_eq!(
        out,
        "graph {\n  overlap=false;\n  node [shape=circle, style=filled, fillcolor=\"#ffffff00\"];\n  {\n    a\n    b\n  }\n}"
    );
}

#[test]
fn nested_subgraphs_indent_further() {
    let ast = parse("{ {a} }").unwrap();
    let out = graph_to_str(&ast, false, true, String::from("circle"));
    assert_eq!(
        out,
        "graph {\n  overlap=false;\n  node [shape=circle, style=filled, fillcolor=\"#ffffff00\"];\n  {\n    {\n      a\n    }\n  }\n}"
    );
}

#[test]
fn inline_subgraph_renders_compactly() {
    let ast = parse("x {a; b} : color=red").unwrap();
    let out = graph_to_str(&ast, true, true, String::from("circle"));
    assert_eq!(
        out,
        "digraph {\n  overlap=false;\n  node [shape=circle, style=filled, fillcolor=\"#ffffff00\"];\n  x -> { a b } [color=red]\n}"
    );
}

#[test]
fn keyword_declaration_renders_lowercase() {
    let ast = parse("NODE : shape=box\nx").unwrap();
    let out = graph_to_str(&ast, false, true, String::from("circle"));
    assert_eq!(
        out,
        "graph {\n  overlap=false;\n  node [shape=circle, style=filled, fillcolor=\"#ffffff00\"];\n  node [shape=box]\n  x\n}"
    );
}

#[test]
fn two_statement_example() {
    // An undirected edge with an attribute, then a bare declaration, each on
    // its own two-space-indented line.
    let ast = parse("a b : color=blue\nc").unwrap();
    let out = graph_to_str(&ast, false, true, String::from("box"));
    assert_eq!(
        out,
        "graph {\n  overlap=false;\n  node [shape=box, style=filled, fillcolor=\"#ffffff00\"];\n  a -- b [color=blue]\n  c\n}"
    );
    // The source language writes a chain as ids separated by spaces; an edge
    // operator in the source is not part of the grammar.
    assert!(parse("a -- b : color=blue\nc").is_err());
}

#[test]
fn parse_then_generate_is_deterministic() {
    let src = "a b : color=blue\n{x; y}\nnode : shape=box";
    let out1 = graph_to_str(&parse(src).unwrap(), true, false, String::from("box"));
    let out2 = graph_to_str(&parse(src).unwrap(), true, false, String::from("box"));
    assert_eq!(out1, out2);
}
