//! The code generator: a total renderer from an abstract syntax tree to the
//! dot-like output language.
//!
//! The exact output text is defined by the spec functions (`spec_graph_str`
//! and its helpers); every executable function is proved to return precisely
//! that text. Indentation is passed down as the literal indent string, two
//! spaces longer for each nesting level.

use vstd::prelude::*;
use vstd::string::StrSliceExecFns;
use vstd::string::StringExecFns;

use crate::ast::Attr;
use crate::ast::DeclId;
use crate::ast::PathId;
use crate::ast::SpecAttr;
use crate::ast::SpecDeclId;
use crate::ast::SpecPathId;
use crate::ast::SpecStatement;
use crate::ast::Statement;
use crate::ast::stmts_view;

verus! {

/// The text of a declaration id: the literal text captured by the parser.
pub open spec fn spec_decl_id_str(id: SpecDeclId) -> Seq<char> {
    match id {
        SpecDeclId::Node(s) => s,
        SpecDeclId::Keyword(s) => s,
    }
}

/// The text of one attribute: `key=value`.
pub open spec fn spec_attr_str(a: SpecAttr) -> Seq<char> {
    a.key + "="@ + a.value
}

/// The attributes from index `i` on, joined by `", "`.
pub open spec fn spec_attrs_str_from(attrs: Seq<SpecAttr>, i: int) -> Seq<char>
    decreases attrs.len() - i,
{
    if i < 0 || i >= attrs.len() {
        Seq::empty()
    } else if i == attrs.len() - 1 {
        spec_attr_str(attrs[i])
    } else {
        spec_attr_str(attrs[i]) + ", "@ + spec_attrs_str_from(attrs, i + 1)
    }
}

/// The optional bracketed attribute suffix: empty when absent, otherwise
/// a space and the comma-joined list in brackets.
pub open spec fn spec_opt_attrs_str(attrs: Option<Seq<SpecAttr>>) -> Seq<char> {
    match attrs {
        None => Seq::empty(),
        Some(al) => " ["@ + spec_attrs_str_from(al, 0) + "]"@,
    }
}

/// The edge operator: `" -> "` for a directed graph, `" -- "` otherwise.
pub open spec fn spec_edge_op(directed: bool) -> Seq<char> {
    if directed {
        " -> "@
    } else {
        " -- "@
    }
}

/// A declaration statement: indent, id, optional attributes.
pub open spec fn spec_decl_str(id: SpecDeclId, attrs: Option<Seq<SpecAttr>>, ind: Seq<char>) -> Seq<
    char,
> {
    ind + spec_decl_id_str(id) + spec_opt_attrs_str(attrs)
}

/// One statement rendered at the given indent.
pub open spec fn spec_statement_str(s: SpecStatement, directed: bool, ind: Seq<char>) -> Seq<char>
    decreases s, 2int,
{
    match s {
        SpecStatement::Decl { id, attrs } => spec_decl_str(id, attrs, ind),
        SpecStatement::Path { ids, attrs } => ind + spec_path_ids_str_from(ids, directed, 0)
            + spec_opt_attrs_str(attrs),
        SpecStatement::Subgraph(v) => ind + "{\n"@ + spec_statements_str_from(
            v,
            directed,
            ind + "  "@,
            0,
        ) + "\n"@ + ind + "}"@,
    }
}

/// The statements from index `i` on, one per line, each at the given indent.
pub open spec fn spec_statements_str_from(
    v: Seq<SpecStatement>,
    directed: bool,
    ind: Seq<char>,
    i: int,
) -> Seq<char>
    decreases v, v.len() - i,
{
    if i < 0 || i >= v.len() {
        Seq::empty()
    } else if i == v.len() - 1 {
        spec_statement_str(v[i], directed, ind)
    } else {
        spec_statement_str(v[i], directed, ind) + "\n"@ + spec_statements_str_from(
            v,
            directed,
            ind,
            i + 1,
        )
    }
}

/// The path ids from index `i` on, joined by the edge operator.
pub open spec fn spec_path_ids_str_from(ids: Seq<SpecPathId>, directed: bool, i: int) -> Seq<char>
    decreases ids, ids.len() - i,
{
    if i < 0 || i >= ids.len() {
        Seq::empty()
    } else if i == ids.len() - 1 {
        spec_path_id_str(ids[i], directed)
    } else {
        spec_path_id_str(ids[i], directed) + spec_edge_op(directed) + spec_path_ids_str_from(
            ids,
            directed,
            i + 1,
        )
    }
}

/// One path endpoint: the node text, or an inline subgraph rendered
/// compactly on one line, its statements space-joined at no indent with the
/// direction forced undirected.
pub open spec fn spec_path_id_str(p: SpecPathId, directed: bool) -> Seq<char>
    decreases p, 2int,
{
    match p {
        SpecPathId::Node(s) => s,
        SpecPathId::Subgraph(v) => "{ "@ + spec_inline_stmts_str_from(v, 0) + " }"@,
    }
}

/// The statements of an inline subgraph from index `i` on, space-joined.
pub open spec fn spec_inline_stmts_str_from(v: Seq<SpecStatement>, i: int) -> Seq<char>
    decreases v, v.len() - i,
{
    if i < 0 || i >= v.len() {
        Seq::empty()
    } else if i == v.len() - 1 {
        spec_statement_str(v[i], false, Seq::empty())
    } else {
        spec_statement_str(v[i], false, Seq::empty()) + " "@ + spec_inline_stmts_str_from(v, i + 1)
    }
}

/// The fixed opening of the output document, up to the point where the
/// default node-attribute list begins.
pub open spec fn spec_graph_header(directed: bool) -> Seq<char> {
    (if directed {
        "digraph"@
    } else {
        "graph"@
    }) + " {\n  overlap=false;\n  node ["@
}

/// Everything after the optional `label="", ` injection: the rest of the
/// default node-attribute line, the statements one per line at one level of
/// indent, and the closing brace.
pub open spec fn spec_graph_tail(v: Seq<SpecStatement>, directed: bool, shape: Seq<char>) -> Seq<
    char,
> {
    "shape="@ + shape + ", style=filled, fillcolor=\"#ffffff00\"];\n"@ + spec_statements_str_from(
        v,
        directed,
        "  "@,
        0,
    ) + "\n}"@
}

/// The whole output document. `label="", ` is injected into the default
/// node-attribute line exactly when `autolabel` is disabled.
pub open spec fn spec_graph_str(
    v: Seq<SpecStatement>,
    directed: bool,
    autolabel: bool,
    shape: Seq<char>,
) -> Seq<char> {
    spec_graph_header(directed) + (if autolabel {
        Seq::<char>::empty()
    } else {
        "label=\"\", "@
    }) + spec_graph_tail(v, directed, shape)
}

/// Renders one attribute as `key=value`.
pub fn attr_to_str(attr: &Attr) -> (r: String)
    ensures
        r@ == spec_attr_str(attr@),
{
    let mut out = attr.key.clone();
    out.append("=");
    out.append(attr.value.as_str());
    proof {
        assert(out@ =~= spec_attr_str(attr@));
    }
    out
}

/// Renders the text of a declaration id.
pub fn decl_id_to_str(id: &DeclId) -> (r: String)
    ensures
        r@ == spec_decl_id_str(id@),
{
    match id {
        DeclId::Node(s) => s.clone(),
        DeclId::Keyword(s) => s.clone(),
    }
}

/// Renders the attributes from index `i` on, joined by `", "`.
fn attrs_to_str_from(attrs: &Vec<Attr>, i: usize) -> (r: String)
    ensures
        r@ == spec_attrs_str_from(attrs@.map_values(|a: Attr| a@), i as int),
    decreases attrs@.len() - i,
{
    let ghost model = attrs@.map_values(|a: Attr| a@);
    if i >= attrs.len() {
        String::new()
    } else if i == attrs.len() - 1 {
        attr_to_str(&attrs[i])
    } else {
        let mut out = attr_to_str(&attrs[i]);
        out.append(", ");
        let rest = attrs_to_str_from(attrs, i + 1);
        out.append(rest.as_str());
        proof {
            assert(out@ =~= spec_attrs_str_from(model, i as int));
        }
        out
    }
}

/// Renders the optional bracketed attribute suffix.
fn opt_attrs_to_str(attrs: &Option<Vec<Attr>>) -> (r: String)
    ensures
        r@ == spec_opt_attrs_str(crate::ast::opt_attrs_view(*attrs)),
{
    match attrs {
        None => String::new(),
        Some(al) => {
            let mut out = String::new();
            out.append(" [");
            let body = attrs_to_str_from(al, 0);
            out.append(body.as_str());
            out.append("]");
            proof {
                assert(out@ =~= spec_opt_attrs_str(crate::ast::opt_attrs_view(*attrs)));
            }
            out
        },
    }
}

/// Renders a declaration statement at the given indent.
pub fn decl_to_str(id: &DeclId, attrs: &Option<Vec<Attr>>, ind: &str) -> (r: String)
    ensures
        r@ == spec_decl_str(id@, crate::ast::opt_attrs_view(*attrs), ind@),
{
    let mut out = String::from_str(ind);
    let ids = decl_id_to_str(id);
    out.append(ids.as_str());
    let ats = opt_attrs_to_str(attrs);
    out.append(ats.as_str());
    proof {
        assert(out@ =~= spec_decl_str(id@, crate::ast::opt_attrs_view(*attrs), ind@));
    }
    out
}

/// Renders a path statement at the given indent.
pub fn path_to_str(ids: &Vec<PathId>, attrs: &Option<Vec<Attr>>, directed: bool, ind: &str) -> (r:
    String)
    ensures
        r@ == ind@ + spec_path_ids_str_from(crate::ast::path_ids_view(ids@), directed, 0)
            + spec_opt_attrs_str(crate::ast::opt_attrs_view(*attrs)),
    decreases ids@, 3int, 0int,
{
    let mut out = String::from_str(ind);
    let chain = path_ids_to_str_from(ids, directed, 0);
    out.append(chain.as_str());
    let ats = opt_attrs_to_str(attrs);
    out.append(ats.as_str());
    proof {
        assert(out@ =~= ind@ + spec_path_ids_str_from(crate::ast::path_ids_view(ids@), directed, 0)
            + spec_opt_attrs_str(crate::ast::opt_attrs_view(*attrs)));
    }
    out
}

/// Renders one statement at the given indent.
pub fn statement_to_str(s: &Statement, directed: bool, ind: &str) -> (r: String)
    ensures
        r@ == spec_statement_str(s@, directed, ind@),
    decreases *s, 4int, 0int,
{
    match s {
        Statement::Decl { id, attrs } => decl_to_str(id, attrs, ind),
        Statement::Path { ids, attrs } => path_to_str(ids, attrs, directed, ind),
        Statement::Subgraph(v) => subgraph_to_str(v, directed, ind),
    }
}

/// Renders a subgraph statement: braces on their own lines, the body one
/// indent level deeper.
pub fn subgraph_to_str(v: &Vec<Statement>, directed: bool, ind: &str) -> (r: String)
    ensures
        r@ == ind@ + "{\n"@ + spec_statements_str_from(stmts_view(v@), directed, ind@ + "  "@, 0)
            + "\n"@ + ind@ + "}"@,
    decreases v@, 6int, 0int,
{
    let mut inner = String::from_str(ind);
    inner.append("  ");
    let mut out = String::from_str(ind);
    out.append("{\n");
    let body = statements_to_str_from(v, directed, inner.as_str(), 0);
    out.append(body.as_str());
    out.append("\n");
    out.append(ind);
    out.append("}");
    proof {
        assert(out@ =~= ind@ + "{\n"@ + spec_statements_str_from(
            stmts_view(v@),
            directed,
            ind@ + "  "@,
            0,
        ) + "\n"@ + ind@ + "}"@);
    }
    out
}

/// Renders the statements from index `i` on, one per line.
fn statements_to_str_from(v: &Vec<Statement>, directed: bool, ind: &str, i: usize) -> (r: String)
    ensures
        r@ == spec_statements_str_from(stmts_view(v@), directed, ind@, i as int),
    decreases v@, 5int, v@.len() - i,
{
    let ghost model = stmts_view(v@);
    if i >= v.len() {
        String::new()
    } else if i == v.len() - 1 {
        let r = statement_to_str(&v[i], directed, ind);
        proof {
            assert(model[i as int] == v@[i as int]@);
        }
        r
    } else {
        let mut out = statement_to_str(&v[i], directed, ind);
        out.append("\n");
        let rest = statements_to_str_from(v, directed, ind, i + 1);
        out.append(rest.as_str());
        proof {
            assert(model[i as int] == v@[i as int]@);
            assert(out@ =~= spec_statements_str_from(model, directed, ind@, i as int));
        }
        out
    }
}

/// Renders the path ids from index `i` on, joined by the edge operator.
fn path_ids_to_str_from(ids: &Vec<PathId>, directed: bool, i: usize) -> (r: String)
    ensures
        r@ == spec_path_ids_str_from(crate::ast::path_ids_view(ids@), directed, i as int),
    decreases ids@, 2int, ids@.len() - i,
{
    let ghost model = crate::ast::path_ids_view(ids@);
    if i >= ids.len() {
        String::new()
    } else if i == ids.len() - 1 {
        let r = path_id_to_str(&ids[i], directed);
        proof {
            assert(model[i as int] == ids@[i as int]@);
        }
        r
    } else {
        let mut out = path_id_to_str(&ids[i], directed);
        if directed {
            out.append(" -> ");
        } else {
            out.append(" -- ");
        }
        let rest = path_ids_to_str_from(ids, directed, i + 1);
        out.append(rest.as_str());
        proof {
            assert(model[i as int] == ids@[i as int]@);
            assert(out@ =~= spec_path_ids_str_from(model, directed, i as int));
        }
        out
    }
}

/// Renders one path endpoint.
pub fn path_id_to_str(id: &PathId, directed: bool) -> (r: String)
    ensures
        r@ == spec_path_id_str(id@, directed),
    decreases *id, 4int, 0int,
{
    match id {
        PathId::Node(s) => s.clone(),
        PathId::Subgraph(v) => {
            let mut out = String::new();
            out.append("{ ");
            let body = inline_stmts_to_str_from(v, 0);
            out.append(body.as_str());
            out.append(" }");
            proof {
                assert(out@ =~= spec_path_id_str(id@, directed));
            }
            out
        },
    }
}

/// Renders the statements of an inline subgraph from index `i` on,
/// space-joined at no indent, forced undirected.
fn inline_stmts_to_str_from(v: &Vec<Statement>, i: usize) -> (r: String)
    ensures
        r@ == spec_inline_stmts_str_from(stmts_view(v@), i as int),
    decreases v@, 5int, v@.len() - i,
{
    let ghost model = stmts_view(v@);
    if i >= v.len() {
        String::new()
    } else if i == v.len() - 1 {
        let r = statement_to_str(&v[i], false, "");
        proof {
            reveal_strlit("");
            assert(""@ =~= Seq::<char>::empty());
            assert(model[i as int] == v@[i as int]@);
            assert(r@ =~= spec_inline_stmts_str_from(model, i as int));
        }
        r
    } else {
        let mut out = statement_to_str(&v[i], false, "");
        out.append(" ");
        let rest = inline_stmts_to_str_from(v, i + 1);
        out.append(rest.as_str());
        proof {
            reveal_strlit("");
            assert(""@ =~= Seq::<char>::empty());
            assert(model[i as int] == v@[i as int]@);
            assert(out@ =~= spec_inline_stmts_str_from(model, i as int));
        }
        out
    }
}

/// Renders a whole graph: the `digraph`/`graph` keyword, the fixed
/// `overlap=false;` line, the default node-attribute line (with `label="", `
/// injected exactly when `autolabel` is disabled), then the statements one
/// per line at one level of indent.
pub fn graph_to_str(ast: &Vec<Statement>, directed: bool, autolabel: bool, shape: String) -> (r:
    String)
    ensures
        r@ == spec_graph_str(stmts_view(ast@), directed, autolabel, shape@),
{
    let mut out = String::new();
    if directed {
        out.append("digraph");
    } else {
        out.append("graph");
    }
    out.append(" {\n  overlap=false;\n  node [");
    if !autolabel {
        out.append("label=\"\", ");
    }
    out.append("shape=");
    out.append(shape.as_str());
    out.append(", style=filled, fillcolor=\"#ffffff00\"];\n");
    let body = statements_to_str_from(ast, directed, "  ", 0);
    out.append(body.as_str());
    out.append("\n}");
    proof {
        assert(out@ =~= spec_graph_str(stmts_view(ast@), directed, autolabel, shape@));
    }
    out
}

} // verus!
