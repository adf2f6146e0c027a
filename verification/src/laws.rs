//! Laws relating the parser and the code generator, stated and proved once
//! for all inputs.

use vstd::prelude::*;

use crate::ast::SpecDeclId;
use crate::ast::SpecStatement;
use crate::ast::wf_decl_id;
use crate::ast::wf_path_id;
use crate::ast::wf_path_ids;
use crate::ast::wf_stmt;
use crate::ast::wf_stmts;
use crate::codegen::spec_graph_header;
use crate::codegen::spec_graph_str;
use crate::codegen::spec_graph_tail;
use crate::codegen::spec_statement_str;
use crate::codegen::spec_statements_str_from;
use crate::grammar::is_reserved;
use crate::grammar::keyword_text;
use crate::grammar::sp_attrs;
use crate::grammar::sp_decl;
use crate::grammar::sp_decl_id;
use crate::grammar::sp_graph;
use crate::grammar::sp_graph_rest;
use crate::grammar::sp_graph_sep;
use crate::grammar::sp_ident;
use crate::grammar::sp_inline_decls_rest;
use crate::grammar::sp_node_text;
use crate::grammar::sp_num;
use crate::grammar::sp_path;
use crate::grammar::sp_path_id;
use crate::grammar::sp_path_ids_rest;
use crate::grammar::sp_statement;
use crate::grammar::sp_subgraph;
use crate::grammar::sp_trivia;
use crate::grammar::spec_parse;

verus! {

/// Parsing and generation are functions of the input text and the flags
/// alone: identical inputs always give the identical tree and, for any one
/// choice of flags, byte-identical output.
pub proof fn lemma_parse_then_generate_deterministic(
    s1: Seq<char>,
    s2: Seq<char>,
    directed: bool,
    autolabel: bool,
    shape1: Seq<char>,
    shape2: Seq<char>,
)
    requires
        s1 == s2,
        shape1 == shape2,
    ensures
        spec_parse(s1) == spec_parse(s2),
        spec_parse(s1) matches Some(v) ==> spec_graph_str(v, directed, autolabel, shape1)
            == spec_graph_str(spec_parse(s2).unwrap(), directed, autolabel, shape2),
{
}

/// An identifier that spells a reserved word, in any mixture of cases, is
/// recognized as a declaration keyword carrying the lower-case spelling, and
/// is never a plain node id: as a declaration id it parses as `Keyword`, and
/// as a path endpoint it does not parse at all.
pub proof fn lemma_reserved_ident_is_keyword(s: Seq<char>, pos: nat)
    requires
        sp_ident(s, pos) matches Some(e) && is_reserved(s, pos, e),
    ensures
        sp_decl_id(s, pos) == Some(
            (SpecDeclId::Keyword(keyword_text(s, pos, sp_ident(s, pos).unwrap())), sp_ident(
                s,
                pos,
            ).unwrap()),
        ),
        sp_path_id(s, pos) is None,
{
    let e = sp_ident(s, pos).unwrap();
    assert(pos < s.len() && crate::grammar::is_ident_start(s[pos as int]));
    assert(sp_num(s, pos) is None);
    assert(sp_node_text(s, pos) is None);
}

/// A subgraph statement renders with its braces on their own lines at the
/// enclosing indent and its body one level (two spaces) deeper.
pub proof fn lemma_subgraph_indents_one_level(
    v: Seq<SpecStatement>,
    directed: bool,
    ind: Seq<char>,
)
    ensures
        spec_statement_str(SpecStatement::Subgraph(v), directed, ind) == ind + "{\n"@
            + spec_statements_str_from(v, directed, ind + "  "@, 0) + "\n"@ + ind + "}"@,
{
}

/// Input that is left over after a complete graph body makes the whole
/// parse fail: there is no truncated-but-successful result.
pub proof fn lemma_trailing_input_rejected(s: Seq<char>)
    requires
        sp_graph(s, 0) matches Some(r) && r.1 != s.len(),
    ensures
        spec_parse(s) is None,
{
}

/// With `autolabel` disabled the output is the header, then exactly
/// `label="", `, then the rest; with `autolabel` enabled the same header and
/// rest stand back to back. The two outputs differ: the disabled form is
/// exactly ten characters longer.
pub proof fn lemma_autolabel_injection(v: Seq<SpecStatement>, directed: bool, shape: Seq<char>)
    ensures
        spec_graph_str(v, directed, false, shape) == spec_graph_header(directed) + "label=\"\", "@
            + spec_graph_tail(v, directed, shape),
        spec_graph_str(v, directed, true, shape) == spec_graph_header(directed) + spec_graph_tail(
            v,
            directed,
            shape,
        ),
        spec_graph_str(v, directed, false, shape).len() == spec_graph_str(
            v,
            directed,
            true,
            shape,
        ).len() + 10,
{
    reveal_strlit("label=\"\", ");
    assert(spec_graph_str(v, directed, true, shape) =~= spec_graph_header(directed)
        + spec_graph_tail(v, directed, shape));
}

/// A parsed attribute list is non-empty.
proof fn lemma_wf_attrs(s: Seq<char>, pos: nat)
    ensures
        sp_attrs(s, pos) matches Some(r) ==> r.0.len() >= 1,
{
}

/// A parsed declaration is well-formed, and is a declaration.
proof fn lemma_wf_decl(s: Seq<char>, pos: nat)
    ensures
        sp_decl(s, pos) matches Some(r) ==> wf_stmt(r.0) && r.0 is Decl,
{
    match sp_decl_id(s, pos) {
        Some((id, p1)) => {
            lemma_wf_attrs(s, p1);
            assert(wf_decl_id(id));
        },
        None => {},
    }
}

/// Everything a parsed graph body holds is well-formed, and the body is
/// non-empty.
proof fn lemma_wf_graph(s: Seq<char>, pos: nat)
    ensures
        sp_graph(s, pos) matches Some(r) ==> r.0.len() >= 1 && wf_stmts(r.0),
    decreases s.len() - pos, 7int,
{
    let p0 = sp_trivia(s, pos);
    if pos <= p0 <= s.len() {
        lemma_wf_statement(s, p0);
        match sp_statement(s, p0) {
            None => {},
            Some((st, p1)) => if p0 <= p1 <= s.len() {
                lemma_wf_graph_rest(s, p1);
                let (rest, p2) = sp_graph_rest(s, p1);
                let v = seq![st] + rest;
                assert forall|i: int| 0 <= i < v.len() implies wf_stmt(#[trigger] v[i]) by {
                    if i > 0 {
                        assert(v[i] == rest[i - 1]);
                    }
                }
            } else {
            },
        }
    }
}

/// Everything the tail of a graph body holds is well-formed.
proof fn lemma_wf_graph_rest(s: Seq<char>, pos: nat)
    ensures
        wf_stmts(sp_graph_rest(s, pos).0),
    decreases s.len() - pos, 6int,
{
    match sp_graph_sep(s, pos) {
        None => {},
        Some(p1) => if pos < p1 <= s.len() {
            lemma_wf_statement(s, p1);
            match sp_statement(s, p1) {
                None => {},
                Some((st, p2)) => if p1 <= p2 <= s.len() {
                    lemma_wf_graph_rest(s, p2);
                    let (rest, p3) = sp_graph_rest(s, p2);
                    let v = seq![st] + rest;
                    assert forall|i: int| 0 <= i < v.len() implies wf_stmt(#[trigger] v[i]) by {
                        if i > 0 {
                            assert(v[i] == rest[i - 1]);
                        }
                    }
                } else {
                },
            }
        } else {
        },
    }
}

/// A parsed statement is well-formed.
proof fn lemma_wf_statement(s: Seq<char>, pos: nat)
    ensures
        sp_statement(s, pos) matches Some(r) ==> wf_stmt(r.0),
    decreases s.len() - pos, 5int,
{
    lemma_wf_path(s, pos);
    if sp_path(s, pos) is None {
        lemma_wf_decl(s, pos);
        if sp_decl(s, pos) is None {
            lemma_wf_subgraph(s, pos);
        }
    }
}

/// A parsed subgraph statement is well-formed.
proof fn lemma_wf_subgraph(s: Seq<char>, pos: nat)
    ensures
        sp_subgraph(s, pos) matches Some(r) ==> wf_stmt(r.0),
    decreases s.len() - pos, 4int,
{
    if pos < s.len() && s[pos as int] == '{' {
        lemma_wf_graph(s, pos + 1);
    }
}

/// A parsed path statement is well-formed: in particular it has at least
/// two ids.
proof fn lemma_wf_path(s: Seq<char>, pos: nat)
    ensures
        sp_path(s, pos) matches Some(r) ==> wf_stmt(r.0) && (r.0 matches SpecStatement::Path {
            ids,
            ..
        } ==> ids.len() >= 2),
    decreases s.len() - pos, 4int,
{
    lemma_wf_path_id(s, pos);
    match sp_path_id(s, pos) {
        None => {},
        Some((pid, p1)) => if pos <= p1 <= s.len() {
            lemma_wf_path_ids_rest(s, p1);
            let (pids, p2) = sp_path_ids_rest(s, p1);
            if pids.len() >= 1 {
                let ids = seq![pid] + pids;
                assert forall|i: int| 0 <= i < ids.len() implies wf_path_id(
                    #[trigger] ids[i],
                ) by {
                    if i > 0 {
                        assert(ids[i] == pids[i - 1]);
                    }
                }
            }
        } else {
        },
    }
}

/// Every parsed path id after the first one is well-formed.
proof fn lemma_wf_path_ids_rest(s: Seq<char>, pos: nat)
    ensures
        wf_path_ids(sp_path_ids_rest(s, pos).0),
    decreases s.len() - pos, 3int,
{
    if pos < s.len() && crate::grammar::is_space(s[pos as int]) {
        let p1 = crate::grammar::sp_spaces(s, pos);
        if pos < p1 <= s.len() {
            lemma_wf_path_id(s, p1);
            match sp_path_id(s, p1) {
                None => {},
                Some((pid, p2)) => if p1 <= p2 <= s.len() {
                    lemma_wf_path_ids_rest(s, p2);
                    let (rest, p3) = sp_path_ids_rest(s, p2);
                    let v = seq![pid] + rest;
                    assert forall|i: int| 0 <= i < v.len() implies wf_path_id(
                        #[trigger] v[i],
                    ) by {
                        if i > 0 {
                            assert(v[i] == rest[i - 1]);
                        }
                    }
                } else {
                },
            }
        }
    }
}

/// A parsed path id is well-formed: an inline subgraph is non-empty and
/// holds declarations only.
proof fn lemma_wf_path_id(s: Seq<char>, pos: nat)
    ensures
        sp_path_id(s, pos) matches Some(r) ==> wf_path_id(r.0),
    decreases s.len() - pos, 3int,
{
    match sp_node_text(s, pos) {
        Some(_) => {},
        None => if pos < s.len() && s[pos as int] == '{' {
            let p1 = crate::grammar::sp_spaces(s, pos + 1);
            if pos < p1 <= s.len() {
                lemma_wf_decl(s, p1);
                match sp_decl(s, p1) {
                    None => {},
                    Some((d0, p2)) => if p1 <= p2 <= s.len() {
                        lemma_wf_inline_rest(s, p2);
                        let (ds, p3) = sp_inline_decls_rest(s, p2);
                        let v = seq![d0] + ds;
                        assert forall|i: int| 0 <= i < v.len() implies wf_stmt(#[trigger] v[i])
                            && v[i] is Decl by {
                            if i > 0 {
                                assert(v[i] == ds[i - 1]);
                            }
                        }
                    } else {
                    },
                }
            }
        } else {
        },
    }
}

/// Every declaration of an inline subgraph after the first one is a
/// well-formed declaration.
proof fn lemma_wf_inline_rest(s: Seq<char>, pos: nat)
    ensures
        wf_stmts(sp_inline_decls_rest(s, pos).0),
        forall|i: int|
            0 <= i < sp_inline_decls_rest(s, pos).0.len() ==> (#[trigger] sp_inline_decls_rest(
                s,
                pos,
            ).0[i]) is Decl,
    decreases s.len() - pos, 2int,
{
    let sep = match crate::grammar::sp_sep1(s, pos, ';') {
        Some(p) => Some(p),
        None => {
            if pos < s.len() && crate::grammar::is_space(s[pos as int]) {
                Some(crate::grammar::sp_spaces(s, pos))
            } else {
                None
            }
        },
    };
    match sep {
        None => {},
        Some(p1) => if pos < p1 <= s.len() {
            lemma_wf_decl(s, p1);
            match sp_decl(s, p1) {
                None => {},
                Some((d, p2)) => if p1 <= p2 <= s.len() {
                    lemma_wf_inline_rest(s, p2);
                    let (rest, p3) = sp_inline_decls_rest(s, p2);
                    let v = seq![d] + rest;
                    assert forall|i: int| 0 <= i < v.len() implies wf_stmt(#[trigger] v[i]) && v[i]
                        is Decl by {
                        if i > 0 {
                            assert(v[i] == rest[i - 1]);
                        }
                    }
                } else {
                },
            }
        } else {
        },
    }
}

/// Everything the parser accepts is a well-formed tree: every path has at
/// least two ids, every attribute list present is non-empty, every keyword
/// is one of the four reserved words in lower case, every subgraph holds at
/// least one statement, and an inline subgraph holds declarations only.
pub proof fn lemma_parse_well_formed(s: Seq<char>)
    ensures
        spec_parse(s) matches Some(v) ==> v.len() >= 1 && wf_stmts(v),
{
    lemma_wf_graph(s, 0);
}

} // verus!
