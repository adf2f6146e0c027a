//! The executable parser: a recursive-descent recognizer for the grammar of
//! [`crate::grammar`].
//!
//! Every function here is proved to return exactly what the matching spec
//! function of the grammar describes: the same failures, the same positions,
//! and an abstract syntax tree whose view is the spec-level tree. Each
//! function takes the input together with its length in characters `n` and a
//! current position.

use vstd::prelude::*;
use vstd::string::StrSliceExecFns;
use vstd::string::StringExecFns;

use crate::ast::Attr;
use crate::ast::DeclId;
use crate::ast::PathId;
use crate::ast::SpecAttr;
use crate::ast::SpecStatement;
use crate::ast::Statement;
use crate::ast::opt_attrs_view;
use crate::ast::path_ids_view;
use crate::ast::stmts_view;
use crate::grammar::is_digit;
use crate::grammar::is_escapable;
use crate::grammar::is_ident_char;
use crate::grammar::is_ident_start;
use crate::grammar::is_multispace;
use crate::grammar::is_reserved;
use crate::grammar::is_space;
use crate::grammar::keyword_text;
use crate::grammar::lower_matches;
use crate::grammar::matches_edge_kw;
use crate::grammar::matches_graph_kw;
use crate::grammar::matches_node_kw;
use crate::grammar::matches_subgraph_kw;
use crate::grammar::sp_attr;
use crate::grammar::sp_attrs;
use crate::grammar::sp_attrs_rest;
use crate::grammar::sp_block_end;
use crate::grammar::sp_comment;
use crate::grammar::sp_decl;
use crate::grammar::sp_decl_id;
use crate::grammar::sp_digits_end;
use crate::grammar::sp_esc_end;
use crate::grammar::sp_graph;
use crate::grammar::sp_graph_rest;
use crate::grammar::sp_graph_sep;
use crate::grammar::sp_ident;
use crate::grammar::sp_ident_end;
use crate::grammar::sp_inline_decls_rest;
use crate::grammar::sp_key_value;
use crate::grammar::sp_label;
use crate::grammar::sp_line_end;
use crate::grammar::sp_node_text;
use crate::grammar::sp_num;
use crate::grammar::sp_opt_attrs;
use crate::grammar::sp_path;
use crate::grammar::sp_path_id;
use crate::grammar::sp_path_ids_rest;
use crate::grammar::sp_sep1;
use crate::grammar::sp_sep2;
use crate::grammar::sp_spaces;
use crate::grammar::sp_statement;
use crate::grammar::sp_string;
use crate::grammar::sp_subgraph;
use crate::grammar::sp_trivia;
use crate::grammar::spec_parse;

verus! {

/// The error returned when the input is not a member of the grammar.
#[derive(Debug, PartialEq, Eq, Structural)]
pub struct ParseError;

fn ch_space(c: char) -> (r: bool)
    ensures
        r == is_space(c),
{
    c == ' ' || c == '\t'
}

fn ch_multispace(c: char) -> (r: bool)
    ensures
        r == is_multispace(c),
{
    c == ' ' || c == '\t' || c == '\r' || c == '\n'
}

fn ch_digit(c: char) -> (r: bool)
    ensures
        r == is_digit(c),
{
    let u = c as u32;
    48 <= u && u <= 57
}

fn ch_ident_start(c: char) -> (r: bool)
    ensures
        r == is_ident_start(c),
{
    let u = c as u32;
    (97 <= u && u <= 122) || (65 <= u && u <= 90) || c == '_'
}

fn ch_ident_char(c: char) -> (r: bool)
    ensures
        r == is_ident_char(c),
{
    let u = c as u32;
    (97 <= u && u <= 122) || (65 <= u && u <= 90) || (48 <= u && u <= 57) || c == '_'
}

fn ch_escapable(c: char) -> (r: bool)
    ensures
        r == is_escapable(c),
{
    c == '\\' || c == '"' || c == 'n' || c == 't'
}

/// `c` equals the lower-case letter `l` up to ASCII case.
fn lower_eq(c: char, l: char) -> (r: bool)
    ensures
        r == lower_matches(c, l),
{
    c == l || ((l as u32) >= 32 && (c as u32) == (l as u32) - 32)
}

/// The end of the run of spaces and tabs at `pos`.
fn spaces(s: &str, n: usize, pos: usize) -> (r: usize)
    requires
        n == s@.len(),
        pos <= n,
    ensures
        pos <= r <= n,
        r as nat == sp_spaces(s@, pos as nat),
    decreases n - pos,
{
    if pos < n {
        let c = s.get_char(pos);
        if ch_space(c) {
            return spaces(s, n, pos + 1);
        }
    }
    pos
}

/// The end of the run of identifier characters at `pos`.
fn ident_end(s: &str, n: usize, pos: usize) -> (r: usize)
    requires
        n == s@.len(),
        pos <= n,
    ensures
        pos <= r <= n,
        r as nat == sp_ident_end(s@, pos as nat),
    decreases n - pos,
{
    if pos < n {
        let c = s.get_char(pos);
        if ch_ident_char(c) {
            return ident_end(s, n, pos + 1);
        }
    }
    pos
}

/// The end of the run of digits at `pos`.
fn digits_end(s: &str, n: usize, pos: usize) -> (r: usize)
    requires
        n == s@.len(),
        pos <= n,
    ensures
        pos <= r <= n,
        r as nat == sp_digits_end(s@, pos as nat),
    decreases n - pos,
{
    if pos < n {
        let c = s.get_char(pos);
        if ch_digit(c) {
            return digits_end(s, n, pos + 1);
        }
    }
    pos
}

/// An identifier.
fn ident(s: &str, n: usize, pos: usize) -> (r: Option<usize>)
    requires
        n == s@.len(),
        pos <= n,
    ensures
        match r {
            Some(e) => pos < e <= n && sp_ident(s@, pos as nat) == Some(e as nat),
            None => sp_ident(s@, pos as nat) is None,
        },
{
    if pos < n {
        let c = s.get_char(pos);
        if ch_ident_start(c) {
            return Some(ident_end(s, n, pos + 1));
        }
    }
    None
}

/// A number.
fn num(s: &str, n: usize, pos: usize) -> (r: Option<usize>)
    requires
        n == s@.len(),
        pos <= n,
    ensures
        match r {
            Some(e) => pos < e <= n && sp_num(s@, pos as nat) == Some(e as nat),
            None => sp_num(s@, pos as nat) is None,
        },
{
    let p = if pos < n && s.get_char(pos) == '-' {
        pos + 1
    } else {
        pos
    };
    if p < n && ch_digit(s.get_char(p)) {
        let e = digits_end(s, n, p + 1);
        if e < n && s.get_char(e) == '.' {
            Some(digits_end(s, n, e + 1))
        } else {
            Some(e)
        }
    } else if p < n && n - p > 1 && s.get_char(p) == '.' && ch_digit(s.get_char(p + 1)) {
        Some(digits_end(s, n, p + 2))
    } else {
        None
    }
}

/// The end of the body of a quoted string.
fn esc(s: &str, n: usize, pos: usize) -> (r: Option<usize>)
    requires
        n == s@.len(),
        pos <= n,
    ensures
        match r {
            Some(e) => pos <= e <= n && sp_esc_end(s@, pos as nat) == Some(e as nat),
            None => sp_esc_end(s@, pos as nat) is None,
        },
    decreases n - pos,
{
    if pos >= n {
        return Some(pos);
    }
    let c = s.get_char(pos);
    if c == '"' {
        Some(pos)
    } else if c == '\\' {
        if pos + 1 < n && ch_escapable(s.get_char(pos + 1)) {
            esc(s, n, pos + 2)
        } else {
            None
        }
    } else {
        esc(s, n, pos + 1)
    }
}

/// A quoted string literal, quotes included.
fn esc_string(s: &str, n: usize, pos: usize) -> (r: Option<usize>)
    requires
        n == s@.len(),
        pos <= n,
    ensures
        match r {
            Some(e) => pos < e <= n && sp_string(s@, pos as nat) == Some(e as nat),
            None => sp_string(s@, pos as nat) is None,
        },
{
    if pos < n && s.get_char(pos) == '"' {
        match esc(s, n, pos + 1) {
            Some(q) => if q < n && s.get_char(q) == '"' {
                Some(q + 1)
            } else {
                None
            },
            None => None,
        }
    } else {
        None
    }
}

/// The end of a line comment's text.
fn line_end(s: &str, n: usize, pos: usize) -> (r: Option<usize>)
    requires
        n == s@.len(),
        pos <= n,
    ensures
        match r {
            Some(e) => pos <= e <= n && sp_line_end(s@, pos as nat) == Some(e as nat),
            None => sp_line_end(s@, pos as nat) is None,
        },
    decreases n - pos,
{
    if pos >= n {
        return Some(pos);
    }
    let c = s.get_char(pos);
    if c == '\n' {
        Some(pos)
    } else if c == '\r' {
        if pos + 1 < n && s.get_char(pos + 1) == '\n' {
            Some(pos)
        } else {
            None
        }
    } else {
        line_end(s, n, pos + 1)
    }
}

/// The position just past the first `*/` at or after `pos`.
fn block_end(s: &str, n: usize, pos: usize) -> (r: Option<usize>)
    requires
        n == s@.len(),
        pos <= n,
    ensures
        match r {
            Some(e) => pos < e <= n && sp_block_end(s@, pos as nat) == Some(e as nat),
            None => sp_block_end(s@, pos as nat) is None,
        },
    decreases n - pos,
{
    if n - pos < 2 {
        None
    } else if s.get_char(pos) == '*' && s.get_char(pos + 1) == '/' {
        Some(pos + 2)
    } else {
        block_end(s, n, pos + 1)
    }
}

/// One comment.
fn comment(s: &str, n: usize, pos: usize) -> (r: Option<usize>)
    requires
        n == s@.len(),
        pos <= n,
    ensures
        match r {
            Some(e) => pos < e <= n && sp_comment(s@, pos as nat) == Some(e as nat),
            None => sp_comment(s@, pos as nat) is None,
        },
{
    if pos < n && n - pos > 1 && s.get_char(pos) == '/' && s.get_char(pos + 1) == '/' {
        line_end(s, n, pos + 2)
    } else if pos < n && s.get_char(pos) == '#' {
        line_end(s, n, pos + 1)
    } else if pos < n && n - pos > 1 && s.get_char(pos) == '/' && s.get_char(pos + 1) == '*' {
        block_end(s, n, pos + 2)
    } else {
        None
    }
}

/// Trivia: whitespace and comments, consumed greedily.
fn ignored(s: &str, n: usize, pos: usize) -> (r: usize)
    requires
        n == s@.len(),
        pos <= n,
    ensures
        pos <= r <= n,
        r as nat == sp_trivia(s@, pos as nat),
    decreases n - pos,
{
    if pos < n && ch_multispace(s.get_char(pos)) {
        return ignored(s, n, pos + 1);
    }
    match comment(s, n, pos) {
        Some(p) => ignored(s, n, p),
        None => pos,
    }
}

/// A one-character token with spaces allowed on both sides.
fn sep1(s: &str, n: usize, pos: usize, c: char) -> (r: Option<usize>)
    requires
        n == s@.len(),
        pos <= n,
    ensures
        match r {
            Some(e) => pos < e <= n && sp_sep1(s@, pos as nat, c) == Some(e as nat),
            None => sp_sep1(s@, pos as nat, c) is None,
        },
{
    let p = spaces(s, n, pos);
    if p < n && s.get_char(p) == c {
        Some(spaces(s, n, p + 1))
    } else {
        None
    }
}

/// A two-character token with spaces allowed on both sides.
fn sep2(s: &str, n: usize, pos: usize, c0: char, c1: char) -> (r: Option<usize>)
    requires
        n == s@.len(),
        pos <= n,
    ensures
        match r {
            Some(e) => pos < e <= n && sp_sep2(s@, pos as nat, c0, c1) == Some(e as nat),
            None => sp_sep2(s@, pos as nat, c0, c1) is None,
        },
{
    let p = spaces(s, n, pos);
    if p < n && n - p > 1 && s.get_char(p) == c0 && s.get_char(p + 1) == c1 {
        Some(spaces(s, n, p + 2))
    } else {
        None
    }
}

/// The text `s[i..j)` is a reserved word, compared case-insensitively.
fn is_reserved_range(s: &str, n: usize, i: usize, j: usize) -> (r: bool)
    requires
        n == s@.len(),
        i <= j <= n,
    ensures
        r == is_reserved(s@, i as nat, j as nat),
{
    if j - i == 4 {
        let c0 = s.get_char(i);
        let c1 = s.get_char(i + 1);
        let c2 = s.get_char(i + 2);
        let c3 = s.get_char(i + 3);
        (lower_eq(c0, 'n') && lower_eq(c1, 'o') && lower_eq(c2, 'd') && lower_eq(c3, 'e')) || (
        lower_eq(c0, 'e') && lower_eq(c1, 'd') && lower_eq(c2, 'g') && lower_eq(c3, 'e'))
    } else if j - i == 5 {
        let c0 = s.get_char(i);
        let c1 = s.get_char(i + 1);
        let c2 = s.get_char(i + 2);
        let c3 = s.get_char(i + 3);
        let c4 = s.get_char(i + 4);
        lower_eq(c0, 'g') && lower_eq(c1, 'r') && lower_eq(c2, 'a') && lower_eq(c3, 'p')
            && lower_eq(c4, 'h')
    } else if j - i == 8 {
        let c0 = s.get_char(i);
        let c1 = s.get_char(i + 1);
        let c2 = s.get_char(i + 2);
        let c3 = s.get_char(i + 3);
        let c4 = s.get_char(i + 4);
        let c5 = s.get_char(i + 5);
        let c6 = s.get_char(i + 6);
        let c7 = s.get_char(i + 7);
        lower_eq(c0, 's') && lower_eq(c1, 'u') && lower_eq(c2, 'b') && lower_eq(c3, 'g')
            && lower_eq(c4, 'r') && lower_eq(c5, 'a') && lower_eq(c6, 'p') && lower_eq(c7, 'h')
    } else {
        false
    }
}

/// The lower-case spelling of the reserved word at `s[i..j)`.
fn keyword_string(s: &str, n: usize, i: usize, j: usize) -> (r: String)
    requires
        n == s@.len(),
        i <= j <= n,
        is_reserved(s@, i as nat, j as nat),
    ensures
        r@ == keyword_text(s@, i as nat, j as nat),
{
    if j - i == 4 {
        let c0 = s.get_char(i);
        if lower_eq(c0, 'n') {
            proof {
                reveal_strlit("node");
                assert(matches_node_kw(s@, i as nat, j as nat));
                assert("node"@ =~= keyword_text(s@, i as nat, j as nat));
            }
            String::from_str("node")
        } else {
            proof {
                reveal_strlit("edge");
                assert(matches_edge_kw(s@, i as nat, j as nat));
                assert(!matches_node_kw(s@, i as nat, j as nat));
                assert("edge"@ =~= keyword_text(s@, i as nat, j as nat));
            }
            String::from_str("edge")
        }
    } else if j - i == 5 {
        proof {
            reveal_strlit("graph");
            assert(matches_graph_kw(s@, i as nat, j as nat));
            assert("graph"@ =~= keyword_text(s@, i as nat, j as nat));
        }
        String::from_str("graph")
    } else {
        proof {
            reveal_strlit("subgraph");
            assert(matches_subgraph_kw(s@, i as nat, j as nat));
            assert("subgraph"@ =~= keyword_text(s@, i as nat, j as nat));
        }
        String::from_str("subgraph")
    }
}

/// A plain node text: a non-reserved identifier, or a number.
fn node_text(s: &str, n: usize, pos: usize) -> (r: Option<usize>)
    requires
        n == s@.len(),
        pos <= n,
    ensures
        match r {
            Some(e) => pos < e <= n && sp_node_text(s@, pos as nat) == Some(e as nat),
            None => sp_node_text(s@, pos as nat) is None,
        },
{
    match ident(s, n, pos) {
        Some(e) => if !is_reserved_range(s, n, pos, e) {
            Some(e)
        } else {
            num(s, n, pos)
        },
        None => num(s, n, pos),
    }
}

/// The text `s[from..to)` as an owned string.
fn capture(s: &str, n: usize, from: usize, to: usize) -> (r: String)
    requires
        n == s@.len(),
        from <= to <= n,
    ensures
        r@ == s@.subrange(from as int, to as int),
{
    let sub = s.substring_char(from, to);
    String::from_str(sub)
}


/// The label shorthand: a bare quoted string becomes `label=<string>`.
fn parse_label(s: &str, n: usize, pos: usize) -> (r: Option<(Attr, usize)>)
    requires
        n == s@.len(),
        pos <= n,
    ensures
        match r {
            Some((a, e)) => pos < e <= n && sp_label(s@, pos as nat) == Some((a@, e as nat)),
            None => sp_label(s@, pos as nat) is None,
        },
{
    match esc_string(s, n, pos) {
        Some(e) => {
            let v = capture(s, n, pos, e);
            let a = Attr { key: String::from_str("label"), value: v };
            proof {
                reveal_strlit("label");
                assert("label"@ =~= seq!['l', 'a', 'b', 'e', 'l']);
                assert(sp_label(s@, pos as nat) == Some((a@, e as nat)));
            }
            Some((a, e))
        },
        None => None,
    }
}

/// A `key=value` attribute.
fn parse_key_value(s: &str, n: usize, pos: usize) -> (r: Option<(Attr, usize)>)
    requires
        n == s@.len(),
        pos <= n,
    ensures
        match r {
            Some((a, e)) => pos < e <= n && sp_key_value(s@, pos as nat) == Some((a@, e as nat)),
            None => sp_key_value(s@, pos as nat) is None,
        },
{
    match ident(s, n, pos) {
        Some(e1) => if !is_reserved_range(s, n, pos, e1) {
            match sep1(s, n, e1, '=') {
                Some(p2) => {
                    let v_end = match ident(s, n, p2) {
                        Some(e3) => Some(e3),
                        None => match num(s, n, p2) {
                            Some(e3) => Some(e3),
                            None => esc_string(s, n, p2),
                        },
                    };
                    match v_end {
                        Some(e3) => {
                            let k = capture(s, n, pos, e1);
                            let v = capture(s, n, p2, e3);
                            Some((Attr { key: k, value: v }, e3))
                        },
                        None => None,
                    }
                },
                None => None,
            }
        } else {
            None
        },
        None => None,
    }
}

/// One attribute: the label shorthand, else `key=value`.
fn parse_attr(s: &str, n: usize, pos: usize) -> (r: Option<(Attr, usize)>)
    requires
        n == s@.len(),
        pos <= n,
    ensures
        match r {
            Some((a, e)) => pos < e <= n && sp_attr(s@, pos as nat) == Some((a@, e as nat)),
            None => sp_attr(s@, pos as nat) is None,
        },
{
    match parse_label(s, n, pos) {
        Some(r) => Some(r),
        None => parse_key_value(s, n, pos),
    }
}

/// The attributes after the first one.
fn attrs_rest(s: &str, n: usize, pos: usize) -> (r: (Vec<Attr>, usize))
    requires
        n == s@.len(),
        pos <= n,
    ensures
        pos <= r.1 <= n,
        sp_attrs_rest(s@, pos as nat) == (r.0@.map_values(|a: Attr| a@), r.1 as nat),
    decreases n - pos, 0int,
{
    let sep = match sep1(s, n, pos, ',') {
        Some(p) => Some(p),
        None => {
            if pos < n && ch_space(s.get_char(pos)) {
                Some(spaces(s, n, pos + 1))
            } else {
                None
            }
        },
    };
    match sep {
        None => {
            let v: Vec<Attr> = Vec::new();
            proof {
                assert(v@.map_values(|a: Attr| a@) =~= Seq::<SpecAttr>::empty());
            }
            (v, pos)
        },
        Some(p1) => match parse_attr(s, n, p1) {
            None => {
                let v: Vec<Attr> = Vec::new();
                proof {
                    assert(v@.map_values(|a: Attr| a@) =~= Seq::<SpecAttr>::empty());
                }
                (v, pos)
            },
            Some((a, p2)) => {
                let (mut rest, p3) = attrs_rest(s, n, p2);
                let ghost rv = rest@;
                let ghost av = a@;
                rest.insert(0, a);
                proof {
                    assert(rest@.map_values(|a: Attr| a@) =~= seq![av] + rv.map_values(
                        |a: Attr| a@,
                    ));
                }
                (rest, p3)
            },
        },
    }
}

/// A non-empty attribute list.
fn parse_attrs(s: &str, n: usize, pos: usize) -> (r: Option<(Vec<Attr>, usize)>)
    requires
        n == s@.len(),
        pos <= n,
    ensures
        match r {
            Some((al, e)) => pos <= e <= n && sp_attrs(s@, pos as nat) == Some(
                (al@.map_values(|a: Attr| a@), e as nat),
            ),
            None => sp_attrs(s@, pos as nat) is None,
        },
{
    match parse_attr(s, n, pos) {
        None => None,
        Some((a, p1)) => {
            let (mut al, p2) = attrs_rest(s, n, p1);
            let ghost rv = al@;
            let ghost av = a@;
            al.insert(0, a);
            proof {
                assert(al@.map_values(|a: Attr| a@) =~= seq![av] + rv.map_values(|a: Attr| a@));
            }
            Some((al, p2))
        },
    }
}

/// An optional attribute list introduced by a colon.
fn opt_attrs(s: &str, n: usize, pos: usize) -> (r: (Option<Vec<Attr>>, usize))
    requires
        n == s@.len(),
        pos <= n,
    ensures
        pos <= r.1 <= n,
        sp_opt_attrs(s@, pos as nat) == (opt_attrs_view(r.0), r.1 as nat),
{
    match sep1(s, n, pos, ':') {
        None => (None, pos),
        Some(p1) => match parse_attrs(s, n, p1) {
            None => (None, pos),
            Some((al, p2)) => (Some(al), p2),
        },
    }
}

/// A declaration id: a plain node text, or a reserved word kept as a
/// keyword in lower case.
fn parse_decl_id(s: &str, n: usize, pos: usize) -> (r: Option<(DeclId, usize)>)
    requires
        n == s@.len(),
        pos <= n,
    ensures
        match r {
            Some((id, e)) => pos < e <= n && sp_decl_id(s@, pos as nat) == Some((id@, e as nat)),
            None => sp_decl_id(s@, pos as nat) is None,
        },
{
    match node_text(s, n, pos) {
        Some(e) => {
            let t = capture(s, n, pos, e);
            Some((DeclId::Node(t), e))
        },
        None => match ident(s, n, pos) {
            Some(e) => if is_reserved_range(s, n, pos, e) {
                let t = keyword_string(s, n, pos, e);
                Some((DeclId::Keyword(t), e))
            } else {
                None
            },
            None => None,
        },
    }
}

/// A declaration statement.
fn parse_decl(s: &str, n: usize, pos: usize) -> (r: Option<(Statement, usize)>)
    requires
        n == s@.len(),
        pos <= n,
    ensures
        match r {
            Some((st, e)) => pos < e <= n && sp_decl(s@, pos as nat) == Some((st@, e as nat)),
            None => sp_decl(s@, pos as nat) is None,
        },
{
    match parse_decl_id(s, n, pos) {
        None => None,
        Some((id, p1)) => {
            let (attrs, p2) = opt_attrs(s, n, p1);
            Some((Statement::Decl { id, attrs }, p2))
        },
    }
}

/// The statement separator of a graph body, with the trivia after it.
fn graph_sep(s: &str, n: usize, pos: usize) -> (r: Option<usize>)
    requires
        n == s@.len(),
        pos <= n,
    ensures
        match r {
            Some(e) => pos < e <= n && sp_graph_sep(s@, pos as nat) == Some(e as nat),
            None => sp_graph_sep(s@, pos as nat) is None,
        },
{
    let t = match sep1(s, n, pos, ';') {
        Some(p) => Some(p),
        None => match sep1(s, n, pos, '\n') {
            Some(p) => Some(p),
            None => match sep2(s, n, pos, '\r', '\n') {
                Some(p) => Some(p),
                None => sep1(s, n, pos, '\r'),
            },
        },
    };
    match t {
        Some(p) => Some(ignored(s, n, p)),
        None => None,
    }
}

/// A graph body: trivia, statements with separators, trivia.
fn parse_graph(s: &str, n: usize, pos: usize) -> (r: Option<(Vec<Statement>, usize)>)
    requires
        n == s@.len(),
        pos <= n,
    ensures
        match r {
            Some((v, e)) => pos <= e <= n && sp_graph(s@, pos as nat) == Some(
                (stmts_view(v@), e as nat),
            ),
            None => sp_graph(s@, pos as nat) is None,
        },
    decreases n - pos, 7int,
{
    let p0 = ignored(s, n, pos);
    match parse_statement(s, n, p0) {
        None => None,
        Some((st, p1)) => {
            let (mut v, p2) = parse_graph_rest(s, n, p1);
            let p3 = ignored(s, n, p2);
            let ghost rv = v@;
            let ghost sv = st@;
            v.insert(0, st);
            proof {
                assert(stmts_view(v@) =~= seq![sv] + stmts_view(rv));
            }
            Some((v, p3))
        },
    }
}

/// The statements of a graph body after the first one.
fn parse_graph_rest(s: &str, n: usize, pos: usize) -> (r: (Vec<Statement>, usize))
    requires
        n == s@.len(),
        pos <= n,
    ensures
        pos <= r.1 <= n,
        sp_graph_rest(s@, pos as nat) == (stmts_view(r.0@), r.1 as nat),
    decreases n - pos, 6int,
{
    match graph_sep(s, n, pos) {
        None => {
            let v: Vec<Statement> = Vec::new();
            proof {
                assert(stmts_view(v@) =~= Seq::<SpecStatement>::empty());
            }
            (v, pos)
        },
        Some(p1) => match parse_statement(s, n, p1) {
            None => {
                let v: Vec<Statement> = Vec::new();
                proof {
                    assert(stmts_view(v@) =~= Seq::<SpecStatement>::empty());
                }
                (v, pos)
            },
            Some((st, p2)) => {
                let (mut rest, p3) = parse_graph_rest(s, n, p2);
                let ghost rv = rest@;
                let ghost sv = st@;
                rest.insert(0, st);
                proof {
                    assert(stmts_view(rest@) =~= seq![sv] + stmts_view(rv));
                }
                (rest, p3)
            },
        },
    }
}

/// One statement: a path, else a declaration, else a subgraph.
fn parse_statement(s: &str, n: usize, pos: usize) -> (r: Option<(Statement, usize)>)
    requires
        n == s@.len(),
        pos <= n,
    ensures
        match r {
            Some((st, e)) => pos <= e <= n && sp_statement(s@, pos as nat) == Some(
                (st@, e as nat),
            ),
            None => sp_statement(s@, pos as nat) is None,
        },
    decreases n - pos, 5int,
{
    match parse_path(s, n, pos) {
        Some(r) => Some(r),
        None => match parse_decl(s, n, pos) {
            Some(r) => Some(r),
            None => parse_subgraph(s, n, pos),
        },
    }
}

/// A subgraph statement: a graph body between braces.
fn parse_subgraph(s: &str, n: usize, pos: usize) -> (r: Option<(Statement, usize)>)
    requires
        n == s@.len(),
        pos <= n,
    ensures
        match r {
            Some((st, e)) => pos < e <= n && sp_subgraph(s@, pos as nat) == Some(
                (st@, e as nat),
            ),
            None => sp_subgraph(s@, pos as nat) is None,
        },
    decreases n - pos, 4int,
{
    if pos < n && s.get_char(pos) == '{' {
        match parse_graph(s, n, pos + 1) {
            None => None,
            Some((v, p2)) => if p2 < n && s.get_char(p2) == '}' {
                Some((Statement::Subgraph(v), p2 + 1))
            } else {
                None
            },
        }
    } else {
        None
    }
}

/// A path statement: two or more ids, then an optional attribute list.
fn parse_path(s: &str, n: usize, pos: usize) -> (r: Option<(Statement, usize)>)
    requires
        n == s@.len(),
        pos <= n,
    ensures
        match r {
            Some((st, e)) => pos <= e <= n && sp_path(s@, pos as nat) == Some((st@, e as nat)),
            None => sp_path(s@, pos as nat) is None,
        },
    decreases n - pos, 4int,
{
    match parse_path_id(s, n, pos) {
        None => None,
        Some((pid, p1)) => {
            let (mut ids, p2) = parse_path_ids_rest(s, n, p1);
            if ids.len() < 1 {
                None
            } else {
                let (attrs, p3) = opt_attrs(s, n, p2);
                let ghost rv = ids@;
                let ghost pv = pid@;
                ids.insert(0, pid);
                proof {
                    assert(path_ids_view(ids@) =~= seq![pv] + path_ids_view(rv));
                }
                Some((Statement::Path { ids, attrs }, p3))
            }
        },
    }
}

/// The path ids after the first one.
fn parse_path_ids_rest(s: &str, n: usize, pos: usize) -> (r: (Vec<PathId>, usize))
    requires
        n == s@.len(),
        pos <= n,
    ensures
        pos <= r.1 <= n,
        sp_path_ids_rest(s@, pos as nat) == (path_ids_view(r.0@), r.1 as nat),
    decreases n - pos, 3int,
{
    if pos < n && ch_space(s.get_char(pos)) {
        let p1 = spaces(s, n, pos + 1);
        match parse_path_id(s, n, p1) {
            None => {
                let v: Vec<PathId> = Vec::new();
                proof {
                    assert(path_ids_view(v@) =~= Seq::<crate::ast::SpecPathId>::empty());
                }
                (v, pos)
            },
            Some((pid, p2)) => {
                let (mut rest, p3) = parse_path_ids_rest(s, n, p2);
                let ghost rv = rest@;
                let ghost pv = pid@;
                rest.insert(0, pid);
                proof {
                    assert(path_ids_view(rest@) =~= seq![pv] + path_ids_view(rv));
                }
                (rest, p3)
            },
        }
    } else {
        let v: Vec<PathId> = Vec::new();
        proof {
            assert(path_ids_view(v@) =~= Seq::<crate::ast::SpecPathId>::empty());
        }
        (v, pos)
    }
}

/// One path endpoint: a plain node text, or an inline subgraph of
/// declarations.
fn parse_path_id(s: &str, n: usize, pos: usize) -> (r: Option<(PathId, usize)>)
    requires
        n == s@.len(),
        pos <= n,
    ensures
        match r {
            Some((pid, e)) => pos < e <= n && sp_path_id(s@, pos as nat) == Some(
                (pid@, e as nat),
            ),
            None => sp_path_id(s@, pos as nat) is None,
        },
    decreases n - pos, 3int,
{
    match node_text(s, n, pos) {
        Some(e) => {
            let t = capture(s, n, pos, e);
            Some((PathId::Node(t), e))
        },
        None => if pos < n && s.get_char(pos) == '{' {
            let p1 = spaces(s, n, pos + 1);
            match parse_decl(s, n, p1) {
                None => None,
                Some((d0, p2)) => {
                    let (mut ds, p3) = inline_decls_rest(s, n, p2);
                    let p4 = spaces(s, n, p3);
                    if p4 < n && s.get_char(p4) == '}' {
                        let ghost rv = ds@;
                        let ghost dv = d0@;
                        ds.insert(0, d0);
                        proof {
                            assert(stmts_view(ds@) =~= seq![dv] + stmts_view(rv));
                        }
                        Some((PathId::Subgraph(ds), p4 + 1))
                    } else {
                        None
                    }
                },
            }
        } else {
            None
        },
    }
}

/// The declarations of an inline subgraph after the first one.
fn inline_decls_rest(s: &str, n: usize, pos: usize) -> (r: (Vec<Statement>, usize))
    requires
        n == s@.len(),
        pos <= n,
    ensures
        pos <= r.1 <= n,
        sp_inline_decls_rest(s@, pos as nat) == (stmts_view(r.0@), r.1 as nat),
    decreases n - pos, 2int,
{
    let sep = match sep1(s, n, pos, ';') {
        Some(p) => Some(p),
        None => {
            if pos < n && ch_space(s.get_char(pos)) {
                Some(spaces(s, n, pos + 1))
            } else {
                None
            }
        },
    };
    match sep {
        None => {
            let v: Vec<Statement> = Vec::new();
            proof {
                assert(stmts_view(v@) =~= Seq::<SpecStatement>::empty());
            }
            (v, pos)
        },
        Some(p1) => match parse_decl(s, n, p1) {
            None => {
                let v: Vec<Statement> = Vec::new();
                proof {
                    assert(stmts_view(v@) =~= Seq::<SpecStatement>::empty());
                }
                (v, pos)
            },
            Some((d, p2)) => {
                let (mut rest, p3) = inline_decls_rest(s, n, p2);
                let ghost rv = rest@;
                let ghost dv = d@;
                rest.insert(0, d);
                proof {
                    assert(stmts_view(rest@) =~= seq![dv] + stmts_view(rv));
                }
                (rest, p3)
            },
        },
    }
}

/// Parses a whole source text. Returns the statements of the top-level
/// graph body, or a parse error: the input is not a member of the grammar,
/// or text is left over after a complete graph body.
pub fn parse(input: &str) -> (r: Result<Vec<Statement>, ParseError>)
    ensures
        match r {
            Ok(v) => spec_parse(input@) == Some(stmts_view(v@)),
            Err(e) => spec_parse(input@) is None,
        },
{
    let n = input.unicode_len();
    match parse_graph(input, n, 0) {
        Some((v, p)) => if p == n {
            Ok(v)
        } else {
            Err(ParseError)
        },
        None => Err(ParseError),
    }
}

} // verus!
