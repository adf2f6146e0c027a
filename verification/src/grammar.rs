//! The source grammar, written down as spec functions.
//!
//! Each function reads the input at a position and returns `None` when its
//! construct does not match there, or the parsed value and the position just
//! past it. Alternatives are tried in a fixed order and a failed alternative
//! consumes nothing, so the functions describe a deterministic backtracking
//! recursive descent. The executable parser is proved to return exactly what
//! these functions describe.
//!
//! Positions coming back from an earlier-defined helper are re-checked
//! (`pos <= p <= s.len()`) before the recursion goes on; the checks are what
//! lets every function terminate, and they always hold of the positions the
//! helpers actually return.

use vstd::prelude::*;

use crate::ast::SpecAttr;
use crate::ast::SpecDeclId;
use crate::ast::SpecPathId;
use crate::ast::SpecStatement;

verus! {

/// A space or a tab: what may surround a separator token.
pub open spec fn is_space(c: char) -> bool {
    c == ' ' || c == '\t'
}

/// Whitespace including line breaks.
pub open spec fn is_multispace(c: char) -> bool {
    c == ' ' || c == '\t' || c == '\r' || c == '\n'
}

/// An ASCII decimal digit.
pub open spec fn is_digit(c: char) -> bool {
    '0' as int <= c as int <= '9' as int
}

/// An ASCII letter.
pub open spec fn is_alpha(c: char) -> bool {
    ('a' as int <= c as int <= 'z' as int) || ('A' as int <= c as int <= 'Z' as int)
}

/// A character that may start an identifier.
pub open spec fn is_ident_start(c: char) -> bool {
    is_alpha(c) || c == '_'
}

/// A character that may continue an identifier.
pub open spec fn is_ident_char(c: char) -> bool {
    is_alpha(c) || is_digit(c) || c == '_'
}

/// A character that may follow a backslash inside a quoted string.
pub open spec fn is_escapable(c: char) -> bool {
    c == '\\' || c == '"' || c == 'n' || c == 't'
}

/// `c` is the letter `l` (given lower-case) compared case-insensitively.
pub open spec fn lower_matches(c: char, l: char) -> bool {
    c == l || c as int + 32 == l as int
}

/// The end of the run of spaces and tabs starting at `pos`.
pub open spec fn sp_spaces(s: Seq<char>, pos: nat) -> nat
    decreases s.len() - pos,
{
    if pos < s.len() && is_space(s[pos as int]) {
        sp_spaces(s, pos + 1)
    } else {
        pos
    }
}

/// The end of the run of identifier characters starting at `pos`.
pub open spec fn sp_ident_end(s: Seq<char>, pos: nat) -> nat
    decreases s.len() - pos,
{
    if pos < s.len() && is_ident_char(s[pos as int]) {
        sp_ident_end(s, pos + 1)
    } else {
        pos
    }
}

/// The end of the run of digits starting at `pos`.
pub open spec fn sp_digits_end(s: Seq<char>, pos: nat) -> nat
    decreases s.len() - pos,
{
    if pos < s.len() && is_digit(s[pos as int]) {
        sp_digits_end(s, pos + 1)
    } else {
        pos
    }
}

/// An identifier: a letter or underscore, then letters, digits and
/// underscores.
pub open spec fn sp_ident(s: Seq<char>, pos: nat) -> Option<nat> {
    if pos < s.len() && is_ident_start(s[pos as int]) {
        Some(sp_ident_end(s, pos + 1))
    } else {
        None
    }
}

/// A number: an optional minus sign, then digits with an optional fraction,
/// or a point followed by at least one digit.
pub open spec fn sp_num(s: Seq<char>, pos: nat) -> Option<nat> {
    let p = if pos < s.len() && s[pos as int] == '-' {
        pos + 1
    } else {
        pos
    };
    if p < s.len() && is_digit(s[p as int]) {
        let e = sp_digits_end(s, p);
        if e < s.len() && s[e as int] == '.' {
            Some(sp_digits_end(s, e + 1))
        } else {
            Some(e)
        }
    } else if p + 1 < s.len() && s[p as int] == '.' && is_digit(s[p as int + 1]) {
        Some(sp_digits_end(s, p + 1))
    } else {
        None
    }
}

/// The end of the body of a quoted string: plain characters other than
/// quote and backslash, or a backslash followed by one of `\ " n t`.
/// Stops before a quote or at the end of input; fails on a bad escape.
pub open spec fn sp_esc_end(s: Seq<char>, pos: nat) -> Option<nat>
    decreases s.len() - pos,
{
    if pos >= s.len() {
        Some(pos)
    } else if s[pos as int] == '"' {
        Some(pos)
    } else if s[pos as int] == '\\' {
        if pos + 1 < s.len() && is_escapable(s[pos as int + 1]) {
            sp_esc_end(s, pos + 2)
        } else {
            None
        }
    } else {
        sp_esc_end(s, pos + 1)
    }
}

/// A quoted string literal, surrounding quotes included.
pub open spec fn sp_string(s: Seq<char>, pos: nat) -> Option<nat> {
    if pos < s.len() && s[pos as int] == '"' {
        match sp_esc_end(s, pos + 1) {
            Some(q) => if q < s.len() && s[q as int] == '"' {
                Some(q + 1)
            } else {
                None
            },
            None => None,
        }
    } else {
        None
    }
}

/// The end of a line comment's text: everything up to a line break or the
/// end of input. A carriage return not followed by a line feed is refused.
pub open spec fn sp_line_end(s: Seq<char>, pos: nat) -> Option<nat>
    decreases s.len() - pos,
{
    if pos >= s.len() {
        Some(pos)
    } else if s[pos as int] == '\n' {
        Some(pos)
    } else if s[pos as int] == '\r' {
        if pos + 1 < s.len() && s[pos as int + 1] == '\n' {
            Some(pos)
        } else {
            None
        }
    } else {
        sp_line_end(s, pos + 1)
    }
}

/// The position just past the first `*/` at or after `pos`.
pub open spec fn sp_block_end(s: Seq<char>, pos: nat) -> Option<nat>
    decreases s.len() - pos,
{
    if pos + 2 > s.len() {
        None
    } else if s[pos as int] == '*' && s[pos as int + 1] == '/' {
        Some(pos + 2)
    } else {
        sp_block_end(s, pos + 1)
    }
}

/// One comment: `//` or `#` to the end of the line, or a `/* ... */` block.
pub open spec fn sp_comment(s: Seq<char>, pos: nat) -> Option<nat> {
    if pos + 1 < s.len() && s[pos as int] == '/' && s[pos as int + 1] == '/' {
        sp_line_end(s, pos + 2)
    } else if pos < s.len() && s[pos as int] == '#' {
        sp_line_end(s, pos + 1)
    } else if pos + 1 < s.len() && s[pos as int] == '/' && s[pos as int + 1] == '*' {
        sp_block_end(s, pos + 2)
    } else {
        None
    }
}

/// Trivia: any run of whitespace and comments. Never fails.
pub open spec fn sp_trivia(s: Seq<char>, pos: nat) -> nat
    decreases s.len() - pos,
{
    if pos < s.len() && is_multispace(s[pos as int]) {
        sp_trivia(s, pos + 1)
    } else {
        match sp_comment(s, pos) {
            Some(p) => if pos < p <= s.len() {
                sp_trivia(s, p)
            } else {
                pos
            },
            None => pos,
        }
    }
}

/// A one-character token with spaces and tabs allowed on both sides.
pub open spec fn sp_sep1(s: Seq<char>, pos: nat, c: char) -> Option<nat> {
    let p = sp_spaces(s, pos);
    if p < s.len() && s[p as int] == c {
        Some(sp_spaces(s, p + 1))
    } else {
        None
    }
}

/// A two-character token with spaces and tabs allowed on both sides.
pub open spec fn sp_sep2(s: Seq<char>, pos: nat, c0: char, c1: char) -> Option<nat> {
    let p = sp_spaces(s, pos);
    if p + 1 < s.len() && s[p as int] == c0 && s[p as int + 1] == c1 {
        Some(sp_spaces(s, p + 2))
    } else {
        None
    }
}

/// The text `s[i..j)` is one of the given lower-case letters, compared
/// case-insensitively: the four reserved words, spelled out.
pub open spec fn matches_node_kw(s: Seq<char>, i: nat, j: nat) -> bool {
    j == i + 4 && lower_matches(s[i as int], 'n') && lower_matches(s[i as int + 1], 'o') && lower_matches(
        s[i as int + 2],
        'd',
    ) && lower_matches(s[i as int + 3], 'e')
}

pub open spec fn matches_edge_kw(s: Seq<char>, i: nat, j: nat) -> bool {
    j == i + 4 && lower_matches(s[i as int], 'e') && lower_matches(s[i as int + 1], 'd') && lower_matches(
        s[i as int + 2],
        'g',
    ) && lower_matches(s[i as int + 3], 'e')
}

pub open spec fn matches_graph_kw(s: Seq<char>, i: nat, j: nat) -> bool {
    j == i + 5 && lower_matches(s[i as int], 'g') && lower_matches(s[i as int + 1], 'r') && lower_matches(
        s[i as int + 2],
        'a',
    ) && lower_matches(s[i as int + 3], 'p') && lower_matches(s[i as int + 4], 'h')
}

pub open spec fn matches_subgraph_kw(s: Seq<char>, i: nat, j: nat) -> bool {
    j == i + 8 && lower_matches(s[i as int], 's') && lower_matches(s[i as int + 1], 'u') && lower_matches(
        s[i as int + 2],
        'b',
    ) && lower_matches(s[i as int + 3], 'g') && lower_matches(s[i as int + 4], 'r') && lower_matches(
        s[i as int + 5],
        'a',
    ) && lower_matches(s[i as int + 6], 'p') && lower_matches(s[i as int + 7], 'h')
}

/// The text `s[i..j)` is a reserved word, compared case-insensitively.
pub open spec fn is_reserved(s: Seq<char>, i: nat, j: nat) -> bool {
    matches_node_kw(s, i, j) || matches_edge_kw(s, i, j) || matches_graph_kw(s, i, j)
        || matches_subgraph_kw(s, i, j)
}

/// The lower-case spelling of the reserved word at `s[i..j)`.
pub open spec fn keyword_text(s: Seq<char>, i: nat, j: nat) -> Seq<char> {
    if matches_node_kw(s, i, j) {
        seq!['n', 'o', 'd', 'e']
    } else if matches_edge_kw(s, i, j) {
        seq!['e', 'd', 'g', 'e']
    } else if matches_graph_kw(s, i, j) {
        seq!['g', 'r', 'a', 'p', 'h']
    } else {
        seq!['s', 'u', 'b', 'g', 'r', 'a', 'p', 'h']
    }
}

/// A plain node text: an identifier that is not a reserved word, or a
/// number.
pub open spec fn sp_node_text(s: Seq<char>, pos: nat) -> Option<nat> {
    match sp_ident(s, pos) {
        Some(e) => if !is_reserved(s, pos, e) {
            Some(e)
        } else {
            sp_num(s, pos)
        },
        None => sp_num(s, pos),
    }
}

/// The label shorthand: a bare quoted string, synthesized as
/// `label=<string>` with the quotes kept in the value.
pub open spec fn sp_label(s: Seq<char>, pos: nat) -> Option<(SpecAttr, nat)> {
    match sp_string(s, pos) {
        Some(e) => Some(
            (
                SpecAttr {
                    key: seq!['l', 'a', 'b', 'e', 'l'],
                    value: s.subrange(pos as int, e as int),
                },
                e,
            ),
        ),
        None => None,
    }
}

/// A `key=value` attribute: a non-reserved identifier, an equals sign with
/// spaces around it, then an identifier, a number or a quoted string.
pub open spec fn sp_key_value(s: Seq<char>, pos: nat) -> Option<(SpecAttr, nat)> {
    match sp_ident(s, pos) {
        Some(e1) => if !is_reserved(s, pos, e1) {
            match sp_sep1(s, e1, '=') {
                Some(p2) => {
                    let v = match sp_ident(s, p2) {
                        Some(e3) => Some(e3),
                        None => match sp_num(s, p2) {
                            Some(e3) => Some(e3),
                            None => sp_string(s, p2),
                        },
                    };
                    match v {
                        Some(e3) => Some(
                            (
                                SpecAttr {
                                    key: s.subrange(pos as int, e1 as int),
                                    value: s.subrange(p2 as int, e3 as int),
                                },
                                e3,
                            ),
                        ),
                        None => None,
                    }
                },
                None => None,
            }
        } else {
            None
        },
        None => None,
    }
}

/// One attribute: the label shorthand, else `key=value`.
pub open spec fn sp_attr(s: Seq<char>, pos: nat) -> Option<(SpecAttr, nat)> {
    match sp_label(s, pos) {
        Some(r) => Some(r),
        None => sp_key_value(s, pos),
    }
}

/// The attributes after the first one: each preceded by a comma or a run of
/// spaces. Stops, consuming nothing further, where no attribute follows.
pub open spec fn sp_attrs_rest(s: Seq<char>, pos: nat) -> (Seq<SpecAttr>, nat)
    decreases s.len() - pos, 0int,
{
    let sep = match sp_sep1(s, pos, ',') {
        Some(p) => Some(p),
        None => {
            if pos < s.len() && is_space(s[pos as int]) {
                Some(sp_spaces(s, pos))
            } else {
                None
            }
        },
    };
    match sep {
        None => (Seq::empty(), pos),
        Some(p1) => if pos < p1 <= s.len() {
            match sp_attr(s, p1) {
                None => (Seq::empty(), pos),
                Some((a, p2)) => if p1 <= p2 <= s.len() {
                    let (rest, p3) = sp_attrs_rest(s, p2);
                    (seq![a] + rest, p3)
                } else {
                    (Seq::empty(), pos)
                },
            }
        } else {
            (Seq::empty(), pos)
        },
    }
}

/// A non-empty attribute list.
pub open spec fn sp_attrs(s: Seq<char>, pos: nat) -> Option<(Seq<SpecAttr>, nat)>
    decreases s.len() - pos, 1int,
{
    match sp_attr(s, pos) {
        None => None,
        Some((a, p1)) => if pos <= p1 <= s.len() {
            let (rest, p2) = sp_attrs_rest(s, p1);
            Some((seq![a] + rest, p2))
        } else {
            None
        },
    }
}

/// An optional attribute list introduced by a colon. Where the colon or the
/// list does not match, nothing is consumed.
pub open spec fn sp_opt_attrs(s: Seq<char>, pos: nat) -> (Option<Seq<SpecAttr>>, nat) {
    match sp_sep1(s, pos, ':') {
        None => (None, pos),
        Some(p1) => match sp_attrs(s, p1) {
            None => (None, pos),
            Some((al, p2)) => (Some(al), p2),
        },
    }
}

/// A declaration id: a plain node text, or any identifier that spells a
/// reserved word, kept as a keyword in lower case.
pub open spec fn sp_decl_id(s: Seq<char>, pos: nat) -> Option<(SpecDeclId, nat)> {
    match sp_node_text(s, pos) {
        Some(e) => Some((SpecDeclId::Node(s.subrange(pos as int, e as int)), e)),
        None => match sp_ident(s, pos) {
            Some(e) => if is_reserved(s, pos, e) {
                Some((SpecDeclId::Keyword(keyword_text(s, pos, e)), e))
            } else {
                None
            },
            None => None,
        },
    }
}

/// A declaration statement: an id, then an optional attribute list.
pub open spec fn sp_decl(s: Seq<char>, pos: nat) -> Option<(SpecStatement, nat)> {
    match sp_decl_id(s, pos) {
        None => None,
        Some((id, p1)) => {
            let (attrs, p2) = sp_opt_attrs(s, p1);
            Some((SpecStatement::Decl { id, attrs }, p2))
        },
    }
}

/// The statement separator of a graph body: a semicolon or a line break,
/// each with spaces around it, followed by trivia.
pub open spec fn sp_graph_sep(s: Seq<char>, pos: nat) -> Option<nat> {
    let t = match sp_sep1(s, pos, ';') {
        Some(p) => Some(p),
        None => match sp_sep1(s, pos, '\n') {
            Some(p) => Some(p),
            None => match sp_sep2(s, pos, '\r', '\n') {
                Some(p) => Some(p),
                None => sp_sep1(s, pos, '\r'),
            },
        },
    };
    match t {
        Some(p) => if p <= s.len() {
            Some(sp_trivia(s, p))
        } else {
            Some(p)
        },
        None => None,
    }
}

/// A graph body: trivia, then one or more statements, each further one
/// preceded by a separator, then trivia.
pub open spec fn sp_graph(s: Seq<char>, pos: nat) -> Option<(Seq<SpecStatement>, nat)>
    decreases s.len() - pos, 7int,
{
    let p0 = sp_trivia(s, pos);
    if pos <= p0 <= s.len() {
        match sp_statement(s, p0) {
            None => None,
            Some((st, p1)) => if p0 <= p1 <= s.len() {
                let (rest, p2) = sp_graph_rest(s, p1);
                if p1 <= p2 <= s.len() {
                    Some((seq![st] + rest, sp_trivia(s, p2)))
                } else {
                    Some((seq![st] + rest, p2))
                }
            } else {
                None
            },
        }
    } else {
        None
    }
}

/// The statements of a graph body after the first one. Stops, consuming
/// nothing further, where no separator and statement follow.
pub open spec fn sp_graph_rest(s: Seq<char>, pos: nat) -> (Seq<SpecStatement>, nat)
    decreases s.len() - pos, 6int,
{
    match sp_graph_sep(s, pos) {
        None => (Seq::empty(), pos),
        Some(p1) => if pos < p1 <= s.len() {
            match sp_statement(s, p1) {
                None => (Seq::empty(), pos),
                Some((st, p2)) => if p1 <= p2 <= s.len() {
                    let (rest, p3) = sp_graph_rest(s, p2);
                    (seq![st] + rest, p3)
                } else {
                    (Seq::empty(), pos)
                },
            }
        } else {
            (Seq::empty(), pos)
        },
    }
}

/// One statement: a path, else a declaration, else a subgraph, tried in
/// that order.
pub open spec fn sp_statement(s: Seq<char>, pos: nat) -> Option<(SpecStatement, nat)>
    decreases s.len() - pos, 5int,
{
    match sp_path(s, pos) {
        Some(r) => Some(r),
        None => match sp_decl(s, pos) {
            Some(r) => Some(r),
            None => sp_subgraph(s, pos),
        },
    }
}

/// A subgraph statement: a full graph body between braces.
pub open spec fn sp_subgraph(s: Seq<char>, pos: nat) -> Option<(SpecStatement, nat)>
    decreases s.len() - pos, 4int,
{
    if pos < s.len() && s[pos as int] == '{' {
        match sp_graph(s, pos + 1) {
            None => None,
            Some((v, p2)) => if p2 < s.len() && s[p2 as int] == '}' {
                Some((SpecStatement::Subgraph(v), p2 + 1))
            } else {
                None
            },
        }
    } else {
        None
    }
}

/// A path statement: two or more path ids separated by runs of spaces, then
/// an optional attribute list. Fails where only one id is found.
pub open spec fn sp_path(s: Seq<char>, pos: nat) -> Option<(SpecStatement, nat)>
    decreases s.len() - pos, 4int,
{
    match sp_path_id(s, pos) {
        None => None,
        Some((pid, p1)) => if pos <= p1 <= s.len() {
            let (pids, p2) = sp_path_ids_rest(s, p1);
            if pids.len() < 1 {
                None
            } else {
                let (attrs, p3) = sp_opt_attrs(s, p2);
                Some((SpecStatement::Path { ids: seq![pid] + pids, attrs }, p3))
            }
        } else {
            None
        },
    }
}

/// The path ids after the first one, each preceded by a run of spaces.
/// Stops, consuming nothing further, where no id follows.
pub open spec fn sp_path_ids_rest(s: Seq<char>, pos: nat) -> (Seq<SpecPathId>, nat)
    decreases s.len() - pos, 3int,
{
    if pos < s.len() && is_space(s[pos as int]) {
        let p1 = sp_spaces(s, pos);
        if pos < p1 <= s.len() {
            match sp_path_id(s, p1) {
                None => (Seq::empty(), pos),
                Some((pid, p2)) => if p1 <= p2 <= s.len() {
                    let (rest, p3) = sp_path_ids_rest(s, p2);
                    (seq![pid] + rest, p3)
                } else {
                    (Seq::empty(), pos)
                },
            }
        } else {
            (Seq::empty(), pos)
        }
    } else {
        (Seq::empty(), pos)
    }
}

/// One path endpoint: a plain node text, or an inline subgraph: a brace,
/// then one or more declarations separated by semicolons or runs of spaces,
/// then a brace, with spaces just inside the braces.
pub open spec fn sp_path_id(s: Seq<char>, pos: nat) -> Option<(SpecPathId, nat)>
    decreases s.len() - pos, 3int,
{
    match sp_node_text(s, pos) {
        Some(e) => Some((SpecPathId::Node(s.subrange(pos as int, e as int)), e)),
        None => if pos < s.len() && s[pos as int] == '{' {
            let p1 = sp_spaces(s, pos + 1);
            if pos < p1 <= s.len() {
                match sp_decl(s, p1) {
                    None => None,
                    Some((d0, p2)) => if p1 <= p2 <= s.len() {
                        let (ds, p3) = sp_inline_decls_rest(s, p2);
                        let p4 = sp_spaces(s, p3);
                        if p4 < s.len() && s[p4 as int] == '}' {
                            Some((SpecPathId::Subgraph(seq![d0] + ds), p4 + 1))
                        } else {
                            None
                        }
                    } else {
                        None
                    },
                }
            } else {
                None
            }
        } else {
            None
        },
    }
}

/// The declarations of an inline subgraph after the first one, each
/// preceded by a semicolon or a run of spaces. Stops, consuming nothing
/// further, where no declaration follows.
pub open spec fn sp_inline_decls_rest(s: Seq<char>, pos: nat) -> (Seq<SpecStatement>, nat)
    decreases s.len() - pos, 2int,
{
    let sep = match sp_sep1(s, pos, ';') {
        Some(p) => Some(p),
        None => {
            if pos < s.len() && is_space(s[pos as int]) {
                Some(sp_spaces(s, pos))
            } else {
                None
            }
        },
    };
    match sep {
        None => (Seq::empty(), pos),
        Some(p1) => if pos < p1 <= s.len() {
            match sp_decl(s, p1) {
                None => (Seq::empty(), pos),
                Some((d, p2)) => if p1 <= p2 <= s.len() {
                    let (rest, p3) = sp_inline_decls_rest(s, p2);
                    (seq![d] + rest, p3)
                } else {
                    (Seq::empty(), pos)
                },
            }
        } else {
            (Seq::empty(), pos)
        },
    }
}

/// The whole input as a graph: the graph body must consume every character;
/// trailing input is a parse failure.
pub open spec fn spec_parse(s: Seq<char>) -> Option<Seq<SpecStatement>> {
    match sp_graph(s, 0) {
        Some((v, p)) => if p == s.len() {
            Some(v)
        } else {
            None
        },
        None => None,
    }
}

} // verus!
