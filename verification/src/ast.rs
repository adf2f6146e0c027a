//! The abstract syntax tree produced by the parser and consumed by the code
//! generator, together with its mathematical model.
//!
//! Each executable type has a spec-level mirror whose text fields are
//! `Seq<char>` and whose lists are `Seq`; the `view` functions relate the two.
//! Contracts throughout the crate are stated over the mirror types.

use vstd::prelude::*;

verus! {

/// One statement of the source language.
#[derive(Debug)]
pub enum Statement {
    /// A single entity declaration, with an optional attribute list.
    Decl { id: DeclId, attrs: Option<Vec<Attr>> },
    /// A chain of two or more path ids, with an optional attribute list
    /// that applies to every edge of the chain.
    Path { ids: Vec<PathId>, attrs: Option<Vec<Attr>> },
    /// A brace-delimited block of nested statements.
    Subgraph(Vec<Statement>),
}

/// The id of a declaration: a plain node name or number, or a reserved
/// keyword (always stored lower-cased).
#[derive(Debug)]
pub enum DeclId {
    Node(String),
    Keyword(String),
}

/// One endpoint of a path: a plain node name or number, or an inline
/// anonymous subgraph of declarations.
#[derive(Debug)]
pub enum PathId {
    Node(String),
    Subgraph(Vec<Statement>),
}

/// A `key=value` attribute; both sides hold the literal text written by the
/// user (a bare quoted string is stored under the synthesized key `label`).
#[derive(Debug)]
pub struct Attr {
    pub key: String,
    pub value: String,
}

/// Spec-level mirror of [`Statement`].
#[verifier::ext_equal]
pub enum SpecStatement {
    Decl { id: SpecDeclId, attrs: Option<Seq<SpecAttr>> },
    Path { ids: Seq<SpecPathId>, attrs: Option<Seq<SpecAttr>> },
    Subgraph(Seq<SpecStatement>),
}

/// Spec-level mirror of [`DeclId`].
#[verifier::ext_equal]
pub enum SpecDeclId {
    Node(Seq<char>),
    Keyword(Seq<char>),
}

/// Spec-level mirror of [`PathId`].
#[verifier::ext_equal]
pub enum SpecPathId {
    Node(Seq<char>),
    Subgraph(Seq<SpecStatement>),
}

/// Spec-level mirror of [`Attr`].
#[verifier::ext_equal]
pub struct SpecAttr {
    pub key: Seq<char>,
    pub value: Seq<char>,
}

impl View for Attr {
    type V = SpecAttr;

    open spec fn view(&self) -> SpecAttr {
        SpecAttr { key: self.key@, value: self.value@ }
    }
}

impl View for DeclId {
    type V = SpecDeclId;

    open spec fn view(&self) -> SpecDeclId {
        match self {
            DeclId::Node(s) => SpecDeclId::Node(s@),
            DeclId::Keyword(s) => SpecDeclId::Keyword(s@),
        }
    }
}

/// The view of an optional attribute list.
pub open spec fn opt_attrs_view(attrs: Option<Vec<Attr>>) -> Option<Seq<SpecAttr>> {
    match attrs {
        None => None,
        Some(al) => Some(al@.map_values(|a: Attr| a@)),
    }
}

/// The view of one statement.
pub open spec fn stmt_view(s: Statement) -> SpecStatement
    decreases s, 1int,
{
    match s {
        Statement::Decl { id, attrs } => SpecStatement::Decl { id: id@, attrs: opt_attrs_view(attrs) },
        Statement::Path { ids, attrs } => SpecStatement::Path {
            ids: path_ids_view(ids@),
            attrs: opt_attrs_view(attrs),
        },
        Statement::Subgraph(v) => SpecStatement::Subgraph(stmts_view(v@)),
    }
}

/// The view of a sequence of statements, element by element.
pub open spec fn stmts_view(v: Seq<Statement>) -> Seq<SpecStatement>
    decreases v, 0int,
{
    Seq::new(
        v.len(),
        |i: int|
            if 0 <= i < v.len() {
                stmt_view(v[i])
            } else {
                SpecStatement::Subgraph(Seq::empty())
            },
    )
}

/// The view of one path id.
pub open spec fn path_id_view(p: PathId) -> SpecPathId
    decreases p, 1int,
{
    match p {
        PathId::Node(s) => SpecPathId::Node(s@),
        PathId::Subgraph(v) => SpecPathId::Subgraph(stmts_view(v@)),
    }
}

/// The view of a sequence of path ids, element by element.
pub open spec fn path_ids_view(v: Seq<PathId>) -> Seq<SpecPathId>
    decreases v, 0int,
{
    Seq::new(
        v.len(),
        |i: int|
            if 0 <= i < v.len() {
                path_id_view(v[i])
            } else {
                SpecPathId::Node(Seq::empty())
            },
    )
}

/// An attribute list, when present, is non-empty.
pub open spec fn wf_attrs(attrs: Option<Seq<SpecAttr>>) -> bool {
    match attrs {
        None => true,
        Some(al) => al.len() >= 1,
    }
}

/// The text of a keyword is exactly one of the four reserved words, in
/// lower case.
pub open spec fn is_keyword_text(t: Seq<char>) -> bool {
    t == seq!['n', 'o', 'd', 'e'] || t == seq!['e', 'd', 'g', 'e'] || t == seq![
        'g',
        'r',
        'a',
        'p',
        'h',
    ] || t == seq!['s', 'u', 'b', 'g', 'r', 'a', 'p', 'h']
}

/// Well-formedness of a declaration id.
pub open spec fn wf_decl_id(id: SpecDeclId) -> bool {
    match id {
        SpecDeclId::Node(_) => true,
        SpecDeclId::Keyword(t) => is_keyword_text(t),
    }
}

/// Well-formedness of one statement: a path has at least two ids, attribute
/// lists are non-empty, keywords are reserved words, a subgraph holds at
/// least one statement, and everything nested is well-formed too.
pub open spec fn wf_stmt(s: SpecStatement) -> bool
    decreases s, 1int,
{
    match s {
        SpecStatement::Decl { id, attrs } => wf_decl_id(id) && wf_attrs(attrs),
        SpecStatement::Path { ids, attrs } => ids.len() >= 2 && wf_attrs(attrs) && wf_path_ids(
            ids,
        ),
        SpecStatement::Subgraph(v) => v.len() >= 1 && wf_stmts(v),
    }
}

/// Well-formedness of every statement of a sequence.
pub open spec fn wf_stmts(v: Seq<SpecStatement>) -> bool
    decreases v, 0int,
{
    forall|i: int| 0 <= i < v.len() ==> wf_stmt(#[trigger] v[i])
}

/// Well-formedness of one path endpoint: an inline subgraph holds at least
/// one statement, and declarations only.
pub open spec fn wf_path_id(p: SpecPathId) -> bool
    decreases p, 1int,
{
    match p {
        SpecPathId::Node(_) => true,
        SpecPathId::Subgraph(v) => v.len() >= 1 && wf_stmts(v) && (forall|i: int|
            0 <= i < v.len() ==> (#[trigger] v[i]) is Decl),
    }
}

/// Well-formedness of every endpoint of a path.
pub open spec fn wf_path_ids(ids: Seq<SpecPathId>) -> bool
    decreases ids, 0int,
{
    forall|i: int| 0 <= i < ids.len() ==> wf_path_id(#[trigger] ids[i])
}

impl View for Statement {
    type V = SpecStatement;

    open spec fn view(&self) -> SpecStatement {
        stmt_view(*self)
    }
}

impl View for PathId {
    type V = SpecPathId;

    open spec fn view(&self) -> SpecPathId {
        path_id_view(*self)
    }
}

} // verus!
