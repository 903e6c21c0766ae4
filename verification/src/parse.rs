//! The record parsers: each walks the children of one indentation-tree
//! node once, dispatches every child by its keyword, and assembles one
//! typed record. Fields may appear in any order; a duplicate occurrence of
//! a non-collection field is a `DuplicateField`; an unrecognized child is
//! an `UnexpectedField` unless the record allows extension fields (only
//! `Vis` does, which ignores unrecognized children); a required field
//! absent after the walk is a `MissingField`; every other field falls back
//! to its documented default.

use vstd::prelude::*;
use crate::collections::{Array, Dict};
use crate::enums::{
    app_type_from_keyword, deployment_type_from_keyword, layout_type_from_keyword,
    provider_from_keyword, role_hierarchy_from_keyword, scope_from_keyword,
    source_type_from_keyword, spec_app_type_keyword, spec_deployment_type_keyword,
    spec_layout_type_keyword, spec_provider_keyword, spec_role_hierarchy_keyword,
    spec_scope_keyword, spec_source_type_keyword, spec_vis_type_keyword, vis_type_from_keyword,
    AppType, DeploymentType, LayoutType, Provider, RoleHierarchy, Scope, SourceType, VisType,
};
use crate::errors::{ErrorV, ParseError};
use crate::lines::{LineKind, LineKindV, LineV};
use crate::records::{
    Application, ApplicationV, DataSources, DataSourcesV, Deployment, DeploymentEnv,
    DeploymentEnvV, DeploymentV, Measurement, MeasurementV, Query, QueryV, Role, RoleV, Roles,
    RolesV, Service, ServiceV, SmartService, SmartServiceV, Version, Vis, VisV,
};
use crate::scalars::{
    spec_parse_u32, spec_parse_version_triple, parse_u32_str, parse_version_triple, uri_normal_of,
    Integer, Text, Uri,
};
use crate::strutil::str_eq_str;
use crate::tree::{lemma_nodes_view_props, node_view, nodes_view, Node, NodeV};

verus! {

/// The keyword-like text of a line: a field's keyword, a block's keyword,
/// or a bare word's phrase.
pub open spec fn kind_name(k: LineKindV) -> Seq<char> {
    match k {
        LineKindV::Field { keyword, value } => keyword,
        LineKindV::Block { keyword } => keyword,
        LineKindV::Word { phrase } => phrase,
    }
}

/// Copies the keyword-like text of a line.
pub(crate) fn kind_name_owned(k: &LineKind) -> (r: String)
    ensures
        r@ == kind_name(k@),
{
    match k {
        LineKind::Field { keyword, value } => keyword.clone(),
        LineKind::Block { keyword } => keyword.clone(),
        LineKind::Word { phrase } => phrase.clone(),
    }
}

/// A scalar field line takes no nested block: its first nested line, if
/// any, is an unexpected field of the enclosing record.
pub open spec fn leaf_guard(record: Seq<char>, node: NodeV) -> Option<ErrorV> {
    if node.children.len() > 0 {
        Some(
            ErrorV::UnexpectedField {
                record,
                field: kind_name(node.children[0].line.kind),
                line: node.children[0].line.number,
            },
        )
    } else {
        None
    }
}

/// Checks that a scalar field line has no nested lines.
fn leaf_guard_exec(record: &str, child: &Node) -> (r: Option<ParseError>)
    ensures
        match r {
            Some(e) => leaf_guard(record@, node_view(*child)) == Some(e@),
            None => leaf_guard(record@, node_view(*child)) is None,
        },
{
    proof {
        lemma_nodes_view_props(child.children@);
    }
    if child.children.len() > 0 {
        let c0 = &child.children[0];
        Some(
            ParseError::UnexpectedField {
                record: record.to_owned(),
                field: kind_name_owned(&c0.line.kind),
                line: c0.line.number,
            },
        )
    } else {
        None
    }
}


/// The view of an optional error.
pub open spec fn err_view(err: Option<ParseError>) -> Option<ErrorV> {
    match err {
        Some(e) => Some(e@),
        None => None,
    }
}

/// Accumulator of the service record walk.
pub struct SvcAcc {
    pub name: Option<Seq<char>>,
    pub ver: Option<Version>,
    pub scope: Option<Scope>,
    pub err: Option<ErrorV>,
}

/// One step of the service record walk.
pub open spec fn svc_step(acc: SvcAcc, node: NodeV) -> SvcAcc {
    if acc.err is Some {
        acc
    } else {
        match node.line.kind {
            LineKindV::Field { keyword, value } => {
                if keyword == "name"@ {
                    match leaf_guard("service"@, node) {
                        Some(e) => SvcAcc { err: Some(e), ..acc },
                        None => if acc.name is Some {
                            SvcAcc {
                                err: Some(
                                    ErrorV::DuplicateField {
                                        record: "service"@,
                                        field: "name"@,
                                        line: node.line.number,
                                    },
                                ),
                                ..acc
                            }
                        } else {
                            SvcAcc { name: Some(value), ..acc }
                        },
                    }
                } else if keyword == "version"@ {
                    match leaf_guard("service"@, node) {
                        Some(e) => SvcAcc { err: Some(e), ..acc },
                        None => if acc.ver is Some {
                            SvcAcc {
                                err: Some(
                                    ErrorV::DuplicateField {
                                        record: "service"@,
                                        field: "version"@,
                                        line: node.line.number,
                                    },
                                ),
                                ..acc
                            }
                        } else {
                            match spec_parse_version_triple(value) {
                                Some(t) => SvcAcc {
                                    ver: Some(
                                        Version {
                                            major: Integer(t.0),
                                            minor: Integer(t.1),
                                            patch: Integer(t.2),
                                        },
                                    ),
                                    ..acc
                                },
                                None => SvcAcc {
                                    err: Some(
                                        ErrorV::CoercionError { kind: "Version"@, text: value },
                                    ),
                                    ..acc
                                },
                            }
                        },
                    }
                } else if keyword == "scope"@ {
                    match leaf_guard("service"@, node) {
                        Some(e) => SvcAcc { err: Some(e), ..acc },
                        None => if acc.scope is Some {
                            SvcAcc {
                                err: Some(
                                    ErrorV::DuplicateField {
                                        record: "service"@,
                                        field: "scope"@,
                                        line: node.line.number,
                                    },
                                ),
                                ..acc
                            }
                        } else {
                            match spec_scope_keyword(value) {
                                Some(sc) => SvcAcc { scope: Some(sc), ..acc },
                                None => SvcAcc { scope: Some(Scope::Service), ..acc },
                            }
                        },
                    }
                } else {
                    SvcAcc {
                        err: Some(
                            ErrorV::UnexpectedField {
                                record: "service"@,
                                field: keyword,
                                line: node.line.number,
                            },
                        ),
                        ..acc
                    }
                }
            },
            _ => SvcAcc {
                err: Some(
                    ErrorV::UnexpectedField {
                        record: "service"@,
                        field: kind_name(node.line.kind),
                        line: node.line.number,
                    },
                ),
                ..acc
            },
        }
    }
}

/// The service record walk over children `i..`.
pub open spec fn svc_fold(children: Seq<NodeV>, i: int, acc: SvcAcc) -> SvcAcc
    decreases children.len() - i,
{
    if i < 0 || i >= children.len() {
        acc
    } else {
        svc_fold(children, i + 1, svc_step(acc, children[i]))
    }
}

/// The view of the exec accumulator of the service walk.
pub open spec fn svc_acc_of(
    name: Option<Text>,
    ver: Option<Version>,
    scope: Option<Scope>,
    err: Option<ParseError>,
) -> SvcAcc {
    SvcAcc {
        name: match name {
            Some(t) => Some(t@),
            None => None,
        },
        ver,
        scope,
        err: match err {
            Some(e) => Some(e@),
            None => None,
        },
    }
}

/// The service section a node denotes: its `name` and `version` fields are
/// required, `scope` falls back to `Scope::Service` both when absent and
/// on an unrecognized keyword.
pub open spec fn spec_parse_service(header: LineV, children: Seq<NodeV>) -> Result<
    ServiceV,
    ErrorV,
> {
    let acc = svc_fold(
        children,
        0,
        SvcAcc { name: None, ver: None, scope: None, err: None },
    );
    match acc.err {
        Some(e) => Err(e),
        None => match acc.name {
            None => Err(
                ErrorV::MissingField { record: "service"@, field: "name"@, line: header.number },
            ),
            Some(nm) => match acc.ver {
                None => Err(
                    ErrorV::MissingField {
                        record: "service"@,
                        field: "version"@,
                        line: header.number,
                    },
                ),
                Some(v) => Ok(
                    ServiceV {
                        version: v,
                        name: nm,
                        scope: match acc.scope {
                            Some(sc) => sc,
                            None => Scope::Service,
                        },
                    },
                ),
            },
        },
    }
}

/// Parses the service section from its block node.
pub fn parse_service_node(node: &Node) -> (r: Result<Service, ParseError>)
    ensures
        r is Ok ==> spec_parse_service(node@.line, node@.children) == Ok::<ServiceV, ErrorV>(
            r->Ok_0@,
        ),
        r is Err ==> spec_parse_service(node@.line, node@.children) == Err::<ServiceV, ErrorV>(
            r->Err_0@,
        ),
{
    let ghost cs = node@.children;
    proof {
        lemma_nodes_view_props(node.children@);
    }
    let n = node.children.len();
    let mut name: Option<Text> = None;
    let mut ver: Option<Version> = None;
    let mut scope: Option<Scope> = None;
    let mut err: Option<ParseError> = None;
    let mut i: usize = 0;
    while i < n
        invariant
            n == node.children@.len(),
            i <= n,
            cs == nodes_view(node.children@),
            cs.len() == n,
            svc_fold(cs, 0, SvcAcc { name: None, ver: None, scope: None, err: None }) == svc_fold(
                cs,
                i as int,
                svc_acc_of(name, ver, scope, err),
            ),
        decreases n - i,
    {
        proof {
            lemma_nodes_view_props(node.children@);
            assert(cs[i as int] == node_view(node.children@[i as int]));
        }
        let child = &node.children[i];
        let ghost acc0 = svc_acc_of(name, ver, scope, err);
        if err.is_none() {
            match &child.line.kind {
                LineKind::Field { keyword, value } => {
                    if str_eq_str(keyword.as_str(), "name") {
                        match leaf_guard_exec("service", child) {
                            Some(e) => {
                                err = Some(e);
                            },
                            None => {
                                if name.is_some() {
                                    err = Some(
                                        ParseError::DuplicateField {
                                            record: "service".to_owned(),
                                            field: "name".to_owned(),
                                            line: child.line.number,
                                        },
                                    );
                                } else {
                                    name = Some(Text(value.clone()));
                                }
                            },
                        }
                    } else if str_eq_str(keyword.as_str(), "version") {
                        match leaf_guard_exec("service", child) {
                            Some(e) => {
                                err = Some(e);
                            },
                            None => {
                                if ver.is_some() {
                                    err = Some(
                                        ParseError::DuplicateField {
                                            record: "service".to_owned(),
                                            field: "version".to_owned(),
                                            line: child.line.number,
                                        },
                                    );
                                } else {
                                    match parse_version_triple(value.as_str()) {
                                        Some(t) => {
                                            ver = Some(Version::new(t.0, t.1, t.2));
                                        },
                                        None => {
                                            err = Some(
                                                ParseError::CoercionError {
                                                    kind: "Version".to_owned(),
                                                    text: value.clone(),
                                                },
                                            );
                                        },
                                    }
                                }
                            },
                        }
                    } else if str_eq_str(keyword.as_str(), "scope") {
                        match leaf_guard_exec("service", child) {
                            Some(e) => {
                                err = Some(e);
                            },
                            None => {
                                if scope.is_some() {
                                    err = Some(
                                        ParseError::DuplicateField {
                                            record: "service".to_owned(),
                                            field: "scope".to_owned(),
                                            line: child.line.number,
                                        },
                                    );
                                } else {
                                    match scope_from_keyword(value.as_str()) {
                                        Some(sc) => {
                                            scope = Some(sc);
                                        },
                                        None => {
                                            scope = Some(Scope::Service);
                                        },
                                    }
                                }
                            },
                        }
                    } else {
                        err = Some(
                            ParseError::UnexpectedField {
                                record: "service".to_owned(),
                                field: keyword.clone(),
                                line: child.line.number,
                            },
                        );
                    }
                },
                _ => {
                    err = Some(
                        ParseError::UnexpectedField {
                            record: "service".to_owned(),
                            field: kind_name_owned(&child.line.kind),
                            line: child.line.number,
                        },
                    );
                },
            }
        }
        proof {
            assert(svc_acc_of(name, ver, scope, err) == svc_step(acc0, cs[i as int]));
        }
        i = i + 1;
    }
    match err {
        Some(e) => Err(e),
        None => match name {
            None => Err(
                ParseError::MissingField {
                    record: "service".to_owned(),
                    field: "name".to_owned(),
                    line: node.line.number,
                },
            ),
            Some(nm) => match ver {
                None => Err(
                    ParseError::MissingField {
                        record: "service".to_owned(),
                        field: "version".to_owned(),
                        line: node.line.number,
                    },
                ),
                Some(v) => Ok(
                    Service {
                        version: v,
                        name: nm,
                        scope: match scope {
                            Some(sc) => sc,
                            None => Scope::Service,
                        },
                    },
                ),
            },
        },
    }
}


/// Accumulator of a word-array walk.
pub struct WordsAcc {
    pub items: Seq<Seq<char>>,
    pub err: Option<ErrorV>,
}

/// One step of a word-array walk: every child must be a bare word without
/// nested lines; each becomes one element, in source order.
pub open spec fn words_step(record: Seq<char>, acc: WordsAcc, node: NodeV) -> WordsAcc {
    if acc.err is Some {
        acc
    } else {
        match node.line.kind {
            LineKindV::Word { phrase } => {
                match leaf_guard(record, node) {
                    Some(e) => WordsAcc { err: Some(e), ..acc },
                    None => WordsAcc { items: acc.items.push(phrase), ..acc },
                }
            },
            _ => WordsAcc {
                err: Some(
                    ErrorV::UnexpectedField {
                        record,
                        field: kind_name(node.line.kind),
                        line: node.line.number,
                    },
                ),
                ..acc
            },
        }
    }
}

/// The word-array walk over children `i..`.
pub open spec fn words_fold(record: Seq<char>, children: Seq<NodeV>, i: int, acc: WordsAcc) -> WordsAcc
    decreases children.len() - i,
{
    if i < 0 || i >= children.len() {
        acc
    } else {
        words_fold(record, children, i + 1, words_step(record, acc, children[i]))
    }
}

/// The ordered element texts an array block denotes.
pub open spec fn spec_parse_words(record: Seq<char>, children: Seq<NodeV>) -> Result<
    Seq<Seq<char>>,
    ErrorV,
> {
    let acc = words_fold(record, children, 0, WordsAcc { items: Seq::empty(), err: None });
    match acc.err {
        Some(e) => Err(e),
        None => Ok(acc.items),
    }
}

/// The views of a sequence of texts.
pub open spec fn texts_view(s: Seq<Text>) -> Seq<Seq<char>> {
    Seq::new(s.len(), |i: int| s[i]@)
}

/// The view of the exec accumulator of a word-array walk.
pub open spec fn words_acc_of(items: Vec<Text>, err: Option<ParseError>) -> WordsAcc {
    WordsAcc {
        items: texts_view(items@),
        err: match err {
            Some(e) => Some(e@),
            None => None,
        },
    }
}

/// Parses an array block of bare words.
pub fn parse_words_node(record: &str, node: &Node) -> (r: Result<Array<Text>, ParseError>)
    ensures
        r is Ok ==> spec_parse_words(record@, node@.children) == Ok::<Seq<Seq<char>>, ErrorV>(
            r->Ok_0@,
        ),
        r is Err ==> spec_parse_words(record@, node@.children) == Err::<Seq<Seq<char>>, ErrorV>(
            r->Err_0@,
        ),
{
    let ghost cs = node@.children;
    proof {
        lemma_nodes_view_props(node.children@);
    }
    let n = node.children.len();
    let mut items: Vec<Text> = Vec::new();
    let mut err: Option<ParseError> = None;
    let mut i: usize = 0;
    proof {
        assert(texts_view(items@) =~= Seq::<Seq<char>>::empty());
    }
    while i < n
        invariant
            n == node.children@.len(),
            i <= n,
            cs == nodes_view(node.children@),
            cs.len() == n,
            words_fold(record@, cs, 0, WordsAcc { items: Seq::empty(), err: None })
                == words_fold(record@, cs, i as int, words_acc_of(items, err)),
        decreases n - i,
    {
        proof {
            lemma_nodes_view_props(node.children@);
            assert(cs[i as int] == node_view(node.children@[i as int]));
        }
        let child = &node.children[i];
        let ghost acc0 = words_acc_of(items, err);
        if err.is_none() {
            match &child.line.kind {
                LineKind::Word { phrase } => {
                    match leaf_guard_exec(record, child) {
                        Some(e) => {
                            err = Some(e);
                        },
                        None => {
                            let ghost before = items@;
                            items.push(Text(phrase.clone()));
                            proof {
                                assert(texts_view(items@) =~= texts_view(before).push(phrase@));
                            }
                        },
                    }
                },
                _ => {
                    err = Some(
                        ParseError::UnexpectedField {
                            record: record.to_owned(),
                            field: kind_name_owned(&child.line.kind),
                            line: child.line.number,
                        },
                    );
                },
            }
        }
        proof {
            assert(words_acc_of(items, err) == words_step(record@, acc0, cs[i as int]));
        }
        i = i + 1;
    }
    match err {
        Some(e) => Err(e),
        None => Ok(Array(items)),
    }
}


/// One step of the extension-map walk: a field line binds its keyword to
/// its value, later bindings overwriting earlier ones; anything else is
/// ignored, as the enclosing visualization record allows extension fields.
pub open spec fn extra_step(m: Map<Seq<char>, Seq<char>>, node: NodeV) -> Map<Seq<char>, Seq<char>> {
    match node.line.kind {
        LineKindV::Field { keyword, value } => m.insert(keyword, value),
        _ => m,
    }
}

/// The extension-map walk over children `i..`.
pub open spec fn extra_fold(children: Seq<NodeV>, i: int, m: Map<Seq<char>, Seq<char>>) -> Map<
    Seq<char>,
    Seq<char>,
>
    decreases children.len() - i,
{
    if i < 0 || i >= children.len() {
        m
    } else {
        extra_fold(children, i + 1, extra_step(m, children[i]))
    }
}

/// The key/value map an `extra` block denotes; this never fails.
pub open spec fn spec_parse_extra(children: Seq<NodeV>) -> Map<Seq<char>, Seq<char>> {
    extra_fold(children, 0, Map::empty())
}

/// Parses an `extra` extension block into a key-unique mapping.
pub fn parse_extra_node(node: &Node) -> (r: Dict<Text>)
    ensures
        r@ == spec_parse_extra(node@.children),
        r.wf(),
{
    let ghost cs = node@.children;
    proof {
        lemma_nodes_view_props(node.children@);
    }
    let n = node.children.len();
    let mut d: Dict<Text> = Dict::new();
    let mut i: usize = 0;
    while i < n
        invariant
            n == node.children@.len(),
            i <= n,
            cs == nodes_view(node.children@),
            cs.len() == n,
            d.wf(),
            extra_fold(cs, 0, Map::empty()) == extra_fold(cs, i as int, d@),
        decreases n - i,
    {
        proof {
            lemma_nodes_view_props(node.children@);
            assert(cs[i as int] == node_view(node.children@[i as int]));
        }
        let child = &node.children[i];
        let ghost m0 = d@;
        match &child.line.kind {
            LineKind::Field { keyword, value } => {
                d.insert(Text(keyword.clone()), Text(value.clone()));
            },
            _ => {},
        }
        proof {
            assert(d@ == extra_step(m0, cs[i as int]));
        }
        i = i + 1;
    }
    d
}

/// Accumulator of the query record walk.
pub struct QAcc {
    pub typ: Option<Seq<char>>,
    pub select: Option<Seq<Seq<char>>>,
    pub err: Option<ErrorV>,
}

/// One step of the query record walk.
pub open spec fn q_step(acc: QAcc, node: NodeV) -> QAcc {
    if acc.err is Some {
        acc
    } else {
        match node.line.kind {
            LineKindV::Field { keyword, value } => {
                if keyword == "type"@ {
                    match leaf_guard("query"@, node) {
                        Some(e) => QAcc { err: Some(e), ..acc },
                        None => if acc.typ is Some {
                            QAcc {
                                err: Some(
                                    ErrorV::DuplicateField {
                                        record: "query"@,
                                        field: "type"@,
                                        line: node.line.number,
                                    },
                                ),
                                ..acc
                            }
                        } else {
                            QAcc { typ: Some(value), ..acc }
                        },
                    }
                } else {
                    QAcc {
                        err: Some(
                            ErrorV::UnexpectedField {
                                record: "query"@,
                                field: keyword,
                                line: node.line.number,
                            },
                        ),
                        ..acc
                    }
                }
            },
            LineKindV::Block { keyword } => {
                if keyword == "select"@ {
                    if acc.select is Some {
                        QAcc {
                            err: Some(
                                ErrorV::DuplicateField {
                                    record: "query"@,
                                    field: "select"@,
                                    line: node.line.number,
                                },
                            ),
                            ..acc
                        }
                    } else {
                        match spec_parse_words("query"@, node.children) {
                            Ok(ws) => QAcc { select: Some(ws), ..acc },
                            Err(e) => QAcc { err: Some(e), ..acc },
                        }
                    }
                } else {
                    QAcc {
                        err: Some(
                            ErrorV::UnexpectedField {
                                record: "query"@,
                                field: keyword,
                                line: node.line.number,
                            },
                        ),
                        ..acc
                    }
                }
            },
            LineKindV::Word { phrase } => QAcc {
                err: Some(
                    ErrorV::UnexpectedField {
                        record: "query"@,
                        field: phrase,
                        line: node.line.number,
                    },
                ),
                ..acc
            },
        }
    }
}

/// The query record walk over children `i..`.
pub open spec fn q_fold(children: Seq<NodeV>, i: int, acc: QAcc) -> QAcc
    decreases children.len() - i,
{
    if i < 0 || i >= children.len() {
        acc
    } else {
        q_fold(children, i + 1, q_step(acc, children[i]))
    }
}

/// The view of the exec accumulator of the query walk.
pub open spec fn q_acc_of(typ: Option<Text>, select: Option<Array<Text>>, err: Option<ParseError>) -> QAcc {
    QAcc {
        typ: match typ {
            Some(t) => Some(t@),
            None => None,
        },
        select: match select {
            Some(a) => Some(a@),
            None => None,
        },
        err: match err {
            Some(e) => Some(e@),
            None => None,
        },
    }
}

/// The query record a `query` block denotes: its type tag defaults to the
/// empty text and its selection to the empty array.
pub open spec fn spec_parse_query(node: NodeV) -> Result<QueryV, ErrorV> {
    let acc = q_fold(node.children, 0, QAcc { typ: None, select: None, err: None });
    match acc.err {
        Some(e) => Err(e),
        None => Ok(
            QueryV {
                typ: match acc.typ {
                    Some(t) => t,
                    None => Seq::empty(),
                },
                select: match acc.select {
                    Some(ws) => ws,
                    None => Seq::empty(),
                },
            },
        ),
    }
}

/// Parses a `query` block.
pub fn parse_query_node(node: &Node) -> (r: Result<Query, ParseError>)
    ensures
        r is Ok ==> spec_parse_query(node@) == Ok::<QueryV, ErrorV>(r->Ok_0@),
        r is Err ==> spec_parse_query(node@) == Err::<QueryV, ErrorV>(r->Err_0@),
{
    let ghost cs = node@.children;
    proof {
        lemma_nodes_view_props(node.children@);
    }
    let n = node.children.len();
    let mut typ: Option<Text> = None;
    let mut select: Option<Array<Text>> = None;
    let mut err: Option<ParseError> = None;
    let mut i: usize = 0;
    while i < n
        invariant
            n == node.children@.len(),
            i <= n,
            cs == nodes_view(node.children@),
            cs.len() == n,
            q_fold(cs, 0, QAcc { typ: None, select: None, err: None }) == q_fold(
                cs,
                i as int,
                q_acc_of(typ, select, err),
            ),
        decreases n - i,
    {
        proof {
            lemma_nodes_view_props(node.children@);
            assert(cs[i as int] == node_view(node.children@[i as int]));
        }
        let child = &node.children[i];
        let ghost acc0 = q_acc_of(typ, select, err);
        if err.is_none() {
            match &child.line.kind {
                LineKind::Field { keyword, value } => {
                    if str_eq_str(keyword.as_str(), "type") {
                        match leaf_guard_exec("query", child) {
                            Some(e) => {
                                err = Some(e);
                            },
                            None => {
                                if typ.is_some() {
                                    err = Some(
                                        ParseError::DuplicateField {
                                            record: "query".to_owned(),
                                            field: "type".to_owned(),
                                            line: child.line.number,
                                        },
                                    );
                                } else {
                                    typ = Some(Text(value.clone()));
                                }
                            },
                        }
                    } else {
                        err = Some(
                            ParseError::UnexpectedField {
                                record: "query".to_owned(),
                                field: keyword.clone(),
                                line: child.line.number,
                            },
                        );
                    }
                },
                LineKind::Block { keyword } => {
                    if str_eq_str(keyword.as_str(), "select") {
                        if select.is_some() {
                            err = Some(
                                ParseError::DuplicateField {
                                    record: "query".to_owned(),
                                    field: "select".to_owned(),
                                    line: child.line.number,
                                },
                            );
                        } else {
                            match parse_words_node("query", child) {
                                Ok(ws) => {
                                    select = Some(ws);
                                },
                                Err(e) => {
                                    err = Some(e);
                                },
                            }
                        }
                    } else {
                        err = Some(
                            ParseError::UnexpectedField {
                                record: "query".to_owned(),
                                field: keyword.clone(),
                                line: child.line.number,
                            },
                        );
                    }
                },
                LineKind::Word { phrase } => {
                    err = Some(
                        ParseError::UnexpectedField {
                            record: "query".to_owned(),
                            field: phrase.clone(),
                            line: child.line.number,
                        },
                    );
                },
            }
        }
        proof {
            assert(q_acc_of(typ, select, err) == q_step(acc0, cs[i as int]));
        }
        i = i + 1;
    }
    match err {
        Some(e) => Err(e),
        None => {
            let q = Query {
                typ: match typ {
                    Some(t) => t,
                    None => Text(String::new()),
                },
                select: match select {
                    Some(a) => a,
                    None => Array(Vec::new()),
                },
            };
            proof {
                assert(q@.typ =~= (match q_fold(
                    cs,
                    0,
                    QAcc { typ: None, select: None, err: None },
                ).typ {
                    Some(t) => t,
                    None => Seq::<char>::empty(),
                }));
                assert(q@.select =~= (match q_fold(
                    cs,
                    0,
                    QAcc { typ: None, select: None, err: None },
                ).select {
                    Some(ws) => ws,
                    None => Seq::<Seq<char>>::empty(),
                }));
            }
            Ok(q)
        },
    }
}


/// Accumulator of the custom-role walk.
pub struct RAcc {
    pub hier: Option<RoleHierarchy>,
    pub err: Option<ErrorV>,
}

/// One step of the custom-role walk.
pub open spec fn role_step(acc: RAcc, node: NodeV) -> RAcc {
    if acc.err is Some {
        acc
    } else {
        match node.line.kind {
            LineKindV::Field { keyword, value } => {
                if keyword == "hierarchy"@ {
                    match leaf_guard("role"@, node) {
                        Some(e) => RAcc { err: Some(e), ..acc },
                        None => if acc.hier is Some {
                            RAcc {
                                err: Some(
                                    ErrorV::DuplicateField {
                                        record: "role"@,
                                        field: "hierarchy"@,
                                        line: node.line.number,
                                    },
                                ),
                                ..acc
                            }
                        } else {
                            match spec_role_hierarchy_keyword(value) {
                                Some(h) => RAcc { hier: Some(h), ..acc },
                                None => RAcc { hier: Some(RoleHierarchy::User), ..acc },
                            }
                        },
                    }
                } else {
                    RAcc {
                        err: Some(
                            ErrorV::UnexpectedField {
                                record: "role"@,
                                field: keyword,
                                line: node.line.number,
                            },
                        ),
                        ..acc
                    }
                }
            },
            _ => RAcc {
                err: Some(
                    ErrorV::UnexpectedField {
                        record: "role"@,
                        field: kind_name(node.line.kind),
                        line: node.line.number,
                    },
                ),
                ..acc
            },
        }
    }
}

/// The custom-role walk over children `i..`.
pub open spec fn role_fold(children: Seq<NodeV>, i: int, acc: RAcc) -> RAcc
    decreases children.len() - i,
{
    if i < 0 || i >= children.len() {
        acc
    } else {
        role_fold(children, i + 1, role_step(acc, children[i]))
    }
}

/// The custom role a block under `roles` denotes: its name is the block's
/// keyword and its hierarchy defaults to `User`.
pub open spec fn spec_parse_role(name: Seq<char>, node: NodeV) -> Result<RoleV, ErrorV> {
    let acc = role_fold(node.children, 0, RAcc { hier: None, err: None });
    match acc.err {
        Some(e) => Err(e),
        None => Ok(
            RoleV {
                name,
                hierarchy: match acc.hier {
                    Some(h) => h,
                    None => RoleHierarchy::User,
                },
            },
        ),
    }
}

/// Parses a custom role block named by its keyword.
pub fn parse_role_node(name: Text, node: &Node) -> (r: Result<Role, ParseError>)
    ensures
        r is Ok ==> spec_parse_role(name@, node@) == Ok::<RoleV, ErrorV>(r->Ok_0@),
        r is Err ==> spec_parse_role(name@, node@) == Err::<RoleV, ErrorV>(r->Err_0@),
{
    let ghost cs = node@.children;
    proof {
        lemma_nodes_view_props(node.children@);
    }
    let n = node.children.len();
    let mut hier: Option<RoleHierarchy> = None;
    let mut err: Option<ParseError> = None;
    let mut i: usize = 0;
    while i < n
        invariant
            n == node.children@.len(),
            i <= n,
            cs == nodes_view(node.children@),
            cs.len() == n,
            role_fold(cs, 0, RAcc { hier: None, err: None }) == role_fold(
                cs,
                i as int,
                RAcc { hier, err: err_view(err) },
            ),
        decreases n - i,
    {
        proof {
            lemma_nodes_view_props(node.children@);
            assert(cs[i as int] == node_view(node.children@[i as int]));
        }
        let child = &node.children[i];
        let ghost acc0 = RAcc { hier, err: err_view(err) };
        if err.is_none() {
            match &child.line.kind {
                LineKind::Field { keyword, value } => {
                    if str_eq_str(keyword.as_str(), "hierarchy") {
                        match leaf_guard_exec("role", child) {
                            Some(e) => {
                                err = Some(e);
                            },
                            None => {
                                if hier.is_some() {
                                    err = Some(
                                        ParseError::DuplicateField {
                                            record: "role".to_owned(),
                                            field: "hierarchy".to_owned(),
                                            line: child.line.number,
                                        },
                                    );
                                } else {
                                    match role_hierarchy_from_keyword(value.as_str()) {
                                        Some(h) => {
                                            hier = Some(h);
                                        },
                                        None => {
                                            hier = Some(RoleHierarchy::User);
                                        },
                                    }
                                }
                            },
                        }
                    } else {
                        err = Some(
                            ParseError::UnexpectedField {
                                record: "role".to_owned(),
                                field: keyword.clone(),
                                line: child.line.number,
                            },
                        );
                    }
                },
                _ => {
                    err = Some(
                        ParseError::UnexpectedField {
                            record: "role".to_owned(),
                            field: kind_name_owned(&child.line.kind),
                            line: child.line.number,
                        },
                    );
                },
            }
        }
        proof {
            assert(RAcc { hier, err: err_view(err) } == role_step(acc0, cs[i as int]));
        }
        i = i + 1;
    }
    match err {
        Some(e) => Err(e),
        None => Ok(
            Role {
                name,
                hierarchy: match hier {
                    Some(h) => h,
                    None => RoleHierarchy::User,
                },
            },
        ),
    }
}

/// Accumulator of the roles-array walk.
pub struct RolesAcc {
    pub items: Seq<RolesV>,
    pub err: Option<ErrorV>,
}

/// One step of the roles-array walk: a bare built-in keyword yields that
/// built-in role; an unrecognized bare keyword is an `UnknownVariant`,
/// since an array element has no default to fall back to; a nested block
/// yields a custom role named by the block's keyword.
pub open spec fn roles_step(acc: RolesAcc, node: NodeV) -> RolesAcc {
    if acc.err is Some {
        acc
    } else {
        match node.line.kind {
            LineKindV::Word { phrase } => {
                match leaf_guard("roles"@, node) {
                    Some(e) => RolesAcc { err: Some(e), ..acc },
                    None => if phrase == "User"@ {
                        RolesAcc { items: acc.items.push(RolesV::User), ..acc }
                    } else if phrase == "Superuser"@ {
                        RolesAcc { items: acc.items.push(RolesV::Superuser), ..acc }
                    } else if phrase == "Admin"@ {
                        RolesAcc { items: acc.items.push(RolesV::Admin), ..acc }
                    } else {
                        RolesAcc {
                            err: Some(ErrorV::UnknownVariant { kind: "Roles"@, text: phrase }),
                            ..acc
                        }
                    },
                }
            },
            LineKindV::Block { keyword } => {
                match spec_parse_role(keyword, node) {
                    Ok(rv) => RolesAcc { items: acc.items.push(RolesV::Custom(rv)), ..acc },
                    Err(e) => RolesAcc { err: Some(e), ..acc },
                }
            },
            LineKindV::Field { keyword, value } => RolesAcc {
                err: Some(
                    ErrorV::UnexpectedField {
                        record: "roles"@,
                        field: keyword,
                        line: node.line.number,
                    },
                ),
                ..acc
            },
        }
    }
}

/// The roles-array walk over children `i..`.
pub open spec fn roles_fold(children: Seq<NodeV>, i: int, acc: RolesAcc) -> RolesAcc
    decreases children.len() - i,
{
    if i < 0 || i >= children.len() {
        acc
    } else {
        roles_fold(children, i + 1, roles_step(acc, children[i]))
    }
}

/// The ordered role grants a `roles` block denotes.
pub open spec fn spec_parse_roles(children: Seq<NodeV>) -> Result<Seq<RolesV>, ErrorV> {
    let acc = roles_fold(children, 0, RolesAcc { items: Seq::empty(), err: None });
    match acc.err {
        Some(e) => Err(e),
        None => Ok(acc.items),
    }
}

/// The views of a sequence of role grants.
pub open spec fn roles_view(s: Seq<Roles>) -> Seq<RolesV> {
    Seq::new(s.len(), |i: int| s[i]@)
}

/// Parses a `roles` block.
pub fn parse_roles_node(node: &Node) -> (r: Result<Array<Roles>, ParseError>)
    ensures
        r is Ok ==> spec_parse_roles(node@.children) == Ok::<Seq<RolesV>, ErrorV>(r->Ok_0@),
        r is Err ==> spec_parse_roles(node@.children) == Err::<Seq<RolesV>, ErrorV>(r->Err_0@),
{
    let ghost cs = node@.children;
    proof {
        lemma_nodes_view_props(node.children@);
    }
    let n = node.children.len();
    let mut items: Vec<Roles> = Vec::new();
    let mut err: Option<ParseError> = None;
    let mut i: usize = 0;
    proof {
        assert(roles_view(items@) =~= Seq::<RolesV>::empty());
    }
    while i < n
        invariant
            n == node.children@.len(),
            i <= n,
            cs == nodes_view(node.children@),
            cs.len() == n,
            roles_fold(cs, 0, RolesAcc { items: Seq::empty(), err: None }) == roles_fold(
                cs,
                i as int,
                RolesAcc { items: roles_view(items@), err: err_view(err) },
            ),
        decreases n - i,
    {
        proof {
            lemma_nodes_view_props(node.children@);
            assert(cs[i as int] == node_view(node.children@[i as int]));
        }
        let child = &node.children[i];
        let ghost acc0 = RolesAcc { items: roles_view(items@), err: err_view(err) };
        if err.is_none() {
            match &child.line.kind {
                LineKind::Word { phrase } => {
                    match leaf_guard_exec("roles", child) {
                        Some(e) => {
                            err = Some(e);
                        },
                        None => {
                            let ghost before = items@;
                            if str_eq_str(phrase.as_str(), "User") {
                                items.push(Roles::User);
                            } else if str_eq_str(phrase.as_str(), "Superuser") {
                                items.push(Roles::Superuser);
                            } else if str_eq_str(phrase.as_str(), "Admin") {
                                items.push(Roles::Admin);
                            } else {
                                err = Some(
                                    ParseError::UnknownVariant {
                                        kind: "Roles".to_owned(),
                                        text: phrase.clone(),
                                    },
                                );
                            }
                            proof {
                                if items@.len() > before.len() {
                                    assert(roles_view(items@) =~= roles_view(before).push(
                                        items@.last()@,
                                    ));
                                }
                            }
                        },
                    }
                },
                LineKind::Block { keyword } => {
                    let ghost before = items@;
                    match parse_role_node(Text(keyword.clone()), child) {
                        Ok(role) => {
                            items.push(Roles::Custom(role));
                            proof {
                                assert(roles_view(items@) =~= roles_view(before).push(
                                    items@.last()@,
                                ));
                            }
                        },
                        Err(e) => {
                            err = Some(e);
                        },
                    }
                },
                LineKind::Field { keyword, value } => {
                    err = Some(
                        ParseError::UnexpectedField {
                            record: "roles".to_owned(),
                            field: keyword.clone(),
                            line: child.line.number,
                        },
                    );
                },
            }
        }
        proof {
            assert(RolesAcc { items: roles_view(items@), err: err_view(err) } == roles_step(
                acc0,
                cs[i as int],
            ));
        }
        i = i + 1;
    }
    match err {
        Some(e) => Err(e),
        None => {
            let out = Array(items);
            proof {
                assert(out@ =~= roles_view(items@));
            }
            Ok(out)
        },
    }
}


/// Accumulator of the measurement record walk.
pub struct MAcc {
    pub provider: Option<Provider>,
    pub typ: Option<SourceType>,
    pub uri: Option<Seq<char>>,
    pub query: Option<QueryV>,
    pub err: Option<ErrorV>,
}

/// One step of the measurement record walk.
pub open spec fn m_step(acc: MAcc, node: NodeV) -> MAcc {
    if acc.err is Some {
        acc
    } else {
        match node.line.kind {
            LineKindV::Field { keyword, value } => {
                if keyword == "provider"@ {
                    match leaf_guard("measurement"@, node) {
                        Some(e) => MAcc { err: Some(e), ..acc },
                        None => if acc.provider is Some {
                            MAcc {
                                err: Some(
                                    ErrorV::DuplicateField {
                                        record: "measurement"@,
                                        field: "provider"@,
                                        line: node.line.number,
                                    },
                                ),
                                ..acc
                            }
                        } else {
                            match spec_provider_keyword(value) {
                                Some(p) => MAcc { provider: Some(p), ..acc },
                                None => MAcc { provider: Some(Provider::Unknown), ..acc },
                            }
                        },
                    }
                } else if keyword == "type"@ {
                    match leaf_guard("measurement"@, node) {
                        Some(e) => MAcc { err: Some(e), ..acc },
                        None => if acc.typ is Some {
                            MAcc {
                                err: Some(
                                    ErrorV::DuplicateField {
                                        record: "measurement"@,
                                        field: "type"@,
                                        line: node.line.number,
                                    },
                                ),
                                ..acc
                            }
                        } else {
                            match spec_source_type_keyword(value) {
                                Some(t) => MAcc { typ: Some(t), ..acc },
                                None => MAcc { typ: Some(SourceType::Other), ..acc },
                            }
                        },
                    }
                } else if keyword == "uri"@ {
                    match leaf_guard("measurement"@, node) {
                        Some(e) => MAcc { err: Some(e), ..acc },
                        None => if acc.uri is Some {
                            MAcc {
                                err: Some(
                                    ErrorV::DuplicateField {
                                        record: "measurement"@,
                                        field: "uri"@,
                                        line: node.line.number,
                                    },
                                ),
                                ..acc
                            }
                        } else {
                            match uri_normal_of(value) {
                                Some(t) => MAcc { uri: Some(t), ..acc },
                                None => MAcc {
                                    err: Some(ErrorV::CoercionError { kind: "Uri"@, text: value }),
                                    ..acc
                                },
                            }
                        },
                    }
                } else {
                    MAcc {
                        err: Some(
                            ErrorV::UnexpectedField {
                                record: "measurement"@,
                                field: keyword,
                                line: node.line.number,
                            },
                        ),
                        ..acc
                    }
                }
            },
            LineKindV::Block { keyword } => {
                if keyword == "query"@ {
                    if acc.query is Some {
                        MAcc {
                            err: Some(
                                ErrorV::DuplicateField {
                                    record: "measurement"@,
                                    field: "query"@,
                                    line: node.line.number,
                                },
                            ),
                            ..acc
                        }
                    } else {
                        match spec_parse_query(node) {
                            Ok(q) => MAcc { query: Some(q), ..acc },
                            Err(e) => MAcc { err: Some(e), ..acc },
                        }
                    }
                } else {
                    MAcc {
                        err: Some(
                            ErrorV::UnexpectedField {
                                record: "measurement"@,
                                field: keyword,
                                line: node.line.number,
                            },
                        ),
                        ..acc
                    }
                }
            },
            LineKindV::Word { phrase } => MAcc {
                err: Some(
                    ErrorV::UnexpectedField {
                        record: "measurement"@,
                        field: phrase,
                        line: node.line.number,
                    },
                ),
                ..acc
            },
        }
    }
}

/// The measurement record walk over children `i..`.
pub open spec fn m_fold(children: Seq<NodeV>, i: int, acc: MAcc) -> MAcc
    decreases children.len() - i,
{
    if i < 0 || i >= children.len() {
        acc
    } else {
        m_fold(children, i + 1, m_step(acc, children[i]))
    }
}

/// The view of the exec accumulator of the measurement walk.
pub open spec fn m_acc_of(
    provider: Option<Provider>,
    typ: Option<SourceType>,
    uri: Option<Uri>,
    query: Option<Query>,
    err: Option<ParseError>,
) -> MAcc {
    MAcc {
        provider,
        typ,
        uri: match uri {
            Some(u) => Some(u@),
            None => None,
        },
        query: match query {
            Some(q) => Some(q@),
            None => None,
        },
        err: err_view(err),
    }
}

/// The measurement a block under `data_sources` denotes: its name is the
/// block's keyword; `provider` defaults to `Unknown`, `type` to `Other`,
/// the URI to the normalized `http://localhost/` and the query to an
/// empty query.
pub open spec fn spec_parse_measurement(name: Seq<char>, node: NodeV) -> Result<
    MeasurementV,
    ErrorV,
> {
    let acc = m_fold(
        node.children,
        0,
        MAcc { provider: None, typ: None, uri: None, query: None, err: None },
    );
    match acc.err {
        Some(e) => Err(e),
        None => Ok(
            MeasurementV {
                name,
                provider: match acc.provider {
                    Some(p) => p,
                    None => Provider::Unknown,
                },
                typ: match acc.typ {
                    Some(t) => t,
                    None => SourceType::Other,
                },
                uri: match acc.uri {
                    Some(u) => u,
                    None => "http://localhost/"@,
                },
                query: match acc.query {
                    Some(q) => q,
                    None => QueryV { typ: Seq::empty(), select: Seq::empty() },
                },
            },
        ),
    }
}

/// Parses a measurement block named by its keyword.
pub fn parse_measurement_node(name: Text, node: &Node) -> (r: Result<Measurement, ParseError>)
    ensures
        r is Ok ==> spec_parse_measurement(name@, node@) == Ok::<MeasurementV, ErrorV>(r->Ok_0@),
        r is Err ==> spec_parse_measurement(name@, node@) == Err::<MeasurementV, ErrorV>(
            r->Err_0@,
        ),
{
    let ghost cs = node@.children;
    proof {
        lemma_nodes_view_props(node.children@);
    }
    let n = node.children.len();
    let mut provider: Option<Provider> = None;
    let mut typ: Option<SourceType> = None;
    let mut uri: Option<Uri> = None;
    let mut query: Option<Query> = None;
    let mut err: Option<ParseError> = None;
    let mut i: usize = 0;
    while i < n
        invariant
            n == node.children@.len(),
            i <= n,
            cs == nodes_view(node.children@),
            cs.len() == n,
            m_fold(
                cs,
                0,
                MAcc { provider: None, typ: None, uri: None, query: None, err: None },
            ) == m_fold(cs, i as int, m_acc_of(provider, typ, uri, query, err)),
        decreases n - i,
    {
        proof {
            lemma_nodes_view_props(node.children@);
            assert(cs[i as int] == node_view(node.children@[i as int]));
        }
        let child = &node.children[i];
        let ghost acc0 = m_acc_of(provider, typ, uri, query, err);
        if err.is_none() {
            match &child.line.kind {
                LineKind::Field { keyword, value } => {
                    if str_eq_str(keyword.as_str(), "provider") {
                        match leaf_guard_exec("measurement", child) {
                            Some(e) => {
                                err = Some(e);
                            },
                            None => {
                                if provider.is_some() {
                                    err = Some(
                                        ParseError::DuplicateField {
                                            record: "measurement".to_owned(),
                                            field: "provider".to_owned(),
                                            line: child.line.number,
                                        },
                                    );
                                } else {
                                    match provider_from_keyword(value.as_str()) {
                                        Some(p) => {
                                            provider = Some(p);
                                        },
                                        None => {
                                            provider = Some(Provider::Unknown);
                                        },
                                    }
                                }
                            },
                        }
                    } else if str_eq_str(keyword.as_str(), "type") {
                        match leaf_guard_exec("measurement", child) {
                            Some(e) => {
                                err = Some(e);
                            },
                            None => {
                                if typ.is_some() {
                                    err = Some(
                                        ParseError::DuplicateField {
                                            record: "measurement".to_owned(),
                                            field: "type".to_owned(),
                                            line: child.line.number,
                                        },
                                    );
                                } else {
                                    match source_type_from_keyword(value.as_str()) {
                                        Some(t) => {
                                            typ = Some(t);
                                        },
                                        None => {
                                            typ = Some(SourceType::Other);
                                        },
                                    }
                                }
                            },
                        }
                    } else if str_eq_str(keyword.as_str(), "uri") {
                        match leaf_guard_exec("measurement", child) {
                            Some(e) => {
                                err = Some(e);
                            },
                            None => {
                                if uri.is_some() {
                                    err = Some(
                                        ParseError::DuplicateField {
                                            record: "measurement".to_owned(),
                                            field: "uri".to_owned(),
                                            line: child.line.number,
                                        },
                                    );
                                } else {
                                    match Uri::from_stream(value.as_str()) {
                                        Ok(u) => {
                                            uri = Some(u);
                                        },
                                        Err(e) => {
                                            err = Some(e);
                                        },
                                    }
                                }
                            },
                        }
                    } else {
                        err = Some(
                            ParseError::UnexpectedField {
                                record: "measurement".to_owned(),
                                field: keyword.clone(),
                                line: child.line.number,
                            },
                        );
                    }
                },
                LineKind::Block { keyword } => {
                    if str_eq_str(keyword.as_str(), "query") {
                        if query.is_some() {
                            err = Some(
                                ParseError::DuplicateField {
                                    record: "measurement".to_owned(),
                                    field: "query".to_owned(),
                                    line: child.line.number,
                                },
                            );
                        } else {
                            match parse_query_node(child) {
                                Ok(q) => {
                                    query = Some(q);
                                },
                                Err(e) => {
                                    err = Some(e);
                                },
                            }
                        }
                    } else {
                        err = Some(
                            ParseError::UnexpectedField {
                                record: "measurement".to_owned(),
                                field: keyword.clone(),
                                line: child.line.number,
                            },
                        );
                    }
                },
                LineKind::Word { phrase } => {
                    err = Some(
                        ParseError::UnexpectedField {
                            record: "measurement".to_owned(),
                            field: phrase.clone(),
                            line: child.line.number,
                        },
                    );
                },
            }
        }
        proof {
            assert(m_acc_of(provider, typ, uri, query, err) == m_step(acc0, cs[i as int]));
        }
        i = i + 1;
    }
    match err {
        Some(e) => Err(e),
        None => {
            let m = Measurement {
                name,
                provider: match provider {
                    Some(p) => p,
                    None => Provider::Unknown,
                },
                typ: match typ {
                    Some(t) => t,
                    None => SourceType::Other,
                },
                uri: match uri {
                    Some(u) => u,
                    None => Uri::default(),
                },
                query: match query {
                    Some(q) => q,
                    None => Query { typ: Text(String::new()), select: Array(Vec::new()) },
                },
            };
            proof {
                let acc = m_fold(
                    cs,
                    0,
                    MAcc { provider: None, typ: None, uri: None, query: None, err: None },
                );
                if acc.query is None {
                    assert(m@.query.typ =~= Seq::<char>::empty());
                    assert(m@.query.select =~= Seq::<Seq<char>>::empty());
                }
            }
            Ok(m)
        },
    }
}

/// Accumulator of the data-sources walk.
pub struct DsAcc {
    pub m: Map<Seq<char>, MeasurementV>,
    pub err: Option<ErrorV>,
}

/// One step of the data-sources walk: every child must be a block, which
/// denotes one measurement keyed by the block's keyword; a repeated name
/// overwrites the earlier measurement.
pub open spec fn ds_step(acc: DsAcc, node: NodeV) -> DsAcc {
    if acc.err is Some {
        acc
    } else {
        match node.line.kind {
            LineKindV::Block { keyword } => {
                match spec_parse_measurement(keyword, node) {
                    Ok(mv) => DsAcc { m: acc.m.insert(keyword, mv), ..acc },
                    Err(e) => DsAcc { err: Some(e), ..acc },
                }
            },
            _ => DsAcc {
                err: Some(
                    ErrorV::UnexpectedField {
                        record: "data_sources"@,
                        field: kind_name(node.line.kind),
                        line: node.line.number,
                    },
                ),
                ..acc
            },
        }
    }
}

/// The data-sources walk over children `i..`.
pub open spec fn ds_fold(children: Seq<NodeV>, i: int, acc: DsAcc) -> DsAcc
    decreases children.len() - i,
{
    if i < 0 || i >= children.len() {
        acc
    } else {
        ds_fold(children, i + 1, ds_step(acc, children[i]))
    }
}

/// The data-sources section a node denotes.
pub open spec fn spec_parse_data_sources(node: NodeV) -> Result<DataSourcesV, ErrorV> {
    let acc = ds_fold(node.children, 0, DsAcc { m: Map::empty(), err: None });
    match acc.err {
        Some(e) => Err(e),
        None => Ok(DataSourcesV { measurements: acc.m }),
    }
}

/// Parses the data-sources section from its block node.
pub fn parse_data_sources_node(node: &Node) -> (r: Result<DataSources, ParseError>)
    ensures
        r is Ok ==> spec_parse_data_sources(node@) == Ok::<DataSourcesV, ErrorV>(r->Ok_0@)
            && r->Ok_0.measurements.wf(),
        r is Err ==> spec_parse_data_sources(node@) == Err::<DataSourcesV, ErrorV>(r->Err_0@),
{
    let ghost cs = node@.children;
    proof {
        lemma_nodes_view_props(node.children@);
    }
    let n = node.children.len();
    let mut d: Dict<Measurement> = Dict::new();
    let mut err: Option<ParseError> = None;
    let mut i: usize = 0;
    while i < n
        invariant
            n == node.children@.len(),
            i <= n,
            cs == nodes_view(node.children@),
            cs.len() == n,
            d.wf(),
            ds_fold(cs, 0, DsAcc { m: Map::empty(), err: None }) == ds_fold(
                cs,
                i as int,
                DsAcc { m: d@, err: err_view(err) },
            ),
        decreases n - i,
    {
        proof {
            lemma_nodes_view_props(node.children@);
            assert(cs[i as int] == node_view(node.children@[i as int]));
        }
        let child = &node.children[i];
        let ghost acc0 = DsAcc { m: d@, err: err_view(err) };
        if err.is_none() {
            match &child.line.kind {
                LineKind::Block { keyword } => {
                    match parse_measurement_node(Text(keyword.clone()), child) {
                        Ok(m) => {
                            d.insert(Text(keyword.clone()), m);
                        },
                        Err(e) => {
                            err = Some(e);
                        },
                    }
                },
                _ => {
                    err = Some(
                        ParseError::UnexpectedField {
                            record: "data_sources".to_owned(),
                            field: kind_name_owned(&child.line.kind),
                            line: child.line.number,
                        },
                    );
                },
            }
        }
        proof {
            assert(DsAcc { m: d@, err: err_view(err) } == ds_step(acc0, cs[i as int]));
        }
        i = i + 1;
    }
    match err {
        Some(e) => Err(e),
        None => Ok(DataSources { measurements: d }),
    }
}


/// Accumulator of the visualization record walk.
pub struct VAcc {
    pub typ: Option<VisType>,
    pub source: Option<Seq<char>>,
    pub data: Option<Seq<Seq<char>>>,
    pub extra: Option<Map<Seq<char>, Seq<char>>>,
    pub err: Option<ErrorV>,
}

/// One step of the visualization record walk. The record allows extension
/// fields, so an unrecognized child is ignored rather than an error.
pub open spec fn v_step(acc: VAcc, node: NodeV) -> VAcc {
    if acc.err is Some {
        acc
    } else {
        match node.line.kind {
            LineKindV::Field { keyword, value } => {
                if keyword == "type"@ {
                    match leaf_guard("vis"@, node) {
                        Some(e) => VAcc { err: Some(e), ..acc },
                        None => if acc.typ is Some {
                            VAcc {
                                err: Some(
                                    ErrorV::DuplicateField {
                                        record: "vis"@,
                                        field: "type"@,
                                        line: node.line.number,
                                    },
                                ),
                                ..acc
                            }
                        } else {
                            match spec_vis_type_keyword(value) {
                                Some(t) => VAcc { typ: Some(t), ..acc },
                                None => VAcc { typ: Some(VisType::Other), ..acc },
                            }
                        },
                    }
                } else if keyword == "source"@ {
                    match leaf_guard("vis"@, node) {
                        Some(e) => VAcc { err: Some(e), ..acc },
                        None => if acc.source is Some {
                            VAcc {
                                err: Some(
                                    ErrorV::DuplicateField {
                                        record: "vis"@,
                                        field: "source"@,
                                        line: node.line.number,
                                    },
                                ),
                                ..acc
                            }
                        } else {
                            VAcc { source: Some(value), ..acc }
                        },
                    }
                } else {
                    acc
                }
            },
            LineKindV::Block { keyword } => {
                if keyword == "data"@ {
                    if acc.data is Some {
                        VAcc {
                            err: Some(
                                ErrorV::DuplicateField {
                                    record: "vis"@,
                                    field: "data"@,
                                    line: node.line.number,
                                },
                            ),
                            ..acc
                        }
                    } else {
                        match spec_parse_words("vis"@, node.children) {
                            Ok(ws) => VAcc { data: Some(ws), ..acc },
                            Err(e) => VAcc { err: Some(e), ..acc },
                        }
                    }
                } else if keyword == "extra"@ {
                    if acc.extra is Some {
                        VAcc {
                            err: Some(
                                ErrorV::DuplicateField {
                                    record: "vis"@,
                                    field: "extra"@,
                                    line: node.line.number,
                                },
                            ),
                            ..acc
                        }
                    } else {
                        VAcc { extra: Some(spec_parse_extra(node.children)), ..acc }
                    }
                } else {
                    acc
                }
            },
            LineKindV::Word { phrase } => acc,
        }
    }
}

/// The visualization record walk over children `i..`.
pub open spec fn v_fold(children: Seq<NodeV>, i: int, acc: VAcc) -> VAcc
    decreases children.len() - i,
{
    if i < 0 || i >= children.len() {
        acc
    } else {
        v_fold(children, i + 1, v_step(acc, children[i]))
    }
}

/// The view of the exec accumulator of the visualization walk.
pub open spec fn v_acc_of(
    typ: Option<VisType>,
    source: Option<Text>,
    data: Option<Array<Text>>,
    extra: Option<Dict<Text>>,
    err: Option<ParseError>,
) -> VAcc {
    VAcc {
        typ,
        source: match source {
            Some(t) => Some(t@),
            None => None,
        },
        data: match data {
            Some(a) => Some(a@),
            None => None,
        },
        extra: match extra {
            Some(d) => Some(d@),
            None => None,
        },
        err: err_view(err),
    }
}

/// The visualization a block under `visualizations` denotes: its name is
/// the block's keyword, its `source` field is required, its type defaults
/// to `Other`, its data to the empty array, and its `extra` map stays
/// absent when the block is absent.
pub open spec fn spec_parse_vis(name: Seq<char>, node: NodeV) -> Result<VisV, ErrorV> {
    let acc = v_fold(
        node.children,
        0,
        VAcc { typ: None, source: None, data: None, extra: None, err: None },
    );
    match acc.err {
        Some(e) => Err(e),
        None => match acc.source {
            None => Err(
                ErrorV::MissingField {
                    record: "vis"@,
                    field: "source"@,
                    line: node.line.number,
                },
            ),
            Some(src) => Ok(
                VisV {
                    name,
                    typ: match acc.typ {
                        Some(t) => t,
                        None => VisType::Other,
                    },
                    source: src,
                    data: match acc.data {
                        Some(ws) => ws,
                        None => Seq::empty(),
                    },
                    extra: acc.extra,
                },
            ),
        },
    }
}

/// Parses a visualization block named by its keyword.
pub fn parse_vis_node(name: Text, node: &Node) -> (r: Result<Vis, ParseError>)
    ensures
        r is Ok ==> spec_parse_vis(name@, node@) == Ok::<VisV, ErrorV>(r->Ok_0@) && (match r->Ok_0.extra {
            Some(d) => d.wf(),
            None => true,
        }),
        r is Err ==> spec_parse_vis(name@, node@) == Err::<VisV, ErrorV>(r->Err_0@),
{
    let ghost cs = node@.children;
    proof {
        lemma_nodes_view_props(node.children@);
    }
    let n = node.children.len();
    let mut typ: Option<VisType> = None;
    let mut source: Option<Text> = None;
    let mut data: Option<Array<Text>> = None;
    let mut extra: Option<Dict<Text>> = None;
    let mut err: Option<ParseError> = None;
    let mut i: usize = 0;
    while i < n
        invariant
            n == node.children@.len(),
            i <= n,
            cs == nodes_view(node.children@),
            cs.len() == n,
            match extra {
                Some(d) => d.wf(),
                None => true,
            },
            v_fold(
                cs,
                0,
                VAcc { typ: None, source: None, data: None, extra: None, err: None },
            ) == v_fold(cs, i as int, v_acc_of(typ, source, data, extra, err)),
        decreases n - i,
    {
        proof {
            lemma_nodes_view_props(node.children@);
            assert(cs[i as int] == node_view(node.children@[i as int]));
        }
        let child = &node.children[i];
        let ghost acc0 = v_acc_of(typ, source, data, extra, err);
        if err.is_none() {
            match &child.line.kind {
                LineKind::Field { keyword, value } => {
                    if str_eq_str(keyword.as_str(), "type") {
                        match leaf_guard_exec("vis", child) {
                            Some(e) => {
                                err = Some(e);
                            },
                            None => {
                                if typ.is_some() {
                                    err = Some(
                                        ParseError::DuplicateField {
                                            record: "vis".to_owned(),
                                            field: "type".to_owned(),
                                            line: child.line.number,
                                        },
                                    );
                                } else {
                                    match vis_type_from_keyword(value.as_str()) {
                                        Some(t) => {
                                            typ = Some(t);
                                        },
                                        None => {
                                            typ = Some(VisType::Other);
                                        },
                                    }
                                }
                            },
                        }
                    } else if str_eq_str(keyword.as_str(), "source") {
                        match leaf_guard_exec("vis", child) {
                            Some(e) => {
                                err = Some(e);
                            },
                            None => {
                                if source.is_some() {
                                    err = Some(
                                        ParseError::DuplicateField {
                                            record: "vis".to_owned(),
                                            field: "source".to_owned(),
                                            line: child.line.number,
                                        },
                                    );
                                } else {
                                    source = Some(Text(value.clone()));
                                }
                            },
                        }
                    } else {
                        // extension field: ignored
                    }
                },
                LineKind::Block { keyword } => {
                    if str_eq_str(keyword.as_str(), "data") {
                        if data.is_some() {
                            err = Some(
                                ParseError::DuplicateField {
                                    record: "vis".to_owned(),
                                    field: "data".to_owned(),
                                    line: child.line.number,
                                },
                            );
                        } else {
                            match parse_words_node("vis", child) {
                                Ok(ws) => {
                                    data = Some(ws);
                                },
                                Err(e) => {
                                    err = Some(e);
                                },
                            }
                        }
                    } else if str_eq_str(keyword.as_str(), "extra") {
                        if extra.is_some() {
                            err = Some(
                                ParseError::DuplicateField {
                                    record: "vis".to_owned(),
                                    field: "extra".to_owned(),
                                    line: child.line.number,
                                },
                            );
                        } else {
                            extra = Some(parse_extra_node(child));
                        }
                    } else {
                        // extension block: ignored
                    }
                },
                LineKind::Word { phrase } => {
                    // extension word: ignored
                },
            }
        }
        proof {
            assert(v_acc_of(typ, source, data, extra, err) == v_step(acc0, cs[i as int]));
        }
        i = i + 1;
    }
    match err {
        Some(e) => Err(e),
        None => match source {
            None => Err(
                ParseError::MissingField {
                    record: "vis".to_owned(),
                    field: "source".to_owned(),
                    line: node.line.number,
                },
            ),
            Some(src) => {
                let v = Vis {
                    name,
                    typ: match typ {
                        Some(t) => t,
                        None => VisType::Other,
                    },
                    source: src,
                    data: match data {
                        Some(a) => a,
                        None => Array(Vec::new()),
                    },
                    extra,
                };
                proof {
                    let acc = v_fold(
                        cs,
                        0,
                        VAcc { typ: None, source: None, data: None, extra: None, err: None },
                    );
                    if acc.data is None {
                        assert(v@.data =~= Seq::<Seq<char>>::empty());
                    }
                }
                Ok(v)
            },
        },
    }
}

/// Accumulator of the visualizations-map walk.
pub struct VisMapAcc {
    pub m: Map<Seq<char>, VisV>,
    pub err: Option<ErrorV>,
}

/// One step of the visualizations-map walk: every child must be a block,
/// which denotes one visualization keyed by the block's keyword; a
/// repeated name overwrites the earlier visualization.
pub open spec fn vis_map_step(acc: VisMapAcc, node: NodeV) -> VisMapAcc {
    if acc.err is Some {
        acc
    } else {
        match node.line.kind {
            LineKindV::Block { keyword } => {
                match spec_parse_vis(keyword, node) {
                    Ok(vv) => VisMapAcc { m: acc.m.insert(keyword, vv), ..acc },
                    Err(e) => VisMapAcc { err: Some(e), ..acc },
                }
            },
            _ => VisMapAcc {
                err: Some(
                    ErrorV::UnexpectedField {
                        record: "visualizations"@,
                        field: kind_name(node.line.kind),
                        line: node.line.number,
                    },
                ),
                ..acc
            },
        }
    }
}

/// The visualizations-map walk over children `i..`.
pub open spec fn vis_map_fold(children: Seq<NodeV>, i: int, acc: VisMapAcc) -> VisMapAcc
    decreases children.len() - i,
{
    if i < 0 || i >= children.len() {
        acc
    } else {
        vis_map_fold(children, i + 1, vis_map_step(acc, children[i]))
    }
}

/// The visualizations a `visualizations` block denotes.
pub open spec fn spec_parse_vis_map(children: Seq<NodeV>) -> Result<Map<Seq<char>, VisV>, ErrorV> {
    let acc = vis_map_fold(children, 0, VisMapAcc { m: Map::empty(), err: None });
    match acc.err {
        Some(e) => Err(e),
        None => Ok(acc.m),
    }
}

/// Every visualization pair of the dictionary has a key-unique `extra`.
pub open spec fn vis_dict_extras_wf(d: Dict<Vis>) -> bool {
    forall|i: int|
        0 <= i < d.0@.len() ==> match (#[trigger] d.0@[i]).1.extra {
            Some(x) => x.wf(),
            None => true,
        }
}

/// Parses a `visualizations` block.
pub fn parse_vis_map_node(node: &Node) -> (r: Result<Dict<Vis>, ParseError>)
    ensures
        r is Ok ==> spec_parse_vis_map(node@.children) == Ok::<Map<Seq<char>, VisV>, ErrorV>(
            r->Ok_0@,
        ) && r->Ok_0.wf() && vis_dict_extras_wf(r->Ok_0),
        r is Err ==> spec_parse_vis_map(node@.children) == Err::<Map<Seq<char>, VisV>, ErrorV>(
            r->Err_0@,
        ),
{
    let ghost cs = node@.children;
    proof {
        lemma_nodes_view_props(node.children@);
    }
    let n = node.children.len();
    let mut d: Dict<Vis> = Dict::new();
    let mut err: Option<ParseError> = None;
    let mut i: usize = 0;
    while i < n
        invariant
            n == node.children@.len(),
            i <= n,
            cs == nodes_view(node.children@),
            cs.len() == n,
            d.wf(),
            vis_dict_extras_wf(d),
            vis_map_fold(cs, 0, VisMapAcc { m: Map::empty(), err: None }) == vis_map_fold(
                cs,
                i as int,
                VisMapAcc { m: d@, err: err_view(err) },
            ),
        decreases n - i,
    {
        proof {
            lemma_nodes_view_props(node.children@);
            assert(cs[i as int] == node_view(node.children@[i as int]));
        }
        let child = &node.children[i];
        let ghost acc0 = VisMapAcc { m: d@, err: err_view(err) };
        if err.is_none() {
            match &child.line.kind {
                LineKind::Block { keyword } => {
                    match parse_vis_node(Text(keyword.clone()), child) {
                        Ok(v) => {
                            let ghost d0 = d;
                            let ghost pair_v = v;
                            d.insert(Text(keyword.clone()), v);
                            proof {
                                assert forall|k: int| 0 <= k < d.0@.len() implies match (
                                #[trigger] d.0@[k]).1.extra {
                                    Some(x) => x.wf(),
                                    None => true,
                                } by {
                                    if d.0@[k].1 == pair_v {
                                    } else if d0.0@.contains(d.0@[k]) {
                                        let j = choose|j: int|
                                            0 <= j < d0.0@.len() && d0.0@[j] == d.0@[k];
                                        assert(match d0.0@[j].1.extra {
                                            Some(x) => x.wf(),
                                            None => true,
                                        });
                                    }
                                }
                            }
                        },
                        Err(e) => {
                            err = Some(e);
                        },
                    }
                },
                _ => {
                    err = Some(
                        ParseError::UnexpectedField {
                            record: "visualizations".to_owned(),
                            field: kind_name_owned(&child.line.kind),
                            line: child.line.number,
                        },
                    );
                },
            }
        }
        proof {
            assert(VisMapAcc { m: d@, err: err_view(err) } == vis_map_step(acc0, cs[i as int]));
        }
        i = i + 1;
    }
    match err {
        Some(e) => Err(e),
        None => Ok(d),
    }
}


/// Accumulator of the application record walk.
pub struct AAcc {
    pub typ: Option<AppType>,
    pub layout: Option<LayoutType>,
    pub roles: Option<Seq<RolesV>>,
    pub vis: Option<Map<Seq<char>, VisV>>,
    pub err: Option<ErrorV>,
}

/// One step of the application record walk.
pub open spec fn a_step(acc: AAcc, node: NodeV) -> AAcc {
    if acc.err is Some {
        acc
    } else {
        match node.line.kind {
            LineKindV::Field { keyword, value } => {
                if keyword == "type"@ {
                    match leaf_guard("application"@, node) {
                        Some(e) => AAcc { err: Some(e), ..acc },
                        None => if acc.typ is Some {
                            AAcc {
                                err: Some(
                                    ErrorV::DuplicateField {
                                        record: "application"@,
                                        field: "type"@,
                                        line: node.line.number,
                                    },
                                ),
                                ..acc
                            }
                        } else {
                            match spec_app_type_keyword(value) {
                                Some(t) => AAcc { typ: Some(t), ..acc },
                                None => AAcc { typ: Some(AppType::Web), ..acc },
                            }
                        },
                    }
                } else if keyword == "layout"@ {
                    match leaf_guard("application"@, node) {
                        Some(e) => AAcc { err: Some(e), ..acc },
                        None => if acc.layout is Some {
                            AAcc {
                                err: Some(
                                    ErrorV::DuplicateField {
                                        record: "application"@,
                                        field: "layout"@,
                                        line: node.line.number,
                                    },
                                ),
                                ..acc
                            }
                        } else {
                            match spec_layout_type_keyword(value) {
                                Some(t) => AAcc { layout: Some(t), ..acc },
                                None => AAcc { layout: Some(LayoutType::SinglePage), ..acc },
                            }
                        },
                    }
                } else {
                    AAcc {
                        err: Some(
                            ErrorV::UnexpectedField {
                                record: "application"@,
                                field: keyword,
                                line: node.line.number,
                            },
                        ),
                        ..acc
                    }
                }
            },
            LineKindV::Block { keyword } => {
                if keyword == "roles"@ {
                    if acc.roles is Some {
                        AAcc {
                            err: Some(
                                ErrorV::DuplicateField {
                                    record: "application"@,
                                    field: "roles"@,
                                    line: node.line.number,
                                },
                            ),
                            ..acc
                        }
                    } else {
                        match spec_parse_roles(node.children) {
                            Ok(rs) => AAcc { roles: Some(rs), ..acc },
                            Err(e) => AAcc { err: Some(e), ..acc },
                        }
                    }
                } else if keyword == "visualizations"@ {
                    if acc.vis is Some {
                        AAcc {
                            err: Some(
                                ErrorV::DuplicateField {
                                    record: "application"@,
                                    field: "visualizations"@,
                                    line: node.line.number,
                                },
                            ),
                            ..acc
                        }
                    } else {
                        match spec_parse_vis_map(node.children) {
                            Ok(m) => AAcc { vis: Some(m), ..acc },
                            Err(e) => AAcc { err: Some(e), ..acc },
                        }
                    }
                } else {
                    AAcc {
                        err: Some(
                            ErrorV::UnexpectedField {
                                record: "application"@,
                                field: keyword,
                                line: node.line.number,
                            },
                        ),
                        ..acc
                    }
                }
            },
            LineKindV::Word { phrase } => AAcc {
                err: Some(
                    ErrorV::UnexpectedField {
                        record: "application"@,
                        field: phrase,
                        line: node.line.number,
                    },
                ),
                ..acc
            },
        }
    }
}

/// The application record walk over children `i..`.
pub open spec fn a_fold(children: Seq<NodeV>, i: int, acc: AAcc) -> AAcc
    decreases children.len() - i,
{
    if i < 0 || i >= children.len() {
        acc
    } else {
        a_fold(children, i + 1, a_step(acc, children[i]))
    }
}

/// The view of the exec accumulator of the application walk.
pub open spec fn a_acc_of(
    typ: Option<AppType>,
    layout: Option<LayoutType>,
    roles: Option<Array<Roles>>,
    vis: Option<Dict<Vis>>,
    err: Option<ParseError>,
) -> AAcc {
    AAcc {
        typ,
        layout,
        roles: match roles {
            Some(a) => Some(a@),
            None => None,
        },
        vis: match vis {
            Some(d) => Some(d@),
            None => None,
        },
        err: err_view(err),
    }
}

/// The application section a node denotes: its type defaults to `Web`,
/// its layout to `SinglePage`, its roles to the empty array and its
/// visualizations to the empty mapping.
pub open spec fn spec_parse_application(node: NodeV) -> Result<ApplicationV, ErrorV> {
    let acc = a_fold(
        node.children,
        0,
        AAcc { typ: None, layout: None, roles: None, vis: None, err: None },
    );
    match acc.err {
        Some(e) => Err(e),
        None => Ok(
            ApplicationV {
                typ: match acc.typ {
                    Some(t) => t,
                    None => AppType::Web,
                },
                layout: match acc.layout {
                    Some(t) => t,
                    None => LayoutType::SinglePage,
                },
                roles: match acc.roles {
                    Some(rs) => rs,
                    None => Seq::empty(),
                },
                visualizations: match acc.vis {
                    Some(m) => m,
                    None => Map::empty(),
                },
            },
        ),
    }
}

/// Parses the application section from its block node.
pub fn parse_application_node(node: &Node) -> (r: Result<Application, ParseError>)
    ensures
        r is Ok ==> spec_parse_application(node@) == Ok::<ApplicationV, ErrorV>(r->Ok_0@)
            && r->Ok_0.visualizations.wf() && vis_dict_extras_wf(r->Ok_0.visualizations),
        r is Err ==> spec_parse_application(node@) == Err::<ApplicationV, ErrorV>(r->Err_0@),
{
    let ghost cs = node@.children;
    proof {
        lemma_nodes_view_props(node.children@);
    }
    let n = node.children.len();
    let mut typ: Option<AppType> = None;
    let mut layout: Option<LayoutType> = None;
    let mut roles: Option<Array<Roles>> = None;
    let mut vis: Option<Dict<Vis>> = None;
    let mut err: Option<ParseError> = None;
    let mut i: usize = 0;
    while i < n
        invariant
            n == node.children@.len(),
            i <= n,
            cs == nodes_view(node.children@),
            cs.len() == n,
            match vis {
                Some(d) => d.wf() && vis_dict_extras_wf(d),
                None => true,
            },
            a_fold(
                cs,
                0,
                AAcc { typ: None, layout: None, roles: None, vis: None, err: None },
            ) == a_fold(cs, i as int, a_acc_of(typ, layout, roles, vis, err)),
        decreases n - i,
    {
        proof {
            lemma_nodes_view_props(node.children@);
            assert(cs[i as int] == node_view(node.children@[i as int]));
        }
        let child = &node.children[i];
        let ghost acc0 = a_acc_of(typ, layout, roles, vis, err);
        if err.is_none() {
            match &child.line.kind {
                LineKind::Field { keyword, value } => {
                    if str_eq_str(keyword.as_str(), "type") {
                        match leaf_guard_exec("application", child) {
                            Some(e) => {
                                err = Some(e);
                            },
                            None => {
                                if typ.is_some() {
                                    err = Some(
                                        ParseError::DuplicateField {
                                            record: "application".to_owned(),
                                            field: "type".to_owned(),
                                            line: child.line.number,
                                        },
                                    );
                                } else {
                                    match app_type_from_keyword(value.as_str()) {
                                        Some(t) => {
                                            typ = Some(t);
                                        },
                                        None => {
                                            typ = Some(AppType::Web);
                                        },
                                    }
                                }
                            },
                        }
                    } else if str_eq_str(keyword.as_str(), "layout") {
                        match leaf_guard_exec("application", child) {
                            Some(e) => {
                                err = Some(e);
                            },
                            None => {
                                if layout.is_some() {
                                    err = Some(
                                        ParseError::DuplicateField {
                                            record: "application".to_owned(),
                                            field: "layout".to_owned(),
                                            line: child.line.number,
                                        },
                                    );
                                } else {
                                    match layout_type_from_keyword(value.as_str()) {
                                        Some(t) => {
                                            layout = Some(t);
                                        },
                                        None => {
                                            layout = Some(LayoutType::SinglePage);
                                        },
                                    }
                                }
                            },
                        }
                    } else {
                        err = Some(
                            ParseError::UnexpectedField {
                                record: "application".to_owned(),
                                field: keyword.clone(),
                                line: child.line.number,
                            },
                        );
                    }
                },
                LineKind::Block { keyword } => {
                    if str_eq_str(keyword.as_str(), "roles") {
                        if roles.is_some() {
                            err = Some(
                                ParseError::DuplicateField {
                                    record: "application".to_owned(),
                                    field: "roles".to_owned(),
                                    line: child.line.number,
                                },
                            );
                        } else {
                            match parse_roles_node(child) {
                                Ok(rs) => {
                                    roles = Some(rs);
                                },
                                Err(e) => {
                                    err = Some(e);
                                },
                            }
                        }
                    } else if str_eq_str(keyword.as_str(), "visualizations") {
                        if vis.is_some() {
                            err = Some(
                                ParseError::DuplicateField {
                                    record: "application".to_owned(),
                                    field: "visualizations".to_owned(),
                                    line: child.line.number,
                                },
                            );
                        } else {
                            match parse_vis_map_node(child) {
                                Ok(m) => {
                                    vis = Some(m);
                                },
                                Err(e) => {
                                    err = Some(e);
                                },
                            }
                        }
                    } else {
                        err = Some(
                            ParseError::UnexpectedField {
                                record: "application".to_owned(),
                                field: keyword.clone(),
                                line: child.line.number,
                            },
                        );
                    }
                },
                LineKind::Word { phrase } => {
                    err = Some(
                        ParseError::UnexpectedField {
                            record: "application".to_owned(),
                            field: phrase.clone(),
                            line: child.line.number,
                        },
                    );
                },
            }
        }
        proof {
            assert(a_acc_of(typ, layout, roles, vis, err) == a_step(acc0, cs[i as int]));
        }
        i = i + 1;
    }
    match err {
        Some(e) => Err(e),
        None => {
            let app = Application {
                typ: match typ {
                    Some(t) => t,
                    None => AppType::Web,
                },
                layout: match layout {
                    Some(t) => t,
                    None => LayoutType::SinglePage,
                },
                roles: match roles {
                    Some(a) => a,
                    None => Array(Vec::new()),
                },
                visualizations: match vis {
                    Some(d) => d,
                    None => Dict::new(),
                },
            };
            proof {
                let acc = a_fold(
                    cs,
                    0,
                    AAcc { typ: None, layout: None, roles: None, vis: None, err: None },
                );
                if acc.roles is None {
                    assert(app@.roles =~= Seq::<RolesV>::empty());
                }
            }
            Ok(app)
        },
    }
}

/// Accumulator of the deployment-environment record walk.
pub struct EAcc {
    pub uri: Option<Seq<char>>,
    pub port: Option<u32>,
    pub typ: Option<DeploymentType>,
    pub err: Option<ErrorV>,
}

/// One step of the deployment-environment record walk.
pub open spec fn e_step(acc: EAcc, node: NodeV) -> EAcc {
    if acc.err is Some {
        acc
    } else {
        match node.line.kind {
            LineKindV::Field { keyword, value } => {
                if keyword == "uri"@ {
                    match leaf_guard("deployment_env"@, node) {
                        Some(e) => EAcc { err: Some(e), ..acc },
                        None => if acc.uri is Some {
                            EAcc {
                                err: Some(
                                    ErrorV::DuplicateField {
                                        record: "deployment_env"@,
                                        field: "uri"@,
                                        line: node.line.number,
                                    },
                                ),
                                ..acc
                            }
                        } else {
                            match uri_normal_of(value) {
                                Some(t) => EAcc { uri: Some(t), ..acc },
                                None => EAcc {
                                    err: Some(ErrorV::CoercionError { kind: "Uri"@, text: value }),
                                    ..acc
                                },
                            }
                        },
                    }
                } else if keyword == "port"@ {
                    match leaf_guard("deployment_env"@, node) {
                        Some(e) => EAcc { err: Some(e), ..acc },
                        None => if acc.port is Some {
                            EAcc {
                                err: Some(
                                    ErrorV::DuplicateField {
                                        record: "deployment_env"@,
                                        field: "port"@,
                                        line: node.line.number,
                                    },
                                ),
                                ..acc
                            }
                        } else {
                            match spec_parse_u32(value) {
                                Some(p) => EAcc { port: Some(p), ..acc },
                                None => EAcc {
                                    err: Some(
                                        ErrorV::CoercionError { kind: "Integer"@, text: value },
                                    ),
                                    ..acc
                                },
                            }
                        },
                    }
                } else if keyword == "type"@ {
                    match leaf_guard("deployment_env"@, node) {
                        Some(e) => EAcc { err: Some(e), ..acc },
                        None => if acc.typ is Some {
                            EAcc {
                                err: Some(
                                    ErrorV::DuplicateField {
                                        record: "deployment_env"@,
                                        field: "type"@,
                                        line: node.line.number,
                                    },
                                ),
                                ..acc
                            }
                        } else {
                            match spec_deployment_type_keyword(value) {
                                Some(t) => EAcc { typ: Some(t), ..acc },
                                None => EAcc { typ: Some(DeploymentType::Docker), ..acc },
                            }
                        },
                    }
                } else {
                    EAcc {
                        err: Some(
                            ErrorV::UnexpectedField {
                                record: "deployment_env"@,
                                field: keyword,
                                line: node.line.number,
                            },
                        ),
                        ..acc
                    }
                }
            },
            _ => EAcc {
                err: Some(
                    ErrorV::UnexpectedField {
                        record: "deployment_env"@,
                        field: kind_name(node.line.kind),
                        line: node.line.number,
                    },
                ),
                ..acc
            },
        }
    }
}

/// The deployment-environment walk over children `i..`.
pub open spec fn e_fold(children: Seq<NodeV>, i: int, acc: EAcc) -> EAcc
    decreases children.len() - i,
{
    if i < 0 || i >= children.len() {
        acc
    } else {
        e_fold(children, i + 1, e_step(acc, children[i]))
    }
}

/// The view of the exec accumulator of the deployment-environment walk.
pub open spec fn e_acc_of(
    uri: Option<Uri>,
    port: Option<u32>,
    typ: Option<DeploymentType>,
    err: Option<ParseError>,
) -> EAcc {
    EAcc {
        uri: match uri {
            Some(u) => Some(u@),
            None => None,
        },
        port,
        typ,
        err: err_view(err),
    }
}

/// The deployment environment a block under `deployment` denotes: its
/// name is the block's keyword, its `port` field is required, its URI
/// defaults to the normalized `http://localhost/` and its type to
/// `Docker`.
pub open spec fn spec_parse_deployment_env(name: Seq<char>, node: NodeV) -> Result<
    DeploymentEnvV,
    ErrorV,
> {
    let acc = e_fold(node.children, 0, EAcc { uri: None, port: None, typ: None, err: None });
    match acc.err {
        Some(e) => Err(e),
        None => match acc.port {
            None => Err(
                ErrorV::MissingField {
                    record: "deployment_env"@,
                    field: "port"@,
                    line: node.line.number,
                },
            ),
            Some(p) => Ok(
                DeploymentEnvV {
                    name,
                    uri: match acc.uri {
                        Some(u) => u,
                        None => "http://localhost/"@,
                    },
                    port: Integer(p),
                    typ: match acc.typ {
                        Some(t) => t,
                        None => DeploymentType::Docker,
                    },
                },
            ),
        },
    }
}

/// Parses a deployment environment block named by its keyword.
pub fn parse_deployment_env_node(name: Text, node: &Node) -> (r: Result<DeploymentEnv, ParseError>)
    ensures
        r is Ok ==> spec_parse_deployment_env(name@, node@) == Ok::<DeploymentEnvV, ErrorV>(
            r->Ok_0@,
        ),
        r is Err ==> spec_parse_deployment_env(name@, node@) == Err::<DeploymentEnvV, ErrorV>(
            r->Err_0@,
        ),
{
    let ghost cs = node@.children;
    proof {
        lemma_nodes_view_props(node.children@);
    }
    let n = node.children.len();
    let mut uri: Option<Uri> = None;
    let mut port: Option<u32> = None;
    let mut typ: Option<DeploymentType> = None;
    let mut err: Option<ParseError> = None;
    let mut i: usize = 0;
    while i < n
        invariant
            n == node.children@.len(),
            i <= n,
            cs == nodes_view(node.children@),
            cs.len() == n,
            e_fold(cs, 0, EAcc { uri: None, port: None, typ: None, err: None }) == e_fold(
                cs,
                i as int,
                e_acc_of(uri, port, typ, err),
            ),
        decreases n - i,
    {
        proof {
            lemma_nodes_view_props(node.children@);
            assert(cs[i as int] == node_view(node.children@[i as int]));
        }
        let child = &node.children[i];
        let ghost acc0 = e_acc_of(uri, port, typ, err);
        if err.is_none() {
            match &child.line.kind {
                LineKind::Field { keyword, value } => {
                    if str_eq_str(keyword.as_str(), "uri") {
                        match leaf_guard_exec("deployment_env", child) {
                            Some(e) => {
                                err = Some(e);
                            },
                            None => {
                                if uri.is_some() {
                                    err = Some(
                                        ParseError::DuplicateField {
                                            record: "deployment_env".to_owned(),
                                            field: "uri".to_owned(),
                                            line: child.line.number,
                                        },
                                    );
                                } else {
                                    match Uri::from_stream(value.as_str()) {
                                        Ok(u) => {
                                            uri = Some(u);
                                        },
                                        Err(e) => {
                                            err = Some(e);
                                        },
                                    }
                                }
                            },
                        }
                    } else if str_eq_str(keyword.as_str(), "port") {
                        match leaf_guard_exec("deployment_env", child) {
                            Some(e) => {
                                err = Some(e);
                            },
                            None => {
                                if port.is_some() {
                                    err = Some(
                                        ParseError::DuplicateField {
                                            record: "deployment_env".to_owned(),
                                            field: "port".to_owned(),
                                            line: child.line.number,
                                        },
                                    );
                                } else {
                                    match parse_u32_str(value.as_str()) {
                                        Some(p) => {
                                            port = Some(p);
                                        },
                                        None => {
                                            err = Some(
                                                ParseError::CoercionError {
                                                    kind: "Integer".to_owned(),
                                                    text: value.clone(),
                                                },
                                            );
                                        },
                                    }
                                }
                            },
                        }
                    } else if str_eq_str(keyword.as_str(), "type") {
                        match leaf_guard_exec("deployment_env", child) {
                            Some(e) => {
                                err = Some(e);
                            },
                            None => {
                                if typ.is_some() {
                                    err = Some(
                                        ParseError::DuplicateField {
                                            record: "deployment_env".to_owned(),
                                            field: "type".to_owned(),
                                            line: child.line.number,
                                        },
                                    );
                                } else {
                                    match deployment_type_from_keyword(value.as_str()) {
                                        Some(t) => {
                                            typ = Some(t);
                                        },
                                        None => {
                                            typ = Some(DeploymentType::Docker);
                                        },
                                    }
                                }
                            },
                        }
                    } else {
                        err = Some(
                            ParseError::UnexpectedField {
                                record: "deployment_env".to_owned(),
                                field: keyword.clone(),
                                line: child.line.number,
                            },
                        );
                    }
                },
                _ => {
                    err = Some(
                        ParseError::UnexpectedField {
                            record: "deployment_env".to_owned(),
                            field: kind_name_owned(&child.line.kind),
                            line: child.line.number,
                        },
                    );
                },
            }
        }
        proof {
            assert(e_acc_of(uri, port, typ, err) == e_step(acc0, cs[i as int]));
        }
        i = i + 1;
    }
    match err {
        Some(e) => Err(e),
        None => match port {
            None => Err(
                ParseError::MissingField {
                    record: "deployment_env".to_owned(),
                    field: "port".to_owned(),
                    line: node.line.number,
                },
            ),
            Some(p) => Ok(
                DeploymentEnv {
                    name,
                    uri: match uri {
                        Some(u) => u,
                        None => Uri::default(),
                    },
                    port: Integer(p),
                    typ: match typ {
                        Some(t) => t,
                        None => DeploymentType::Docker,
                    },
                },
            ),
        },
    }
}

/// Accumulator of the deployment walk.
pub struct DepAcc {
    pub m: Map<Seq<char>, DeploymentEnvV>,
    pub err: Option<ErrorV>,
}

/// One step of the deployment walk: every child must be a block, which
/// denotes one environment keyed by the block's keyword; a repeated name
/// overwrites the earlier environment.
pub open spec fn dep_step(acc: DepAcc, node: NodeV) -> DepAcc {
    if acc.err is Some {
        acc
    } else {
        match node.line.kind {
            LineKindV::Block { keyword } => {
                match spec_parse_deployment_env(keyword, node) {
                    Ok(ev) => DepAcc { m: acc.m.insert(keyword, ev), ..acc },
                    Err(e) => DepAcc { err: Some(e), ..acc },
                }
            },
            _ => DepAcc {
                err: Some(
                    ErrorV::UnexpectedField {
                        record: "deployment"@,
                        field: kind_name(node.line.kind),
                        line: node.line.number,
                    },
                ),
                ..acc
            },
        }
    }
}

/// The deployment walk over children `i..`.
pub open spec fn dep_fold(children: Seq<NodeV>, i: int, acc: DepAcc) -> DepAcc
    decreases children.len() - i,
{
    if i < 0 || i >= children.len() {
        acc
    } else {
        dep_fold(children, i + 1, dep_step(acc, children[i]))
    }
}

/// The deployment section a node denotes.
pub open spec fn spec_parse_deployment(node: NodeV) -> Result<DeploymentV, ErrorV> {
    let acc = dep_fold(node.children, 0, DepAcc { m: Map::empty(), err: None });
    match acc.err {
        Some(e) => Err(e),
        None => Ok(DeploymentV { env: acc.m }),
    }
}

/// Parses the deployment section from its block node.
pub fn parse_deployment_node(node: &Node) -> (r: Result<Deployment, ParseError>)
    ensures
        r is Ok ==> spec_parse_deployment(node@) == Ok::<DeploymentV, ErrorV>(r->Ok_0@)
            && r->Ok_0.env.wf(),
        r is Err ==> spec_parse_deployment(node@) == Err::<DeploymentV, ErrorV>(r->Err_0@),
{
    let ghost cs = node@.children;
    proof {
        lemma_nodes_view_props(node.children@);
    }
    let n = node.children.len();
    let mut d: Dict<DeploymentEnv> = Dict::new();
    let mut err: Option<ParseError> = None;
    let mut i: usize = 0;
    while i < n
        invariant
            n == node.children@.len(),
            i <= n,
            cs == nodes_view(node.children@),
            cs.len() == n,
            d.wf(),
            dep_fold(cs, 0, DepAcc { m: Map::empty(), err: None }) == dep_fold(
                cs,
                i as int,
                DepAcc { m: d@, err: err_view(err) },
            ),
        decreases n - i,
    {
        proof {
            lemma_nodes_view_props(node.children@);
            assert(cs[i as int] == node_view(node.children@[i as int]));
        }
        let child = &node.children[i];
        let ghost acc0 = DepAcc { m: d@, err: err_view(err) };
        if err.is_none() {
            match &child.line.kind {
                LineKind::Block { keyword } => {
                    match parse_deployment_env_node(Text(keyword.clone()), child) {
                        Ok(ev) => {
                            d.insert(Text(keyword.clone()), ev);
                        },
                        Err(e) => {
                            err = Some(e);
                        },
                    }
                },
                _ => {
                    err = Some(
                        ParseError::UnexpectedField {
                            record: "deployment".to_owned(),
                            field: kind_name_owned(&child.line.kind),
                            line: child.line.number,
                        },
                    );
                },
            }
        }
        proof {
            assert(DepAcc { m: d@, err: err_view(err) } == dep_step(acc0, cs[i as int]));
        }
        i = i + 1;
    }
    match err {
        Some(e) => Err(e),
        None => Ok(Deployment { env: d }),
    }
}


/// Law: an enumerated field with a declared default never rejects its
/// value — the exact keyword of a variant yields that variant, and any
/// other text silently yields the kind's default (here shown for the
/// service scope, whose default is `Scope::Service`).
pub proof fn lemma_scope_field_fallback(acc: SvcAcc, node: NodeV, value: Seq<char>)
    requires
        acc.err is None,
        acc.scope is None,
        node.line.kind == (LineKindV::Field { keyword: "scope"@, value }),
        node.children.len() == 0,
    ensures
        svc_step(acc, node).err == acc.err,
        svc_step(acc, node).scope == Some(
            match spec_scope_keyword(value) {
                Some(sc) => sc,
                None => Scope::Service,
            },
        ),
{
    reveal_strlit("scope");
    reveal_strlit("name");
    reveal_strlit("version");
    assert("scope"@ != "name"@) by {
        assert("scope"@.len() != "name"@.len());
    }
    assert("scope"@ != "version"@) by {
        assert("scope"@.len() != "version"@.len());
    }
}

/// Law: an enumerated element without a declared default rejects an
/// unrecognized keyword — a bare word under `roles` that names no built-in
/// role yields `UnknownVariant` for the `Roles` kind carrying that text.
pub proof fn lemma_role_word_unknown(acc: RolesAcc, node: NodeV, phrase: Seq<char>)
    requires
        acc.err is None,
        node.line.kind == (LineKindV::Word { phrase }),
        node.children.len() == 0,
        phrase != "User"@,
        phrase != "Superuser"@,
        phrase != "Admin"@,
    ensures
        roles_step(acc, node).err == Some(ErrorV::UnknownVariant { kind: "Roles"@, text: phrase }),
        roles_step(acc, node).items == acc.items,
{
}

} // verus!
