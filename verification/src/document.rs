//! The document assembler: drives the four top-level record parsers
//! against their sections, matched by the fixed keywords `service`,
//! `data_sources`, `application` and `deployment`, and combines the
//! results. No section parse short-circuits another: the assembler
//! collects one terminal error per failed section, and every section that
//! was not successfully parsed is reported in one `IncompleteDocument`
//! error listing the absent sections in fixed order. A repeated section
//! keyword overwrites the earlier result.

use vstd::prelude::*;
use crate::errors::{ErrorV, ParseError};
use crate::lines::{spec_tokenize, tokenize, LineKind, LineKindV};
use crate::parse::{
    kind_name, kind_name_owned, parse_application_node, parse_data_sources_node,
    parse_deployment_node, parse_service_node, spec_parse_application, spec_parse_data_sources,
    spec_parse_deployment, spec_parse_service, vis_dict_extras_wf,
};
use crate::records::{
    Application, ApplicationV, DataSources, DataSourcesV, Deployment, DeploymentV, Service,
    ServiceV, SmartService, SmartServiceV,
};
use crate::strutil::str_eq_str;
use crate::tree::{build_forest, lemma_nodes_view_props, node_view, nodes_view, spec_forest, Node, NodeV};

verus! {

/// The view of an optional record.
pub open spec fn opt_view<T: View>(o: Option<T>) -> Option<T::V> {
    match o {
        Some(x) => Some(x@),
        None => None,
    }
}

/// The views of a sequence of errors.
pub open spec fn errs_view(s: Seq<ParseError>) -> Seq<ErrorV> {
    Seq::new(s.len(), |i: int| s[i]@)
}

/// The views of a sequence of strings.
pub open spec fn strings_view(s: Seq<String>) -> Seq<Seq<char>> {
    Seq::new(s.len(), |i: int| s[i]@)
}

/// Accumulator of the top-level section walk.
pub struct DocAcc {
    pub svc: Option<ServiceV>,
    pub ds: Option<DataSourcesV>,
    pub app: Option<ApplicationV>,
    pub dep: Option<DeploymentV>,
    pub errs: Seq<ErrorV>,
}

/// One step of the top-level section walk: a block whose keyword names a
/// section is parsed by that section's record parser (a failure is
/// recorded, not fatal); any other root line is an unexpected field of the
/// document.
pub open spec fn doc_step(acc: DocAcc, root: NodeV) -> DocAcc {
    match root.line.kind {
        LineKindV::Block { keyword } => {
            if keyword == "service"@ {
                match spec_parse_service(root.line, root.children) {
                    Ok(s) => DocAcc { svc: Some(s), ..acc },
                    Err(e) => DocAcc { errs: acc.errs.push(e), ..acc },
                }
            } else if keyword == "data_sources"@ {
                match spec_parse_data_sources(root) {
                    Ok(d) => DocAcc { ds: Some(d), ..acc },
                    Err(e) => DocAcc { errs: acc.errs.push(e), ..acc },
                }
            } else if keyword == "application"@ {
                match spec_parse_application(root) {
                    Ok(a) => DocAcc { app: Some(a), ..acc },
                    Err(e) => DocAcc { errs: acc.errs.push(e), ..acc },
                }
            } else if keyword == "deployment"@ {
                match spec_parse_deployment(root) {
                    Ok(p) => DocAcc { dep: Some(p), ..acc },
                    Err(e) => DocAcc { errs: acc.errs.push(e), ..acc },
                }
            } else {
                DocAcc {
                    errs: acc.errs.push(
                        ErrorV::UnexpectedField {
                            record: "document"@,
                            field: keyword,
                            line: root.line.number,
                        },
                    ),
                    ..acc
                }
            }
        },
        _ => DocAcc {
            errs: acc.errs.push(
                ErrorV::UnexpectedField {
                    record: "document"@,
                    field: kind_name(root.line.kind),
                    line: root.line.number,
                },
            ),
            ..acc
        },
    }
}

/// The top-level section walk over roots `i..`.
pub open spec fn doc_fold(roots: Seq<NodeV>, i: int, acc: DocAcc) -> DocAcc
    decreases roots.len() - i,
{
    if i < 0 || i >= roots.len() {
        acc
    } else {
        doc_fold(roots, i + 1, doc_step(acc, roots[i]))
    }
}

/// The outcome of tokenizing, building the tree and walking the top-level
/// sections of a whole source.
pub open spec fn spec_doc_acc(src: Seq<char>) -> DocAcc {
    match spec_tokenize(src) {
        Err(e) => DocAcc { svc: None, ds: None, app: None, dep: None, errs: seq![e] },
        Ok(ls) => match spec_forest(ls) {
            Err(e) => DocAcc { svc: None, ds: None, app: None, dep: None, errs: seq![e] },
            Ok(roots) => doc_fold(
                roots,
                0,
                DocAcc { svc: None, ds: None, app: None, dep: None, errs: Seq::empty() },
            ),
        },
    }
}

/// The required sections that are absent, in the fixed order `service`,
/// `data_sources`, `application`, `deployment`.
pub open spec fn missing_list(svc: bool, ds: bool, app: bool, dep: bool) -> Seq<Seq<char>> {
    (if svc {
        Seq::<Seq<char>>::empty()
    } else {
        seq!["service"@]
    }) + (if ds {
        Seq::<Seq<char>>::empty()
    } else {
        seq!["data_sources"@]
    }) + (if app {
        Seq::<Seq<char>>::empty()
    } else {
        seq!["application"@]
    }) + (if dep {
        Seq::<Seq<char>>::empty()
    } else {
        seq!["deployment"@]
    })
}

/// Law: the incomplete-document report names exactly the absent sections —
/// each of the four section names appears in the list if and only if that
/// section is absent, even when several are absent at once.
pub proof fn lemma_missing_list_exact(svc: bool, ds: bool, app: bool, dep: bool)
    ensures
        missing_list(svc, ds, app, dep).contains("service"@) <==> !svc,
        missing_list(svc, ds, app, dep).contains("data_sources"@) <==> !ds,
        missing_list(svc, ds, app, dep).contains("application"@) <==> !app,
        missing_list(svc, ds, app, dep).contains("deployment"@) <==> !dep,
{
    let l = missing_list(svc, ds, app, dep);
    reveal_strlit("service");
    reveal_strlit("data_sources");
    reveal_strlit("application");
    reveal_strlit("deployment");
    assert("service"@ != "data_sources"@) by {
        assert("service"@.len() != "data_sources"@.len());
    }
    assert("service"@ != "application"@) by {
        assert("service"@[0] != "application"@[0]);
    }
    assert("service"@ != "deployment"@) by {
        assert("service"@[0] != "deployment"@[0]);
    }
    assert("data_sources"@ != "application"@) by {
        assert("data_sources"@[0] != "application"@[0]);
    }
    assert("data_sources"@ != "deployment"@) by {
        assert("data_sources"@[1] != "deployment"@[1]);
    }
    assert("application"@ != "deployment"@) by {
        assert("application"@[0] != "deployment"@[0]);
    }
    if !svc {
        assert(l[0] == "service"@);
    }
    if !ds {
        assert(l.contains("data_sources"@)) by {
            let p = if svc { 0int } else { 1int };
            assert(l[p] == "data_sources"@);
        }
    }
    if !app {
        assert(l.contains("application"@)) by {
            let p = (if svc { 0int } else { 1int }) + (if ds { 0int } else { 1int });
            assert(l[p] == "application"@);
        }
    }
    if !dep {
        assert(l.contains("deployment"@)) by {
            let p = (if svc { 0int } else { 1int }) + (if ds { 0int } else { 1int }) + (if app {
                0int
            } else {
                1int
            });
            assert(l[p] == "deployment"@);
        }
    }
}

/// Combines a section walk's outcome: the complete document when all four
/// sections parsed and no error was recorded, else the recorded errors
/// followed by one `IncompleteDocument` naming the absent sections.
pub open spec fn spec_finalize(acc: DocAcc) -> Result<SmartServiceV, Seq<ErrorV>> {
    let missing = missing_list(acc.svc is Some, acc.ds is Some, acc.app is Some, acc.dep is Some);
    if missing.len() == 0 && acc.errs.len() == 0 {
        match (acc.svc, acc.ds, acc.app, acc.dep) {
            (Some(s), Some(d), Some(a), Some(p)) => Ok(
                SmartServiceV { service: s, data_sources: d, application: a, deployment: p },
            ),
            _ => Err(acc.errs),
        }
    } else if missing.len() == 0 {
        Err(acc.errs)
    } else {
        Err(acc.errs.push(ErrorV::IncompleteDocument { missing_sections: missing }))
    }
}

/// What parsing a whole source yields: the typed document, or a non-empty
/// ordered list of errors — the structural error alone when tokenizing or
/// tree building fails, else the section-scoped errors.
pub open spec fn spec_parse_document(src: Seq<char>) -> Result<SmartServiceV, Seq<ErrorV>> {
    match spec_tokenize(src) {
        Err(e) => Err(seq![e]),
        Ok(ls) => match spec_forest(ls) {
            Err(e) => Err(seq![e]),
            Ok(roots) => spec_finalize(
                doc_fold(
                    roots,
                    0,
                    DocAcc { svc: None, ds: None, app: None, dep: None, errs: Seq::empty() },
                ),
            ),
        },
    }
}

/// Walks the top-level root nodes of the forest: the four section
/// outcomes and the recorded section errors.
fn parse_roots(forest: &Vec<Node>) -> (r: (
    Option<Service>,
    Option<DataSources>,
    Option<Application>,
    Option<Deployment>,
    Vec<ParseError>,
))
    ensures
        ({
            let acc = doc_fold(
                nodes_view(forest@),
                0,
                DocAcc { svc: None, ds: None, app: None, dep: None, errs: Seq::empty() },
            );
            &&& opt_view(r.0) == acc.svc
            &&& opt_view(r.1) == acc.ds
            &&& opt_view(r.2) == acc.app
            &&& opt_view(r.3) == acc.dep
            &&& errs_view(r.4@) == acc.errs
            &&& match r.1 {
                Some(d) => d.measurements.wf(),
                None => true,
            }
            &&& match r.2 {
                Some(a) => a.visualizations.wf() && vis_dict_extras_wf(a.visualizations),
                None => true,
            }
            &&& match r.3 {
                Some(p) => p.env.wf(),
                None => true,
            }
        }),
{
    let ghost roots = nodes_view(forest@);
    proof {
        lemma_nodes_view_props(forest@);
    }
    let n = forest.len();
    let mut svc: Option<Service> = None;
    let mut ds: Option<DataSources> = None;
    let mut app: Option<Application> = None;
    let mut dep: Option<Deployment> = None;
    let mut errs: Vec<ParseError> = Vec::new();
    let mut i: usize = 0;
    proof {
        assert(errs_view(errs@) =~= Seq::<ErrorV>::empty());
    }
    while i < n
        invariant
            n == forest@.len(),
            i <= n,
            roots == nodes_view(forest@),
            roots.len() == n,
            match ds {
                Some(d) => d.measurements.wf(),
                None => true,
            },
            match app {
                Some(a) => a.visualizations.wf() && vis_dict_extras_wf(a.visualizations),
                None => true,
            },
            match dep {
                Some(p) => p.env.wf(),
                None => true,
            },
            doc_fold(
                roots,
                0,
                DocAcc { svc: None, ds: None, app: None, dep: None, errs: Seq::empty() },
            ) == doc_fold(
                roots,
                i as int,
                DocAcc {
                    svc: opt_view(svc),
                    ds: opt_view(ds),
                    app: opt_view(app),
                    dep: opt_view(dep),
                    errs: errs_view(errs@),
                },
            ),
        decreases n - i,
    {
        proof {
            lemma_nodes_view_props(forest@);
            assert(roots[i as int] == node_view(forest@[i as int]));
        }
        let root = &forest[i];
        let ghost acc0 = DocAcc {
            svc: opt_view(svc),
            ds: opt_view(ds),
            app: opt_view(app),
            dep: opt_view(dep),
            errs: errs_view(errs@),
        };
        let ghost errs0 = errs@;
        match &root.line.kind {
            LineKind::Block { keyword } => {
                if str_eq_str(keyword.as_str(), "service") {
                    match parse_service_node(root) {
                        Ok(s) => {
                            svc = Some(s);
                        },
                        Err(e) => {
                            errs.push(e);
                        },
                    }
                } else if str_eq_str(keyword.as_str(), "data_sources") {
                    match parse_data_sources_node(root) {
                        Ok(d) => {
                            ds = Some(d);
                        },
                        Err(e) => {
                            errs.push(e);
                        },
                    }
                } else if str_eq_str(keyword.as_str(), "application") {
                    match parse_application_node(root) {
                        Ok(a) => {
                            app = Some(a);
                        },
                        Err(e) => {
                            errs.push(e);
                        },
                    }
                } else if str_eq_str(keyword.as_str(), "deployment") {
                    match parse_deployment_node(root) {
                        Ok(p) => {
                            dep = Some(p);
                        },
                        Err(e) => {
                            errs.push(e);
                        },
                    }
                } else {
                    errs.push(
                        ParseError::UnexpectedField {
                            record: "document".to_owned(),
                            field: keyword.clone(),
                            line: root.line.number,
                        },
                    );
                }
            },
            _ => {
                errs.push(
                    ParseError::UnexpectedField {
                        record: "document".to_owned(),
                        field: kind_name_owned(&root.line.kind),
                        line: root.line.number,
                    },
                );
            },
        }
        proof {
            if errs@.len() > errs0.len() {
                assert(errs_view(errs@) =~= errs_view(errs0).push(errs@.last()@));
            }
            assert(DocAcc {
                svc: opt_view(svc),
                ds: opt_view(ds),
                app: opt_view(app),
                dep: opt_view(dep),
                errs: errs_view(errs@),
            } == doc_step(acc0, roots[i as int]));
        }
        i = i + 1;
    }
    (svc, ds, app, dep, errs)
}

/// Walks the top-level sections of a source: the four section outcomes and
/// the recorded errors, a structural failure standing alone.
fn parse_sections(source: &str) -> (r: (
    Option<Service>,
    Option<DataSources>,
    Option<Application>,
    Option<Deployment>,
    Vec<ParseError>,
))
    requires
        source@.len() < usize::MAX,
    ensures
        ({
            let acc = spec_doc_acc(source@);
            &&& opt_view(r.0) == acc.svc
            &&& opt_view(r.1) == acc.ds
            &&& opt_view(r.2) == acc.app
            &&& opt_view(r.3) == acc.dep
            &&& errs_view(r.4@) == acc.errs
            &&& match r.1 {
                Some(d) => d.measurements.wf(),
                None => true,
            }
            &&& match r.2 {
                Some(a) => a.visualizations.wf() && vis_dict_extras_wf(a.visualizations),
                None => true,
            }
            &&& match r.3 {
                Some(p) => p.env.wf(),
                None => true,
            }
        }),
{
    let lines = match tokenize(source) {
        Ok(ls) => ls,
        Err(e) => {
            let mut ev: Vec<ParseError> = Vec::new();
            ev.push(e);
            proof {
                assert(errs_view(ev@) =~= seq![e@]);
            }
            return (None, None, None, None, ev);
        },
    };
    let forest = match build_forest(&lines) {
        Ok(f) => f,
        Err(e) => {
            let mut ev: Vec<ParseError> = Vec::new();
            ev.push(e);
            proof {
                assert(errs_view(ev@) =~= seq![e@]);
            }
            return (None, None, None, None, ev);
        },
    };
    parse_roots(&forest)
}

/// Parses a whole source into the typed document, or into a non-empty
/// ordered list of section-scoped errors.
pub fn parse_document(source: &str) -> (r: Result<SmartService, Vec<ParseError>>)
    requires
        source@.len() < usize::MAX,
    ensures
        r is Ok ==> spec_parse_document(source@) == Ok::<SmartServiceV, Seq<ErrorV>>(r->Ok_0@)
            && r->Ok_0.wf(),
        r is Err ==> spec_parse_document(source@) == Err::<SmartServiceV, Seq<ErrorV>>(
            errs_view(r->Err_0@),
        ) && r->Err_0@.len() > 0,
{
    let lines = match tokenize(source) {
        Ok(ls) => ls,
        Err(e) => {
            let mut ev: Vec<ParseError> = Vec::new();
            ev.push(e);
            proof {
                assert(errs_view(ev@) =~= seq![e@]);
            }
            return Err(ev);
        },
    };
    let forest = match build_forest(&lines) {
        Ok(f) => f,
        Err(e) => {
            let mut ev: Vec<ParseError> = Vec::new();
            ev.push(e);
            proof {
                assert(errs_view(ev@) =~= seq![e@]);
            }
            return Err(ev);
        },
    };
    let (svc, ds, app, dep, mut errs) = parse_roots(&forest);
    let ghost acc = doc_fold(
        nodes_view(forest@),
        0,
        DocAcc { svc: None, ds: None, app: None, dep: None, errs: Seq::empty() },
    );
    let mut missing: Vec<String> = Vec::new();
    if svc.is_none() {
        missing.push("service".to_owned());
    }
    if ds.is_none() {
        missing.push("data_sources".to_owned());
    }
    if app.is_none() {
        missing.push("application".to_owned());
    }
    if dep.is_none() {
        missing.push("deployment".to_owned());
    }
    proof {
        assert(strings_view(missing@) =~= missing_list(
            acc.svc is Some,
            acc.ds is Some,
            acc.app is Some,
            acc.dep is Some,
        ));
    }
    if missing.len() == 0 && errs.len() == 0 {
        match (svc, ds, app, dep) {
            (Some(s), Some(d), Some(a), Some(p)) => {
                let doc = SmartService {
                    service: s,
                    data_sources: d,
                    application: a,
                    deployment: p,
                };
                Ok(doc)
            },
            _ => {
                proof {
                    assert(false);
                }
                Err(errs)
            },
        }
    } else if missing.len() == 0 {
        Err(errs)
    } else {
        let e = ParseError::IncompleteDocument { missing_sections: missing };
        let ghost errs0 = errs@;
        errs.push(e);
        proof {
            assert(errs_view(errs@) =~= errs_view(errs0).push(errs@.last()@));
        }
        Err(errs)
    }
}

/// A parser instance: the source text it was given, and the four section
/// outcomes its run fills in.
#[derive(Debug)]
pub struct Parser {
    pub source: String,
    pub service: Option<Service>,
    pub data_sources: Option<DataSources>,
    pub application: Option<Application>,
    pub deployment: Option<Deployment>,
}

impl Parser {
    /// A fresh parser over the given source, with no section parsed yet.
    pub fn new(source: &str) -> (p: Parser)
        ensures
            p.source@ == source@,
            p.service is None,
            p.data_sources is None,
            p.application is None,
            p.deployment is None,
    {
        Parser {
            source: source.to_owned(),
            service: None,
            data_sources: None,
            application: None,
            deployment: None,
        }
    }

    /// Runs the parse: fills in every section that parses and returns the
    /// recorded section errors, in source order.
    pub fn run(&mut self) -> (errs: Vec<ParseError>)
        requires
            old(self).source@.len() < usize::MAX,
        ensures
            ({
                let acc = spec_doc_acc(old(self).source@);
                &&& final(self).source == old(self).source
                &&& opt_view(final(self).service) == acc.svc
                &&& opt_view(final(self).data_sources) == acc.ds
                &&& opt_view(final(self).application) == acc.app
                &&& opt_view(final(self).deployment) == acc.dep
                &&& errs_view(errs@) == acc.errs
            }),
    {
        let (svc, ds, app, dep, errs) = parse_sections(self.source.as_str());
        self.service = svc;
        self.data_sources = ds;
        self.application = app;
        self.deployment = dep;
        errs
    }

    /// Combines the four section outcomes: the complete document when all
    /// four are present, else one `IncompleteDocument` error naming every
    /// absent section.
    pub fn smart_service(self) -> (r: Result<SmartService, ParseError>)
        ensures
            r is Ok <==> (self.service is Some && self.data_sources is Some
                && self.application is Some && self.deployment is Some),
            r is Ok ==> self.service == Some(r->Ok_0.service) && self.data_sources == Some(
                r->Ok_0.data_sources,
            ) && self.application == Some(r->Ok_0.application) && self.deployment == Some(
                r->Ok_0.deployment,
            ),
            r is Err ==> r->Err_0@ == (ErrorV::IncompleteDocument {
                missing_sections: missing_list(
                    self.service is Some,
                    self.data_sources is Some,
                    self.application is Some,
                    self.deployment is Some,
                ),
            }),
    {
        let ghost svc_some = self.service is Some;
        let ghost ds_some = self.data_sources is Some;
        let ghost app_some = self.application is Some;
        let ghost dep_some = self.deployment is Some;
        match (self.service, self.data_sources, self.application, self.deployment) {
            (Some(s), Some(d), Some(a), Some(p)) => Ok(
                SmartService { service: s, data_sources: d, application: a, deployment: p },
            ),
            (svc, ds, app, dep) => {
                let mut missing: Vec<String> = Vec::new();
                if svc.is_none() {
                    missing.push("service".to_owned());
                }
                if ds.is_none() {
                    missing.push("data_sources".to_owned());
                }
                if app.is_none() {
                    missing.push("application".to_owned());
                }
                if dep.is_none() {
                    missing.push("deployment".to_owned());
                }
                proof {
                    assert(strings_view(missing@) =~= missing_list(
                        svc_some,
                        ds_some,
                        app_some,
                        dep_some,
                    ));
                }
                Err(ParseError::IncompleteDocument { missing_sections: missing })
            },
        }
    }
}

/// What parsing a source as a single service block yields: the source must
/// hold exactly one top-level block introduced by the keyword `service`.
pub open spec fn spec_service_parse(src: Seq<char>) -> Result<ServiceV, ErrorV> {
    match spec_tokenize(src) {
        Err(e) => Err(e),
        Ok(ls) => match spec_forest(ls) {
            Err(e) => Err(e),
            Ok(roots) => if roots.len() == 0 {
                Err(ErrorV::EmptyDocument)
            } else {
                match roots[0].line.kind {
                    LineKindV::Block { keyword } => if keyword == "service"@ {
                        if roots.len() == 1 {
                            spec_parse_service(roots[0].line, roots[0].children)
                        } else {
                            Err(
                                ErrorV::UnexpectedField {
                                    record: "document"@,
                                    field: kind_name(roots[1].line.kind),
                                    line: roots[1].line.number,
                                },
                            )
                        }
                    } else {
                        Err(
                            ErrorV::UnexpectedField {
                                record: "document"@,
                                field: keyword,
                                line: roots[0].line.number,
                            },
                        )
                    },
                    _ => Err(
                        ErrorV::UnexpectedField {
                            record: "document"@,
                            field: kind_name(roots[0].line.kind),
                            line: roots[0].line.number,
                        },
                    ),
                }
            },
        },
    }
}

impl Service {
    /// Parses a source holding exactly one `service` block; on success the
    /// whole source is consumed and the returned remainder is empty.
    pub fn parse(stream: &str) -> (r: Result<(&str, Service), ParseError>)
        requires
            stream@.len() < usize::MAX,
        ensures
            r is Ok ==> spec_service_parse(stream@) == Ok::<ServiceV, ErrorV>(r->Ok_0.1@)
                && r->Ok_0.0@ == Seq::<char>::empty(),
            r is Err ==> spec_service_parse(stream@) == Err::<ServiceV, ErrorV>(r->Err_0@),
    {
        let lines = match tokenize(stream) {
            Ok(ls) => ls,
            Err(e) => {
                return Err(e);
            },
        };
        let forest = match build_forest(&lines) {
            Ok(f) => f,
            Err(e) => {
                return Err(e);
            },
        };
        let ghost roots = nodes_view(forest@);
        proof {
            lemma_nodes_view_props(forest@);
        }
        if forest.len() == 0 {
            return Err(ParseError::EmptyDocument);
        }
        proof {
            assert(roots[0] == node_view(forest@[0]));
            if forest@.len() > 1 {
                assert(roots[1] == node_view(forest@[1]));
            }
        }
        let root = &forest[0];
        match &root.line.kind {
            LineKind::Block { keyword } => {
                if str_eq_str(keyword.as_str(), "service") {
                    if forest.len() == 1 {
                        match parse_service_node(root) {
                            Ok(s) => {
                                proof {
                                    reveal_strlit("");
                                    assert(""@ =~= Seq::<char>::empty());
                                }
                                Ok(("", s))
                            },
                            Err(e) => Err(e),
                        }
                    } else {
                        let second = &forest[1];
                        Err(
                            ParseError::UnexpectedField {
                                record: "document".to_owned(),
                                field: kind_name_owned(&second.line.kind),
                                line: second.line.number,
                            },
                        )
                    }
                } else {
                    Err(
                        ParseError::UnexpectedField {
                            record: "document".to_owned(),
                            field: keyword.clone(),
                            line: root.line.number,
                        },
                    )
                }
            },
            _ => Err(
                ParseError::UnexpectedField {
                    record: "document".to_owned(),
                    field: kind_name_owned(&root.line.kind),
                    line: root.line.number,
                },
            ),
        }
    }
}

} // verus!
