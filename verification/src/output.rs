//! The closed union of successful command outcomes and its machine
//! rendering: the fixed table from each variant to its `data` fields,
//! and the companion build-error report of the dual-state case.

use vstd::prelude::*;
use vstd::string::StringExecFns;

use crate::error::{build_errors_jv, error_jv, ErrorValue};
use crate::json::{
    j_arr, j_obj, j_opt_str_ref, j_str, j_str_ref, jv, jv_fields, jv_opt_str, jv_seq, opt_chars,
    Json, Jv,
};
use crate::model::{
    check_data_fields_jv, language_chars, BuildError, BuildHint, CheckRequestSuccessResult,
    CheckResponse, CompositionOutput, ContractDescribeResponse, ContractPublishResponse,
    FetchResponse, GithubTemplate, GraphPublishResponse, GraphRef, SubgraphDeleteResponse,
    SubgraphInfo, SubgraphListResponse, SubgraphPublishResponse,
};

verus! {

broadcast use vstd::std_specs::vec::group_vec_axioms;

/// Every type of data a command can print to `stdout`. Each command
/// returns one of these variants; its machine rendering is handled in
/// `get_internal_data_json` and its human rendering in `get_stdout`.
/// A command with nothing to report returns `EmptySuccess`.
#[derive(Debug)]
pub enum RoverOutput {
    ContractDescribe(ContractDescribeResponse),
    ContractPublish(ContractPublishResponse),
    DocsList(Vec<(String, String)>),
    FetchResponse(FetchResponse),
    SupergraphSchema(String),
    CompositionResult(CompositionOutput),
    SubgraphList(SubgraphListResponse),
    CheckResponse(CheckResponse),
    AsyncCheckResponse(CheckRequestSuccessResult),
    GraphPublishResponse { graph_ref: GraphRef, publish_response: GraphPublishResponse },
    SubgraphPublishResponse {
        graph_ref: GraphRef,
        subgraph: String,
        publish_response: SubgraphPublishResponse,
    },
    SubgraphDeleteResponse {
        graph_ref: GraphRef,
        subgraph: String,
        dry_run: bool,
        delete_response: SubgraphDeleteResponse,
    },
    TemplateList(Vec<GithubTemplate>),
    TemplateUseSuccess { template: GithubTemplate, path: String },
    Profiles(Vec<String>),
    Introspection(String),
    ErrorExplanation(String),
    ReadmeFetchResponse { graph_ref: GraphRef, content: String, last_updated_time: Option<String> },
    ReadmePublishResponse {
        graph_ref: GraphRef,
        new_content: String,
        last_updated_time: Option<String>,
    },
    EmptySuccess,
}

/// The machine rendering of a graph identifier.
pub open spec fn graph_ref_jv(g: GraphRef) -> Jv {
    Jv::Obj(seq![("name"@, Jv::Str(g.name@)), ("variant"@, Jv::Str(g.variant@))])
}

/// The machine rendering of one documentation shortlink.
pub open spec fn shortlink_jv(kv: (String, String)) -> Jv {
    Jv::Obj(seq![("slug"@, Jv::Str(kv.0@)), ("description"@, Jv::Str(kv.1@))])
}

/// The machine rendering of one composition hint.
pub open spec fn hint_jv(h: BuildHint) -> Jv {
    Jv::Obj(seq![("message"@, Jv::Str(h.message@))])
}

/// The machine rendering of one project template.
pub open spec fn template_jv(t: GithubTemplate) -> Jv {
    Jv::Obj(
        seq![
            ("id"@, Jv::Str(t.id@)),
            ("display"@, Jv::Str(t.display@)),
            ("language"@, Jv::Str(language_chars(t.language))),
            ("git_url"@, Jv::Str(t.git_url@)),
        ],
    )
}

/// The machine rendering of one listed subgraph.
pub open spec fn subgraph_info_jv(s: SubgraphInfo) -> Jv {
    Jv::Obj(
        seq![
            ("name"@, Jv::Str(s.name@)),
            ("url"@, jv_opt_str(opt_chars(s.url))),
            (
                "updated_at"@,
                Jv::Obj(
                    seq![
                        ("local"@, jv_opt_str(opt_chars(s.updated_at.local))),
                        ("utc"@, jv_opt_str(opt_chars(s.updated_at.utc))),
                    ],
                ),
            ),
        ],
    )
}

/// The machine rendering of field- or type-change counts.
pub open spec fn change_counts_jv(additions: u64, removals: u64, edits: u64) -> Jv {
    Jv::Obj(
        seq![
            ("additions"@, Jv::UInt(additions)),
            ("removals"@, Jv::UInt(removals)),
            ("edits"@, Jv::UInt(edits)),
        ],
    )
}

/// The fixed, exhaustive table mapping each result variant to the
/// variant-specific fields of the machine `data` object (without the
/// `success` flag, which the envelope appends).
pub open spec fn data_fields_jv(o: RoverOutput) -> Seq<(Seq<char>, Jv)> {
    match o {
        RoverOutput::ContractDescribe(d) => seq![
            ("description"@, Jv::Str(d.description@)),
            ("root_url"@, Jv::Str(d.root_url@)),
            ("graph_ref"@, graph_ref_jv(d.graph_ref)),
        ],
        RoverOutput::ContractPublish(p) => seq![
            ("config_description"@, Jv::Str(p.config_description@)),
            ("launch_url"@, jv_opt_str(opt_chars(p.launch_url))),
            ("launch_cli_copy"@, jv_opt_str(opt_chars(p.launch_cli_copy))),
        ],
        RoverOutput::DocsList(links) => seq![
            ("shortlinks"@, Jv::Arr(links@.map_values(|kv: (String, String)| shortlink_jv(kv)))),
        ],
        RoverOutput::FetchResponse(f) => seq![
            ("sdl"@, Jv::Obj(seq![("contents"@, Jv::Str(f.sdl.contents@))])),
        ],
        RoverOutput::SupergraphSchema(csdl) => seq![("core_schema"@, Jv::Str(csdl@))],
        RoverOutput::CompositionResult(c) => {
            match c.federation_version {
                Some(v) => seq![
                    ("core_schema"@, Jv::Str(c.supergraph_sdl@)),
                    ("hints"@, Jv::Arr(c.hints@.map_values(|h: BuildHint| hint_jv(h)))),
                    ("federation_version"@, Jv::Str(v@)),
                ],
                None => seq![
                    ("core_schema"@, Jv::Str(c.supergraph_sdl@)),
                    ("hints"@, Jv::Arr(c.hints@.map_values(|h: BuildHint| hint_jv(h)))),
                ],
            }
        },
        RoverOutput::SubgraphList(l) => seq![
            (
                "subgraphs"@,
                Jv::Arr(l.subgraphs@.map_values(|s: SubgraphInfo| subgraph_info_jv(s))),
            ),
        ],
        RoverOutput::CheckResponse(c) => check_data_fields_jv(c),
        RoverOutput::AsyncCheckResponse(a) => seq![
            ("workflow_id"@, Jv::Str(a.workflow_id@)),
            ("target_url"@, Jv::Str(a.target_url@)),
        ],
        RoverOutput::GraphPublishResponse { publish_response, .. } => seq![
            ("api_schema_hash"@, Jv::Str(publish_response.api_schema_hash@)),
            (
                "field_changes"@,
                change_counts_jv(
                    publish_response.change_summary.field_changes.additions,
                    publish_response.change_summary.field_changes.removals,
                    publish_response.change_summary.field_changes.edits,
                ),
            ),
            (
                "type_changes"@,
                change_counts_jv(
                    publish_response.change_summary.type_changes.additions,
                    publish_response.change_summary.type_changes.removals,
                    publish_response.change_summary.type_changes.edits,
                ),
            ),
        ],
        RoverOutput::SubgraphPublishResponse { publish_response, .. } => seq![
            ("api_schema_hash"@, jv_opt_str(opt_chars(publish_response.api_schema_hash))),
            ("supergraph_was_updated"@, Jv::Bool(publish_response.supergraph_was_updated)),
            ("subgraph_was_created"@, Jv::Bool(publish_response.subgraph_was_created)),
            ("launch_url"@, jv_opt_str(opt_chars(publish_response.launch_url))),
            ("launch_cli_copy"@, jv_opt_str(opt_chars(publish_response.launch_cli_copy))),
        ],
        RoverOutput::SubgraphDeleteResponse { delete_response, .. } => seq![
            ("supergraph_was_updated"@, Jv::Bool(delete_response.supergraph_was_updated)),
        ],
        RoverOutput::TemplateList(ts) => seq![
            ("templates"@, Jv::Arr(ts@.map_values(|t: GithubTemplate| template_jv(t)))),
        ],
        RoverOutput::TemplateUseSuccess { template, path } => seq![
            ("template_id"@, Jv::Str(template.id@)),
            ("path"@, Jv::Str(path@)),
        ],
        RoverOutput::Profiles(ps) => seq![
            ("profiles"@, Jv::Arr(ps@.map_values(|p: String| Jv::Str(p@)))),
        ],
        RoverOutput::Introspection(s) => seq![("introspection_response"@, Jv::Str(s@))],
        RoverOutput::ErrorExplanation(s) => seq![("explanation_markdown"@, Jv::Str(s@))],
        RoverOutput::ReadmeFetchResponse { content, last_updated_time, .. } => seq![
            ("readme"@, Jv::Str(content@)),
            ("last_updated_time"@, jv_opt_str(opt_chars(last_updated_time))),
        ],
        RoverOutput::ReadmePublishResponse { new_content, last_updated_time, .. } => seq![
            ("readme"@, Jv::Str(new_content@)),
            ("last_updated_time"@, jv_opt_str(opt_chars(last_updated_time))),
        ],
        RoverOutput::EmptySuccess => Seq::empty(),
    }
}

/// The machine `data` object of a result, before the `success` flag is
/// appended: JSON null for the empty success, an object otherwise.
pub open spec fn data_jv(o: RoverOutput) -> Jv {
    match o {
        RoverOutput::EmptySuccess => Jv::Null,
        _ => Jv::Obj(data_fields_jv(o)),
    }
}

/// The companion error of a result, for the dual-state case: a
/// confirmation that carries build errors still succeeds, but its
/// machine rendering reports those build errors beside the data.
/// JSON null for every other variant.
pub open spec fn internal_error_jv(o: RoverOutput) -> Jv {
    match o {
        RoverOutput::SubgraphPublishResponse { graph_ref, subgraph, publish_response } => {
            if publish_response.build_errors@.len() > 0 {
                error_jv(
                    ErrorValue::SubgraphBuildErrors {
                        subgraph: subgraph,
                        graph_ref: graph_ref,
                        source: publish_response.build_errors,
                    },
                )
            } else {
                Jv::Null
            }
        },
        RoverOutput::SubgraphDeleteResponse { graph_ref, subgraph, delete_response, .. } => {
            if delete_response.build_errors@.len() > 0 {
                error_jv(
                    ErrorValue::SubgraphBuildErrors {
                        subgraph: subgraph,
                        graph_ref: graph_ref,
                        source: delete_response.build_errors,
                    },
                )
            } else {
                Jv::Null
            }
        },
        _ => Jv::Null,
    }
}

fn graph_ref_json(g: &GraphRef) -> (r: Json)
    ensures
        r@ == graph_ref_jv(*g),
{
    let mut f: Vec<(String, Json)> = Vec::new();
    f.push((String::from_str("name"), j_str_ref(&g.name)));
    f.push((String::from_str("variant"), j_str_ref(&g.variant)));
    let ghost gf = f@;
    let r = j_obj(f);
    proof {
        assert(jv_fields(gf) =~= graph_ref_jv(*g)->Obj_0);
    }
    r
}

fn shortlink_json(kv: &(String, String)) -> (r: Json)
    ensures
        r@ == shortlink_jv(*kv),
{
    let mut f: Vec<(String, Json)> = Vec::new();
    f.push((String::from_str("slug"), j_str_ref(&kv.0)));
    f.push((String::from_str("description"), j_str_ref(&kv.1)));
    let ghost gf = f@;
    let r = j_obj(f);
    proof {
        assert(jv_fields(gf) =~= shortlink_jv(*kv)->Obj_0);
    }
    r
}

fn hint_json(h: &BuildHint) -> (r: Json)
    ensures
        r@ == hint_jv(*h),
{
    let mut f: Vec<(String, Json)> = Vec::new();
    f.push((String::from_str("message"), j_str_ref(&h.message)));
    let ghost gf = f@;
    let r = j_obj(f);
    proof {
        assert(jv_fields(gf) =~= hint_jv(*h)->Obj_0);
    }
    r
}

fn template_json(t: &GithubTemplate) -> (r: Json)
    ensures
        r@ == template_jv(*t),
{
    let mut f: Vec<(String, Json)> = Vec::new();
    f.push((String::from_str("id"), j_str_ref(&t.id)));
    f.push((String::from_str("display"), j_str_ref(&t.display)));
    f.push((String::from_str("language"), j_str(t.language.to_display_str())));
    f.push((String::from_str("git_url"), j_str_ref(&t.git_url)));
    let ghost gf = f@;
    let r = j_obj(f);
    proof {
        assert(jv_fields(gf) =~= template_jv(*t)->Obj_0);
    }
    r
}

fn subgraph_info_json(s: &SubgraphInfo) -> (r: Json)
    ensures
        r@ == subgraph_info_jv(*s),
{
    let mut u: Vec<(String, Json)> = Vec::new();
    u.push((String::from_str("local"), j_opt_str_ref(&s.updated_at.local)));
    u.push((String::from_str("utc"), j_opt_str_ref(&s.updated_at.utc)));
    let ghost gu = u@;
    let updated = j_obj(u);
    let mut f: Vec<(String, Json)> = Vec::new();
    f.push((String::from_str("name"), j_str_ref(&s.name)));
    f.push((String::from_str("url"), j_opt_str_ref(&s.url)));
    f.push((String::from_str("updated_at"), updated));
    let ghost gf = f@;
    let r = j_obj(f);
    proof {
        assert(jv_fields(gu) =~= subgraph_info_jv(*s)->Obj_0[2].1->Obj_0);
        assert(jv_fields(gf) =~= subgraph_info_jv(*s)->Obj_0);
    }
    r
}

fn change_counts_json(additions: u64, removals: u64, edits: u64) -> (r: Json)
    ensures
        r@ == change_counts_jv(additions, removals, edits),
{
    let mut f: Vec<(String, Json)> = Vec::new();
    f.push((String::from_str("additions"), Json::UInt(additions)));
    f.push((String::from_str("removals"), Json::UInt(removals)));
    f.push((String::from_str("edits"), Json::UInt(edits)));
    let ghost gf = f@;
    let r = j_obj(f);
    proof {
        assert(jv_fields(gf) =~= change_counts_jv(additions, removals, edits)->Obj_0);
    }
    r
}

impl RoverOutput {
    /// The variant-specific fields of the machine `data` object, per
    /// the fixed exhaustive table.
    pub fn data_fields(&self) -> (r: Vec<(String, Json)>)
        ensures
            jv_fields(r@) == data_fields_jv(*self),
    {
        match self {
            RoverOutput::ContractDescribe(d) => {
                let mut f: Vec<(String, Json)> = Vec::new();
                f.push((String::from_str("description"), j_str_ref(&d.description)));
                f.push((String::from_str("root_url"), j_str_ref(&d.root_url)));
                f.push((String::from_str("graph_ref"), graph_ref_json(&d.graph_ref)));
                proof {
                    assert(jv_fields(f@) =~= data_fields_jv(*self));
                }
                f
            },
            RoverOutput::ContractPublish(p) => {
                let mut f: Vec<(String, Json)> = Vec::new();
                f.push((String::from_str("config_description"), j_str_ref(&p.config_description)));
                f.push((String::from_str("launch_url"), j_opt_str_ref(&p.launch_url)));
                f.push((String::from_str("launch_cli_copy"), j_opt_str_ref(&p.launch_cli_copy)));
                proof {
                    assert(jv_fields(f@) =~= data_fields_jv(*self));
                }
                f
            },
            RoverOutput::DocsList(links) => {
                let mut items: Vec<Json> = Vec::new();
                let mut i: usize = 0;
                while i < links.len()
                    invariant
                        i <= links@.len(),
                        items@.len() == i,
                        forall|k: int|
                            0 <= k < i ==> jv(#[trigger] items@[k]) == shortlink_jv(links@[k]),
                    decreases links@.len() - i,
                {
                    items.push(shortlink_json(&links[i]));
                    i = i + 1;
                }
                proof {
                    assert(jv_seq(items@) =~= links@.map_values(
                        |kv: (String, String)| shortlink_jv(kv),
                    ));
                }
                let mut f: Vec<(String, Json)> = Vec::new();
                f.push((String::from_str("shortlinks"), j_arr(items)));
                proof {
                    assert(jv_fields(f@) =~= data_fields_jv(*self));
                }
                f
            },
            RoverOutput::FetchResponse(fr) => {
                let mut sdl: Vec<(String, Json)> = Vec::new();
                sdl.push((String::from_str("contents"), j_str_ref(&fr.sdl.contents)));
                let ghost gsdl = sdl@;
                let sdl_obj = j_obj(sdl);
                let mut f: Vec<(String, Json)> = Vec::new();
                f.push((String::from_str("sdl"), sdl_obj));
                proof {
                    assert(jv_fields(gsdl) =~= seq![("contents"@, Jv::Str(fr.sdl.contents@))]);
                    assert(jv_fields(f@) =~= data_fields_jv(*self));
                }
                f
            },
            RoverOutput::SupergraphSchema(csdl) => {
                let mut f: Vec<(String, Json)> = Vec::new();
                f.push((String::from_str("core_schema"), j_str_ref(csdl)));
                proof {
                    assert(jv_fields(f@) =~= data_fields_jv(*self));
                }
                f
            },
            RoverOutput::CompositionResult(c) => {
                let mut hints: Vec<Json> = Vec::new();
                let mut i: usize = 0;
                while i < c.hints.len()
                    invariant
                        i <= c.hints@.len(),
                        hints@.len() == i,
                        forall|k: int|
                            0 <= k < i ==> jv(#[trigger] hints@[k]) == hint_jv(c.hints@[k]),
                    decreases c.hints@.len() - i,
                {
                    hints.push(hint_json(&c.hints[i]));
                    i = i + 1;
                }
                proof {
                    assert(jv_seq(hints@) =~= c.hints@.map_values(|h: BuildHint| hint_jv(h)));
                }
                let mut f: Vec<(String, Json)> = Vec::new();
                f.push((String::from_str("core_schema"), j_str_ref(&c.supergraph_sdl)));
                f.push((String::from_str("hints"), j_arr(hints)));
                match &c.federation_version {
                    Some(v) => {
                        f.push((String::from_str("federation_version"), j_str_ref(v)));
                    },
                    None => {},
                }
                proof {
                    assert(jv_fields(f@) =~= data_fields_jv(*self));
                }
                f
            },
            RoverOutput::SubgraphList(l) => {
                let mut items: Vec<Json> = Vec::new();
                let mut i: usize = 0;
                while i < l.subgraphs.len()
                    invariant
                        i <= l.subgraphs@.len(),
                        items@.len() == i,
                        forall|k: int|
                            0 <= k < i ==> jv(#[trigger] items@[k]) == subgraph_info_jv(
                                l.subgraphs@[k],
                            ),
                    decreases l.subgraphs@.len() - i,
                {
                    items.push(subgraph_info_json(&l.subgraphs[i]));
                    i = i + 1;
                }
                proof {
                    assert(jv_seq(items@) =~= l.subgraphs@.map_values(
                        |s: SubgraphInfo| subgraph_info_jv(s),
                    ));
                }
                let mut f: Vec<(String, Json)> = Vec::new();
                f.push((String::from_str("subgraphs"), j_arr(items)));
                proof {
                    assert(jv_fields(f@) =~= data_fields_jv(*self));
                }
                f
            },
            RoverOutput::CheckResponse(c) => c.data_fields(),
            RoverOutput::AsyncCheckResponse(a) => {
                let mut f: Vec<(String, Json)> = Vec::new();
                f.push((String::from_str("workflow_id"), j_str_ref(&a.workflow_id)));
                f.push((String::from_str("target_url"), j_str_ref(&a.target_url)));
                proof {
                    assert(jv_fields(f@) =~= data_fields_jv(*self));
                }
                f
            },
            RoverOutput::GraphPublishResponse { publish_response, .. } => {
                let mut f: Vec<(String, Json)> = Vec::new();
                f.push(
                    (
                        String::from_str("api_schema_hash"),
                        j_str_ref(&publish_response.api_schema_hash),
                    ),
                );
                f.push(
                    (
                        String::from_str("field_changes"),
                        change_counts_json(
                            publish_response.change_summary.field_changes.additions,
                            publish_response.change_summary.field_changes.removals,
                            publish_response.change_summary.field_changes.edits,
                        ),
                    ),
                );
                f.push(
                    (
                        String::from_str("type_changes"),
                        change_counts_json(
                            publish_response.change_summary.type_changes.additions,
                            publish_response.change_summary.type_changes.removals,
                            publish_response.change_summary.type_changes.edits,
                        ),
                    ),
                );
                proof {
                    assert(jv_fields(f@) =~= data_fields_jv(*self));
                }
                f
            },
            RoverOutput::SubgraphPublishResponse { publish_response, .. } => {
                let mut f: Vec<(String, Json)> = Vec::new();
                f.push(
                    (
                        String::from_str("api_schema_hash"),
                        j_opt_str_ref(&publish_response.api_schema_hash),
                    ),
                );
                f.push(
                    (
                        String::from_str("supergraph_was_updated"),
                        Json::Bool(publish_response.supergraph_was_updated),
                    ),
                );
                f.push(
                    (
                        String::from_str("subgraph_was_created"),
                        Json::Bool(publish_response.subgraph_was_created),
                    ),
                );
                f.push((String::from_str("launch_url"), j_opt_str_ref(&publish_response.launch_url)));
                f.push(
                    (
                        String::from_str("launch_cli_copy"),
                        j_opt_str_ref(&publish_response.launch_cli_copy),
                    ),
                );
                proof {
                    assert(jv_fields(f@) =~= data_fields_jv(*self));
                }
                f
            },
            RoverOutput::SubgraphDeleteResponse { delete_response, .. } => {
                let mut f: Vec<(String, Json)> = Vec::new();
                f.push(
                    (
                        String::from_str("supergraph_was_updated"),
                        Json::Bool(delete_response.supergraph_was_updated),
                    ),
                );
                proof {
                    assert(jv_fields(f@) =~= data_fields_jv(*self));
                }
                f
            },
            RoverOutput::TemplateList(ts) => {
                let mut items: Vec<Json> = Vec::new();
                let mut i: usize = 0;
                while i < ts.len()
                    invariant
                        i <= ts@.len(),
                        items@.len() == i,
                        forall|k: int|
                            0 <= k < i ==> jv(#[trigger] items@[k]) == template_jv(ts@[k]),
                    decreases ts@.len() - i,
                {
                    items.push(template_json(&ts[i]));
                    i = i + 1;
                }
                proof {
                    assert(jv_seq(items@) =~= ts@.map_values(|t: GithubTemplate| template_jv(t)));
                }
                let mut f: Vec<(String, Json)> = Vec::new();
                f.push((String::from_str("templates"), j_arr(items)));
                proof {
                    assert(jv_fields(f@) =~= data_fields_jv(*self));
                }
                f
            },
            RoverOutput::TemplateUseSuccess { template, path } => {
                let mut f: Vec<(String, Json)> = Vec::new();
                f.push((String::from_str("template_id"), j_str_ref(&template.id)));
                f.push((String::from_str("path"), j_str_ref(path)));
                proof {
                    assert(jv_fields(f@) =~= data_fields_jv(*self));
                }
                f
            },
            RoverOutput::Profiles(ps) => {
                let mut items: Vec<Json> = Vec::new();
                let mut i: usize = 0;
                while i < ps.len()
                    invariant
                        i <= ps@.len(),
                        items@.len() == i,
                        forall|k: int|
                            0 <= k < i ==> jv(#[trigger] items@[k]) == Jv::Str(ps@[k]@),
                    decreases ps@.len() - i,
                {
                    items.push(j_str_ref(&ps[i]));
                    i = i + 1;
                }
                proof {
                    assert(jv_seq(items@) =~= ps@.map_values(|p: String| Jv::Str(p@)));
                }
                let mut f: Vec<(String, Json)> = Vec::new();
                f.push((String::from_str("profiles"), j_arr(items)));
                proof {
                    assert(jv_fields(f@) =~= data_fields_jv(*self));
                }
                f
            },
            RoverOutput::Introspection(s) => {
                let mut f: Vec<(String, Json)> = Vec::new();
                f.push((String::from_str("introspection_response"), j_str_ref(s)));
                proof {
                    assert(jv_fields(f@) =~= data_fields_jv(*self));
                }
                f
            },
            RoverOutput::ErrorExplanation(s) => {
                let mut f: Vec<(String, Json)> = Vec::new();
                f.push((String::from_str("explanation_markdown"), j_str_ref(s)));
                proof {
                    assert(jv_fields(f@) =~= data_fields_jv(*self));
                }
                f
            },
            RoverOutput::ReadmeFetchResponse { content, last_updated_time, .. } => {
                let mut f: Vec<(String, Json)> = Vec::new();
                f.push((String::from_str("readme"), j_str_ref(content)));
                f.push((String::from_str("last_updated_time"), j_opt_str_ref(last_updated_time)));
                proof {
                    assert(jv_fields(f@) =~= data_fields_jv(*self));
                }
                f
            },
            RoverOutput::ReadmePublishResponse { new_content, last_updated_time, .. } => {
                let mut f: Vec<(String, Json)> = Vec::new();
                f.push((String::from_str("readme"), j_str_ref(new_content)));
                f.push((String::from_str("last_updated_time"), j_opt_str_ref(last_updated_time)));
                proof {
                    assert(jv_fields(f@) =~= data_fields_jv(*self));
                }
                f
            },
            RoverOutput::EmptySuccess => {
                let f: Vec<(String, Json)> = Vec::new();
                proof {
                    assert(jv_fields(f@) =~= data_fields_jv(*self));
                }
                f
            },
        }
    }

    /// The machine `data` object of this result (without the `success`
    /// flag): JSON null for the empty success, an object otherwise.
    pub fn get_internal_data_json(&self) -> (r: Json)
        ensures
            r@ == data_jv(*self),
    {
        match self {
            RoverOutput::EmptySuccess => Json::Null,
            _ => j_obj(self.data_fields()),
        }
    }

    /// The companion machine `error` object of this result: the
    /// dual-state build-error report for confirmations that carry build
    /// errors, JSON null otherwise.
    pub fn get_internal_error_json(&self) -> (r: Json)
        ensures
            r@ == internal_error_jv(*self),
    {
        match self {
            RoverOutput::SubgraphPublishResponse { graph_ref, subgraph, publish_response } => {
                if publish_response.build_errors.len() > 0 {
                    let e = ErrorValue::SubgraphBuildErrors {
                        subgraph: subgraph.clone(),
                        graph_ref: clone_graph_ref(graph_ref),
                        source: clone_build_errors(&publish_response.build_errors),
                    };
                    let r = e.error_json();
                    proof {
                        lemma_error_jv_congruent(
                            e,
                            ErrorValue::SubgraphBuildErrors {
                                subgraph: *subgraph,
                                graph_ref: *graph_ref,
                                source: publish_response.build_errors,
                            },
                        );
                    }
                    r
                } else {
                    Json::Null
                }
            },
            RoverOutput::SubgraphDeleteResponse { graph_ref, subgraph, delete_response, .. } => {
                if delete_response.build_errors.len() > 0 {
                    let e = ErrorValue::SubgraphBuildErrors {
                        subgraph: subgraph.clone(),
                        graph_ref: clone_graph_ref(graph_ref),
                        source: clone_build_errors(&delete_response.build_errors),
                    };
                    let r = e.error_json();
                    proof {
                        lemma_error_jv_congruent(
                            e,
                            ErrorValue::SubgraphBuildErrors {
                                subgraph: *subgraph,
                                graph_ref: *graph_ref,
                                source: delete_response.build_errors,
                            },
                        );
                    }
                    r
                } else {
                    Json::Null
                }
            },
            _ => Json::Null,
        }
    }
}

fn clone_graph_ref(g: &GraphRef) -> (r: GraphRef)
    ensures
        r.name@ == g.name@,
        r.variant@ == g.variant@,
{
    GraphRef { name: g.name.clone(), variant: g.variant.clone() }
}

fn clone_opt_string(s: &Option<String>) -> (r: Option<String>)
    ensures
        opt_chars(r) == opt_chars(*s),
{
    match s {
        Some(t) => Some(t.clone()),
        None => None,
    }
}

fn clone_build_errors(v: &Vec<BuildError>) -> (r: Vec<BuildError>)
    ensures
        r@.len() == v@.len(),
        forall|k: int|
            0 <= k < v@.len() ==> opt_chars(#[trigger] r@[k].message) == opt_chars(v@[k].message)
                && opt_chars(r@[k].code) == opt_chars(v@[k].code),
{
    let mut r: Vec<BuildError> = Vec::new();
    let mut i: usize = 0;
    while i < v.len()
        invariant
            i <= v@.len(),
            r@.len() == i,
            forall|k: int|
                0 <= k < i ==> opt_chars(#[trigger] r@[k].message) == opt_chars(v@[k].message)
                    && opt_chars(r@[k].code) == opt_chars(v@[k].code),
        decreases v@.len() - i,
    {
        let b = &v[i];
        r.push(BuildError { message: clone_opt_string(&b.message), code: clone_opt_string(&b.code) });
        i = i + 1;
    }
    r
}

/// Two subgraph build-error values with the same rendered fields have
/// the same machine `error` object.
proof fn lemma_error_jv_congruent(a: ErrorValue, b: ErrorValue)
    requires
        a matches ErrorValue::SubgraphBuildErrors { subgraph: sa, graph_ref: ga, source: ea }
            && b matches ErrorValue::SubgraphBuildErrors { subgraph: sb, graph_ref: gb, source: eb }
            && sa@ == sb@ && ga.name@ == gb.name@ && ga.variant@ == gb.variant@ && ea@.len()
            == eb@.len() && (forall|k: int|
            0 <= k < ea@.len() ==> opt_chars(#[trigger] ea@[k].message) == opt_chars(eb@[k].message)
                && opt_chars(ea@[k].code) == opt_chars(eb@[k].code)),
    ensures
        error_jv(a) == error_jv(b),
{
    let ea = a->SubgraphBuildErrors_source;
    let eb = b->SubgraphBuildErrors_source;
    assert forall|k: int| 0 <= k < ea@.len() implies #[trigger] crate::error::build_error_jv(
        ea@[k],
    ) == crate::error::build_error_jv(eb@[k]) by {
        assert(crate::error::build_error_jv(ea@[k])->Obj_0 =~= crate::error::build_error_jv(
            eb@[k],
        )->Obj_0);
    }
    assert(build_errors_jv(ea@) =~= build_errors_jv(eb@));
    assert(error_jv(a)->Obj_0 =~= error_jv(b)->Obj_0);
}

} // verus!
