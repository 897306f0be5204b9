//! The human rendering of a result: its heading, its narration lines,
//! and its primary-stream body, including the fixed-column tables of
//! the listing commands.

use vstd::prelude::*;
use vstd::string::StrSliceExecFns;
use vstd::string::StringExecFns;

use crate::model::{
    severity_chars, BuildError, BuildHint, ChangeSummary, CheckResponse, GithubTemplate,
    SchemaChange, SubgraphInfo,
};
use crate::output::RoverOutput;
use crate::table::{render_table, row_view, rows_view, table_chars};
use crate::text::{dec_chars, u64_to_string};

verus! {

broadcast use vstd::std_specs::vec::group_vec_axioms;

/// The heading printed before a result's body in interactive human
/// rendering; variants with no natural heading have none.
pub open spec fn descriptor_chars(o: RoverOutput) -> Option<Seq<char>> {
    match o {
        RoverOutput::ContractDescribe(_) => Some("Configuration Description"@),
        RoverOutput::ContractPublish(_) => Some("New Configuration Description"@),
        RoverOutput::FetchResponse(f) => match f.sdl.sdl_type {
            crate::model::SdlType::Supergraph => Some("Supergraph Schema"@),
            _ => Some("Schema"@),
        },
        RoverOutput::CompositionResult(_) => Some("Supergraph Schema"@),
        RoverOutput::SupergraphSchema(_) => Some("Supergraph Schema"@),
        RoverOutput::TemplateUseSuccess { .. } => Some("Project generated"@),
        RoverOutput::CheckResponse(_) => Some("Check Result"@),
        RoverOutput::AsyncCheckResponse(_) => Some("Check Started"@),
        RoverOutput::Profiles(_) => Some("Profiles"@),
        RoverOutput::Introspection(_) => Some("Introspection Response"@),
        RoverOutput::ReadmeFetchResponse { .. } => Some("Readme"@),
        RoverOutput::GraphPublishResponse { .. } => Some("Schema Hash"@),
        _ => None,
    }
}

/// The bracketed summary of how many fields and types a publish changed.
pub open spec fn change_summary_chars(cs: ChangeSummary) -> Seq<char> {
    "[Fields: +"@ + dec_chars(cs.field_changes.additions as nat) + " -"@ + dec_chars(
        cs.field_changes.removals as nat,
    ) + " ~"@ + dec_chars(cs.field_changes.edits as nat) + ", Types: +"@ + dec_chars(
        cs.type_changes.additions as nat,
    ) + " -"@ + dec_chars(cs.type_changes.removals as nat) + " ~"@ + dec_chars(
        cs.type_changes.edits as nat,
    ) + "]"@
}

/// The human line for one build error: its message when it has one.
pub open spec fn build_error_line(b: BuildError) -> Seq<char> {
    match b.message {
        Some(m) => m@,
        None => "unknown build error"@,
    }
}

/// The first `i` build errors, one per line.
pub open spec fn build_errors_lines(bs: Seq<BuildError>, i: int) -> Seq<char>
    decreases i,
{
    if i <= 0 {
        Seq::empty()
    } else {
        build_errors_lines(bs, i - 1) + (if i == 1 {
            Seq::<char>::empty()
        } else {
            "\n"@
        }) + build_error_line(bs[i - 1])
    }
}

/// The first `i` composition hints, each on a "HINT:" line.
pub open spec fn hints_text(hs: Seq<BuildHint>, i: int) -> Seq<char>
    decreases i,
{
    if i <= 0 {
        Seq::empty()
    } else {
        hints_text(hs, i - 1) + "HINT: "@ + hs[i - 1].message@ + "\n"@
    }
}

/// The first `i` profile names, one per line.
pub open spec fn profiles_text(ps: Seq<String>, i: int) -> Seq<char>
    decreases i,
{
    if i <= 0 {
        Seq::empty()
    } else {
        profiles_text(ps, i - 1) + (if i == 1 {
            Seq::<char>::empty()
        } else {
            "\n"@
        }) + ps[i - 1]@
    }
}

/// The table rows of a documentation shortlink listing.
pub open spec fn docs_rows(links: Seq<(String, String)>) -> Seq<Seq<Seq<char>>> {
    seq![seq!["Slug"@, "Description"@]] + links.map_values(
        |kv: (String, String)| seq![kv.0@, kv.1@],
    )
}

/// The routing URL cell of a listed subgraph: the literal placeholder
/// stands in for a missing or empty URL, so columns stay aligned.
pub open spec fn subgraph_url_cell(s: SubgraphInfo) -> Seq<char> {
    match s.url {
        Some(u) => if u@.len() > 0 {
            u@
        } else {
            "unspecified"@
        },
        None => "unspecified"@,
    }
}

/// The last-updated cell of a listed subgraph: the literal placeholder
/// stands in for a subgraph that was never updated.
pub open spec fn subgraph_updated_cell(s: SubgraphInfo) -> Seq<char> {
    match s.updated_at.local {
        Some(d) => d@,
        None => "N/A"@,
    }
}

/// The table rows of a subgraph listing.
pub open spec fn subgraph_rows(subs: Seq<SubgraphInfo>) -> Seq<Seq<Seq<char>>> {
    seq![seq!["Name"@, "Routing Url"@, "Last Updated"@]] + subs.map_values(
        |s: SubgraphInfo| seq![s.name@, subgraph_url_cell(s), subgraph_updated_cell(s)],
    )
}

/// The table rows of a template listing.
pub open spec fn template_rows(ts: Seq<GithubTemplate>) -> Seq<Seq<Seq<char>>> {
    seq![seq!["Name"@, "ID"@, "Language"@, "Repo URL"@]] + ts.map_values(
        |t: GithubTemplate| seq![
            t.display@,
            t.id@,
            crate::model::language_chars(t.language),
            t.git_url@,
        ],
    )
}

/// The table rows of a check result's change listing.
pub open spec fn check_rows(changes: Seq<SchemaChange>) -> Seq<Seq<Seq<char>>> {
    seq![seq!["Change"@, "Code"@, "Description"@]] + changes.map_values(
        |c: SchemaChange| seq![severity_chars(c.severity), c.code@, c.description@],
    )
}

/// The human body of a check result: the change table, then where to
/// read the full details.
pub open spec fn check_body_chars(c: CheckResponse) -> Seq<char> {
    table_chars(check_rows(c.changes@)) + (match c.target_url {
        Some(u) => "\nView full details at "@ + u@,
        None => Seq::<char>::empty(),
    })
}

/// The primary-stream body of a result: the literal payload a script
/// captures by redirection. `None` for confirmation-only results.
pub open spec fn body_chars(o: RoverOutput) -> Option<Seq<char>> {
    match o {
        RoverOutput::ContractDescribe(d) => Some(
            d.description@ + "\nView the variant's full configuration at "@ + d.root_url@
                + "/graph/"@ + d.graph_ref.name@ + "/settings/variant?variant="@
                + d.graph_ref.variant@,
        ),
        RoverOutput::ContractPublish(p) => Some(
            p.config_description@ + "\n"@ + (match p.launch_cli_copy {
                Some(l) => l@,
                None => "No launch was triggered for this publish."@,
            }),
        ),
        RoverOutput::DocsList(links) => Some(table_chars(docs_rows(links@))),
        RoverOutput::FetchResponse(f) => Some(f.sdl.contents@),
        RoverOutput::SupergraphSchema(csdl) => Some(csdl@),
        RoverOutput::CompositionResult(c) => Some(c.supergraph_sdl@),
        RoverOutput::SubgraphList(l) => Some(
            table_chars(subgraph_rows(l.subgraphs@)) + "/n View full details at "@ + l.root_url@
                + "/graph/"@ + l.graph_ref.name@ + "/service-list"@,
        ),
        RoverOutput::CheckResponse(c) => Some(check_body_chars(c)),
        RoverOutput::AsyncCheckResponse(a) => Some(
            "Check successfully started with workflow ID: "@ + a.workflow_id@
                + "/nView full details at "@ + a.target_url@,
        ),
        RoverOutput::GraphPublishResponse { publish_response, .. } => Some(
            publish_response.api_schema_hash@,
        ),
        RoverOutput::SubgraphPublishResponse { .. } => None,
        RoverOutput::SubgraphDeleteResponse { .. } => None,
        RoverOutput::TemplateList(ts) => Some(table_chars(template_rows(ts@))),
        RoverOutput::TemplateUseSuccess { template, path } => Some(
            "Successfully created a new project from the '"@ + template.id@ + "' template in "@
                + path@ + "/n Read the generated 'README.md' file for next steps./n"@
                + "Have a question or suggestion about templates? Let us know at https://community.apollographql.com"@,
        ),
        RoverOutput::Profiles(ps) => Some(profiles_text(ps@, ps@.len() as int)),
        RoverOutput::Introspection(s) => Some(s@),
        RoverOutput::ErrorExplanation(s) => Some(s@),
        RoverOutput::ReadmeFetchResponse { content, .. } => Some(content@),
        RoverOutput::ReadmePublishResponse { .. } => None,
        RoverOutput::EmptySuccess => None,
    }
}

/// The secondary-stream status lines of a result: narration of side
/// effects that already happened, never the authoritative success
/// signal.
pub open spec fn status_chars(o: RoverOutput) -> Seq<Seq<char>> {
    match o {
        RoverOutput::DocsList(_) => seq![
            "You can open any of these documentation pages by running `rover docs open <slug>`.\n"@,
        ],
        RoverOutput::CompositionResult(c) => seq![hints_text(c.hints@, c.hints@.len() as int)],
        RoverOutput::GraphPublishResponse { graph_ref, publish_response } => seq![
            crate::model::graph_ref_chars(graph_ref) + "#"@ + publish_response.api_schema_hash@
                + " published successfully "@ + change_summary_chars(
                publish_response.change_summary,
            ),
        ],
        RoverOutput::SubgraphPublishResponse { graph_ref, subgraph, publish_response } => {
            let gr = crate::model::graph_ref_chars(graph_ref);
            let first = if publish_response.subgraph_was_created {
                seq![
                    "A new subgraph called '"@ + subgraph@ + "' was created in '"@ + gr + "'"@,
                ]
            } else {
                seq!["The '"@ + subgraph@ + "' subgraph in '"@ + gr + "' was updated"@]
            };
            let second = if publish_response.supergraph_was_updated {
                seq![
                    "The supergraph schema for '"@ + gr
                        + "' was updated, composed from the updated '"@ + subgraph@
                        + "' subgraph"@,
                ]
            } else {
                seq![
                    "The supergraph schema for '"@ + gr + "' was NOT updated with a new schema"@,
                ]
            };
            let launch = match publish_response.launch_cli_copy {
                Some(l) => seq![l@],
                None => Seq::<Seq<char>>::empty(),
            };
            let errors = if publish_response.build_errors@.len() > 0 {
                seq![
                    "WARN: The following build errors occurred:"@,
                    build_errors_lines(
                        publish_response.build_errors@,
                        publish_response.build_errors@.len() as int,
                    ),
                ]
            } else {
                Seq::<Seq<char>>::empty()
            };
            first + second + launch + errors
        },
        RoverOutput::SubgraphDeleteResponse { graph_ref, subgraph, dry_run, delete_response } => {
            let gr = crate::model::graph_ref_chars(graph_ref);
            let errs = build_errors_lines(
                delete_response.build_errors@,
                delete_response.build_errors@.len() as int,
            );
            if dry_run {
                if delete_response.build_errors@.len() > 0 {
                    seq![
                        "WARN: Deleting the "@ + subgraph@ + " subgraph from "@ + gr
                            + " would result in the following build errors:"@,
                        errs,
                        "WARN: This is only a prediction. If the graph changes before confirming, these errors could change."@,
                    ]
                } else {
                    seq![
                        "WARN: At the time of checking, there would be no build errors resulting from the deletion of this subgraph."@,
                        "WARN: This is only a prediction. If the graph changes before confirming, there could be build errors."@,
                    ]
                }
            } else {
                let first = if delete_response.supergraph_was_updated {
                    seq![
                        "The '"@ + subgraph@ + "' subgraph was removed from '"@ + gr
                            + "'. The remaining subgraphs were composed."@,
                    ]
                } else {
                    seq![
                        "WARN: The supergraph schema for '"@ + gr
                            + "' was not updated. See errors below."@,
                    ]
                };
                let errors = if delete_response.build_errors@.len() > 0 {
                    seq![
                        "WARN: There were build errors as a result of deleting the '"@ + subgraph@
                            + "' subgraph from '"@ + gr + "':"@,
                        errs,
                    ]
                } else {
                    Seq::<Seq<char>>::empty()
                };
                first + errors
            }
        },
        RoverOutput::Profiles(ps) => if ps@.len() == 0 {
            seq!["No profiles found."@]
        } else {
            Seq::<Seq<char>>::empty()
        },
        RoverOutput::ReadmePublishResponse { graph_ref, .. } => seq![
            "Readme for "@ + crate::model::graph_ref_chars(graph_ref)
                + " published successfully"@,
        ],
        _ => Seq::<Seq<char>>::empty(),
    }
}

/// The character sequences of a list of lines.
pub open spec fn lines_view(v: Seq<String>) -> Seq<Seq<char>> {
    v.map_values(|s: String| s@)
}

fn build_errors_text(v: &Vec<BuildError>) -> (r: String)
    ensures
        r@ == build_errors_lines(v@, v@.len() as int),
{
    let mut acc = String::new();
    let mut i: usize = 0;
    proof {
        assert(acc@ =~= build_errors_lines(v@, 0));
    }
    while i < v.len()
        invariant
            i <= v@.len(),
            acc@ == build_errors_lines(v@, i as int),
        decreases v@.len() - i,
    {
        if i > 0 {
            acc.append("\n");
        }
        match &v[i].message {
            Some(m) => acc.append(m.as_str()),
            None => acc.append("unknown build error"),
        }
        proof {
            assert(acc@ =~= build_errors_lines(v@, i + 1));
        }
        i = i + 1;
    }
    acc
}

fn hints_string(hs: &Vec<BuildHint>) -> (r: String)
    ensures
        r@ == hints_text(hs@, hs@.len() as int),
{
    let mut acc = String::new();
    let mut i: usize = 0;
    proof {
        assert(acc@ =~= hints_text(hs@, 0));
    }
    while i < hs.len()
        invariant
            i <= hs@.len(),
            acc@ == hints_text(hs@, i as int),
        decreases hs@.len() - i,
    {
        acc.append("HINT: ");
        acc.append(hs[i].message.as_str());
        acc.append("\n");
        proof {
            assert(acc@ =~= hints_text(hs@, i + 1));
        }
        i = i + 1;
    }
    acc
}

fn profiles_body(ps: &Vec<String>) -> (r: String)
    ensures
        r@ == profiles_text(ps@, ps@.len() as int),
{
    let mut acc = String::new();
    let mut i: usize = 0;
    proof {
        assert(acc@ =~= profiles_text(ps@, 0));
    }
    while i < ps.len()
        invariant
            i <= ps@.len(),
            acc@ == profiles_text(ps@, i as int),
        decreases ps@.len() - i,
    {
        if i > 0 {
            acc.append("\n");
        }
        acc.append(ps[i].as_str());
        proof {
            assert(acc@ =~= profiles_text(ps@, i + 1));
        }
        i = i + 1;
    }
    acc
}

fn change_summary_string(cs: &ChangeSummary) -> (r: String)
    ensures
        r@ == change_summary_chars(*cs),
{
    String::from_str("[Fields: +").concat(
        u64_to_string(cs.field_changes.additions).as_str(),
    ).concat(" -").concat(u64_to_string(cs.field_changes.removals).as_str()).concat(" ~").concat(
        u64_to_string(cs.field_changes.edits).as_str(),
    ).concat(", Types: +").concat(u64_to_string(cs.type_changes.additions).as_str()).concat(
        " -",
    ).concat(u64_to_string(cs.type_changes.removals).as_str()).concat(" ~").concat(
        u64_to_string(cs.type_changes.edits).as_str(),
    ).concat("]")
}

fn docs_table(links: &Vec<(String, String)>) -> (r: String)
    ensures
        r@ == table_chars(docs_rows(links@)),
{
    let mut rows: Vec<Vec<String>> = Vec::new();
    let mut hdr: Vec<String> = Vec::new();
    hdr.push(String::from_str("Slug"));
    hdr.push(String::from_str("Description"));
    proof {
        assert(row_view(hdr@) =~= seq!["Slug"@, "Description"@]);
    }
    rows.push(hdr);
    let mut i: usize = 0;
    while i < links.len()
        invariant
            i <= links@.len(),
            rows@.len() == i + 1,
            row_view(rows@[0]@) == seq!["Slug"@, "Description"@],
            forall|k: int|
                1 <= k <= i ==> row_view(#[trigger] rows@[k]@) == seq![
                    links@[k - 1].0@,
                    links@[k - 1].1@,
                ],
        decreases links@.len() - i,
    {
        let mut row: Vec<String> = Vec::new();
        row.push(links[i].0.clone());
        row.push(links[i].1.clone());
        proof {
            assert(row_view(row@) =~= seq![links@[i as int].0@, links@[i as int].1@]);
        }
        rows.push(row);
        i = i + 1;
    }
    proof {
        assert(rows_view(rows@) =~= docs_rows(links@));
    }
    render_table(&rows)
}

fn subgraph_table(subs: &Vec<SubgraphInfo>) -> (r: String)
    ensures
        r@ == table_chars(subgraph_rows(subs@)),
{
    let mut rows: Vec<Vec<String>> = Vec::new();
    let mut hdr: Vec<String> = Vec::new();
    hdr.push(String::from_str("Name"));
    hdr.push(String::from_str("Routing Url"));
    hdr.push(String::from_str("Last Updated"));
    proof {
        assert(row_view(hdr@) =~= seq!["Name"@, "Routing Url"@, "Last Updated"@]);
    }
    rows.push(hdr);
    let mut i: usize = 0;
    while i < subs.len()
        invariant
            i <= subs@.len(),
            rows@.len() == i + 1,
            row_view(rows@[0]@) == seq!["Name"@, "Routing Url"@, "Last Updated"@],
            forall|k: int|
                1 <= k <= i ==> row_view(#[trigger] rows@[k]@) == seq![
                    subs@[k - 1].name@,
                    subgraph_url_cell(subs@[k - 1]),
                    subgraph_updated_cell(subs@[k - 1]),
                ],
        decreases subs@.len() - i,
    {
        let s = &subs[i];
        let url_cell: String = match &s.url {
            Some(u) => if u.as_str().is_empty() {
                String::from_str("unspecified")
            } else {
                u.clone()
            },
            None => String::from_str("unspecified"),
        };
        let updated_cell: String = match &s.updated_at.local {
            Some(d) => d.clone(),
            None => String::from_str("N/A"),
        };
        let mut row: Vec<String> = Vec::new();
        row.push(s.name.clone());
        row.push(url_cell);
        row.push(updated_cell);
        proof {
            assert(row_view(row@) =~= seq![
                subs@[i as int].name@,
                subgraph_url_cell(subs@[i as int]),
                subgraph_updated_cell(subs@[i as int]),
            ]);
        }
        rows.push(row);
        i = i + 1;
    }
    proof {
        assert(rows_view(rows@) =~= subgraph_rows(subs@));
    }
    render_table(&rows)
}

fn template_table(ts: &Vec<GithubTemplate>) -> (r: String)
    ensures
        r@ == table_chars(template_rows(ts@)),
{
    let mut rows: Vec<Vec<String>> = Vec::new();
    let mut hdr: Vec<String> = Vec::new();
    hdr.push(String::from_str("Name"));
    hdr.push(String::from_str("ID"));
    hdr.push(String::from_str("Language"));
    hdr.push(String::from_str("Repo URL"));
    proof {
        assert(row_view(hdr@) =~= seq!["Name"@, "ID"@, "Language"@, "Repo URL"@]);
    }
    rows.push(hdr);
    let mut i: usize = 0;
    while i < ts.len()
        invariant
            i <= ts@.len(),
            rows@.len() == i + 1,
            row_view(rows@[0]@) == seq!["Name"@, "ID"@, "Language"@, "Repo URL"@],
            forall|k: int|
                1 <= k <= i ==> row_view(#[trigger] rows@[k]@) == seq![
                    ts@[k - 1].display@,
                    ts@[k - 1].id@,
                    crate::model::language_chars(ts@[k - 1].language),
                    ts@[k - 1].git_url@,
                ],
        decreases ts@.len() - i,
    {
        let t = &ts[i];
        let mut row: Vec<String> = Vec::new();
        row.push(t.display.clone());
        row.push(t.id.clone());
        row.push(String::from_str(t.language.to_display_str()));
        row.push(t.git_url.clone());
        proof {
            assert(row_view(row@) =~= seq![
                ts@[i as int].display@,
                ts@[i as int].id@,
                crate::model::language_chars(ts@[i as int].language),
                ts@[i as int].git_url@,
            ]);
        }
        rows.push(row);
        i = i + 1;
    }
    proof {
        assert(rows_view(rows@) =~= template_rows(ts@));
    }
    render_table(&rows)
}

fn check_table(c: &CheckResponse) -> (r: String)
    ensures
        r@ == table_chars(check_rows(c.changes@)),
{
    let mut rows: Vec<Vec<String>> = Vec::new();
    let mut hdr: Vec<String> = Vec::new();
    hdr.push(String::from_str("Change"));
    hdr.push(String::from_str("Code"));
    hdr.push(String::from_str("Description"));
    proof {
        assert(row_view(hdr@) =~= seq!["Change"@, "Code"@, "Description"@]);
    }
    rows.push(hdr);
    let mut i: usize = 0;
    while i < c.changes.len()
        invariant
            i <= c.changes@.len(),
            rows@.len() == i + 1,
            row_view(rows@[0]@) == seq!["Change"@, "Code"@, "Description"@],
            forall|k: int|
                1 <= k <= i ==> row_view(#[trigger] rows@[k]@) == seq![
                    severity_chars(c.changes@[k - 1].severity),
                    c.changes@[k - 1].code@,
                    c.changes@[k - 1].description@,
                ],
        decreases c.changes@.len() - i,
    {
        let ch = &c.changes[i];
        let mut row: Vec<String> = Vec::new();
        row.push(String::from_str(ch.severity.to_display_str()));
        row.push(ch.code.clone());
        row.push(ch.description.clone());
        proof {
            assert(row_view(row@) =~= seq![
                severity_chars(c.changes@[i as int].severity),
                c.changes@[i as int].code@,
                c.changes@[i as int].description@,
            ]);
        }
        rows.push(row);
        i = i + 1;
    }
    proof {
        assert(rows_view(rows@) =~= check_rows(c.changes@));
    }
    render_table(&rows)
}

impl RoverOutput {
    /// The heading of this result, for interactive human rendering.
    pub fn descriptor(&self) -> (r: Option<&'static str>)
        ensures
            match r {
                Some(d) => descriptor_chars(*self) == Some(d@),
                None => descriptor_chars(*self) is None,
            },
    {
        match self {
            RoverOutput::ContractDescribe(_) => Some("Configuration Description"),
            RoverOutput::ContractPublish(_) => Some("New Configuration Description"),
            RoverOutput::FetchResponse(f) => match f.sdl.sdl_type {
                crate::model::SdlType::Supergraph => Some("Supergraph Schema"),
                _ => Some("Schema"),
            },
            RoverOutput::CompositionResult(_) => Some("Supergraph Schema"),
            RoverOutput::SupergraphSchema(_) => Some("Supergraph Schema"),
            RoverOutput::TemplateUseSuccess { .. } => Some("Project generated"),
            RoverOutput::CheckResponse(_) => Some("Check Result"),
            RoverOutput::AsyncCheckResponse(_) => Some("Check Started"),
            RoverOutput::Profiles(_) => Some("Profiles"),
            RoverOutput::Introspection(_) => Some("Introspection Response"),
            RoverOutput::ReadmeFetchResponse { .. } => Some("Readme"),
            RoverOutput::GraphPublishResponse { .. } => Some("Schema Hash"),
            _ => None,
        }
    }

    /// The primary-stream body of this result, or `None` for a
    /// confirmation-only result (which is not a failure).
    pub fn get_stdout(&self) -> (r: Option<String>)
        ensures
            crate::json::opt_chars(r) == body_chars(*self),
    {
        match self {
            RoverOutput::ContractDescribe(d) => Some(
                d.description.clone().concat("\nView the variant's full configuration at ").concat(
                    d.root_url.as_str(),
                ).concat("/graph/").concat(d.graph_ref.name.as_str()).concat(
                    "/settings/variant?variant=",
                ).concat(d.graph_ref.variant.as_str()),
            ),
            RoverOutput::ContractPublish(p) => {
                let tail: String = match &p.launch_cli_copy {
                    Some(l) => l.clone(),
                    None => String::from_str("No launch was triggered for this publish."),
                };
                Some(p.config_description.clone().concat("\n").concat(tail.as_str()))
            },
            RoverOutput::DocsList(links) => Some(docs_table(links)),
            RoverOutput::FetchResponse(f) => Some(f.sdl.contents.clone()),
            RoverOutput::SupergraphSchema(csdl) => Some(csdl.clone()),
            RoverOutput::CompositionResult(c) => Some(c.supergraph_sdl.clone()),
            RoverOutput::SubgraphList(l) => Some(
                subgraph_table(&l.subgraphs).concat("/n View full details at ").concat(
                    l.root_url.as_str(),
                ).concat("/graph/").concat(l.graph_ref.name.as_str()).concat("/service-list"),
            ),
            RoverOutput::CheckResponse(c) => {
                let table = check_table(c);
                let r = match &c.target_url {
                    Some(u) => table.concat("\nView full details at ").concat(u.as_str()),
                    None => table,
                };
                Some(r)
            },
            RoverOutput::AsyncCheckResponse(a) => Some(
                String::from_str("Check successfully started with workflow ID: ").concat(
                    a.workflow_id.as_str(),
                ).concat("/nView full details at ").concat(a.target_url.as_str()),
            ),
            RoverOutput::GraphPublishResponse { publish_response, .. } => Some(
                publish_response.api_schema_hash.clone(),
            ),
            RoverOutput::SubgraphPublishResponse { .. } => None,
            RoverOutput::SubgraphDeleteResponse { .. } => None,
            RoverOutput::TemplateList(ts) => Some(template_table(ts)),
            RoverOutput::TemplateUseSuccess { template, path } => Some(
                String::from_str("Successfully created a new project from the '").concat(
                    template.id.as_str(),
                ).concat("' template in ").concat(path.as_str()).concat(
                    "/n Read the generated 'README.md' file for next steps./n",
                ).concat(
                    "Have a question or suggestion about templates? Let us know at https://community.apollographql.com",
                ),
            ),
            RoverOutput::Profiles(ps) => Some(profiles_body(ps)),
            RoverOutput::Introspection(s) => Some(s.clone()),
            RoverOutput::ErrorExplanation(s) => Some(s.clone()),
            RoverOutput::ReadmeFetchResponse { content, .. } => Some(content.clone()),
            RoverOutput::ReadmePublishResponse { .. } => None,
            RoverOutput::EmptySuccess => None,
        }
    }

    /// The secondary-stream status lines of this result.
    pub fn status_lines(&self) -> (r: Vec<String>)
        ensures
            lines_view(r@) == status_chars(*self),
    {
        let mut lines: Vec<String> = Vec::new();
        match self {
            RoverOutput::DocsList(_) => {
                lines.push(
                    String::from_str(
                        "You can open any of these documentation pages by running `rover docs open <slug>`.\n",
                    ),
                );
            },
            RoverOutput::CompositionResult(c) => {
                lines.push(hints_string(&c.hints));
            },
            RoverOutput::GraphPublishResponse { graph_ref, publish_response } => {
                lines.push(
                    graph_ref.to_display_string().concat("#").concat(
                        publish_response.api_schema_hash.as_str(),
                    ).concat(" published successfully ").concat(
                        change_summary_string(&publish_response.change_summary).as_str(),
                    ),
                );
            },
            RoverOutput::SubgraphPublishResponse { graph_ref, subgraph, publish_response } => {
                let gr = graph_ref.to_display_string();
                if publish_response.subgraph_was_created {
                    lines.push(
                        String::from_str("A new subgraph called '").concat(subgraph.as_str())
                            .concat("' was created in '").concat(gr.as_str()).concat("'"),
                    );
                } else {
                    lines.push(
                        String::from_str("The '").concat(subgraph.as_str()).concat(
                            "' subgraph in '",
                        ).concat(gr.as_str()).concat("' was updated"),
                    );
                }
                if publish_response.supergraph_was_updated {
                    lines.push(
                        String::from_str("The supergraph schema for '").concat(gr.as_str()).concat(
                            "' was updated, composed from the updated '",
                        ).concat(subgraph.as_str()).concat("' subgraph"),
                    );
                } else {
                    lines.push(
                        String::from_str("The supergraph schema for '").concat(gr.as_str()).concat(
                            "' was NOT updated with a new schema",
                        ),
                    );
                }
                match &publish_response.launch_cli_copy {
                    Some(l) => {
                        lines.push(l.clone());
                    },
                    None => {},
                }
                if publish_response.build_errors.len() > 0 {
                    lines.push(String::from_str("WARN: The following build errors occurred:"));
                    lines.push(build_errors_text(&publish_response.build_errors));
                }
            },
            RoverOutput::SubgraphDeleteResponse { graph_ref, subgraph, dry_run, delete_response } => {
                let gr = graph_ref.to_display_string();
                if *dry_run {
                    if delete_response.build_errors.len() > 0 {
                        lines.push(
                            String::from_str("WARN: Deleting the ").concat(subgraph.as_str())
                                .concat(" subgraph from ").concat(gr.as_str()).concat(
                                " would result in the following build errors:",
                            ),
                        );
                        lines.push(build_errors_text(&delete_response.build_errors));
                        lines.push(
                            String::from_str(
                                "WARN: This is only a prediction. If the graph changes before confirming, these errors could change.",
                            ),
                        );
                    } else {
                        lines.push(
                            String::from_str(
                                "WARN: At the time of checking, there would be no build errors resulting from the deletion of this subgraph.",
                            ),
                        );
                        lines.push(
                            String::from_str(
                                "WARN: This is only a prediction. If the graph changes before confirming, there could be build errors.",
                            ),
                        );
                    }
                } else {
                    if delete_response.supergraph_was_updated {
                        lines.push(
                            String::from_str("The '").concat(subgraph.as_str()).concat(
                                "' subgraph was removed from '",
                            ).concat(gr.as_str()).concat(
                                "'. The remaining subgraphs were composed.",
                            ),
                        );
                    } else {
                        lines.push(
                            String::from_str("WARN: The supergraph schema for '").concat(
                                gr.as_str(),
                            ).concat("' was not updated. See errors below."),
                        );
                    }
                    if delete_response.build_errors.len() > 0 {
                        lines.push(
                            String::from_str(
                                "WARN: There were build errors as a result of deleting the '",
                            ).concat(subgraph.as_str()).concat("' subgraph from '").concat(
                                gr.as_str(),
                            ).concat("':"),
                        );
                        lines.push(build_errors_text(&delete_response.build_errors));
                    }
                }
            },
            RoverOutput::Profiles(ps) => {
                if ps.len() == 0 {
                    lines.push(String::from_str("No profiles found."));
                }
            },
            RoverOutput::ReadmePublishResponse { graph_ref, .. } => {
                lines.push(
                    String::from_str("Readme for ").concat(
                        graph_ref.to_display_string().as_str(),
                    ).concat(" published successfully"),
                );
            },
            _ => {},
        }
        proof {
            assert(lines_view(lines@) =~= status_chars(*self));
        }
        lines
    }
}

} // verus!
