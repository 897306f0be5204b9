//! The typed data every command result is made of: graph identifiers,
//! fetched schema documents, publish and delete confirmations, check
//! results, and project templates.

use vstd::prelude::*;
use vstd::string::StringExecFns;

use crate::json::{
    j_obj, j_opt_str_ref, j_str, j_str_ref, jv, jv_fields, jv_opt_str, jv_seq, opt_chars, Json, Jv,
};

verus! {

broadcast use vstd::std_specs::vec::group_vec_axioms;

/// A graph identifier: a graph name plus a variant.
#[derive(Debug, Clone)]
pub struct GraphRef {
    pub name: String,
    pub variant: String,
}

/// The "name@variant" rendering of a graph identifier.
pub open spec fn graph_ref_chars(g: GraphRef) -> Seq<char> {
    g.name@ + "@"@ + g.variant@
}

impl GraphRef {
    /// Renders the identifier as "name@variant".
    pub fn to_display_string(&self) -> (r: String)
        ensures
            r@ == graph_ref_chars(*self),
    {
        String::from_str(self.name.as_str()).concat("@").concat(self.variant.as_str())
    }
}

/// One composition failure surfaced by the registry. Every build error
/// in this layer is a composition error.
#[derive(Debug, Clone)]
pub struct BuildError {
    pub message: Option<String>,
    pub code: Option<String>,
}

/// What kind of schema document a fetch returned.
#[derive(Debug, Clone)]
pub enum SdlType {
    Graph,
    Subgraph { routing_url: Option<String> },
    Supergraph,
}

#[derive(Debug, Clone)]
pub struct Sdl {
    pub contents: String,
    pub sdl_type: SdlType,
}

#[derive(Debug, Clone)]
pub struct FetchResponse {
    pub sdl: Sdl,
}

/// Timestamps of a subgraph's last update, already rendered as text by
/// the caller (local wall-clock form and UTC form); absent when the
/// subgraph was never updated.
#[derive(Debug, Clone)]
pub struct SubgraphUpdatedAt {
    pub local: Option<String>,
    pub utc: Option<String>,
}

#[derive(Debug, Clone)]
pub struct SubgraphInfo {
    pub name: String,
    pub url: Option<String>,
    pub updated_at: SubgraphUpdatedAt,
}

#[derive(Debug, Clone)]
pub struct SubgraphListResponse {
    pub subgraphs: Vec<SubgraphInfo>,
    pub root_url: String,
    pub graph_ref: GraphRef,
}

/// Whether a schema change passes or fails an operation check.
#[derive(Debug, Clone, Copy, PartialEq, Eq, Structural)]
pub enum ChangeSeverity {
    PASS,
    FAIL,
}

/// The "PASS"/"FAIL" rendering of a severity.
pub open spec fn severity_chars(s: ChangeSeverity) -> Seq<char> {
    match s {
        ChangeSeverity::PASS => "PASS"@,
        ChangeSeverity::FAIL => "FAIL"@,
    }
}

impl ChangeSeverity {
    pub fn to_display_str(&self) -> (r: &'static str)
        ensures
            r@ == severity_chars(*self),
    {
        match self {
            ChangeSeverity::PASS => "PASS",
            ChangeSeverity::FAIL => "FAIL",
        }
    }
}

#[derive(Debug, Clone)]
pub struct SchemaChange {
    pub code: String,
    pub description: String,
    pub severity: ChangeSeverity,
}

/// The outcome of an operation check: the checked changes, the overall
/// severity, and where to read the full details.
#[derive(Debug, Clone)]
pub struct CheckResponse {
    pub target_url: Option<String>,
    pub operation_check_count: u64,
    pub changes: Vec<SchemaChange>,
    pub result: ChangeSeverity,
    pub graph_ref: GraphRef,
    pub core_schema_modified: bool,
}

/// How many of the given changes fail the check.
pub open spec fn spec_failure_count(changes: Seq<SchemaChange>) -> int
    decreases changes.len(),
{
    if changes.len() == 0 {
        0
    } else {
        spec_failure_count(changes.drop_last()) + if changes.last().severity is FAIL {
            1int
        } else {
            0int
        }
    }
}

pub proof fn lemma_failure_count_bound(changes: Seq<SchemaChange>)
    ensures
        0 <= spec_failure_count(changes) <= changes.len(),
    decreases changes.len(),
{
    if changes.len() > 0 {
        lemma_failure_count_bound(changes.drop_last());
    }
}

impl CheckResponse {
    /// The number of changes that fail the check.
    pub fn failure_count(&self) -> (r: u64)
        ensures
            r == spec_failure_count(self.changes@),
    {
        let mut count: u64 = 0;
        let mut i: usize = 0;
        proof {
            lemma_failure_count_bound(self.changes@);
        }
        while i < self.changes.len()
            invariant
                i <= self.changes@.len(),
                count == spec_failure_count(self.changes@.take(i as int)),
                count <= i,
            decreases self.changes@.len() - i,
        {
            proof {
                lemma_failure_count_bound(self.changes@.take(i as int));
                assert(self.changes@.take(i + 1).drop_last() =~= self.changes@.take(i as int));
                assert(self.changes@.take(i + 1).last() == self.changes@[i as int]);
            }
            if matches!(self.changes[i].severity, ChangeSeverity::FAIL) {
                count = count + 1;
            }
            i = i + 1;
        }
        proof {
            assert(self.changes@.take(self.changes@.len() as int) =~= self.changes@);
        }
        count
    }
}

/// The machine rendering of one schema change.
pub open spec fn change_jv(c: SchemaChange) -> Jv {
    Jv::Obj(
        seq![
            ("code"@, Jv::Str(c.code@)),
            ("description"@, Jv::Str(c.description@)),
            ("severity"@, Jv::Str(severity_chars(c.severity))),
        ],
    )
}

/// The machine renderings of a list of schema changes.
pub open spec fn changes_jv(cs: Seq<SchemaChange>) -> Seq<Jv> {
    cs.map_values(|c: SchemaChange| change_jv(c))
}

/// The variant-specific machine fields of a check result.
pub open spec fn check_data_fields_jv(c: CheckResponse) -> Seq<(Seq<char>, Jv)> {
    seq![
        ("target_url"@, jv_opt_str(opt_chars(c.target_url))),
        ("operation_check_count"@, Jv::UInt(c.operation_check_count)),
        ("changes"@, Jv::Arr(changes_jv(c.changes@))),
        ("failure_count"@, Jv::UInt(spec_failure_count(c.changes@) as u64)),
        ("core_schema_modified"@, Jv::Bool(c.core_schema_modified)),
    ]
}

fn change_json(c: &SchemaChange) -> (r: Json)
    ensures
        r@ == change_jv(*c),
{
    let mut f: Vec<(String, Json)> = Vec::new();
    f.push((String::from_str("code"), j_str_ref(&c.code)));
    f.push((String::from_str("description"), j_str_ref(&c.description)));
    f.push((String::from_str("severity"), j_str(c.severity.to_display_str())));
    let ghost gf = f@;
    let r = j_obj(f);
    proof {
        assert(jv_fields(gf) =~= change_jv(*c)->Obj_0);
    }
    r
}

impl CheckResponse {
    /// The variant-specific machine fields of this check result, in
    /// their fixed order.
    pub fn data_fields(&self) -> (r: Vec<(String, Json)>)
        ensures
            jv_fields(r@) == check_data_fields_jv(*self),
    {
        let mut changes: Vec<Json> = Vec::new();
        let mut i: usize = 0;
        while i < self.changes.len()
            invariant
                i <= self.changes@.len(),
                changes@.len() == i,
                forall|k: int| 0 <= k < i ==> jv(#[trigger] changes@[k]) == change_jv(
                    self.changes@[k],
                ),
            decreases self.changes@.len() - i,
        {
            changes.push(change_json(&self.changes[i]));
            i = i + 1;
        }
        proof {
            assert(jv_seq(changes@) =~= changes_jv(self.changes@));
        }
        let mut f: Vec<(String, Json)> = Vec::new();
        f.push((String::from_str("target_url"), j_opt_str_ref(&self.target_url)));
        f.push((String::from_str("operation_check_count"), Json::UInt(self.operation_check_count)));
        f.push((String::from_str("changes"), crate::json::j_arr(changes)));
        f.push((String::from_str("failure_count"), Json::UInt(self.failure_count())));
        f.push((String::from_str("core_schema_modified"), Json::Bool(self.core_schema_modified)));
        proof {
            assert(jv_fields(f@) =~= check_data_fields_jv(*self));
        }
        f
    }
}

/// Counts of schema field changes in a graph publish.
#[derive(Debug, Clone)]
pub struct FieldChanges {
    pub additions: u64,
    pub removals: u64,
    pub edits: u64,
}

/// Counts of schema type changes in a graph publish.
#[derive(Debug, Clone)]
pub struct TypeChanges {
    pub additions: u64,
    pub removals: u64,
    pub edits: u64,
}

#[derive(Debug, Clone)]
pub struct ChangeSummary {
    pub field_changes: FieldChanges,
    pub type_changes: TypeChanges,
}

#[derive(Debug, Clone)]
pub struct GraphPublishResponse {
    pub api_schema_hash: String,
    pub change_summary: ChangeSummary,
}

#[derive(Debug, Clone)]
pub struct SubgraphPublishResponse {
    pub api_schema_hash: Option<String>,
    pub build_errors: Vec<BuildError>,
    pub supergraph_was_updated: bool,
    pub subgraph_was_created: bool,
    pub launch_url: Option<String>,
    pub launch_cli_copy: Option<String>,
}

#[derive(Debug, Clone)]
pub struct SubgraphDeleteResponse {
    pub supergraph_was_updated: bool,
    pub build_errors: Vec<BuildError>,
}

#[derive(Debug, Clone)]
pub struct ContractDescribeResponse {
    pub description: String,
    pub root_url: String,
    pub graph_ref: GraphRef,
}

#[derive(Debug, Clone)]
pub struct ContractPublishResponse {
    pub config_description: String,
    pub launch_url: Option<String>,
    pub launch_cli_copy: Option<String>,
}

/// One hint produced while composing a supergraph.
#[derive(Debug, Clone)]
pub struct BuildHint {
    pub message: String,
}

#[derive(Debug, Clone)]
pub struct CompositionOutput {
    pub supergraph_sdl: String,
    pub hints: Vec<BuildHint>,
    pub federation_version: Option<String>,
}

/// Confirmation that an asynchronous check was started.
#[derive(Debug, Clone)]
pub struct CheckRequestSuccessResult {
    pub workflow_id: String,
    pub target_url: String,
}

/// The language a project template is written for.
#[derive(Debug, Clone, Copy, PartialEq, Eq, Structural)]
pub enum ProjectLanguage {
    CSharp,
    Go,
    Java,
    Javascript,
    Kotlin,
    Python,
    Rust,
    Typescript,
}

/// The lowercase rendering of a template language.
pub open spec fn language_chars(l: ProjectLanguage) -> Seq<char> {
    match l {
        ProjectLanguage::CSharp => "csharp"@,
        ProjectLanguage::Go => "go"@,
        ProjectLanguage::Java => "java"@,
        ProjectLanguage::Javascript => "javascript"@,
        ProjectLanguage::Kotlin => "kotlin"@,
        ProjectLanguage::Python => "python"@,
        ProjectLanguage::Rust => "rust"@,
        ProjectLanguage::Typescript => "typescript"@,
    }
}

impl ProjectLanguage {
    pub fn to_display_str(&self) -> (r: &'static str)
        ensures
            r@ == language_chars(*self),
    {
        match self {
            ProjectLanguage::CSharp => "csharp",
            ProjectLanguage::Go => "go",
            ProjectLanguage::Java => "java",
            ProjectLanguage::Javascript => "javascript",
            ProjectLanguage::Kotlin => "kotlin",
            ProjectLanguage::Python => "python",
            ProjectLanguage::Rust => "rust",
            ProjectLanguage::Typescript => "typescript",
        }
    }
}

/// A project template, as the templates service describes it.
#[derive(Debug, Clone)]
pub struct GithubTemplate {
    pub id: String,
    pub git_url: String,
    pub display: String,
    pub language: ProjectLanguage,
}

} // verus!
