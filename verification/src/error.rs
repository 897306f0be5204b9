//! The closed taxonomy of failures: each kind's stable code, human
//! message, and structured machine payload.

use vstd::prelude::*;
use vstd::string::StringExecFns;

use crate::json::{
    j_obj, j_opt_str_ref, j_str, j_string, jv, jv_fields, jv_opt_str, jv_seq, opt_chars, Json, Jv,
};
use crate::model::{
    check_data_fields_jv, graph_ref_chars, spec_failure_count, BuildError, CheckResponse, GraphRef,
    SchemaChange, ChangeSeverity,
};
use crate::text::{dec_chars, u64_to_string};

verus! {

broadcast use vstd::std_specs::vec::group_vec_axioms;

/// A classified failure outcome. Every kind carries the data that its
/// message and its machine `details` payload are built from;
/// `Unclassified` wraps a failure no more specific kind matched, and
/// only carries the underlying message.
#[derive(Debug)]
pub enum ErrorValue {
    /// The named subgraph does not exist in the graph.
    NoSubgraphInGraph { invalid_subgraph: String },
    /// No supergraph SDL can be fetched because its subgraphs failed to build.
    NoSupergraphBuilds { graph_ref: GraphRef, source: Vec<BuildError> },
    /// Composing a supergraph failed.
    BuildErrors { source: Vec<BuildError>, num_subgraphs: u64 },
    /// Building one subgraph into its supergraph failed.
    SubgraphBuildErrors { subgraph: String, graph_ref: GraphRef, source: Vec<BuildError> },
    /// An operation check found changes that break existing clients.
    OperationCheckFailure { check_response: CheckResponse },
    /// Credentials or the named configuration profile could not be resolved.
    AuthenticationFailure { message: String },
    /// The remote service could not be reached.
    TransportFailure { message: String },
    /// Any failure that no known kind matches.
    Unclassified { message: String },
}

/// The taxonomy kind of a failure. Each kind except `Unclassified` owns
/// one stable machine-readable code; a code, once assigned, is never
/// reassigned to a different kind.
#[derive(Debug, Clone, Copy, PartialEq, Eq, Structural)]
pub enum ErrorKind {
    TargetNotFound,
    MissingBuilds,
    BuildErrors,
    CheckFailed,
    Authentication,
    Transport,
    Unclassified,
}

pub open spec fn kind_of(e: ErrorValue) -> ErrorKind {
    match e {
        ErrorValue::NoSubgraphInGraph { .. } => ErrorKind::TargetNotFound,
        ErrorValue::NoSupergraphBuilds { .. } => ErrorKind::MissingBuilds,
        ErrorValue::BuildErrors { .. } => ErrorKind::BuildErrors,
        ErrorValue::SubgraphBuildErrors { .. } => ErrorKind::BuildErrors,
        ErrorValue::OperationCheckFailure { .. } => ErrorKind::CheckFailed,
        ErrorValue::AuthenticationFailure { .. } => ErrorKind::Authentication,
        ErrorValue::TransportFailure { .. } => ErrorKind::Transport,
        ErrorValue::Unclassified { .. } => ErrorKind::Unclassified,
    }
}

/// The fixed code of a taxonomy kind; `None` only for `Unclassified`.
pub open spec fn kind_code_chars(k: ErrorKind) -> Option<Seq<char>> {
    match k {
        ErrorKind::TargetNotFound => Some("E009"@),
        ErrorKind::MissingBuilds => Some("E027"@),
        ErrorKind::BuildErrors => Some("E029"@),
        ErrorKind::CheckFailed => Some("E030"@),
        ErrorKind::Authentication => Some("E002"@),
        ErrorKind::Transport => Some("E028"@),
        ErrorKind::Unclassified => None,
    }
}

pub open spec fn code_chars(e: ErrorValue) -> Option<Seq<char>> {
    kind_code_chars(kind_of(e))
}

/// The one-line human message of a failure.
pub open spec fn message_chars(e: ErrorValue) -> Seq<char> {
    match e {
        ErrorValue::NoSubgraphInGraph { invalid_subgraph } => "Could not find subgraph \""@
            + invalid_subgraph@ + "\"."@,
        ErrorValue::NoSupergraphBuilds { graph_ref, .. } => "No supergraph SDL exists for \""@
            + graph_ref_chars(graph_ref) + "\" because its subgraphs failed to build."@,
        ErrorValue::BuildErrors { source, .. } => "Encountered "@ + dec_chars(source@.len())
            + " build errors while trying to build a supergraph."@,
        ErrorValue::SubgraphBuildErrors { subgraph, graph_ref, source } => "Encountered "@
            + dec_chars(source@.len()) + " build errors while trying to build subgraph \""@
            + subgraph@ + "\" into supergraph \""@ + graph_ref_chars(graph_ref) + "\"."@,
        ErrorValue::OperationCheckFailure { check_response } => "This operation check has encountered "@
            + dec_chars(spec_failure_count(check_response.changes@) as nat)
            + " schema changes that would break operations from existing client traffic."@,
        ErrorValue::AuthenticationFailure { message } => message@,
        ErrorValue::TransportFailure { message } => message@,
        ErrorValue::Unclassified { message } => message@,
    }
}

/// The machine rendering of one build error.
pub open spec fn build_error_jv(b: BuildError) -> Jv {
    Jv::Obj(
        seq![
            ("message"@, jv_opt_str(opt_chars(b.message))),
            ("code"@, jv_opt_str(opt_chars(b.code))),
            ("type"@, Jv::Str("composition"@)),
        ],
    )
}

/// The machine renderings of a list of build errors, in order and never
/// truncated.
pub open spec fn build_errors_jv(bs: Seq<BuildError>) -> Seq<Jv> {
    bs.map_values(|b: BuildError| build_error_jv(b))
}

/// The `details` payload of a failure: present exactly for the kinds
/// that carry a build-error list.
pub open spec fn details_jv(e: ErrorValue) -> Option<Jv> {
    match e {
        ErrorValue::NoSupergraphBuilds { source, .. } => Some(
            Jv::Obj(seq![("build_errors"@, Jv::Arr(build_errors_jv(source@)))]),
        ),
        ErrorValue::BuildErrors { source, .. } => Some(
            Jv::Obj(seq![("build_errors"@, Jv::Arr(build_errors_jv(source@)))]),
        ),
        ErrorValue::SubgraphBuildErrors { source, .. } => Some(
            Jv::Obj(seq![("build_errors"@, Jv::Arr(build_errors_jv(source@)))]),
        ),
        _ => None,
    }
}

/// The `code` field of the machine `error` object: the kind's code, or
/// JSON null for an unclassified failure.
pub open spec fn code_jv(e: ErrorValue) -> Jv {
    match code_chars(e) {
        Some(c) => Jv::Str(c),
        None => Jv::Null,
    }
}

/// The machine `error` object of a failure: the message, the stable
/// code (null when unclassified), and the `details` payload for kinds
/// that have one.
pub open spec fn error_jv(e: ErrorValue) -> Jv {
    match details_jv(e) {
        Some(d) => Jv::Obj(
            seq![("message"@, Jv::Str(message_chars(e))), ("code"@, code_jv(e)), ("details"@, d)],
        ),
        None => Jv::Obj(seq![("message"@, Jv::Str(message_chars(e))), ("code"@, code_jv(e))]),
    }
}

/// The variant-specific fields a failure contributes to the machine
/// `data` object: a failed check still reports the full check result.
pub open spec fn error_data_fields_jv(e: ErrorValue) -> Seq<(Seq<char>, Jv)> {
    match e {
        ErrorValue::OperationCheckFailure { check_response } => check_data_fields_jv(
            check_response,
        ),
        _ => Seq::empty(),
    }
}

fn build_error_json(b: &BuildError) -> (r: Json)
    ensures
        r@ == build_error_jv(*b),
{
    let mut f: Vec<(String, Json)> = Vec::new();
    f.push((String::from_str("message"), j_opt_str_ref(&b.message)));
    f.push((String::from_str("code"), j_opt_str_ref(&b.code)));
    f.push((String::from_str("type"), j_str("composition")));
    let ghost gf = f@;
    let r = j_obj(f);
    proof {
        assert(jv_fields(gf) =~= build_error_jv(*b)->Obj_0);
    }
    r
}

/// The `details` object carrying a build-error list.
pub(crate) fn build_errors_details_json(source: &Vec<BuildError>) -> (r: Json)
    ensures
        r@ == Jv::Obj(seq![("build_errors"@, Jv::Arr(build_errors_jv(source@)))]),
{
    let mut items: Vec<Json> = Vec::new();
    let mut i: usize = 0;
    while i < source.len()
        invariant
            i <= source@.len(),
            items@.len() == i,
            forall|k: int| 0 <= k < i ==> jv(#[trigger] items@[k]) == build_error_jv(source@[k]),
        decreases source@.len() - i,
    {
        items.push(build_error_json(&source[i]));
        i = i + 1;
    }
    proof {
        assert(jv_seq(items@) =~= build_errors_jv(source@));
    }
    let mut f: Vec<(String, Json)> = Vec::new();
    f.push((String::from_str("build_errors"), crate::json::j_arr(items)));
    let ghost gf = f@;
    let r = j_obj(f);
    proof {
        assert(jv_fields(gf) =~= seq![("build_errors"@, Jv::Arr(build_errors_jv(source@)))]);
    }
    r
}

impl ErrorValue {
    /// The stable code of this failure's kind, `None` for an
    /// unclassified failure.
    pub fn code(&self) -> (r: Option<&'static str>)
        ensures
            match r {
                Some(c) => code_chars(*self) == Some(c@),
                None => code_chars(*self) is None,
            },
    {
        match self {
            ErrorValue::NoSubgraphInGraph { .. } => Some("E009"),
            ErrorValue::NoSupergraphBuilds { .. } => Some("E027"),
            ErrorValue::BuildErrors { .. } => Some("E029"),
            ErrorValue::SubgraphBuildErrors { .. } => Some("E029"),
            ErrorValue::OperationCheckFailure { .. } => Some("E030"),
            ErrorValue::AuthenticationFailure { .. } => Some("E002"),
            ErrorValue::TransportFailure { .. } => Some("E028"),
            ErrorValue::Unclassified { .. } => None,
        }
    }

    /// The one-line human message of this failure.
    pub fn message(&self) -> (r: String)
        ensures
            r@ == message_chars(*self),
    {
        match self {
            ErrorValue::NoSubgraphInGraph { invalid_subgraph } => String::from_str(
                "Could not find subgraph \"",
            ).concat(invalid_subgraph.as_str()).concat("\"."),
            ErrorValue::NoSupergraphBuilds { graph_ref, .. } => String::from_str(
                "No supergraph SDL exists for \"",
            ).concat(graph_ref.to_display_string().as_str()).concat(
                "\" because its subgraphs failed to build.",
            ),
            ErrorValue::BuildErrors { source, .. } => String::from_str("Encountered ").concat(
                u64_to_string(source.len() as u64).as_str(),
            ).concat(" build errors while trying to build a supergraph."),
            ErrorValue::SubgraphBuildErrors { subgraph, graph_ref, source } => String::from_str(
                "Encountered ",
            ).concat(u64_to_string(source.len() as u64).as_str()).concat(
                " build errors while trying to build subgraph \"",
            ).concat(subgraph.as_str()).concat("\" into supergraph \"").concat(
                graph_ref.to_display_string().as_str(),
            ).concat("\"."),
            ErrorValue::OperationCheckFailure { check_response } => String::from_str(
                "This operation check has encountered ",
            ).concat(u64_to_string(check_response.failure_count()).as_str()).concat(
                " schema changes that would break operations from existing client traffic.",
            ),
            ErrorValue::AuthenticationFailure { message } => message.clone(),
            ErrorValue::TransportFailure { message } => message.clone(),
            ErrorValue::Unclassified { message } => message.clone(),
        }
    }

    /// The machine `error` object of this failure.
    pub fn error_json(&self) -> (r: Json)
        ensures
            r@ == error_jv(*self),
    {
        let mut f: Vec<(String, Json)> = Vec::new();
        f.push((String::from_str("message"), j_string(self.message())));
        let code_json = match self.code() {
            Some(c) => j_str(c),
            None => Json::Null,
        };
        f.push((String::from_str("code"), code_json));
        match self {
            ErrorValue::NoSupergraphBuilds { source, .. } => {
                f.push((String::from_str("details"), build_errors_details_json(source)));
            },
            ErrorValue::BuildErrors { source, .. } => {
                f.push((String::from_str("details"), build_errors_details_json(source)));
            },
            ErrorValue::SubgraphBuildErrors { source, .. } => {
                f.push((String::from_str("details"), build_errors_details_json(source)));
            },
            _ => {},
        }
        let ghost gf = f@;
        let r = j_obj(f);
        proof {
            assert(jv_fields(gf) =~= error_jv(*self)->Obj_0);
        }
        r
    }

    /// The variant-specific fields this failure contributes to the
    /// machine `data` object.
    pub fn data_fields(&self) -> (r: Vec<(String, Json)>)
        ensures
            jv_fields(r@) == error_data_fields_jv(*self),
    {
        match self {
            ErrorValue::OperationCheckFailure { check_response } => check_response.data_fields(),
            _ => {
                let r: Vec<(String, Json)> = Vec::new();
                proof {
                    assert(jv_fields(r@) =~= error_data_fields_jv(*self));
                }
                r
            },
        }
    }
}

impl CheckResponse {
    /// Classifies a finished check: a passing check is a result value,
    /// a failing one is a check-failed error carrying the same data.
    pub fn try_new(
        target_url: Option<String>,
        operation_check_count: u64,
        changes: Vec<SchemaChange>,
        result: ChangeSeverity,
        graph_ref: GraphRef,
        core_schema_modified: bool,
    ) -> (r: Result<CheckResponse, ErrorValue>)
        ensures
            ({
                let c = CheckResponse {
                    target_url,
                    operation_check_count,
                    changes,
                    result,
                    graph_ref,
                    core_schema_modified,
                };
                match r {
                    Ok(ok) => ok == c && result is PASS,
                    Err(e) => e == (ErrorValue::OperationCheckFailure { check_response: c })
                        && result is FAIL,
                }
            }),
    {
        let c = CheckResponse {
            target_url,
            operation_check_count,
            changes,
            result,
            graph_ref,
            core_schema_modified,
        };
        match result {
            ChangeSeverity::PASS => Ok(c),
            ChangeSeverity::FAIL => Err(ErrorValue::OperationCheckFailure { check_response: c }),
        }
    }
}

} // verus!
