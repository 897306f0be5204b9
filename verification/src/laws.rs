//! The laws that tie the two renderings together, stated over the same
//! specification functions the renderers' contracts use, and proved for
//! every value.

use vstd::prelude::*;

use crate::error::{
    build_errors_jv, code_chars, code_jv, error_jv, kind_code_chars, kind_of, message_chars,
    ErrorKind, ErrorValue,
};
use crate::json::{jv_get, Jv};
use crate::machine::{envelope_data_jv, envelope_error_jv};
use crate::model::BuildError;
use crate::output::{internal_error_jv, RoverOutput};

verus! {

/// Whether a result value carries a non-empty build-error list: the
/// dual-state case, where the mutation succeeded but the machine
/// rendering also reports the build errors beside the data.
pub open spec fn carries_build_errors(o: RoverOutput) -> bool {
    match o {
        RoverOutput::SubgraphPublishResponse { publish_response, .. } => publish_response
            .build_errors@.len() > 0,
        RoverOutput::SubgraphDeleteResponse { delete_response, .. } => delete_response
            .build_errors@.len() > 0,
        _ => false,
    }
}

/// The build errors a result value carries.
pub open spec fn build_errors_of(o: RoverOutput) -> Seq<BuildError> {
    match o {
        RoverOutput::SubgraphPublishResponse { publish_response, .. } => publish_response
            .build_errors@,
        RoverOutput::SubgraphDeleteResponse { delete_response, .. } => delete_response
            .build_errors@,
        _ => Seq::empty(),
    }
}

/// Looking up `code`, `message` and `details` in a rendered error
/// object finds the expected fields, whichever shape the object took.
proof fn lemma_error_jv_fields(e: ErrorValue)
    ensures
        jv_get(error_jv(e), "message"@) == Some(Jv::Str(message_chars(e))),
        jv_get(error_jv(e), "code"@) == Some(code_jv(e)),
        error_jv(e) is Obj,
{
    reveal_strlit("message");
    reveal_strlit("code");
    reveal_strlit("details");
    assert("details"@[0] != "message"@[0]);
    assert("code"@[0] != "message"@[0]);
    let fields = error_jv(e)->Obj_0;
    match crate::error::details_jv(e) {
        Some(d) => {
            assert(fields.drop_last() =~= seq![
                ("message"@, Jv::Str(message_chars(e))),
                ("code"@, code_jv(e)),
            ]);
            assert(fields.drop_last().drop_last() =~= seq![
                ("message"@, Jv::Str(message_chars(e))),
            ]);
            assert(crate::json::obj_fields_get(fields, "code"@) == crate::json::obj_fields_get(
                fields.drop_last(),
                "code"@,
            ));
            assert(crate::json::obj_fields_get(fields.drop_last(), "code"@) == Some(code_jv(e)));
            assert(crate::json::obj_fields_get(fields, "message"@) == crate::json::obj_fields_get(
                fields.drop_last(),
                "message"@,
            ));
            assert(crate::json::obj_fields_get(fields.drop_last(), "message"@)
                == crate::json::obj_fields_get(fields.drop_last().drop_last(), "message"@));
            assert(crate::json::obj_fields_get(fields.drop_last().drop_last(), "message"@) == Some(
                Jv::Str(message_chars(e)),
            ));
        },
        None => {
            assert(fields.drop_last() =~= seq![("message"@, Jv::Str(message_chars(e)))]);
            assert(crate::json::obj_fields_get(fields, "code"@) == Some(code_jv(e)));
            assert(crate::json::obj_fields_get(fields, "message"@) == crate::json::obj_fields_get(
                fields.drop_last(),
                "message"@,
            ));
            assert(crate::json::obj_fields_get(fields.drop_last(), "message"@) == Some(
                Jv::Str(message_chars(e)),
            ));
        },
    }
}

/// Every result value's machine rendering reports success, and its
/// `error` value is JSON null unless the result carries build errors;
/// then the error reports the build-errors code and lists every carried
/// build error, while `success` stays true: the mutation itself
/// succeeded.
pub proof fn lemma_machine_success_of_result(o: RoverOutput)
    ensures
        jv_get(envelope_data_jv(Ok::<RoverOutput, ErrorValue>(o)), "success"@) == Some(
            Jv::Bool(true),
        ),
        !carries_build_errors(o) ==> envelope_error_jv(Ok::<RoverOutput, ErrorValue>(o))
            == Jv::Null,
        carries_build_errors(o) ==> jv_get(
            envelope_error_jv(Ok::<RoverOutput, ErrorValue>(o)),
            "code"@,
        ) == Some(Jv::Str("E029"@)),
        carries_build_errors(o) ==> (jv_get(
            envelope_error_jv(Ok::<RoverOutput, ErrorValue>(o)),
            "details"@,
        ) matches Some(d) && jv_get(d, "build_errors"@) == Some(
            Jv::Arr(build_errors_jv(build_errors_of(o))),
        ) && build_errors_jv(build_errors_of(o)).len() == build_errors_of(o).len()),
{
    let fields = crate::output::data_fields_jv(o);
    assert(fields.push(("success"@, Jv::Bool(true))).last() == ("success"@, Jv::Bool(true)));
    if carries_build_errors(o) {
        match o {
            RoverOutput::SubgraphPublishResponse { graph_ref, subgraph, publish_response } => {
                let e = ErrorValue::SubgraphBuildErrors {
                    subgraph: subgraph,
                    graph_ref: graph_ref,
                    source: publish_response.build_errors,
                };
                lemma_error_jv_fields(e);
                assert(code_jv(e) == Jv::Str("E029"@));
            },
            RoverOutput::SubgraphDeleteResponse { graph_ref, subgraph, delete_response, .. } => {
                let e = ErrorValue::SubgraphBuildErrors {
                    subgraph: subgraph,
                    graph_ref: graph_ref,
                    source: delete_response.build_errors,
                };
                lemma_error_jv_fields(e);
                assert(code_jv(e) == Jv::Str("E029"@));
            },
            _ => {},
        }
    }
}

/// Every error value's machine rendering reports failure, a non-null
/// `error` object whose message and code are the taxonomy's fixed ones
/// (a null code only for an unclassified failure).
pub proof fn lemma_machine_failure(e: ErrorValue)
    ensures
        jv_get(envelope_data_jv(Err::<RoverOutput, ErrorValue>(e)), "success"@) == Some(
            Jv::Bool(false),
        ),
        envelope_error_jv(Err::<RoverOutput, ErrorValue>(e)) != Jv::Null,
        jv_get(envelope_error_jv(Err::<RoverOutput, ErrorValue>(e)), "message"@) == Some(
            Jv::Str(message_chars(e)),
        ),
        jv_get(envelope_error_jv(Err::<RoverOutput, ErrorValue>(e)), "code"@) == Some(code_jv(e)),
        kind_of(e) is Unclassified <==> code_jv(e) == Jv::Null,
{
    let fields = crate::error::error_data_fields_jv(e);
    assert(fields.push(("success"@, Jv::Bool(false))).last() == ("success"@, Jv::Bool(false)));
    lemma_error_jv_fields(e);
}

/// Encoding the same kind always yields the same code: the code table
/// is a function of the kind alone.
pub proof fn lemma_code_stable(e1: ErrorValue, e2: ErrorValue)
    ensures
        kind_of(e1) == kind_of(e2) ==> code_chars(e1) == code_chars(e2),
{
}

/// No two kinds share a code: the kind-to-code table is injective, so
/// code and kind determine one another.
pub proof fn lemma_code_injective(k1: ErrorKind, k2: ErrorKind)
    ensures
        kind_code_chars(k1) == kind_code_chars(k2) ==> k1 == k2,
{
    reveal_strlit("E009");
    reveal_strlit("E027");
    reveal_strlit("E029");
    reveal_strlit("E030");
    reveal_strlit("E002");
    reveal_strlit("E028");
    assert("E009"@[2] == '0' && "E009"@[3] == '9');
    assert("E027"@[2] == '2' && "E027"@[3] == '7');
    assert("E029"@[2] == '2' && "E029"@[3] == '9');
    assert("E030"@[2] == '3' && "E030"@[3] == '0');
    assert("E002"@[2] == '0' && "E002"@[3] == '2');
    assert("E028"@[2] == '2' && "E028"@[3] == '8');
}

/// A tabular row never renders a missing or empty optional field as an
/// empty cell: the literal placeholder stands in, so column alignment
/// is stable.
pub proof fn lemma_tabular_placeholders(s: crate::model::SubgraphInfo)
    ensures
        (s.url is None || (s.url matches Some(u) && u@.len() == 0)) ==> (
        crate::human::subgraph_url_cell(s) == "unspecified"@ && crate::human::subgraph_url_cell(
            s,
        ).len() == 11),
        s.updated_at.local is None ==> (crate::human::subgraph_updated_cell(s) == "N/A"@
            && crate::human::subgraph_updated_cell(s).len() == 3),
{
    reveal_strlit("unspecified");
    reveal_strlit("N/A");
}

/// A consumer branching on `error == null` and one branching on
/// `data.success` reach the same verdict, except in the documented
/// dual-state case, where `success` stays true while `error` describes
/// the carried build errors.
pub proof fn lemma_success_signals_agree(r: Result<RoverOutput, ErrorValue>)
    ensures
        jv_get(envelope_data_jv(r), "success"@) == Some(Jv::Bool(r is Ok)),
        r is Err ==> envelope_error_jv(r) != Jv::Null,
        (r matches Ok(o) && !carries_build_errors(o)) ==> envelope_error_jv(r) == Jv::Null,
        (r matches Ok(o) && carries_build_errors(o)) ==> envelope_error_jv(r) != Jv::Null,
{
    match r {
        Ok(o) => {
            lemma_machine_success_of_result(o);
            if carries_build_errors(o) {
                assert(envelope_error_jv(r) is Obj);
            }
        },
        Err(e) => {
            lemma_machine_failure(e);
        },
    }
}

} // verus!
