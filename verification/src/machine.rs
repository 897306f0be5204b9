//! The versioned machine output document: the envelope and the
//! renderer that fills it.

use vstd::prelude::*;
use vstd::string::StringExecFns;

use crate::error::{error_data_fields_jv, error_jv, ErrorValue};
use crate::json::{j_obj, j_str, jv_fields, Json, Jv};
use crate::output::{data_fields_jv, internal_error_jv, RoverOutput};

verus! {

broadcast use vstd::std_specs::vec::group_vec_axioms;

/// The version of the machine output document's schema. Scripts pin
/// their parsing to it; it only moves when the envelope's shape does.
#[derive(Debug, Clone, Copy, PartialEq, Eq, Structural)]
pub enum JsonVersion {
    One,
}

/// The version string stamped into the envelope.
pub open spec fn version_chars(v: JsonVersion) -> Seq<char> {
    match v {
        JsonVersion::One => "1"@,
    }
}

impl JsonVersion {
    pub fn to_display_str(&self) -> (r: &'static str)
        ensures
            r@ == version_chars(*self),
    {
        match self {
            JsonVersion::One => "1",
        }
    }
}

impl core::default::Default for JsonVersion {
    /// The version stamped on output produced by this build.
    fn default() -> (r: JsonVersion)
        ensures
            r == JsonVersion::One,
    {
        JsonVersion::One
    }
}

/// The machine output document: a fixed envelope of the schema version,
/// a `data` object that always carries a `success` flag, and an `error`
/// value that is JSON null exactly when there is nothing to report.
#[derive(Debug)]
pub struct Envelope {
    pub json_version: JsonVersion,
    pub data: Json,
    pub error: Json,
}

/// The `data` object of the envelope: the outcome's variant-specific
/// fields with the `success` flag appended. The flag is true exactly
/// for a result value, false for an error value.
pub open spec fn envelope_data_jv(r: Result<RoverOutput, ErrorValue>) -> Jv {
    match r {
        Ok(o) => Jv::Obj(data_fields_jv(o).push(("success"@, Jv::Bool(true)))),
        Err(e) => Jv::Obj(error_data_fields_jv(e).push(("success"@, Jv::Bool(false)))),
    }
}

/// The `error` value of the envelope: a result value's companion
/// build-error report (usually null), or the error value's rendering.
pub open spec fn envelope_error_jv(r: Result<RoverOutput, ErrorValue>) -> Jv {
    match r {
        Ok(o) => internal_error_jv(o),
        Err(e) => error_jv(e),
    }
}

/// The whole envelope as one JSON value.
pub open spec fn envelope_jv(e: Envelope) -> Jv {
    Jv::Obj(
        seq![
            ("json_version"@, Jv::Str(version_chars(e.json_version))),
            ("data"@, e.data@),
            ("error"@, e.error@),
        ],
    )
}

/// Renders an outcome as the versioned machine document.
pub fn render_machine(result: &Result<RoverOutput, ErrorValue>) -> (r: Envelope)
    ensures
        r.json_version == JsonVersion::One,
        r.data@ == envelope_data_jv(*result),
        r.error@ == envelope_error_jv(*result),
{
    match result {
        Ok(o) => {
            let mut fields = o.data_fields();
            let ghost gf = fields@;
            fields.push((String::from_str("success"), Json::Bool(true)));
            let ghost gf2 = fields@;
            let data = j_obj(fields);
            proof {
                assert(jv_fields(gf2) =~= jv_fields(gf).push(("success"@, Jv::Bool(true))));
            }
            Envelope { json_version: o.get_json_version(), data, error: o.get_internal_error_json() }
        },
        Err(e) => {
            let mut fields = e.data_fields();
            let ghost gf = fields@;
            fields.push((String::from_str("success"), Json::Bool(false)));
            let ghost gf2 = fields@;
            let data = j_obj(fields);
            proof {
                assert(jv_fields(gf2) =~= jv_fields(gf).push(("success"@, Jv::Bool(false))));
            }
            Envelope { json_version: JsonVersion::default(), data, error: e.error_json() }
        },
    }
}

impl Envelope {
    /// The envelope as one JSON value.
    pub fn to_json(self) -> (r: Json)
        ensures
            r@ == envelope_jv(self),
    {
        let ghost gs = self;
        let version = j_str(self.json_version.to_display_str());
        let mut f: Vec<(String, Json)> = Vec::new();
        f.push((String::from_str("json_version"), version));
        f.push((String::from_str("data"), self.data));
        f.push((String::from_str("error"), self.error));
        let ghost gf = f@;
        let r = j_obj(f);
        proof {
            assert(jv_fields(gf) =~= envelope_jv(gs)->Obj_0);
        }
        r
    }
}

impl RoverOutput {
    /// The machine schema version this result is rendered under.
    pub fn get_json_version(&self) -> (r: JsonVersion)
        ensures
            r == JsonVersion::One,
    {
        JsonVersion::default()
    }
}

} // verus!
