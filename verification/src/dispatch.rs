//! The dispatcher: picks the renderer from the output-mode switch,
//! suppresses decoration away from a terminal, renders failures for the
//! secondary stream, and fixes the process exit code.

use vstd::prelude::*;
use vstd::string::StringExecFns;

use crate::error::{message_chars, ErrorValue};
use crate::human::{body_chars, build_error_line, descriptor_chars, lines_view, status_chars};
use crate::json::opt_chars;
use crate::machine::{render_machine, Envelope};
use crate::model::BuildError;
use crate::output::RoverOutput;

verus! {

broadcast use vstd::std_specs::vec::group_vec_axioms;

/// How output is rendered: a human-readable report, or the versioned
/// machine document. Decided once at process start and threaded in.
#[derive(Debug, Clone, Copy, PartialEq, Eq, Structural)]
pub enum OutputMode {
    Plain,
    Json,
}

/// A human rendering: the heading for the secondary stream, narration
/// lines for the secondary stream, and the primary-stream body.
#[derive(Debug)]
pub struct HumanReport {
    pub descriptor: Option<String>,
    pub status_lines: Vec<String>,
    pub body: Option<String>,
}

/// One rendered build error inside a failure report, with the
/// failure-appropriate prefix (the advisory dual-state lines use the
/// warning prefix instead; see the status lines).
pub open spec fn error_detail_line(b: BuildError) -> Seq<char> {
    "ERROR: "@ + build_error_line(b)
}

/// The human rendering of a failure: the message first, then each
/// carried build error on its own prefixed line.
pub open spec fn error_lines(e: ErrorValue) -> Seq<Seq<char>> {
    seq![message_chars(e)] + (match e {
        ErrorValue::NoSupergraphBuilds { source, .. } => source@.map_values(
            |b: BuildError| error_detail_line(b),
        ),
        ErrorValue::BuildErrors { source, .. } => source@.map_values(
            |b: BuildError| error_detail_line(b),
        ),
        ErrorValue::SubgraphBuildErrors { source, .. } => source@.map_values(
            |b: BuildError| error_detail_line(b),
        ),
        _ => Seq::<Seq<char>>::empty(),
    })
}

fn prefixed_error_lines(lines: &mut Vec<String>, source: &Vec<BuildError>)
    ensures
        final(lines)@.len() == old(lines)@.len() + source@.len(),
        forall|k: int| 0 <= k < old(lines)@.len() ==> final(lines)@[k] == old(lines)@[k],
        forall|k: int|
            old(lines)@.len() <= k < final(lines)@.len() ==> (#[trigger] final(lines)@[k])@
                == error_detail_line(source@[k - old(lines)@.len()]),
{
    let mut i: usize = 0;
    while i < source.len()
        invariant
            i <= source@.len(),
            lines@.len() == old(lines)@.len() + i,
            forall|k: int| 0 <= k < old(lines)@.len() ==> lines@[k] == old(lines)@[k],
            forall|k: int|
                old(lines)@.len() <= k < lines@.len() ==> (#[trigger] lines@[k])@
                    == error_detail_line(source@[k - old(lines)@.len()]),
        decreases source@.len() - i,
    {
        let line = match &source[i].message {
            Some(m) => String::from_str("ERROR: ").concat(m.as_str()),
            None => String::from_str("ERROR: ").concat("unknown build error"),
        };
        lines.push(line);
        i = i + 1;
    }
}

/// Renders a failure for the secondary stream: exactly one message
/// line, then its build errors when it carries any.
pub fn render_human_error(e: &ErrorValue) -> (r: Vec<String>)
    ensures
        lines_view(r@) == error_lines(*e),
{
    let mut lines: Vec<String> = Vec::new();
    lines.push(e.message());
    match e {
        ErrorValue::NoSupergraphBuilds { source, .. } => prefixed_error_lines(&mut lines, source),
        ErrorValue::BuildErrors { source, .. } => prefixed_error_lines(&mut lines, source),
        ErrorValue::SubgraphBuildErrors { source, .. } => prefixed_error_lines(&mut lines, source),
        _ => {},
    }
    proof {
        assert(lines_view(lines@) =~= error_lines(*e));
    }
    lines
}

/// Renders a result for a human: the body always; the heading and the
/// narration only when the primary stream is an interactive terminal,
/// so piped output never mixes in decoration.
pub fn render_human(output: &RoverOutput, stdout_is_interactive: bool) -> (r: HumanReport)
    ensures
        !stdout_is_interactive ==> r.descriptor is None && r.status_lines@.len() == 0,
        stdout_is_interactive ==> opt_chars(r.descriptor) == descriptor_chars(*output),
        stdout_is_interactive ==> lines_view(r.status_lines@) == status_chars(*output),
        opt_chars(r.body) == body_chars(*output),
{
    let descriptor: Option<String> = if stdout_is_interactive {
        match output.descriptor() {
            Some(d) => Some(String::from_str(d)),
            None => None,
        }
    } else {
        None
    };
    let status_lines: Vec<String> = if stdout_is_interactive {
        output.status_lines()
    } else {
        Vec::new()
    };
    proof {
        if !stdout_is_interactive {
            assert(lines_view(status_lines@) =~= Seq::<Seq<char>>::empty());
        }
    }
    HumanReport { descriptor, status_lines, body: output.get_stdout() }
}

/// What the dispatcher hands to the process edge: one of the two
/// renderings.
#[derive(Debug)]
pub enum Rendering {
    Human { report: HumanReport, error_lines: Vec<String> },
    Machine { envelope: Envelope },
}

/// Selects the renderer from the output-mode switch. In machine mode
/// the envelope carries everything; in human mode a result becomes a
/// report and a failure becomes its error lines.
pub fn dispatch(
    result: &Result<RoverOutput, ErrorValue>,
    mode: OutputMode,
    stdout_is_interactive: bool,
) -> (r: Rendering)
    ensures
        mode is Json ==> (r matches Rendering::Machine { envelope } && envelope.data@
            == crate::machine::envelope_data_jv(*result) && envelope.error@
            == crate::machine::envelope_error_jv(*result)),
        mode is Plain ==> (r matches Rendering::Human { report, error_lines: el } && match *result {
            Ok(o) => opt_chars(report.body) == body_chars(o) && lines_view(el@)
                == Seq::<Seq<char>>::empty() && (!stdout_is_interactive ==> report.descriptor
                is None && report.status_lines@.len() == 0) && (stdout_is_interactive ==> opt_chars(
                report.descriptor,
            ) == descriptor_chars(o) && lines_view(report.status_lines@) == status_chars(o)),
            Err(e) => report.descriptor is None && report.status_lines@.len() == 0 && report.body
                is None && lines_view(el@) == error_lines(e),
        }),

{
    match mode {
        OutputMode::Json => Rendering::Machine { envelope: render_machine(result) },
        OutputMode::Plain => match result {
            Ok(o) => {
                let r = Rendering::Human {
                    report: render_human(o, stdout_is_interactive),
                    error_lines: Vec::new(),
                };
                proof {
                    assert(lines_view(Seq::<String>::empty()) =~= Seq::<Seq<char>>::empty());
                }
                r
            },
            Err(e) => Rendering::Human {
                report: HumanReport { descriptor: None, status_lines: Vec::new(), body: None },
                error_lines: render_human_error(e),
            },
        },
    }
}

/// The process exit code of an outcome: zero exactly for a result
/// value. The dual-state case is a result value, so it still exits
/// zero: the mutation itself succeeded.
pub fn get_exit_code(result: &Result<RoverOutput, ErrorValue>) -> (r: i32)
    ensures
        (r == 0) <==> result is Ok,
{
    match result {
        Ok(_) => 0,
        Err(_) => 1,
    }
}

} // verus!
