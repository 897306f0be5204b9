//! The list commands: their arguments and what they do with the data
//! the registry and the templates service return. The remote calls stay
//! with the caller.

use vstd::prelude::*;
use vstd::string::StringExecFns;

use crate::error::ErrorValue;
use crate::model::{graph_ref_chars, GraphRef, ProjectLanguage, SubgraphListResponse};
use crate::output::RoverOutput;
use crate::templates::{list_templates, selected_templates, is_no_templates_error};

verus! {

/// The subgraph list command's arguments: which graph to list and which
/// configuration profile authenticates the call.
#[derive(Debug)]
pub struct SubgraphListSubcommand {
    pub graph: GraphRef,
    pub profile: String,
}

impl SubgraphListSubcommand {
    /// The narration printed to the secondary stream before the remote
    /// call is made.
    pub fn listing_message(&self) -> (r: String)
        ensures
            r@ == "Listing subgraphs for "@ + graph_ref_chars(self.graph)
                + " using credentials from the "@ + self.profile@ + " profile."@,
    {
        String::from_str("Listing subgraphs for ").concat(
            self.graph.to_display_string().as_str(),
        ).concat(" using credentials from the ").concat(self.profile.as_str()).concat(" profile.")
    }

    /// Wraps the list the registry returned as this command's result.
    /// The caller performs the remote call and hands the response in.
    pub fn run(&self, list_details: SubgraphListResponse) -> (r: Result<RoverOutput, ErrorValue>)
        ensures
            r matches Ok(o) && o == RoverOutput::SubgraphList(list_details),
    {
        Ok(RoverOutput::SubgraphList(list_details))
    }
}

/// The template list command's options.
#[derive(Debug, Clone, Copy)]
pub struct TemplateOpt {
    pub language: Option<ProjectLanguage>,
}

/// The template list command: lists the templates its language filter
/// keeps.
#[derive(Debug, Clone, Copy)]
pub struct List {
    pub options: TemplateOpt,
}

impl List {
    /// Applies the command's filter to the catalogue the templates
    /// service returned. The caller performs the remote call and hands
    /// the catalogue in.
    pub fn run(&self, available: Vec<crate::model::GithubTemplate>) -> (r: Result<
        RoverOutput,
        ErrorValue,
    >)
        ensures
            selected_templates(self.options.language, available@).len() > 0 ==> (r matches Ok(o)
                && o matches RoverOutput::TemplateList(v) && v@ == selected_templates(
                self.options.language,
                available@,
            )),
            selected_templates(self.options.language, available@).len() == 0 ==> (r matches Err(e)
                && is_no_templates_error(e)),
    {
        match list_templates(self.options.language, available) {
            Ok(ts) => Ok(RoverOutput::TemplateList(ts)),
            Err(e) => Err(e),
        }
    }
}

} // verus!
