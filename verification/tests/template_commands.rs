use rover_output::error::ErrorValue;
use rover_output::model::{GithubTemplate, GraphRef, ProjectLanguage};
use rover_output::output::RoverOutput;
use rover_output::commands::{List, SubgraphListSubcommand, TemplateOpt};
use rover_output::templates::{
    error_if_empty, get_template, get_templates_for_language, list_templates, select_template,
    template_display_names, templates_endpoint,
};

fn s(x: &str) -> String {
    x.to_string()
}

fn template(id: &str, display: &str, language: ProjectLanguage) -> GithubTemplate {
    GithubTemplate {
        id: s(id),
        git_url: format!("https://github.com/apollographql/{}", id),
        display: s(display),
        language,
    }
}

fn catalogue() -> Vec<GithubTemplate> {
    vec![
        template("subgraph-rust", "Rust", ProjectLanguage::Rust),
        template("subgraph-python", "Python", ProjectLanguage::Python),
        template("subgraph-js", "Javascript", ProjectLanguage::Javascript),
        template("subgraph-ts", "Typescript", ProjectLanguage::Typescript),
    ]
}

#[test]
fn get_template_finds_by_id() {
    let found = get_template("subgraph-python", catalogue());
    assert_eq!(found.map(|t| t.display), Some(s("Python")));
}

#[test]
fn get_template_misses_unknown_id() {
    assert!(get_template("subgraph-go", catalogue()).is_none());
}

#[test]
fn get_templates_for_language_filters() {
    let kept = get_templates_for_language(ProjectLanguage::Rust, catalogue())
        .expect("one template is written in that language");
    assert_eq!(kept.len(), 1);
    assert_eq!(kept[0].id, s("subgraph-rust"));
}

#[test]
fn get_templates_for_language_rejects_empty_result() {
    let missed = get_templates_for_language(ProjectLanguage::Kotlin, catalogue());
    match missed {
        Err(ErrorValue::Unclassified { message }) => {
            assert_eq!(message, s("No templates matched the provided filters"));
        }
        _ => panic!("an empty filter result must be rejected"),
    }
}

#[test]
fn list_templates_without_filter_lists_everything() {
    let all = list_templates(None, catalogue()).expect("the catalogue is not empty");
    assert_eq!(all.len(), 4);
}

#[test]
fn error_if_empty_rejects_nothing_else() {
    let kept: Vec<u64> = error_if_empty(vec![1, 2, 3]).expect("a non-empty list passes through");
    assert_eq!(kept, vec![1, 2, 3]);
    let rejected: Result<Vec<u64>, ErrorValue> = error_if_empty(Vec::new());
    assert!(rejected.is_err());
}

#[test]
fn select_template_resolves_the_prompt() {
    let chosen = select_template(catalogue(), Some(2)).expect("index two is in range");
    assert_eq!(chosen.id, s("subgraph-js"));
    assert!(select_template(catalogue(), Some(9)).is_err());
    match select_template(catalogue(), None) {
        Err(ErrorValue::Unclassified { message }) => {
            assert_eq!(message, s("No template selected"));
        }
        _ => panic!("a dismissed prompt must be rejected"),
    }
}

#[test]
fn display_names_keep_the_order() {
    let names = template_display_names(&catalogue());
    assert_eq!(names, vec![s("Rust"), s("Python"), s("Javascript"), s("Typescript")]);
}

#[test]
fn endpoint_prefers_the_override() {
    assert_eq!(
        templates_endpoint(Some(s("http://localhost:9000"))),
        s("http://localhost:9000")
    );
    assert_eq!(
        templates_endpoint(None),
        s("https://apollo-templates.up.railway.app")
    );
}

#[test]
fn template_list_command_filters_and_wraps() {
    let cmd = List { options: TemplateOpt { language: Some(ProjectLanguage::Python) } };
    match cmd.run(catalogue()) {
        Ok(RoverOutput::TemplateList(ts)) => {
            assert_eq!(ts.len(), 1);
            assert_eq!(ts[0].id, s("subgraph-python"));
        }
        _ => panic!("a matching filter must list templates"),
    }
    let none = List { options: TemplateOpt { language: Some(ProjectLanguage::Kotlin) } };
    assert!(none.run(catalogue()).is_err());
}

#[test]
fn subgraph_list_command_narrates_and_wraps() {
    let cmd = SubgraphListSubcommand {
        graph: GraphRef { name: s("graph"), variant: s("current") },
        profile: s("default"),
    };
    assert_eq!(
        cmd.listing_message(),
        s("Listing subgraphs for graph@current using credentials from the default profile.")
    );
    let response = rover_output::model::SubgraphListResponse {
        subgraphs: Vec::new(),
        root_url: s("https://studio.apollographql.com"),
        graph_ref: GraphRef { name: s("graph"), variant: s("current") },
    };
    match cmd.run(response) {
        Ok(RoverOutput::SubgraphList(l)) => assert_eq!(l.subgraphs.len(), 0),
        _ => panic!("a fetched listing must be wrapped unchanged"),
    }
}

#[test]
fn error_codes_are_fixed_per_kind() {
    let auth = ErrorValue::AuthenticationFailure { message: s("no credentials") };
    let transport = ErrorValue::TransportFailure { message: s("connection refused") };
    let unclassified = ErrorValue::Unclassified { message: s("anything") };
    assert_eq!(auth.code(), Some("E002"));
    assert_eq!(transport.code(), Some("E028"));
    assert_eq!(unclassified.code(), None);
    let not_found = ErrorValue::NoSubgraphInGraph { invalid_subgraph: s("x") };
    assert_eq!(not_found.code(), Some("E009"));
    assert_eq!(not_found.message(), s("Could not find subgraph \"x\"."));
}
