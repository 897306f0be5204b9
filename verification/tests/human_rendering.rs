use rover_output::dispatch::{
    dispatch, get_exit_code, render_human, render_human_error, OutputMode, Rendering,
};
use rover_output::error::ErrorValue;
use rover_output::model::{
    BuildError, ChangeSummary, FetchResponse, FieldChanges, GithubTemplate, GraphPublishResponse,
    GraphRef, ProjectLanguage, Sdl, SdlType, SubgraphInfo, SubgraphListResponse,
    SubgraphUpdatedAt, TypeChanges,
};
use rover_output::output::RoverOutput;
use rover_output::text::u64_to_string;

fn s(x: &str) -> String {
    x.to_string()
}

fn graph_ref(name: &str, variant: &str) -> GraphRef {
    GraphRef { name: s(name), variant: s(variant) }
}

fn subgraph_listing() -> RoverOutput {
    RoverOutput::SubgraphList(SubgraphListResponse {
        subgraphs: vec![
            SubgraphInfo {
                name: s("products"),
                url: Some(s("http://localhost:4001")),
                updated_at: SubgraphUpdatedAt {
                    local: Some(s("2022-05-21 11:22:33 -07:00")),
                    utc: Some(s("2022-05-21T18:22:33Z")),
                },
            },
            SubgraphInfo {
                name: s("reviews"),
                url: Some(s("")),
                updated_at: SubgraphUpdatedAt { local: None, utc: None },
            },
        ],
        root_url: s("https://studio.apollographql.com"),
        graph_ref: graph_ref("graph", "current"),
    })
}

#[test]
fn non_interactive_rendering_suppresses_narration() {
    let output = subgraph_listing();
    let report = render_human(&output, false);
    assert!(report.descriptor.is_none());
    assert_eq!(report.status_lines.len(), 0);
    assert!(report.body.is_some());
}

#[test]
fn interactive_rendering_keeps_descriptor_and_body() {
    let output = RoverOutput::Profiles(vec![s("default")]);
    let report = render_human(&output, true);
    assert_eq!(report.descriptor, Some(s("Profiles")));
    assert_eq!(report.status_lines.len(), 0);
    assert_eq!(report.body, Some(s("default")));
}

#[test]
fn tabular_rendering_uses_placeholders() {
    let output = subgraph_listing();
    let report = render_human(&output, false);
    let body = report.body.expect("a subgraph listing has a body");
    assert!(body.contains("unspecified"));
    assert!(body.contains("N/A"));
    assert!(body.contains("Name"));
    assert!(body.contains("Routing Url"));
    assert!(body.contains("Last Updated"));
    assert!(body.contains("/n View full details at https://studio.apollographql.com/graph/graph/service-list"));
}

#[test]
fn table_columns_are_aligned() {
    let output = RoverOutput::DocsList(vec![
        (s("docs"), s("open the docs")),
        (s("x"), s("y")),
    ]);
    let report = render_human(&output, false);
    let body = report.body.expect("a docs listing has a body");
    assert_eq!(body, "Slug  Description  \ndocs  open the docs\nx     y            ");
}

#[test]
fn zero_profiles_narrates_and_renders_empty_body() {
    let output = RoverOutput::Profiles(Vec::new());
    let report = render_human(&output, true);
    assert_eq!(report.status_lines, vec![s("No profiles found.")]);
    assert_eq!(report.body, Some(s("")));
}

#[test]
fn empty_success_has_no_body_and_exits_zero() {
    let result: Result<RoverOutput, ErrorValue> = Ok(RoverOutput::EmptySuccess);
    assert_eq!(get_exit_code(&result), 0);
    if let Ok(o) = &result {
        let report = render_human(o, true);
        assert!(report.descriptor.is_none());
        assert!(report.body.is_none());
        assert_eq!(report.status_lines.len(), 0);
    }
}

#[test]
fn dual_state_publish_still_exits_zero() {
    let result: Result<RoverOutput, ErrorValue> = Ok(RoverOutput::SubgraphPublishResponse {
        graph_ref: graph_ref("name", "current"),
        subgraph: s("subgraph"),
        publish_response: rover_output::model::SubgraphPublishResponse {
            api_schema_hash: None,
            build_errors: vec![
                BuildError { message: Some(s("first")), code: None },
                BuildError { message: Some(s("second")), code: None },
            ],
            supergraph_was_updated: false,
            subgraph_was_created: false,
            launch_url: None,
            launch_cli_copy: None,
        },
    });
    assert_eq!(get_exit_code(&result), 0);
}

#[test]
fn failure_exits_nonzero() {
    let result: Result<RoverOutput, ErrorValue> =
        Err(ErrorValue::Unclassified { message: s("boom") });
    assert_ne!(get_exit_code(&result), 0);
}

#[test]
fn subgraph_publish_narration() {
    let output = RoverOutput::SubgraphPublishResponse {
        graph_ref: graph_ref("g", "current"),
        subgraph: s("products"),
        publish_response: rover_output::model::SubgraphPublishResponse {
            api_schema_hash: Some(s("123456")),
            build_errors: vec![BuildError { message: Some(s("went wrong")), code: None }],
            supergraph_was_updated: false,
            subgraph_was_created: true,
            launch_url: None,
            launch_cli_copy: Some(s("watch it at test.com")),
        },
    };
    let report = render_human(&output, true);
    assert!(report.body.is_none());
    assert_eq!(
        report.status_lines,
        vec![
            s("A new subgraph called 'products' was created in 'g@current'"),
            s("The supergraph schema for 'g@current' was NOT updated with a new schema"),
            s("watch it at test.com"),
            s("WARN: The following build errors occurred:"),
            s("went wrong"),
        ]
    );
}

#[test]
fn graph_publish_narration_and_body() {
    let output = RoverOutput::GraphPublishResponse {
        graph_ref: graph_ref("g", "main"),
        publish_response: GraphPublishResponse {
            api_schema_hash: s("abc123"),
            change_summary: ChangeSummary {
                field_changes: FieldChanges { additions: 2, removals: 1, edits: 0 },
                type_changes: TypeChanges { additions: 4, removals: 0, edits: 7 },
            },
        },
    };
    let report = render_human(&output, true);
    assert_eq!(report.descriptor, Some(s("Schema Hash")));
    assert_eq!(report.body, Some(s("abc123")));
    assert_eq!(
        report.status_lines,
        vec![s(
            "g@main#abc123 published successfully [Fields: +2 -1 ~0, Types: +4 -0 ~7]"
        )]
    );
}

#[test]
fn error_rendering_lists_each_build_error() {
    let e = ErrorValue::BuildErrors {
        source: vec![
            BuildError { message: Some(s("first error")), code: Some(s("CODE_ONE")) },
            BuildError { message: None, code: None },
        ],
        num_subgraphs: 2,
    };
    let lines = render_human_error(&e);
    assert_eq!(
        lines,
        vec![
            s("Encountered 2 build errors while trying to build a supergraph."),
            s("ERROR: first error"),
            s("ERROR: unknown build error"),
        ]
    );
}

#[test]
fn descriptor_follows_fetched_document_kind() {
    let graph = RoverOutput::FetchResponse(FetchResponse {
        sdl: Sdl { contents: s("type Query"), sdl_type: SdlType::Graph },
    });
    let supergraph = RoverOutput::FetchResponse(FetchResponse {
        sdl: Sdl { contents: s("type Query"), sdl_type: SdlType::Supergraph },
    });
    assert_eq!(render_human(&graph, true).descriptor, Some(s("Schema")));
    assert_eq!(render_human(&supergraph, true).descriptor, Some(s("Supergraph Schema")));
}

#[test]
fn dispatch_selects_the_renderer() {
    let result: Result<RoverOutput, ErrorValue> = Ok(RoverOutput::EmptySuccess);
    match dispatch(&result, OutputMode::Json, true) {
        Rendering::Machine { envelope } => {
            assert_eq!(envelope.json_version.to_display_str(), "1");
        }
        Rendering::Human { .. } => panic!("machine mode must render the envelope"),
    }
    let failure: Result<RoverOutput, ErrorValue> =
        Err(ErrorValue::Unclassified { message: s("boom") });
    match dispatch(&failure, OutputMode::Plain, true) {
        Rendering::Human { report, error_lines } => {
            assert!(report.body.is_none());
            assert_eq!(error_lines, vec![s("boom")]);
        }
        Rendering::Machine { .. } => panic!("plain mode must render for a human"),
    }
}

#[test]
fn template_list_renders_a_table() {
    let output = RoverOutput::TemplateList(vec![GithubTemplate {
        id: s("subgraph-rust"),
        git_url: s("https://github.com/apollographql/subgraph-template-rustlang"),
        display: s("Rust"),
        language: ProjectLanguage::Rust,
    }]);
    let report = render_human(&output, false);
    let body = report.body.expect("a template listing has a body");
    assert!(body.contains("subgraph-rust"));
    assert!(body.contains("rust"));
    assert!(body.contains("Repo URL"));
}

#[test]
fn decimal_rendering_is_exact() {
    assert_eq!(u64_to_string(0), s("0"));
    assert_eq!(u64_to_string(7), s("7"));
    assert_eq!(u64_to_string(120), s("120"));
    assert_eq!(u64_to_string(98765), s("98765"));
    assert_eq!(u64_to_string(u64::MAX), s("18446744073709551615"));
}

#[test]
fn contract_describe_body() {
    let output = RoverOutput::ContractDescribe(rover_output::model::ContractDescribeResponse {
        description: s("a contract"),
        root_url: s("https://studio.apollographql.com"),
        graph_ref: graph_ref("g", "current"),
    });
    let report = render_human(&output, false);
    assert_eq!(
        report.body,
        Some(s(
            "a contract\nView the variant's full configuration at https://studio.apollographql.com/graph/g/settings/variant?variant=current"
        ))
    );
}

#[test]
fn contract_publish_body_defaults_the_launch_line() {
    let output = RoverOutput::ContractPublish(rover_output::model::ContractPublishResponse {
        config_description: s("new config"),
        launch_url: None,
        launch_cli_copy: None,
    });
    let report = render_human(&output, false);
    assert_eq!(
        report.body,
        Some(s("new config\nNo launch was triggered for this publish."))
    );
}

#[test]
fn template_use_success_body() {
    let output = RoverOutput::TemplateUseSuccess {
        template: GithubTemplate {
            id: s("subgraph-rust"),
            git_url: s("https://github.com/apollographql/subgraph-template-rustlang"),
            display: s("Rust"),
            language: ProjectLanguage::Rust,
        },
        path: s("./my-project"),
    };
    let report = render_human(&output, true);
    assert_eq!(report.descriptor, Some(s("Project generated")));
    assert_eq!(
        report.body,
        Some(s(
            "Successfully created a new project from the 'subgraph-rust' template in ./my-project/n Read the generated 'README.md' file for next steps./nHave a question or suggestion about templates? Let us know at https://community.apollographql.com"
        ))
    );
}

#[test]
fn readme_publish_narrates_without_a_body() {
    let output = RoverOutput::ReadmePublishResponse {
        graph_ref: graph_ref("g", "current"),
        new_content: s("# readme"),
        last_updated_time: None,
    };
    let report = render_human(&output, true);
    assert!(report.body.is_none());
    assert_eq!(
        report.status_lines,
        vec![s("Readme for g@current published successfully")]
    );
}

#[test]
fn composition_result_narrates_hints() {
    let output = RoverOutput::CompositionResult(rover_output::model::CompositionOutput {
        supergraph_sdl: s("type Query"),
        hints: vec![
            rover_output::model::BuildHint { message: s("first hint") },
            rover_output::model::BuildHint { message: s("second hint") },
        ],
        federation_version: None,
    });
    let report = render_human(&output, true);
    assert_eq!(report.body, Some(s("type Query")));
    assert_eq!(
        report.status_lines,
        vec![s("HINT: first hint\nHINT: second hint\n")]
    );
}

#[test]
fn check_body_without_target_url_is_just_the_table() {
    let check = rover_output::model::CheckResponse {
        target_url: None,
        operation_check_count: 3,
        changes: Vec::new(),
        result: rover_output::model::ChangeSeverity::PASS,
        graph_ref: graph_ref("g", "current"),
        core_schema_modified: false,
    };
    let report = render_human(&RoverOutput::CheckResponse(check), false);
    assert_eq!(report.body, Some(s("Change  Code  Description")));
}

#[test]
fn async_check_body() {
    let output = RoverOutput::AsyncCheckResponse(
        rover_output::model::CheckRequestSuccessResult {
            workflow_id: s("wf-7"),
            target_url: s("https://studio.apollographql.com/checks/7"),
        },
    );
    let report = render_human(&output, false);
    assert_eq!(
        report.body,
        Some(s(
            "Check successfully started with workflow ID: wf-7/nView full details at https://studio.apollographql.com/checks/7"
        ))
    );
}
