use rover_output::error::ErrorValue;
use rover_output::json::Json;
use rover_output::machine::render_machine;
use rover_output::model::{
    BuildError, BuildHint, ChangeSeverity, ChangeSummary, CheckRequestSuccessResult, CheckResponse,
    CompositionOutput, FetchResponse, FieldChanges, GraphPublishResponse, GraphRef, Sdl, SdlType,
    SchemaChange, SubgraphDeleteResponse, SubgraphInfo, SubgraphListResponse,
    SubgraphPublishResponse, SubgraphUpdatedAt, TypeChanges,
};
use rover_output::output::RoverOutput;

fn s(x: &str) -> String {
    x.to_string()
}

fn jstr(x: &str) -> Json {
    Json::Str(x.to_string())
}

fn obj(fields: Vec<(&str, Json)>) -> Json {
    Json::Obj(fields.into_iter().map(|(k, v)| (k.to_string(), v)).collect())
}

fn assert_json_eq(expected: Json, actual: Json) {
    assert_eq!(format!("{:?}", expected), format!("{:?}", actual));
}

fn graph_ref(name: &str, variant: &str) -> GraphRef {
    GraphRef { name: s(name), variant: s(variant) }
}

fn two_build_errors() -> Vec<BuildError> {
    vec![
        BuildError {
            message: Some(s("[Accounts] -> Things went really wrong")),
            code: Some(s("AN_ERROR_CODE")),
        },
        BuildError {
            message: Some(s("[Films] -> Something else also went wrong")),
            code: None,
        },
    ]
}

fn two_build_errors_json() -> Json {
    Json::Arr(vec![
        obj(vec![
            ("message", jstr("[Accounts] -> Things went really wrong")),
            ("code", jstr("AN_ERROR_CODE")),
            ("type", jstr("composition")),
        ]),
        obj(vec![
            ("message", jstr("[Films] -> Something else also went wrong")),
            ("code", Json::Null),
            ("type", jstr("composition")),
        ]),
    ])
}

fn rendered(result: Result<RoverOutput, ErrorValue>) -> Json {
    render_machine(&result).to_json()
}

#[test]
fn docs_list_json() {
    let mock_shortlinks = vec![
        (s("slug_one"), s("description_one")),
        (s("slug_two"), s("description_two")),
    ];
    let actual = rendered(Ok(RoverOutput::DocsList(mock_shortlinks)));
    let expected = obj(vec![
        ("json_version", jstr("1")),
        (
            "data",
            obj(vec![
                (
                    "shortlinks",
                    Json::Arr(vec![
                        obj(vec![
                            ("slug", jstr("slug_one")),
                            ("description", jstr("description_one")),
                        ]),
                        obj(vec![
                            ("slug", jstr("slug_two")),
                            ("description", jstr("description_two")),
                        ]),
                    ]),
                ),
                ("success", Json::Bool(true)),
            ]),
        ),
        ("error", Json::Null),
    ]);
    assert_json_eq(expected, actual);
}

#[test]
fn fetch_response_json() {
    let mock_fetch_response = FetchResponse {
        sdl: Sdl {
            contents: s("sdl contents"),
            sdl_type: SdlType::Subgraph {
                routing_url: Some(s("http://localhost:8000/graphql")),
            },
        },
    };
    let actual = rendered(Ok(RoverOutput::FetchResponse(mock_fetch_response)));
    let expected = obj(vec![
        ("json_version", jstr("1")),
        (
            "data",
            obj(vec![
                ("sdl", obj(vec![("contents", jstr("sdl contents"))])),
                ("success", Json::Bool(true)),
            ]),
        ),
        ("error", Json::Null),
    ]);
    assert_json_eq(expected, actual);
}

#[test]
fn core_schema_json() {
    let mock_core_schema = s("core schema contents");
    let actual = rendered(Ok(RoverOutput::SupergraphSchema(mock_core_schema)));
    let expected = obj(vec![
        ("json_version", jstr("1")),
        (
            "data",
            obj(vec![
                ("core_schema", jstr("core schema contents")),
                ("success", Json::Bool(true)),
            ]),
        ),
        ("error", Json::Null),
    ]);
    assert_json_eq(expected, actual);
}

#[test]
fn subgraph_list_json() {
    let now_local = s("2022-05-21 11:22:33 -07:00");
    let now_utc = s("2022-05-21T18:22:33Z");
    let mock_subgraph_list_response = SubgraphListResponse {
        subgraphs: vec![
            SubgraphInfo {
                name: s("subgraph one"),
                url: Some(s("http://localhost:4001")),
                updated_at: SubgraphUpdatedAt {
                    local: Some(now_local.clone()),
                    utc: Some(now_utc.clone()),
                },
            },
            SubgraphInfo {
                name: s("subgraph two"),
                url: None,
                updated_at: SubgraphUpdatedAt { local: None, utc: None },
            },
        ],
        root_url: s("https://studio.apollographql.com/"),
        graph_ref: graph_ref("graph", "current"),
    };
    let actual = rendered(Ok(RoverOutput::SubgraphList(mock_subgraph_list_response)));
    let expected = obj(vec![
        ("json_version", jstr("1")),
        (
            "data",
            obj(vec![
                (
                    "subgraphs",
                    Json::Arr(vec![
                        obj(vec![
                            ("name", jstr("subgraph one")),
                            ("url", jstr("http://localhost:4001")),
                            (
                                "updated_at",
                                obj(vec![
                                    ("local", Json::Str(now_local)),
                                    ("utc", Json::Str(now_utc)),
                                ]),
                            ),
                        ]),
                        obj(vec![
                            ("name", jstr("subgraph two")),
                            ("url", Json::Null),
                            (
                                "updated_at",
                                obj(vec![("local", Json::Null), ("utc", Json::Null)]),
                            ),
                        ]),
                    ]),
                ),
                ("success", Json::Bool(true)),
            ]),
        ),
        ("error", Json::Null),
    ]);
    assert_json_eq(expected, actual);
}

#[test]
fn subgraph_delete_success_json() {
    let mock_subgraph_delete = SubgraphDeleteResponse {
        supergraph_was_updated: true,
        build_errors: Vec::new(),
    };
    let actual = rendered(Ok(RoverOutput::SubgraphDeleteResponse {
        delete_response: mock_subgraph_delete,
        subgraph: s("subgraph"),
        dry_run: false,
        graph_ref: graph_ref("name", "current"),
    }));
    let expected = obj(vec![
        ("json_version", jstr("1")),
        (
            "data",
            obj(vec![
                ("supergraph_was_updated", Json::Bool(true)),
                ("success", Json::Bool(true)),
            ]),
        ),
        ("error", Json::Null),
    ]);
    assert_json_eq(expected, actual);
}

#[test]
fn subgraph_delete_build_errors_json() {
    let mock_subgraph_delete = SubgraphDeleteResponse {
        supergraph_was_updated: false,
        build_errors: two_build_errors(),
    };
    let actual = rendered(Ok(RoverOutput::SubgraphDeleteResponse {
        delete_response: mock_subgraph_delete,
        subgraph: s("subgraph"),
        dry_run: true,
        graph_ref: graph_ref("name", "current"),
    }));
    let expected = obj(vec![
        ("json_version", jstr("1")),
        (
            "data",
            obj(vec![
                ("supergraph_was_updated", Json::Bool(false)),
                ("success", Json::Bool(true)),
            ]),
        ),
        (
            "error",
            obj(vec![
                (
                    "message",
                    jstr(
                        "Encountered 2 build errors while trying to build subgraph \"subgraph\" into supergraph \"name@current\".",
                    ),
                ),
                ("code", jstr("E029")),
                ("details", obj(vec![("build_errors", two_build_errors_json())])),
            ]),
        ),
    ]);
    assert_json_eq(expected, actual);
}

#[test]
fn supergraph_fetch_no_successful_publishes_json() {
    let actual = rendered(Err(ErrorValue::NoSupergraphBuilds {
        graph_ref: graph_ref("name", "current"),
        source: two_build_errors(),
    }));
    let expected = obj(vec![
        ("json_version", jstr("1")),
        ("data", obj(vec![("success", Json::Bool(false))])),
        (
            "error",
            obj(vec![
                (
                    "message",
                    jstr(
                        "No supergraph SDL exists for \"name@current\" because its subgraphs failed to build.",
                    ),
                ),
                ("code", jstr("E027")),
                ("details", obj(vec![("build_errors", two_build_errors_json())])),
            ]),
        ),
    ]);
    assert_json_eq(expected, actual);
}

fn two_changes(severity: ChangeSeverity) -> Vec<SchemaChange> {
    vec![
        SchemaChange {
            code: s("SOMETHING_HAPPENED"),
            description: s("beeg yoshi"),
            severity,
        },
        SchemaChange {
            code: s("WOW"),
            description: s("that was so cool"),
            severity,
        },
    ]
}

fn two_changes_json(severity: &str) -> Json {
    Json::Arr(vec![
        obj(vec![
            ("code", jstr("SOMETHING_HAPPENED")),
            ("description", jstr("beeg yoshi")),
            ("severity", jstr(severity)),
        ]),
        obj(vec![
            ("code", jstr("WOW")),
            ("description", jstr("that was so cool")),
            ("severity", jstr(severity)),
        ]),
    ])
}

const CHECK_TARGET_URL: &str =
    "https://studio.apollographql.com/graph/my-graph/composition/big-hash?variant=current";

#[test]
fn check_success_response_json() {
    let mock_check_response = CheckResponse::try_new(
        Some(s(CHECK_TARGET_URL)),
        10,
        two_changes(ChangeSeverity::PASS),
        ChangeSeverity::PASS,
        graph_ref("name", "current"),
        true,
    );
    if let Ok(mock_check_response) = mock_check_response {
        let actual = rendered(Ok(RoverOutput::CheckResponse(mock_check_response)));
        let expected = obj(vec![
            ("json_version", jstr("1")),
            (
                "data",
                obj(vec![
                    ("target_url", jstr(CHECK_TARGET_URL)),
                    ("operation_check_count", Json::UInt(10)),
                    ("changes", two_changes_json("PASS")),
                    ("failure_count", Json::UInt(0)),
                    ("core_schema_modified", Json::Bool(true)),
                    ("success", Json::Bool(true)),
                ]),
            ),
            ("error", Json::Null),
        ]);
        assert_json_eq(expected, actual);
    } else {
        panic!("The shape of this response should return a CheckResponse")
    }
}

#[test]
fn check_failure_response_json() {
    let check_response = CheckResponse::try_new(
        Some(s(CHECK_TARGET_URL)),
        10,
        two_changes(ChangeSeverity::FAIL),
        ChangeSeverity::FAIL,
        graph_ref("name", "current"),
        false,
    );
    if let Err(operation_check_failure) = check_response {
        let actual = rendered(Err(operation_check_failure));
        let expected = obj(vec![
            ("json_version", jstr("1")),
            (
                "data",
                obj(vec![
                    ("target_url", jstr(CHECK_TARGET_URL)),
                    ("operation_check_count", Json::UInt(10)),
                    ("changes", two_changes_json("FAIL")),
                    ("failure_count", Json::UInt(2)),
                    ("core_schema_modified", Json::Bool(false)),
                    ("success", Json::Bool(false)),
                ]),
            ),
            (
                "error",
                obj(vec![
                    (
                        "message",
                        jstr(
                            "This operation check has encountered 2 schema changes that would break operations from existing client traffic.",
                        ),
                    ),
                    ("code", jstr("E030")),
                ]),
            ),
        ]);
        assert_json_eq(expected, actual);
    } else {
        panic!("The shape of this response should return a RoverClientError")
    }
}

#[test]
fn graph_publish_response_json() {
    let mock_publish_response = GraphPublishResponse {
        api_schema_hash: s("123456"),
        change_summary: ChangeSummary {
            field_changes: FieldChanges { additions: 2, removals: 1, edits: 0 },
            type_changes: TypeChanges { additions: 4, removals: 0, edits: 7 },
        },
    };
    let actual = rendered(Ok(RoverOutput::GraphPublishResponse {
        graph_ref: graph_ref("graph", "variant"),
        publish_response: mock_publish_response,
    }));
    let expected = obj(vec![
        ("json_version", jstr("1")),
        (
            "data",
            obj(vec![
                ("api_schema_hash", jstr("123456")),
                (
                    "field_changes",
                    obj(vec![
                        ("additions", Json::UInt(2)),
                        ("removals", Json::UInt(1)),
                        ("edits", Json::UInt(0)),
                    ]),
                ),
                (
                    "type_changes",
                    obj(vec![
                        ("additions", Json::UInt(4)),
                        ("removals", Json::UInt(0)),
                        ("edits", Json::UInt(7)),
                    ]),
                ),
                ("success", Json::Bool(true)),
            ]),
        ),
        ("error", Json::Null),
    ]);
    assert_json_eq(expected, actual);
}

#[test]
fn subgraph_publish_success_response_json() {
    let mock_publish_response = SubgraphPublishResponse {
        api_schema_hash: Some(s("123456")),
        build_errors: Vec::new(),
        supergraph_was_updated: true,
        subgraph_was_created: true,
        launch_url: Some(s("test.com/launchurl")),
        launch_cli_copy: Some(s(
            "You can monitor this launch in Apollo Studio: test.com/launchurl",
        )),
    };
    let actual = rendered(Ok(RoverOutput::SubgraphPublishResponse {
        graph_ref: graph_ref("graph", "variant"),
        subgraph: s("subgraph"),
        publish_response: mock_publish_response,
    }));
    let expected = obj(vec![
        ("json_version", jstr("1")),
        (
            "data",
            obj(vec![
                ("api_schema_hash", jstr("123456")),
                ("supergraph_was_updated", Json::Bool(true)),
                ("subgraph_was_created", Json::Bool(true)),
                ("launch_url", jstr("test.com/launchurl")),
                (
                    "launch_cli_copy",
                    jstr("You can monitor this launch in Apollo Studio: test.com/launchurl"),
                ),
                ("success", Json::Bool(true)),
            ]),
        ),
        ("error", Json::Null),
    ]);
    assert_json_eq(expected, actual);
}

#[test]
fn subgraph_publish_failure_response_json() {
    let mock_publish_response = SubgraphPublishResponse {
        api_schema_hash: None,
        build_errors: two_build_errors(),
        supergraph_was_updated: false,
        subgraph_was_created: false,
        launch_url: None,
        launch_cli_copy: None,
    };
    let actual = rendered(Ok(RoverOutput::SubgraphPublishResponse {
        graph_ref: graph_ref("name", "current"),
        subgraph: s("subgraph"),
        publish_response: mock_publish_response,
    }));
    let expected = obj(vec![
        ("json_version", jstr("1")),
        (
            "data",
            obj(vec![
                ("api_schema_hash", Json::Null),
                ("supergraph_was_updated", Json::Bool(false)),
                ("subgraph_was_created", Json::Bool(false)),
                ("launch_url", Json::Null),
                ("launch_cli_copy", Json::Null),
                ("success", Json::Bool(true)),
            ]),
        ),
        (
            "error",
            obj(vec![
                (
                    "message",
                    jstr(
                        "Encountered 2 build errors while trying to build subgraph \"subgraph\" into supergraph \"name@current\".",
                    ),
                ),
                ("code", jstr("E029")),
                ("details", obj(vec![("build_errors", two_build_errors_json())])),
            ]),
        ),
    ]);
    assert_json_eq(expected, actual);
}

#[test]
fn profiles_json() {
    let mock_profiles = vec![s("default"), s("staging")];
    let actual = rendered(Ok(RoverOutput::Profiles(mock_profiles)));
    let expected = obj(vec![
        ("json_version", jstr("1")),
        (
            "data",
            obj(vec![
                ("profiles", Json::Arr(vec![jstr("default"), jstr("staging")])),
                ("success", Json::Bool(true)),
            ]),
        ),
        ("error", Json::Null),
    ]);
    assert_json_eq(expected, actual);
}

#[test]
fn introspection_json() {
    let actual = rendered(Ok(RoverOutput::Introspection(s(
        "i cant believe its not a real introspection response",
    ))));
    let expected = obj(vec![
        ("json_version", jstr("1")),
        (
            "data",
            obj(vec![
                (
                    "introspection_response",
                    jstr("i cant believe its not a real introspection response"),
                ),
                ("success", Json::Bool(true)),
            ]),
        ),
        ("error", Json::Null),
    ]);
    assert_json_eq(expected, actual);
}

#[test]
fn error_explanation_json() {
    let actual = rendered(Ok(RoverOutput::ErrorExplanation(s(
        "this error occurs when stuff is real complicated... I wouldn't worry about it",
    ))));
    let expected = obj(vec![
        ("json_version", jstr("1")),
        (
            "data",
            obj(vec![
                (
                    "explanation_markdown",
                    jstr(
                        "this error occurs when stuff is real complicated... I wouldn't worry about it",
                    ),
                ),
                ("success", Json::Bool(true)),
            ]),
        ),
        ("error", Json::Null),
    ]);
    assert_json_eq(expected, actual);
}

#[test]
fn empty_success_json() {
    let actual = rendered(Ok(RoverOutput::EmptySuccess));
    let expected = obj(vec![
        ("json_version", jstr("1")),
        ("data", obj(vec![("success", Json::Bool(true))])),
        ("error", Json::Null),
    ]);
    assert_json_eq(expected, actual);
}

#[test]
fn base_error_message_json() {
    let actual = rendered(Err(ErrorValue::Unclassified { message: s("Some random error") }));
    let expected = obj(vec![
        ("json_version", jstr("1")),
        ("data", obj(vec![("success", Json::Bool(false))])),
        (
            "error",
            obj(vec![("message", jstr("Some random error")), ("code", Json::Null)]),
        ),
    ]);
    assert_json_eq(expected, actual);
}

#[test]
fn coded_error_message_json() {
    let actual = rendered(Err(ErrorValue::NoSubgraphInGraph {
        invalid_subgraph: s("invalid_subgraph"),
    }));
    let expected = obj(vec![
        ("json_version", jstr("1")),
        ("data", obj(vec![("success", Json::Bool(false))])),
        (
            "error",
            obj(vec![
                ("message", jstr("Could not find subgraph \"invalid_subgraph\".")),
                ("code", jstr("E009")),
            ]),
        ),
    ]);
    assert_json_eq(expected, actual);
}

#[test]
fn composition_error_message_json() {
    let actual = rendered(Err(ErrorValue::BuildErrors {
        source: two_build_errors(),
        num_subgraphs: 2,
    }));
    let expected = obj(vec![
        ("json_version", jstr("1")),
        ("data", obj(vec![("success", Json::Bool(false))])),
        (
            "error",
            obj(vec![
                (
                    "message",
                    jstr("Encountered 2 build errors while trying to build a supergraph."),
                ),
                ("code", jstr("E029")),
                ("details", obj(vec![("build_errors", two_build_errors_json())])),
            ]),
        ),
    ]);
    assert_json_eq(expected, actual);
}

#[test]
fn zero_profiles_json() {
    let actual = rendered(Ok(RoverOutput::Profiles(Vec::new())));
    let expected = obj(vec![
        ("json_version", jstr("1")),
        (
            "data",
            obj(vec![
                ("profiles", Json::Arr(Vec::new())),
                ("success", Json::Bool(true)),
            ]),
        ),
        ("error", Json::Null),
    ]);
    assert_json_eq(expected, actual);
}

#[test]
fn async_check_response_json() {
    let actual = rendered(Ok(RoverOutput::AsyncCheckResponse(CheckRequestSuccessResult {
        workflow_id: s("workflow-1"),
        target_url: s("https://studio.apollographql.com/checks/1"),
    })));
    let expected = obj(vec![
        ("json_version", jstr("1")),
        (
            "data",
            obj(vec![
                ("workflow_id", jstr("workflow-1")),
                ("target_url", jstr("https://studio.apollographql.com/checks/1")),
                ("success", Json::Bool(true)),
            ]),
        ),
        ("error", Json::Null),
    ]);
    assert_json_eq(expected, actual);
}

#[test]
fn composition_result_json_with_and_without_version() {
    let with_version = rendered(Ok(RoverOutput::CompositionResult(CompositionOutput {
        supergraph_sdl: s("sdl"),
        hints: vec![BuildHint { message: s("consider renaming") }],
        federation_version: Some(s("2.1")),
    })));
    let expected_with = obj(vec![
        ("json_version", jstr("1")),
        (
            "data",
            obj(vec![
                ("core_schema", jstr("sdl")),
                (
                    "hints",
                    Json::Arr(vec![obj(vec![("message", jstr("consider renaming"))])]),
                ),
                ("federation_version", jstr("2.1")),
                ("success", Json::Bool(true)),
            ]),
        ),
        ("error", Json::Null),
    ]);
    assert_json_eq(expected_with, with_version);

    let without_version = rendered(Ok(RoverOutput::CompositionResult(CompositionOutput {
        supergraph_sdl: s("sdl"),
        hints: Vec::new(),
        federation_version: None,
    })));
    let expected_without = obj(vec![
        ("json_version", jstr("1")),
        (
            "data",
            obj(vec![
                ("core_schema", jstr("sdl")),
                ("hints", Json::Arr(Vec::new())),
                ("success", Json::Bool(true)),
            ]),
        ),
        ("error", Json::Null),
    ]);
    assert_json_eq(expected_without, without_version);
}

#[test]
fn readme_fetch_json() {
    let actual = rendered(Ok(RoverOutput::ReadmeFetchResponse {
        graph_ref: graph_ref("g", "current"),
        content: s("# readme"),
        last_updated_time: None,
    }));
    let expected = obj(vec![
        ("json_version", jstr("1")),
        (
            "data",
            obj(vec![
                ("readme", jstr("# readme")),
                ("last_updated_time", Json::Null),
                ("success", Json::Bool(true)),
            ]),
        ),
        ("error", Json::Null),
    ]);
    assert_json_eq(expected, actual);
}
