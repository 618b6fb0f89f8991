use relay_lsp::artifacts::{Programs, Schema};
use relay_lsp::compiler_state::{CompilerState, FileChange};
use relay_lsp::config::{Config, ProjectConfig};
use relay_lsp::errors::{BuildProjectError, CompilerError, SyntaxError};
use relay_lsp::lsp_compiler::{
    classify_error, completion_response_for_items, BridgeAction, CheckCycleInput,
    CompletionItem, DiagnosticAction, LSPBridgeMessage, LSPCompiler, ProjectBuild,
};
use relay_lsp::server_state::Diagnostic;

const PROJECT_X: u64 = 1;
const PROJECT_Y: u64 = 2;

fn two_project_config(only_project: Option<u64>) -> Config {
    Config {
        projects: vec![
            ProjectConfig { name: PROJECT_X },
            ProjectConfig { name: PROJECT_Y },
        ],
        only_project,
        completion_project: PROJECT_X,
    }
}

fn compiler(only_project: Option<u64>) -> LSPCompiler {
    let config = two_project_config(only_project);
    assert!(config.check_well_formed());
    let schemas = LSPCompiler::build_schemas(
        &config,
        vec![Schema { token: 11 }, Schema { token: 12 }],
    );
    LSPCompiler::new(config, schemas, CompilerState::new())
}

fn ok_build(project: u64, token: u64) -> ProjectBuild {
    ProjectBuild {
        project,
        result: Ok(Programs { token }),
    }
}

fn failed_build(project: u64, detail: u64) -> ProjectBuild {
    ProjectBuild {
        project,
        result: Err(BuildProjectError { project, detail }),
    }
}

#[test]
fn build_schemas_covers_every_configured_project() {
    let config = two_project_config(None);
    let schemas = LSPCompiler::build_schemas(
        &config,
        vec![Schema { token: 11 }, Schema { token: 12 }],
    );
    assert_eq!(schemas.get(&PROJECT_X), Some(&Schema { token: 11 }));
    assert_eq!(schemas.get(&PROJECT_Y), Some(&Schema { token: 12 }));
    assert_eq!(schemas.len(), 2);
}

#[test]
fn config_validation_rejects_duplicates_and_unconfigured_projects() {
    let duplicated = Config {
        projects: vec![ProjectConfig { name: 1 }, ProjectConfig { name: 1 }],
        only_project: None,
        completion_project: 1,
    };
    assert!(!duplicated.check_well_formed());
    let unconfigured_only = Config {
        projects: vec![ProjectConfig { name: 1 }],
        only_project: Some(2),
        completion_project: 1,
    };
    assert!(!unconfigured_only.check_well_formed());
    let unconfigured_completion = Config {
        projects: vec![ProjectConfig { name: 1 }],
        only_project: None,
        completion_project: 3,
    };
    assert!(!unconfigured_completion.check_well_formed());
}

#[test]
fn ingestion_reports_new_changes_once() {
    let mut compiler = compiler(None);
    let change = FileChange {
        project: PROJECT_X,
        path: 100,
    };
    let had_new = compiler
        .compiler_state
        .add_pending_file_source_changes(&compiler.config, &vec![change]);
    assert!(had_new);
    let had_new_again = compiler
        .compiler_state
        .add_pending_file_source_changes(&compiler.config, &vec![change]);
    assert!(!had_new_again);
    assert!(compiler.compiler_state.project_has_pending_changes(PROJECT_X));
    assert!(!compiler.compiler_state.project_has_pending_changes(PROJECT_Y));
}

// Under a single-project restriction on X, a change that touches only Y
// records nothing, so no check cycle starts and no cached artifact moves.
#[test]
fn single_project_mode_ignores_changes_of_other_projects() {
    let mut compiler = compiler(Some(PROJECT_X));
    let change = FileChange {
        project: PROJECT_Y,
        path: 200,
    };
    let had_new = compiler
        .compiler_state
        .add_pending_file_source_changes(&compiler.config, &vec![change]);
    assert!(!had_new);
    assert!(!compiler.compiler_state.project_has_pending_changes(PROJECT_Y));
    assert!(compiler.project_programs.is_empty());
}

#[test]
fn single_project_mode_always_checks_the_configured_project() {
    let mut compiler = compiler(Some(PROJECT_X));
    let change = FileChange {
        project: PROJECT_X,
        path: 300,
    };
    compiler
        .compiler_state
        .add_pending_file_source_changes(&compiler.config, &vec![change]);
    assert_eq!(compiler.projects_to_check(), vec![PROJECT_X]);
}

// Two projects, no restriction, a change under X's root only: the cycle
// builds X only, adopts X's artifact, clears diagnostics, and leaves Y
// absent.
#[test]
fn all_projects_cycle_builds_only_the_changed_project() {
    let mut compiler = compiler(None);
    let change = FileChange {
        project: PROJECT_X,
        path: 100,
    };
    let had_new = compiler
        .compiler_state
        .add_pending_file_source_changes(&compiler.config, &vec![change]);
    assert!(had_new);
    let to_check = compiler.projects_to_check();
    assert_eq!(to_check, vec![PROJECT_X]);
    let action = compiler.check_projects_and_report_errors(CheckCycleInput::Builds {
        builds: vec![ok_build(PROJECT_X, 41)],
    });
    assert!(matches!(action, DiagnosticAction::ClearDiagnostics));
    assert_eq!(
        compiler.project_programs.get(&PROJECT_X),
        Some(&Programs { token: 41 })
    );
    assert_eq!(compiler.project_programs.get(&PROJECT_Y), None);
    assert!(compiler.server_state.diagnostics().is_empty());
    assert!(!compiler.compiler_state.project_has_pending_changes(PROJECT_X));
}

// A later cycle that rebuilds only Y leaves X's cached artifact
// bit-for-bit unchanged.
#[test]
fn all_projects_cycle_leaves_unchanged_projects_untouched() {
    let mut compiler = compiler(None);
    compiler.compiler_state.add_pending_file_source_changes(
        &compiler.config,
        &vec![FileChange {
            project: PROJECT_X,
            path: 100,
        }],
    );
    compiler.check_projects_and_report_errors(CheckCycleInput::Builds {
        builds: vec![ok_build(PROJECT_X, 41)],
    });
    compiler.compiler_state.add_pending_file_source_changes(
        &compiler.config,
        &vec![FileChange {
            project: PROJECT_Y,
            path: 200,
        }],
    );
    let to_check = compiler.projects_to_check();
    assert_eq!(to_check, vec![PROJECT_Y]);
    let action = compiler.check_projects_and_report_errors(CheckCycleInput::Builds {
        builds: vec![ok_build(PROJECT_Y, 52)],
    });
    assert!(matches!(action, DiagnosticAction::ClearDiagnostics));
    assert_eq!(
        compiler.project_programs.get(&PROJECT_X),
        Some(&Programs { token: 41 })
    );
    assert_eq!(
        compiler.project_programs.get(&PROJECT_Y),
        Some(&Programs { token: 52 })
    );
    assert!(compiler.server_state.diagnostics().is_empty());
}

// The shared parse fails: the cycle reports a syntax-class error for the
// whole cycle, no cache entry moves, and the diagnostics show the syntax
// error locations.
#[test]
fn parse_failure_fails_the_whole_cycle() {
    let mut compiler = compiler(None);
    compiler.compiler_state.add_pending_file_source_changes(
        &compiler.config,
        &vec![FileChange {
            project: PROJECT_X,
            path: 100,
        }],
    );
    let error = SyntaxError {
        file: 700,
        detail: 3,
    };
    let action = compiler.check_projects_and_report_errors(CheckCycleInput::SyntaxFailure {
        errors: vec![error],
    });
    match action {
        DiagnosticAction::PublishSyntaxDiagnostics { errors } => {
            assert_eq!(errors, vec![error]);
        }
        _ => panic!("expected syntax diagnostics"),
    }
    assert!(compiler.project_programs.is_empty());
    assert_eq!(
        compiler.server_state.diagnostics(),
        &vec![Diagnostic::Syntax {
            file: 700,
            detail: 3
        }]
    );
    assert!(compiler.compiler_state.project_has_pending_changes(PROJECT_X));
}

// A cycle that fails for X and succeeds for Y adopts neither artifact,
// keeps X's prior artifact, and publishes X's failure, not Y's success.
#[test]
fn failed_cycle_adopts_nothing_and_keeps_stale_artifacts() {
    let mut compiler = compiler(None);
    compiler.compiler_state.add_pending_file_source_changes(
        &compiler.config,
        &vec![FileChange {
            project: PROJECT_X,
            path: 100,
        }],
    );
    compiler.check_projects_and_report_errors(CheckCycleInput::Builds {
        builds: vec![ok_build(PROJECT_X, 41)],
    });
    compiler.compiler_state.add_pending_file_source_changes(
        &compiler.config,
        &vec![
            FileChange {
                project: PROJECT_X,
                path: 101,
            },
            FileChange {
                project: PROJECT_Y,
                path: 201,
            },
        ],
    );
    assert_eq!(compiler.projects_to_check(), vec![PROJECT_X, PROJECT_Y]);
    let action = compiler.check_projects_and_report_errors(CheckCycleInput::Builds {
        builds: vec![failed_build(PROJECT_X, 9), ok_build(PROJECT_Y, 52)],
    });
    match action {
        DiagnosticAction::PublishBuildDiagnostics { errors } => {
            assert_eq!(
                errors,
                vec![BuildProjectError {
                    project: PROJECT_X,
                    detail: 9
                }]
            );
        }
        _ => panic!("expected build diagnostics"),
    }
    assert_eq!(
        compiler.project_programs.get(&PROJECT_X),
        Some(&Programs { token: 41 })
    );
    assert_eq!(compiler.project_programs.get(&PROJECT_Y), None);
    assert_eq!(
        compiler.server_state.diagnostics(),
        &vec![Diagnostic::Build {
            project: PROJECT_X,
            detail: 9
        }]
    );
    assert!(compiler.compiler_state.project_has_pending_changes(PROJECT_X));
    assert!(compiler.compiler_state.project_has_pending_changes(PROJECT_Y));
}

#[test]
fn classify_error_discards_every_other_kind() {
    let discarded = vec![
        CompilerError::ConfigFileRead,
        CompilerError::ConfigFileParse,
        CompilerError::ConfigFileValidation,
        CompilerError::ReadFileError,
        CompilerError::WriteFileError,
        CompilerError::SerializationError,
        CompilerError::DeserializationError,
        CompilerError::CanonicalizeRoot,
        CompilerError::Watchman,
        CompilerError::EmptyQueryResult,
        CompilerError::FileRead,
        CompilerError::Syntax,
    ];
    for error in discarded {
        assert!(matches!(classify_error(error), DiagnosticAction::NoPublish));
    }
    assert!(matches!(
        classify_error(CompilerError::SyntaxErrors { errors: vec![] }),
        DiagnosticAction::PublishSyntaxDiagnostics { .. }
    ));
    assert!(matches!(
        classify_error(CompilerError::BuildProjectsErrors { errors: vec![] }),
        DiagnosticAction::PublishBuildDiagnostics { .. }
    ));
}

// With no prior successful build, a completion request yields no action
// at all, not an error.
#[test]
fn completion_without_prior_build_is_silent() {
    let mut compiler = compiler(None);
    let action = compiler.on_lsp_bridge_message(LSPBridgeMessage::DidOpenTextDocument {
        uri: 10,
        text: "query { a }".to_string(),
    });
    assert!(matches!(action, BridgeAction::NoResponse));
    let action = compiler.on_lsp_bridge_message(LSPBridgeMessage::CompletionRequest {
        request_id: 7,
        uri: 10,
        position: 11,
    });
    assert!(matches!(action, BridgeAction::NoResponse));
}

// Opening and then closing a document leaves the cache without it; a
// completion request afterwards behaves as if it had never been opened.
#[test]
fn open_then_close_forgets_the_document() {
    let mut compiler = compiler(None);
    compiler.compiler_state.add_pending_file_source_changes(
        &compiler.config,
        &vec![FileChange {
            project: PROJECT_X,
            path: 100,
        }],
    );
    compiler.check_projects_and_report_errors(CheckCycleInput::Builds {
        builds: vec![ok_build(PROJECT_X, 41)],
    });
    compiler.on_lsp_bridge_message(LSPBridgeMessage::DidOpenTextDocument {
        uri: 10,
        text: "query { a }".to_string(),
    });
    compiler.on_lsp_bridge_message(LSPBridgeMessage::DidCloseTextDocument { uri: 10 });
    assert!(compiler.synced_graphql_documents.is_empty());
    let action = compiler.on_lsp_bridge_message(LSPBridgeMessage::CompletionRequest {
        request_id: 7,
        uri: 10,
        position: 11,
    });
    assert!(matches!(action, BridgeAction::NoResponse));
}

// With a synced document and a prior successful build, the completion
// request reaches the engine, and a non-empty candidate list is answered
// under the request's identifier.
#[test]
fn completion_with_prior_build_answers_under_the_request_id() {
    let mut compiler = compiler(None);
    compiler.compiler_state.add_pending_file_source_changes(
        &compiler.config,
        &vec![FileChange {
            project: PROJECT_X,
            path: 100,
        }],
    );
    compiler.check_projects_and_report_errors(CheckCycleInput::Builds {
        builds: vec![ok_build(PROJECT_X, 41)],
    });
    let text = "query { user { ".to_string();
    compiler.on_lsp_bridge_message(LSPBridgeMessage::DidOpenTextDocument {
        uri: 10,
        text: text.clone(),
    });
    let action = compiler.on_lsp_bridge_message(LSPBridgeMessage::CompletionRequest {
        request_id: 7,
        uri: 10,
        position: 15,
    });
    match action {
        BridgeAction::RunCompletion {
            request_id,
            project,
            schema,
            programs,
            text: synced,
            position,
        } => {
            assert_eq!(request_id, 7);
            assert_eq!(project, PROJECT_X);
            assert_eq!(schema, Schema { token: 11 });
            assert_eq!(programs, Programs { token: 41 });
            assert_eq!(synced, text);
            assert_eq!(position, 15);
            let items = vec![CompletionItem { label: 77 }];
            let response = completion_response_for_items(request_id, Some(items.clone()))
                .expect("a non-empty candidate list must be answered");
            assert_eq!(response.request_id, 7);
            assert_eq!(response.items, items);
        }
        BridgeAction::NoResponse => panic!("expected a completion run"),
    }
}

#[test]
fn empty_or_absent_candidate_sets_yield_no_response() {
    assert!(completion_response_for_items(7, None).is_none());
    assert!(completion_response_for_items(7, Some(vec![])).is_none());
}

// A rapid interleaving of document sync, completion and whole check
// cycles, handled one at a time: after every step the cache and the
// diagnostics agree with the last completed cycle.
#[test]
fn interleaved_events_keep_cache_and_diagnostics_consistent() {
    let mut compiler = compiler(None);
    compiler.on_lsp_bridge_message(LSPBridgeMessage::DidOpenTextDocument {
        uri: 10,
        text: "query { a }".to_string(),
    });
    compiler.compiler_state.add_pending_file_source_changes(
        &compiler.config,
        &vec![FileChange {
            project: PROJECT_X,
            path: 100,
        }],
    );
    let action = compiler.check_projects_and_report_errors(CheckCycleInput::Builds {
        builds: vec![ok_build(PROJECT_X, 41)],
    });
    assert!(matches!(action, DiagnosticAction::ClearDiagnostics));
    let action = compiler.on_lsp_bridge_message(LSPBridgeMessage::CompletionRequest {
        request_id: 1,
        uri: 10,
        position: 2,
    });
    assert!(matches!(action, BridgeAction::RunCompletion { .. }));
    compiler.compiler_state.add_pending_file_source_changes(
        &compiler.config,
        &vec![FileChange {
            project: PROJECT_X,
            path: 101,
        }],
    );
    let action = compiler.check_projects_and_report_errors(CheckCycleInput::Builds {
        builds: vec![failed_build(PROJECT_X, 9)],
    });
    assert!(matches!(
        action,
        DiagnosticAction::PublishBuildDiagnostics { .. }
    ));
    assert_eq!(
        compiler.project_programs.get(&PROJECT_X),
        Some(&Programs { token: 41 })
    );
    let action = compiler.on_lsp_bridge_message(LSPBridgeMessage::CompletionRequest {
        request_id: 2,
        uri: 10,
        position: 2,
    });
    match action {
        BridgeAction::RunCompletion { programs, .. } => {
            assert_eq!(programs, Programs { token: 41 });
        }
        BridgeAction::NoResponse => panic!("the stale artifact must still serve completion"),
    }
}
