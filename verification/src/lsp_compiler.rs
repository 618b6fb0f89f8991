//! The incremental orchestrator. It owns all mutable per-process state —
//! compiler state, per-project artifact cache, synced documents, published
//! diagnostics — and decides, for every event the loop hands it, which
//! projects to rebuild, what to adopt into the cache, and what to publish
//! or answer. The asynchronous loop around it performs the suspending work
//! (watching for changes, parsing, building, resolving completion items)
//! and feeds each result back in as a plain value.

use std::collections::HashMap;

use vstd::prelude::*;

use crate::artifacts::{Programs, Schema};
use crate::compiler_state::{
    has_pending, without_projects, CompilerState, FileChange,
};
use crate::config::{Config, ProjectName};
use crate::errors::{BuildProjectError, CompilerError, SyntaxError};
use crate::server_state::{build_diagnostics, syntax_diagnostics, ServerState};
use crate::text_documents::{
    on_did_change_text_document, on_did_close_text_document, on_did_open_text_document,
    DocumentUri, GraphQLSourceCache,
};

verus! {

broadcast use vstd::std_specs::hash::group_hash_axioms;

/// The schema of every configured project, built once at startup.
pub type SchemaMap = HashMap<ProjectName, Schema>;

/// One editor-originated request.
pub enum LSPBridgeMessage {
    CompletionRequest { request_id: u64, uri: DocumentUri, position: u64 },
    DidOpenTextDocument { uri: DocumentUri, text: String },
    DidChangeTextDocument { uri: DocumentUri, text: String },
    DidCloseTextDocument { uri: DocumentUri },
}

/// One completion candidate.
#[derive(Clone, Copy, PartialEq, Eq, Structural, Debug)]
pub struct CompletionItem {
    pub label: u64,
}

/// A completion answer, correlated to its request.
#[derive(Debug)]
pub struct CompletionResponse {
    pub request_id: u64,
    pub items: Vec<CompletionItem>,
}

/// What the loop must do after a bridge message was handled: nothing, or
/// run the completion engine over the document text and the project's
/// schema and cached artifacts.
pub enum BridgeAction {
    NoResponse,
    RunCompletion {
        request_id: u64,
        project: ProjectName,
        schema: Schema,
        programs: Programs,
        text: String,
        position: u64,
    },
}

/// The outcome the loop observed for one project's build.
#[derive(Clone, Copy, Debug)]
pub struct ProjectBuild {
    pub project: ProjectName,
    pub result: Result<Programs, BuildProjectError>,
}

/// What the external pipeline handed back for one check cycle: either the
/// shared parse of all pending sources failed, cycle-wide and before any
/// build, or each decided project was built and reported its outcome.
pub enum CheckCycleInput {
    SyntaxFailure { errors: Vec<SyntaxError> },
    Builds { builds: Vec<ProjectBuild> },
}

/// What a cycle result obliges the loop to publish.
pub enum DiagnosticAction {
    ClearDiagnostics,
    PublishSyntaxDiagnostics { errors: Vec<SyntaxError> },
    PublishBuildDiagnostics { errors: Vec<BuildProjectError> },
    NoPublish,
}

/// The predicate "this project has pending changes", as one value, so that
/// every filter over it speaks of the same function.
pub open spec fn pending_pred(pending: Set<FileChange>) -> spec_fn(ProjectName) -> bool {
    |p: ProjectName| has_pending(pending, p)
}

/// The projects a cycle must build: under a single-project restriction
/// exactly that project, otherwise every configured project with pending
/// changes, in configuration order.
pub open spec fn projects_to_check_spec(
    config: Config,
    pending: Set<FileChange>,
) -> Seq<ProjectName> {
    match config.only_project {
        Some(only) => seq![only],
        None => config.project_names().filter(pending_pred(pending)),
    }
}

/// The projects of a cycle's build outcomes, in order.
pub open spec fn build_project_names(builds: Seq<ProjectBuild>) -> Seq<ProjectName> {
    builds.map_values(|b: ProjectBuild| b.project)
}

/// Whether every build of the cycle succeeded.
pub open spec fn builds_all_ok(builds: Seq<ProjectBuild>) -> bool {
    forall|i: int| 0 <= i < builds.len() ==> builds[i].result is Ok
}

/// The per-project failures of a cycle, in build order.
pub open spec fn build_errors(builds: Seq<ProjectBuild>) -> Seq<BuildProjectError>
    decreases builds.len(),
{
    if builds.len() == 0 {
        Seq::empty()
    } else {
        let rest = build_errors(builds.drop_last());
        match builds.last().result {
            Ok(_) => rest,
            Err(e) => rest.push(e),
        }
    }
}

/// The artifact cache after adopting a cycle's successful builds: each
/// built project's entry replaced, every other project's entry untouched.
pub open spec fn merged_programs(
    programs: Map<ProjectName, Programs>,
    builds: Seq<ProjectBuild>,
) -> Map<ProjectName, Programs>
    decreases builds.len(),
{
    if builds.len() == 0 {
        programs
    } else {
        let rest = merged_programs(programs, builds.drop_last());
        match builds.last().result {
            Ok(p) => rest.insert(builds.last().project, p),
            Err(_) => rest,
        }
    }
}

/// A cycle has no failures exactly when it collects no failure.
pub proof fn lemma_build_errors_all_ok(builds: Seq<ProjectBuild>)
    ensures
        builds_all_ok(builds) <==> build_errors(builds).len() == 0,
    decreases builds.len(),
{
    if builds.len() > 0 {
        lemma_build_errors_all_ok(builds.drop_last());
        if builds_all_ok(builds) {
            assert(forall|i: int|
                0 <= i < builds.drop_last().len() ==> builds.drop_last()[i] == builds[i]);
        } else {
            if builds_all_ok(builds.drop_last()) {
                assert(exists|i: int| 0 <= i < builds.len() && !(builds[i].result is Ok));
                let i = choose|i: int| 0 <= i < builds.len() && !(builds[i].result is Ok);
                if i < builds.len() - 1 {
                    assert(builds.drop_last()[i].result is Ok);
                    assert(false);
                }
                assert(builds[builds.len() - 1].result is Err);
            }
        }
    }
}

/// The collected failures are exactly the failures among the outcomes: a
/// failed cycle's diagnostics name the projects that failed, never one
/// that succeeded.
pub proof fn lemma_build_errors_membership(builds: Seq<ProjectBuild>, e: BuildProjectError)
    ensures
        build_errors(builds).contains(e) <==> exists|i: int|
            0 <= i < builds.len() && builds[i].result == Err::<Programs, BuildProjectError>(e),
    decreases builds.len(),
{
    if builds.len() > 0 {
        let rest = builds.drop_last();
        let errs = build_errors(builds);
        let rest_errs = build_errors(rest);
        lemma_build_errors_membership(rest, e);
        let n = builds.len() - 1;
        if errs.contains(e) {
            if builds[n].result != Err::<Programs, BuildProjectError>(e) {
                assert(rest_errs.contains(e)) by {
                    let k = choose|k: int| 0 <= k < errs.len() && errs[k] == e;
                    match builds.last().result {
                        Ok(_) => {
                            assert(rest_errs[k] == e);
                        },
                        Err(e2) => {
                            assert(e2 != e);
                            assert(k < rest_errs.len());
                            assert(rest_errs[k] == e);
                        },
                    }
                }
                let i = choose|i: int|
                    0 <= i < rest.len() && rest[i].result == Err::<Programs, BuildProjectError>(
                        e,
                    );
                assert(builds[i].result == Err::<Programs, BuildProjectError>(e));
            }
        }
        if exists|i: int|
            0 <= i < builds.len() && builds[i].result == Err::<Programs, BuildProjectError>(e) {
            let i = choose|i: int|
                0 <= i < builds.len() && builds[i].result == Err::<Programs, BuildProjectError>(
                    e,
                );
            if i < n {
                assert(rest[i].result == Err::<Programs, BuildProjectError>(e));
                assert(rest_errs.contains(e));
                let k = choose|k: int| 0 <= k < rest_errs.len() && rest_errs[k] == e;
                assert(errs[k] == e);
                assert(errs.contains(e));
            } else {
                assert(builds.last().result == Err::<Programs, BuildProjectError>(e));
                assert(errs[errs.len() - 1] == e);
                assert(errs.contains(e));
            }
        }
    }
}

/// Adopting a cycle's builds leaves every project the cycle did not build
/// exactly as it was.
pub proof fn lemma_merged_programs_preserves_unattempted(
    programs: Map<ProjectName, Programs>,
    builds: Seq<ProjectBuild>,
    project: ProjectName,
)
    requires
        forall|i: int| 0 <= i < builds.len() ==> builds[i].project != project,
    ensures
        merged_programs(programs, builds).contains_key(project) == programs.contains_key(
            project,
        ),
        programs.contains_key(project) ==> merged_programs(programs, builds)[project]
            == programs[project],
    decreases builds.len(),
{
    if builds.len() > 0 {
        assert(forall|i: int|
            0 <= i < builds.drop_last().len() ==> builds.drop_last()[i] == builds[i]);
        lemma_merged_programs_preserves_unattempted(programs, builds.drop_last(), project);
        assert(builds[builds.len() - 1].project != project);
    }
}

/// Without a single-project restriction a cycle builds only projects with
/// pending changes; a project whose files no change touched is not built,
/// and adopting the cycle's results leaves its cached artifact bit-for-bit
/// unchanged.
pub proof fn lemma_unchanged_project_not_rebuilt(
    config: Config,
    pending: Set<FileChange>,
    programs: Map<ProjectName, Programs>,
    builds: Seq<ProjectBuild>,
    project: ProjectName,
)
    requires
        config.only_project is None,
        !has_pending(pending, project),
        build_project_names(builds) == projects_to_check_spec(config, pending),
    ensures
        !projects_to_check_spec(config, pending).contains(project),
        merged_programs(programs, builds).contains_key(project) == programs.contains_key(
            project,
        ),
        programs.contains_key(project) ==> merged_programs(programs, builds)[project]
            == programs[project],
{
    let to_check = projects_to_check_spec(config, pending);
    assert forall|i: int| 0 <= i < to_check.len() implies to_check[i] != project by {
        broadcast use vstd::seq_lib::group_filter_ensures;

        assert(pending_pred(pending)(to_check[i]));
        assert(has_pending(pending, to_check[i]));
    }
    assert(!to_check.contains(project));
    assert forall|i: int| 0 <= i < builds.len() implies builds[i].project != project by {
        assert(build_project_names(builds)[i] == builds[i].project);
    }
    lemma_merged_programs_preserves_unattempted(programs, builds, project);
}

/// The incremental orchestrator: every piece of mutable state, and the
/// decisions of the event loop.
pub struct LSPCompiler {
    pub config: Config,
    pub schemas: SchemaMap,
    pub compiler_state: CompilerState,
    pub synced_graphql_documents: GraphQLSourceCache,
    pub server_state: ServerState,
    pub project_programs: HashMap<ProjectName, Programs>,
}

impl LSPCompiler {
    /// A well-wired orchestrator: the configuration is valid, the pending
    /// state holds no duplicates, and every configured project has a
    /// schema.
    pub open spec fn wf(&self) -> bool {
        &&& self.config.wf()
        &&& self.compiler_state.wf()
        &&& forall|p: ProjectName|
            #[trigger] self.config.is_configured(p) ==> self.schemas@.contains_key(p)
    }

    /// Wires the orchestrator up from the startup pieces: nothing is
    /// synced, nothing is built, nothing is published.
    pub fn new(
        config: Config,
        schemas: SchemaMap,
        compiler_state: CompilerState,
    ) -> (compiler: LSPCompiler)
        requires
            config.wf(),
            compiler_state.wf(),
            forall|p: ProjectName|
                #[trigger] config.is_configured(p) ==> schemas@.contains_key(p),
        ensures
            compiler.wf(),
            compiler.config == config,
            compiler.schemas == schemas,
            compiler.compiler_state == compiler_state,
            compiler.synced_graphql_documents@ == Map::<DocumentUri, String>::empty(),
            compiler.server_state@ == Seq::<crate::server_state::Diagnostic>::empty(),
            compiler.project_programs@ == Map::<ProjectName, Programs>::empty(),
    {
        LSPCompiler {
            config,
            schemas,
            compiler_state,
            synced_graphql_documents: HashMap::new(),
            server_state: ServerState::new(),
            project_programs: HashMap::new(),
        }
    }

    /// Builds the schema map at startup: one schema per configured
    /// project, in configuration order, so that every configured project
    /// has a schema for the orchestrator's whole lifetime.
    pub fn build_schemas(config: &Config, built: Vec<Schema>) -> (schemas: SchemaMap)
        requires
            config.wf(),
            built@.len() == config.projects@.len(),
        ensures
            forall|i: int|
                0 <= i < config.projects@.len() ==> schemas@.contains_key(
                    #[trigger] config.project_names()[i],
                ) && schemas@[config.project_names()[i]] == built@[i],
            forall|p: ProjectName|
                #[trigger] schemas@.contains_key(p) ==> config.is_configured(p),
    {
        let mut schemas: SchemaMap = HashMap::new();
        let mut i: usize = 0;
        while i < config.projects.len()
            invariant
                0 <= i <= config.projects.len(),
                config.wf(),
                built@.len() == config.projects@.len(),
                forall|j: int|
                    0 <= j < i ==> schemas@.contains_key(#[trigger] config.project_names()[j])
                        && schemas@[config.project_names()[j]] == built@[j],
                forall|p: ProjectName|
                    #[trigger] schemas@.contains_key(p) ==> config.is_configured(p),
            decreases config.projects.len() - i,
        {
            schemas.insert(config.projects[i].name, built[i]);
            proof {
                assert(config.project_names()[i as int] == config.projects@[i as int].name);
                assert(config.is_configured(config.project_names()[i as int]));
                assert forall|j: int| 0 <= j < i + 1 implies schemas@.contains_key(
                    #[trigger] config.project_names()[j],
                ) && schemas@[config.project_names()[j]] == built@[j] by {
                    if j < i {
                        assert(config.project_names()[j] != config.project_names()[i as int]);
                    }
                }
            }
            i += 1;
        }
        schemas
    }

    /// The projects this cycle must build (see [`projects_to_check_spec`]).
    pub fn projects_to_check(&self) -> (projects: Vec<ProjectName>)
        requires
            self.wf(),
        ensures
            projects@ == projects_to_check_spec(self.config, self.compiler_state@),
    {
        match self.config.only_project {
            Some(only) => {
                let mut projects: Vec<ProjectName> = Vec::new();
                projects.push(only);
                proof {
                    assert(projects@ =~= seq![only]);
                }
                projects
            },
            None => {
                let mut projects: Vec<ProjectName> = Vec::new();
                let mut i: usize = 0;
                let ghost pred = pending_pred(self.compiler_state@);
                proof {
                    assert(projects@ =~= self.config.project_names().take(0).filter(pred));
                }
                while i < self.config.projects.len()
                    invariant
                        0 <= i <= self.config.projects.len(),
                        self.wf(),
                        projects@ == self.config.project_names().take(i as int).filter(pred),
                        pred == pending_pred(self.compiler_state@),
                    decreases self.config.projects.len() - i,
                {
                    let ghost prefix = self.config.project_names().take(i as int);
                    let ghost next = self.config.project_names().take(i as int + 1);
                    proof {
                        assert(next.drop_last() =~= prefix);
                        assert(next.last() == self.config.project_names()[i as int]);
                        assert(next.last() == self.config.projects@[i as int].name);
                    }
                    if self.compiler_state.project_has_pending_changes(
                        self.config.projects[i].name,
                    ) {
                        projects.push(self.config.projects[i].name);
                        proof {
                            reveal_with_fuel(Seq::<_>::filter, 2);
                            assert(pred(next.last()));
                            assert(next.filter(pred) == prefix.filter(pred).push(next.last()));
                            assert(projects@ =~= next.filter(pred));
                        }
                    } else {
                        proof {
                            reveal_with_fuel(Seq::<_>::filter, 2);
                            assert(!pred(next.last()));
                            assert(next.filter(pred) == prefix.filter(pred));
                        }
                    }
                    i += 1;
                }
                proof {
                    assert(self.config.project_names().take(
                        self.config.project_names().len() as int,
                    ) =~= self.config.project_names());
                }
                projects
            },
        }
    }

    /// Applies one check cycle's outcome. A failed shared parse fails the
    /// whole cycle as a syntax-class error and touches nothing. If every
    /// built project succeeded, the new artifacts are adopted — projects
    /// not built this cycle keep their prior entries — and the built
    /// projects' pending changes are consumed. If any project failed, the
    /// cycle fails as a build-class error carrying exactly the failures,
    /// and neither the artifact cache nor the pending state moves.
    pub fn check_projects(&mut self, input: CheckCycleInput) -> (outcome: Result<
        (),
        CompilerError,
    >)
        requires
            old(self).wf(),
            input matches CheckCycleInput::Builds { builds } ==> build_project_names(builds@)
                == projects_to_check_spec(old(self).config, old(self).compiler_state@),
        ensures
            final(self).wf(),
            final(self).config == old(self).config,
            final(self).schemas == old(self).schemas,
            final(self).synced_graphql_documents == old(self).synced_graphql_documents,
            final(self).server_state == old(self).server_state,
            match input {
                CheckCycleInput::SyntaxFailure { errors } => {
                    &&& outcome matches Err(CompilerError::SyntaxErrors { errors: e }) && e@
                        == errors@
                    &&& final(self).project_programs@ == old(self).project_programs@
                    &&& final(self).compiler_state@ == old(self).compiler_state@
                },
                CheckCycleInput::Builds { builds } => {
                    if builds_all_ok(builds@) {
                        &&& outcome is Ok
                        &&& final(self).project_programs@ == merged_programs(
                            old(self).project_programs@,
                            builds@,
                        )
                        &&& final(self).compiler_state@ == without_projects(
                            old(self).compiler_state@,
                            build_project_names(builds@),
                        )
                    } else {
                        &&& outcome matches Err(CompilerError::BuildProjectsErrors {
                            errors: e,
                        }) && e@ == build_errors(builds@)
                        &&& final(self).project_programs@ == old(self).project_programs@
                        &&& final(self).compiler_state@ == old(self).compiler_state@
                    }
                },
            },
    {
        match input {
            CheckCycleInput::SyntaxFailure { errors } => {
                Err(CompilerError::SyntaxErrors { errors })
            },
            CheckCycleInput::Builds { builds } => {
                let mut check_project_errors: Vec<BuildProjectError> = Vec::new();
                let mut i: usize = 0;
                while i < builds.len()
                    invariant
                        0 <= i <= builds.len(),
                        check_project_errors@ == build_errors(builds@.take(i as int)),
                    decreases builds.len() - i,
                {
                    let ghost prefix = builds@.take(i as int);
                    let ghost next = builds@.take(i as int + 1);
                    proof {
                        assert(next.drop_last() =~= prefix);
                        assert(next.last() == builds@[i as int]);
                    }
                    match builds[i].result {
                        Ok(_) => {},
                        Err(e) => {
                            check_project_errors.push(e);
                        },
                    }
                    i += 1;
                }
                proof {
                    assert(builds@.take(builds@.len() as int) =~= builds@);
                    lemma_build_errors_all_ok(builds@);
                }
                if check_project_errors.len() == 0 {
                    let mut names: Vec<ProjectName> = Vec::new();
                    let mut j: usize = 0;
                    while j < builds.len()
                        invariant
                            0 <= j <= builds.len(),
                            builds_all_ok(builds@),
                            names@ == build_project_names(builds@.take(j as int)),
                            self.project_programs@ == merged_programs(
                                old(self).project_programs@,
                                builds@.take(j as int),
                            ),
                            self.config == old(self).config,
                            self.schemas == old(self).schemas,
                            self.compiler_state == old(self).compiler_state,
                            self.synced_graphql_documents == old(
                                self,
                            ).synced_graphql_documents,
                            self.server_state == old(self).server_state,
                        decreases builds.len() - j,
                    {
                        let ghost prefix = builds@.take(j as int);
                        let ghost next = builds@.take(j as int + 1);
                        proof {
                            assert(next.drop_last() =~= prefix);
                            assert(next.last() == builds@[j as int]);
                        }
                        match builds[j].result {
                            Ok(programs) => {
                                self.project_programs.insert(builds[j].project, programs);
                                proof {
                                    assert(self.project_programs@ =~= merged_programs(
                                        old(self).project_programs@,
                                        next,
                                    ));
                                }
                            },
                            Err(_) => {
                                proof {
                                    assert(false);
                                }
                            },
                        }
                        names.push(builds[j].project);
                        proof {
                            assert(names@ =~= build_project_names(next));
                        }
                        j += 1;
                    }
                    proof {
                        assert(builds@.take(builds@.len() as int) =~= builds@);
                    }
                    self.compiler_state.remove_pending_projects(&names);
                    Ok(())
                } else {
                    Err(CompilerError::BuildProjectsErrors { errors: check_project_errors })
                }
            },
        }
    }
}

/// Classifies a cycle error into its editor-visible consequence. Only
/// syntax-class and build-class errors are published; every other kind is
/// named here and deliberately discarded, so that a new kind cannot slip
/// through without an explicit decision.
pub fn classify_error(error: CompilerError) -> (action: DiagnosticAction)
    ensures
        match error {
            CompilerError::SyntaxErrors { errors } => action
                matches DiagnosticAction::PublishSyntaxDiagnostics { errors: a } && a == errors,
            CompilerError::BuildProjectsErrors { errors } => action
                matches DiagnosticAction::PublishBuildDiagnostics { errors: a } && a == errors,
            CompilerError::ConfigFileRead => action is NoPublish,
            CompilerError::ConfigFileParse => action is NoPublish,
            CompilerError::ConfigFileValidation => action is NoPublish,
            CompilerError::ReadFileError => action is NoPublish,
            CompilerError::WriteFileError => action is NoPublish,
            CompilerError::SerializationError => action is NoPublish,
            CompilerError::DeserializationError => action is NoPublish,
            CompilerError::CanonicalizeRoot => action is NoPublish,
            CompilerError::Watchman => action is NoPublish,
            CompilerError::EmptyQueryResult => action is NoPublish,
            CompilerError::FileRead => action is NoPublish,
            CompilerError::Syntax => action is NoPublish,
        },
{
    match error {
        CompilerError::SyntaxErrors { errors } => {
            DiagnosticAction::PublishSyntaxDiagnostics { errors }
        },
        CompilerError::BuildProjectsErrors { errors } => {
            DiagnosticAction::PublishBuildDiagnostics { errors }
        },
        CompilerError::ConfigFileRead => DiagnosticAction::NoPublish,
        CompilerError::ConfigFileParse => DiagnosticAction::NoPublish,
        CompilerError::ConfigFileValidation => DiagnosticAction::NoPublish,
        CompilerError::ReadFileError => DiagnosticAction::NoPublish,
        CompilerError::WriteFileError => DiagnosticAction::NoPublish,
        CompilerError::SerializationError => DiagnosticAction::NoPublish,
        CompilerError::DeserializationError => DiagnosticAction::NoPublish,
        CompilerError::CanonicalizeRoot => DiagnosticAction::NoPublish,
        CompilerError::Watchman => DiagnosticAction::NoPublish,
        CompilerError::EmptyQueryResult => DiagnosticAction::NoPublish,
        CompilerError::FileRead => DiagnosticAction::NoPublish,
        CompilerError::Syntax => DiagnosticAction::NoPublish,
    }
}

/// Builds the completion answer from what the completion engine returned:
/// a response, correlated to the request, exactly when the engine found a
/// non-empty candidate list. An empty or absent candidate set yields no
/// response — a silent no-op, never an error.
pub fn completion_response_for_items(
    request_id: u64,
    items: Option<Vec<CompletionItem>>,
) -> (response: Option<CompletionResponse>)
    ensures
        match items {
            Some(found) => {
                if found.len() > 0 {
                    response matches Some(r) && r.request_id == request_id && r.items == found
                } else {
                    response is None
                }
            },
            None => response is None,
        },
{
    match items {
        Some(found) => {
            if found.len() > 0 {
                Some(CompletionResponse { request_id, items: found })
            } else {
                None
            }
        },
        None => None,
    }
}

impl LSPCompiler {
    /// Runs one check cycle's aftermath: applies the outcome to the
    /// artifact cache and pending state, swaps the published diagnostics
    /// accordingly — cleared on success, replaced on failure — and returns
    /// what the loop must publish. Cache and diagnostics move together,
    /// within this one call.
    pub fn check_projects_and_report_errors(&mut self, input: CheckCycleInput) -> (action:
        DiagnosticAction)
        requires
            old(self).wf(),
            input matches CheckCycleInput::Builds { builds } ==> build_project_names(builds@)
                == projects_to_check_spec(old(self).config, old(self).compiler_state@),
        ensures
            final(self).wf(),
            final(self).config == old(self).config,
            final(self).schemas == old(self).schemas,
            final(self).synced_graphql_documents == old(self).synced_graphql_documents,
            match input {
                CheckCycleInput::SyntaxFailure { errors } => {
                    &&& action matches DiagnosticAction::PublishSyntaxDiagnostics {
                        errors: a,
                    } && a@ == errors@
                    &&& final(self).server_state@ == syntax_diagnostics(errors@)
                    &&& final(self).project_programs@ == old(self).project_programs@
                    &&& final(self).compiler_state@ == old(self).compiler_state@
                },
                CheckCycleInput::Builds { builds } => {
                    if builds_all_ok(builds@) {
                        &&& action is ClearDiagnostics
                        &&& final(self).server_state@ == Seq::<
                            crate::server_state::Diagnostic,
                        >::empty()
                        &&& final(self).project_programs@ == merged_programs(
                            old(self).project_programs@,
                            builds@,
                        )
                        &&& final(self).compiler_state@ == without_projects(
                            old(self).compiler_state@,
                            build_project_names(builds@),
                        )
                    } else {
                        &&& action matches DiagnosticAction::PublishBuildDiagnostics {
                            errors: a,
                        } && a@ == build_errors(builds@)
                        &&& final(self).server_state@ == build_diagnostics(build_errors(builds@))
                        &&& final(self).project_programs@ == old(self).project_programs@
                        &&& final(self).compiler_state@ == old(self).compiler_state@
                    }
                },
            },
    {
        match self.check_projects(input) {
            Ok(()) => {
                self.server_state.clear_diagnostics();
                DiagnosticAction::ClearDiagnostics
            },
            Err(error) => {
                let action = classify_error(error);
                match &action {
                    DiagnosticAction::PublishSyntaxDiagnostics { errors } => {
                        self.server_state.report_syntax_errors(errors);
                    },
                    DiagnosticAction::PublishBuildDiagnostics { errors } => {
                        self.server_state.report_build_project_errors(errors);
                    },
                    DiagnosticAction::ClearDiagnostics => {},
                    DiagnosticAction::NoPublish => {},
                }
                action
            },
        }
    }

    /// Services one editor request against the current cache state, never
    /// waiting on a rebuild. Document sync upserts or removes the synced
    /// text; a completion request reads the synced document, resolves the
    /// configured completion project, and asks the loop to run the
    /// completion engine only when that project has a schema and a cached
    /// artifact set from a prior successful build. A request whose
    /// document is not synced or whose project was never built
    /// successfully is a silent no-op.
    pub fn on_lsp_bridge_message(&mut self, message: LSPBridgeMessage) -> (action: BridgeAction)
        requires
            old(self).wf(),
        ensures
            final(self).wf(),
            final(self).config == old(self).config,
            final(self).schemas == old(self).schemas,
            final(self).compiler_state == old(self).compiler_state,
            final(self).server_state == old(self).server_state,
            final(self).project_programs == old(self).project_programs,
            match message {
                LSPBridgeMessage::CompletionRequest { request_id, uri, position } => {
                    &&& final(self).synced_graphql_documents == old(
                        self,
                    ).synced_graphql_documents
                    &&& {
                        let project = old(self).config.completion_project;
                        if old(self).synced_graphql_documents@.contains_key(uri) && old(
                            self,
                        ).project_programs@.contains_key(project) {
                            &&& action matches BridgeAction::RunCompletion {
                                request_id: r,
                                project: p,
                                schema: s,
                                programs: a,
                                text: t,
                                position: q,
                            }
                            &&& r == request_id
                            &&& p == project
                            &&& s == old(self).schemas@[project]
                            &&& a == old(self).project_programs@[project]
                            &&& t == old(self).synced_graphql_documents@[uri]
                            &&& q == position
                        } else {
                            action is NoResponse
                        }
                    }
                },
                LSPBridgeMessage::DidOpenTextDocument { uri, text } => {
                    &&& final(self).synced_graphql_documents@ == old(
                        self,
                    ).synced_graphql_documents@.insert(uri, text)
                    &&& action is NoResponse
                },
                LSPBridgeMessage::DidChangeTextDocument { uri, text } => {
                    &&& final(self).synced_graphql_documents@ == old(
                        self,
                    ).synced_graphql_documents@.insert(uri, text)
                    &&& action is NoResponse
                },
                LSPBridgeMessage::DidCloseTextDocument { uri } => {
                    &&& final(self).synced_graphql_documents@ == old(
                        self,
                    ).synced_graphql_documents@.remove(uri)
                    &&& action is NoResponse
                },
            },
    {
        match message {
            LSPBridgeMessage::CompletionRequest { request_id, uri, position } => {
                match self.synced_graphql_documents.get(&uri) {
                    Some(text) => {
                        let project_key = self.config.completion_project;
                        let schema = match self.schemas.get(&project_key) {
                            Some(schema) => *schema,
                            None => {
                                proof {
                                    assert(self.config.is_configured(project_key));
                                    assert(false);
                                }
                                Schema { token: 0 }
                            },
                        };
                        match self.project_programs.get(&project_key) {
                            Some(programs) => BridgeAction::RunCompletion {
                                request_id,
                                project: project_key,
                                schema,
                                programs: *programs,
                                text: text.clone(),
                                position,
                            },
                            None => BridgeAction::NoResponse,
                        }
                    },
                    None => BridgeAction::NoResponse,
                }
            },
            LSPBridgeMessage::DidOpenTextDocument { uri, text } => {
                on_did_open_text_document(uri, text, &mut self.synced_graphql_documents);
                BridgeAction::NoResponse
            },
            LSPBridgeMessage::DidChangeTextDocument { uri, text } => {
                on_did_change_text_document(uri, text, &mut self.synced_graphql_documents);
                BridgeAction::NoResponse
            },
            LSPBridgeMessage::DidCloseTextDocument { uri } => {
                on_did_close_text_document(uri, &mut self.synced_graphql_documents);
                BridgeAction::NoResponse
            },
        }
    }
}

} // verus!
