//! The compiler state: the accumulated record of pending, not-yet-built
//! file changes per project. It is folded from change batches, answers
//! per-project "has pending changes", and is consumed for the projects a
//! successful check cycle covers.

use vstd::prelude::*;

use crate::config::{watched_project, Config, ProjectName};

verus! {

/// One file-change event, already attributed to the project whose root the
/// changed path lies under.
#[derive(Clone, Copy, PartialEq, Eq, Structural, Debug)]
pub struct FileChange {
    pub project: ProjectName,
    pub path: u64,
}

/// The pending changes a batch folds into: the prior pending set together
/// with every change of the batch that touches a watched project.
pub open spec fn recorded_changes(
    config: Config,
    pending: Set<FileChange>,
    batch: Seq<FileChange>,
) -> Set<FileChange>
    decreases batch.len(),
{
    if batch.len() == 0 {
        pending
    } else {
        let rest = recorded_changes(config, pending, batch.drop_last());
        if watched_project(config, batch.last().project) {
            rest.insert(batch.last())
        } else {
            rest
        }
    }
}

/// Whether a batch brings any change that is not already pending: a change
/// of a watched project that the pending set does not hold yet.
pub open spec fn batch_has_new(
    config: Config,
    pending: Set<FileChange>,
    batch: Seq<FileChange>,
) -> bool {
    exists|i: int|
        0 <= i < batch.len() && watched_project(config, batch[i].project) && !pending.contains(
            batch[i],
        )
}

/// Whether some change of the given project is pending.
pub open spec fn has_pending(pending: Set<FileChange>, project: ProjectName) -> bool {
    exists|c: FileChange| pending.contains(c) && c.project == project
}

/// The pending set with every change of the given projects consumed.
pub open spec fn without_projects(
    pending: Set<FileChange>,
    projects: Seq<ProjectName>,
) -> Set<FileChange> {
    pending.filter(|c: FileChange| !projects.contains(c.project))
}

/// What folding a batch records: exactly the prior pending changes and the
/// batch's changes to watched projects.
pub proof fn lemma_recorded_changes_membership(
    config: Config,
    pending: Set<FileChange>,
    batch: Seq<FileChange>,
    c: FileChange,
)
    ensures
        recorded_changes(config, pending, batch).contains(c) <==> pending.contains(c) || (exists|
            i: int,
        |
            0 <= i < batch.len() && batch[i] == c && watched_project(config, c.project)),
    decreases batch.len(),
{
    if batch.len() > 0 {
        lemma_recorded_changes_membership(config, pending, batch.drop_last(), c);
        if recorded_changes(config, pending, batch).contains(c) {
            if !pending.contains(c) {
                if batch.last() == c && watched_project(config, c.project) {
                    assert(batch[batch.len() - 1] == c);
                } else {
                    let i = choose|i: int|
                        0 <= i < batch.drop_last().len() && batch.drop_last()[i] == c
                            && watched_project(config, c.project);
                    assert(batch[i] == c);
                }
            }
        }
        if exists|i: int|
            0 <= i < batch.len() && batch[i] == c && watched_project(config, c.project) {
            let i = choose|i: int|
                0 <= i < batch.len() && batch[i] == c && watched_project(config, c.project);
            if i < batch.len() - 1 {
                assert(batch.drop_last()[i] == c);
            }
        }
    }
}

/// One step of folding a batch: the prefix one longer brings something new
/// exactly when the shorter one does or its last change is new and watched.
proof fn lemma_batch_has_new_step(
    config: Config,
    pending: Set<FileChange>,
    batch: Seq<FileChange>,
    i: int,
)
    requires
        0 <= i < batch.len(),
    ensures
        batch_has_new(config, pending, batch.take(i + 1)) <==> (batch_has_new(
            config,
            pending,
            batch.take(i),
        ) || (watched_project(config, batch[i].project) && !pending.contains(batch[i]))),
{
    let prefix = batch.take(i);
    let next = batch.take(i + 1);
    if batch_has_new(config, pending, next) {
        let j = choose|j: int|
            0 <= j < next.len() && watched_project(config, next[j].project) && !pending.contains(
                next[j],
            );
        if j < i {
            assert(prefix[j] == next[j]);
            assert(batch_has_new(config, pending, prefix));
        } else {
            assert(next[j] == batch[i]);
        }
    }
    if batch_has_new(config, pending, prefix) {
        let j = choose|j: int|
            0 <= j < prefix.len() && watched_project(config, prefix[j].project)
                && !pending.contains(prefix[j]);
        assert(next[j] == prefix[j]);
        assert(batch_has_new(config, pending, next));
    }
    if watched_project(config, batch[i].project) && !pending.contains(batch[i]) {
        assert(next[i] == batch[i]);
        assert(batch_has_new(config, pending, next));
    }
}

/// A batch that brings nothing new leaves the pending set as it was.
pub proof fn lemma_no_new_changes_recorded(
    config: Config,
    pending: Set<FileChange>,
    batch: Seq<FileChange>,
)
    requires
        !batch_has_new(config, pending, batch),
    ensures
        recorded_changes(config, pending, batch) == pending,
{
    assert forall|c: FileChange| recorded_changes(config, pending, batch).contains(c) implies
        pending.contains(c) by {
        lemma_recorded_changes_membership(config, pending, batch, c);
    }
    assert forall|c: FileChange| pending.contains(c) implies recorded_changes(
        config,
        pending,
        batch,
    ).contains(c) by {
        lemma_recorded_changes_membership(config, pending, batch, c);
    }
    assert(recorded_changes(config, pending, batch) =~= pending);
}

/// Under a single-project restriction, a batch that touches only other
/// projects records nothing and reports no new changes, so no check cycle
/// starts and no state moves.
pub proof fn lemma_single_project_mode_ignores_other_projects(
    config: Config,
    pending: Set<FileChange>,
    batch: Seq<FileChange>,
    only: ProjectName,
)
    requires
        config.only_project == Some(only),
        forall|i: int| 0 <= i < batch.len() ==> batch[i].project != only,
    ensures
        !batch_has_new(config, pending, batch),
        recorded_changes(config, pending, batch) == pending,
{
    assert(forall|i: int|
        0 <= i < batch.len() ==> !watched_project(config, batch[i].project));
    lemma_no_new_changes_recorded(config, pending, batch);
}

/// The compiler state. The pending changes are held without duplicates;
/// its view is the set of them.
pub struct CompilerState {
    pending: Vec<FileChange>,
}

impl View for CompilerState {
    type V = Set<FileChange>;

    closed spec fn view(&self) -> Set<FileChange> {
        self.pending@.to_set()
    }
}

impl CompilerState {
    /// The representation holds each pending change once.
    pub closed spec fn wf(&self) -> bool {
        self.pending@.no_duplicates()
    }

    /// A state with nothing pending.
    pub fn new() -> (state: CompilerState)
        ensures
            state.wf(),
            state@ == Set::<FileChange>::empty(),
    {
        let state = CompilerState { pending: Vec::new() };
        proof {
            assert(state@ =~= Set::<FileChange>::empty());
        }
        state
    }

    /// Whether this exact change is already pending.
    fn contains_change(&self, c: FileChange) -> (found: bool)
        ensures
            found == self@.contains(c),
    {
        let mut i: usize = 0;
        while i < self.pending.len()
            invariant
                0 <= i <= self.pending.len(),
                forall|j: int| 0 <= j < i ==> self.pending@[j] != c,
            decreases self.pending.len() - i,
        {
            if self.pending[i].project == c.project && self.pending[i].path == c.path {
                assert(self.pending@[i as int] == c);
                assert(self.pending@.contains(c));
                return true;
            }
            i += 1;
        }
        assert(!self.pending@.contains(c));
        false
    }

    /// Folds one batch of change events into the pending state and reports
    /// whether anything new was recorded. Changes of projects outside the
    /// watched scope are dropped.
    pub fn add_pending_file_source_changes(
        &mut self,
        config: &Config,
        changes: &Vec<FileChange>,
    ) -> (had_new_changes: bool)
        requires
            old(self).wf(),
        ensures
            final(self).wf(),
            final(self)@ == recorded_changes(*config, old(self)@, changes@),
            had_new_changes == batch_has_new(*config, old(self)@, changes@),
    {
        let ghost orig: Set<FileChange> = self@;
        let mut had_new_changes: bool = false;
        let mut i: usize = 0;
        while i < changes.len()
            invariant
                0 <= i <= changes.len(),
                self.wf(),
                self@ == recorded_changes(*config, orig, changes@.take(i as int)),
                had_new_changes == batch_has_new(*config, orig, changes@.take(i as int)),
                forall|c: FileChange| orig.contains(c) ==> self@.contains(c),
            decreases changes.len() - i,
        {
            let ghost prefix = changes@.take(i as int);
            let ghost next = changes@.take(i as int + 1);
            proof {
                assert(next.drop_last() =~= prefix);
                assert(next.last() == changes@[i as int]);
            }
            let c = changes[i];
            proof {
                lemma_batch_has_new_step(*config, orig, changes@, i as int);
            }
            if config.is_watched(c.project) {
                if self.contains_change(c) {
                    proof {
                        assert(recorded_changes(*config, orig, next) =~= self@);
                        if !orig.contains(c) {
                            lemma_recorded_changes_membership(*config, orig, prefix, c);
                            let j = choose|j: int|
                                0 <= j < prefix.len() && prefix[j] == c && watched_project(
                                    *config,
                                    c.project,
                                );
                            assert(prefix[j] == c);
                            assert(watched_project(*config, prefix[j].project));
                            assert(!orig.contains(prefix[j]));
                            assert(batch_has_new(*config, orig, prefix));
                        }
                        assert(batch_has_new(*config, orig, next) == had_new_changes);
                    }
                } else {
                    proof {
                        assert(!self.pending@.contains(c));
                        assert(!orig.contains(c));
                    }
                    let ghost before = self.pending@;
                    self.pending.push(c);
                    had_new_changes = true;
                    proof {
                        assert(self.pending@ == before.push(c));
                        Seq::lemma_push_to_set_commute(before, c);
                        assert(self@ =~= recorded_changes(*config, orig, prefix).insert(c));
                        assert(recorded_changes(*config, orig, next) == recorded_changes(
                            *config,
                            orig,
                            prefix,
                        ).insert(c));
                        assert(batch_has_new(*config, orig, next));
                        assert(self.pending@.no_duplicates()) by {
                            assert(forall|j: int| 0 <= j < before.len() ==> before[j] != c);
                        }
                    }
                }
            } else {
                proof {
                    assert(recorded_changes(*config, orig, next) == recorded_changes(
                        *config,
                        orig,
                        prefix,
                    ));
                }
            }
            i += 1;
        }
        proof {
            assert(changes@.take(changes@.len() as int) =~= changes@);
        }
        had_new_changes
    }

    /// Whether the given project has pending changes.
    pub fn project_has_pending_changes(&self, project: ProjectName) -> (pending: bool)
        ensures
            pending == has_pending(self@, project),
    {
        let mut i: usize = 0;
        while i < self.pending.len()
            invariant
                0 <= i <= self.pending.len(),
                forall|j: int| 0 <= j < i ==> self.pending@[j].project != project,
            decreases self.pending.len() - i,
        {
            if self.pending[i].project == project {
                assert(self@.contains(self.pending@[i as int]));
                return true;
            }
            i += 1;
        }
        proof {
            if has_pending(self@, project) {
                let c = choose|c: FileChange| self@.contains(c) && c.project == project;
                let j = choose|j: int| 0 <= j < self.pending@.len() && self.pending@[j] == c;
                assert(self.pending@[j].project == project);
            }
        }
        false
    }

    /// Consumes the pending changes of the given projects, as a successful
    /// check cycle does for the projects it covered.
    pub fn remove_pending_projects(&mut self, projects: &Vec<ProjectName>)
        requires
            old(self).wf(),
        ensures
            final(self).wf(),
            final(self)@ == without_projects(old(self)@, projects@),
    {
        let mut kept: Vec<FileChange> = Vec::new();
        let mut i: usize = 0;
        while i < self.pending.len()
            invariant
                0 <= i <= self.pending.len(),
                self.wf(),
                forall|c: FileChange| #[trigger] kept@.contains(c) ==> exists|j: int|
                    0 <= j < i && self.pending@[j] == c,
                kept@.no_duplicates(),
                forall|c: FileChange| #[trigger] kept@.contains(c) <==> ((exists|j: int|
                    0 <= j < i && self.pending@[j] == c) && !projects@.contains(c.project)),
            decreases self.pending.len() - i,
        {
            let c = self.pending[i];
            if !contains_name(projects, c.project) {
                proof {
                    if kept@.contains(c) {
                        let j = choose|j: int| 0 <= j < i && self.pending@[j] == c;
                        assert(self.pending@[j] == self.pending@[i as int]);
                        assert(false);
                    }
                }
                let ghost kept_before = kept@;
                kept.push(c);
                proof {
                    assert forall|x: FileChange| #[trigger] kept@.contains(x) implies ((exists|
                        j: int,
                    |
                        0 <= j < i + 1 && self.pending@[j] == x) && !projects@.contains(
                        x.project,
                    )) by {
                        let k = choose|k: int| 0 <= k < kept@.len() && kept@[k] == x;
                        if k < kept_before.len() {
                            assert(kept_before.contains(x));
                        } else {
                            assert(x == c);
                            assert(self.pending@[i as int] == x);
                        }
                    }
                    assert forall|x: FileChange|
                        ((exists|j: int| 0 <= j < i + 1 && self.pending@[j] == x)
                            && !projects@.contains(x.project)) implies #[trigger] kept@.contains(
                        x,
                    ) by {
                        let j = choose|j: int| 0 <= j < i + 1 && self.pending@[j] == x;
                        if j < i {
                            assert(kept_before.contains(x));
                            let k = choose|k: int|
                                0 <= k < kept_before.len() && kept_before[k] == x;
                            assert(kept@[k] == x);
                        } else {
                            assert(kept@[kept@.len() - 1] == x);
                        }
                    }
                }
            }
            i += 1;
        }
        self.pending = kept;
        proof {
            assert forall|c: FileChange| self@.contains(c) implies without_projects(
                old(self)@,
                projects@,
            ).contains(c) by {
                assert(old(self).pending@.contains(c));
            }
            assert forall|c: FileChange| without_projects(old(self)@, projects@).contains(
                c,
            ) implies self@.contains(c) by {
                let j = choose|j: int|
                    0 <= j < old(self).pending@.len() && old(self).pending@[j] == c;
                assert(self.pending@.contains(c));
            }
            assert(self@ =~= without_projects(old(self)@, projects@));
        }
    }
}

/// Looks a project name up in a list of names.
pub fn contains_name(names: &Vec<ProjectName>, name: ProjectName) -> (found: bool)
    ensures
        found == names@.contains(name),
{
    let mut i: usize = 0;
    while i < names.len()
        invariant
            0 <= i <= names.len(),
            forall|j: int| 0 <= j < i ==> names@[j] != name,
        decreases names.len() - i,
    {
        if names[i] == name {
            assert(names@[i as int] == name);
            return true;
        }
        i += 1;
    }
    false
}

} // verus!
