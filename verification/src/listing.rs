//! Which entries of a directory walk are listed as notes.

use vstd::prelude::*;

verus! {

/// What is known of the notes directory while the program starts.
#[derive(Clone, Copy, Debug, PartialEq, Eq)]
pub enum DirectoryStatus {
    /// The directory was looked for and is there.
    Present,
    /// The directory was looked for and is not there.
    Missing,
    /// The directory was missing and has been created.
    Created,
    /// The directory was missing and could not be created.
    CreationFailed,
}

/// What the program does next about the notes directory.
#[derive(Clone, Copy, Debug, PartialEq, Eq)]
pub enum StartupAction {
    /// Create the directory, then report how that went.
    CreateDirectory,
    /// Walk the directory and list its files.
    WalkDirectory,
    /// Stop: there is no notes directory and none can be made.
    Abort,
}

/// The action that follows from a status: a directory that is there, from the
/// outset or by now, is walked; a missing one is created first; without one
/// the program cannot go on.
pub open spec fn startup_action_for(status: DirectoryStatus) -> StartupAction {
    match status {
        DirectoryStatus::Present => StartupAction::WalkDirectory,
        DirectoryStatus::Missing => StartupAction::CreateDirectory,
        DirectoryStatus::Created => StartupAction::WalkDirectory,
        DirectoryStatus::CreationFailed => StartupAction::Abort,
    }
}

/// Decides what to do next about the notes directory.
pub fn startup_action(status: DirectoryStatus) -> (action: StartupAction)
    ensures
        action == startup_action_for(status),
{
    match status {
        DirectoryStatus::Present | DirectoryStatus::Created => StartupAction::WalkDirectory,
        DirectoryStatus::Missing => StartupAction::CreateDirectory,
        DirectoryStatus::CreationFailed => StartupAction::Abort,
    }
}

/// What kind of thing a walk found at a path, without following links.
#[derive(Clone, Copy, Debug, PartialEq, Eq)]
pub enum EntryKind {
    File,
    Directory,
    Symlink,
    Other,
}

/// One step of a recursive walk through the notes directory.
#[derive(Debug, PartialEq, Eq)]
pub enum WalkStep {
    /// The walk found an entry.
    Entry { path: String, kind: EntryKind },
    /// The walk could not read something; it goes on with the next step.
    Failed,
}

impl WalkStep {
    /// Whether the step found a regular file.
    pub open spec fn is_regular_file(self) -> bool {
        self matches WalkStep::Entry { kind, .. } && kind is File
    }

    /// The path that the step found; the empty text for a failed step.
    pub open spec fn path_text(self) -> Seq<char> {
        match self {
            WalkStep::Entry { path, .. } => path@,
            WalkStep::Failed => Seq::empty(),
        }
    }
}

/// The paths that are listed for a walk: those of its regular files, in the
/// order in which the walk met them. Directories, links, other entries and
/// failed steps are passed over.
pub open spec fn listed_paths(steps: Seq<WalkStep>) -> Seq<Seq<char>> {
    steps.filter(|step: WalkStep| step.is_regular_file()).map_values(
        |step: WalkStep| step.path_text(),
    )
}

/// The positions in a walk at which it met a regular file.
pub open spec fn file_positions(steps: Seq<WalkStep>) -> Set<int> {
    Set::new(|i: int| 0 <= i < steps.len() && steps[i].is_regular_file())
}

/// Whether `path` is the path of a regular file that the walk met.
pub open spec fn names_file(steps: Seq<WalkStep>, path: Seq<char>) -> bool {
    exists|i: int| #[trigger] file_positions(steps).contains(i) && steps[i].path_text() == path
}

/// Whether the walk met no regular file under the same path twice.
pub open spec fn names_each_file_once(steps: Seq<WalkStep>) -> bool {
    forall|i: int, j: int|
        #![trigger file_positions(steps).contains(i), file_positions(steps).contains(j)]
        file_positions(steps).contains(i) && file_positions(steps).contains(j) && i != j
            ==> steps[i].path_text() != steps[j].path_text()
}

/// How the listing grows with the walk: a regular file adds its path at the
/// end, any other step adds nothing.
pub proof fn lemma_listed_paths_push(steps: Seq<WalkStep>, step: WalkStep)
    ensures
        listed_paths(steps.push(step)) == if step.is_regular_file() {
            listed_paths(steps).push(step.path_text())
        } else {
            listed_paths(steps)
        },
{
    let keep = |step: WalkStep| step.is_regular_file();
    let name = |step: WalkStep| step.path_text();
    steps.lemma_filter_push(step, keep);
    steps.filter(keep).lemma_push_map_commute(name, step);
}

/// Lists the files of a walk: the path of every regular file, in walk order.
pub fn list_files(steps: &Vec<WalkStep>) -> (files: Vec<String>)
    ensures
        files.deep_view() == listed_paths(steps@),
{
    let mut files: Vec<String> = Vec::new();
    let mut i: usize = 0;
    while i < steps.len()
        invariant
            i <= steps.len(),
            files.deep_view() == listed_paths(steps@.take(i as int)),
        decreases steps.len() - i,
    {
        proof {
            steps@.lemma_take_succ_push(i as int);
            lemma_listed_paths_push(steps@.take(i as int), steps@[i as int]);
        }
        match &steps[i] {
            WalkStep::Entry { path, kind } => {
                match kind {
                    EntryKind::File => {
                        files.push(path.clone());
                    },
                    _ => {},
                }
            },
            WalkStep::Failed => {},
        }
        i = i + 1;
    }
    proof {
        steps@.lemma_take_len();
    }
    files
}

/// The listing holds one path for each regular file that the walk met, and
/// nothing else: it is as long as the walk has positions with a regular file,
/// each of its paths is that of such a file, and each such file's path is in
/// it. Where the walk met no file twice, no path is listed twice.
pub proof fn lemma_listing_is_exact(steps: Seq<WalkStep>)
    ensures
        file_positions(steps).finite(),
        listed_paths(steps).len() == file_positions(steps).len(),
        forall|k: int|
            0 <= k < listed_paths(steps).len() ==> names_file(
                steps,
                #[trigger] listed_paths(steps)[k],
            ),
        forall|i: int| #[trigger]
            file_positions(steps).contains(i) ==> listed_paths(steps).contains(
                steps[i].path_text(),
            ),
        names_each_file_once(steps) ==> listed_paths(steps).no_duplicates(),
    decreases steps.len(),
{
    let listed = listed_paths(steps);
    if steps.len() == 0 {
        assert(file_positions(steps) =~= Set::empty());
    } else {
        let init = steps.drop_last();
        let last = steps.last();
        let end = steps.len() - 1;
        let earlier = listed_paths(init);
        lemma_listing_is_exact(init);
        assert(init.push(last) =~= steps);
        lemma_listed_paths_push(init, last);
        assert forall|i: int| file_positions(init).contains(i) implies file_positions(
            steps,
        ).contains(i) && steps[i] == init[i] by {}
        if last.is_regular_file() {
            assert(file_positions(steps) =~= file_positions(init).insert(end));
            assert(listed == earlier.push(last.path_text()));
        } else {
            assert(file_positions(steps) =~= file_positions(init));
            assert(listed == earlier);
        }
        assert forall|k: int| 0 <= k < listed.len() implies names_file(
            steps,
            #[trigger] listed[k],
        ) by {
            if k < earlier.len() {
                let i = lemma_listed_path_has_position(init, k);
                assert(file_positions(steps).contains(i) && steps[i].path_text() == listed[k]);
            } else {
                assert(file_positions(steps).contains(end) && steps[end].path_text()
                    == listed[k]);
            }
        }
        assert forall|i: int| #[trigger] file_positions(steps).contains(i) implies listed.contains(
            steps[i].path_text(),
        ) by {
            if i < end {
                assert(earlier.contains(init[i].path_text()));
                let k = choose|k: int| 0 <= k < earlier.len() && earlier[k] == init[i].path_text();
                assert(listed[k] == steps[i].path_text());
            } else {
                assert(listed[listed.len() - 1] == steps[i].path_text());
            }
        }
        if names_each_file_once(steps) {
            assert(names_each_file_once(init));
            assert forall|a: int, b: int|
                0 <= a < listed.len() && 0 <= b < listed.len() && a != b implies listed[a]
                != listed[b] by {
                if !(a < earlier.len() && b < earlier.len()) {
                    // One of the two is the last file's path, the other that of
                    // an earlier file: the walk gave them different paths.
                    let i = lemma_listed_path_has_position(init, if a < b { a } else { b });
                    assert(file_positions(steps).contains(i));
                    assert(file_positions(steps).contains(end));
                }
            }
        }
    }
}

/// A position of the walk at which it met the file whose path is listed at
/// `k`, given that each listed path is that of such a file.
proof fn lemma_listed_path_has_position(steps: Seq<WalkStep>, k: int) -> (i: int)
    requires
        0 <= k < listed_paths(steps).len(),
        names_file(steps, listed_paths(steps)[k]),
    ensures
        file_positions(steps).contains(i),
        steps[i].path_text() == listed_paths(steps)[k],
{
    choose|i: int| #[trigger]
        file_positions(steps).contains(i) && steps[i].path_text() == listed_paths(steps)[k]
}

/// A walk that met no regular file, as the walk of a directory that was only
/// just created, lists nothing.
pub proof fn lemma_walk_without_files_lists_nothing(steps: Seq<WalkStep>)
    requires
        forall|i: int| 0 <= i < steps.len() ==> !(#[trigger] steps[i]).is_regular_file(),
    ensures
        listed_paths(steps) == Seq::<Seq<char>>::empty(),
{
    lemma_listing_is_exact(steps);
    assert(file_positions(steps) =~= Set::empty());
}

} // verus!
