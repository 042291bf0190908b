//! Watching a directory of the host for changes.
//!
//! The system tells changed paths to a callback, which writes them to a pipe. A
//! thread reads the paths from the pipe, looks up the files, and marks them as
//! stale, so that the guest looks at them anew.

use std::collections::BTreeSet;

use vstd::prelude::*;

verus! {

broadcast use {vstd::std_specs::btree::group_btree_axioms, vstd::laws_cmp::group_laws_cmp};

/// A stage of starting to watch.
#[derive(Clone, Copy, Debug, PartialEq, Eq, Structural)]
pub enum FsStage {
    /// Make the pipe.
    Pipe,
    /// Make writing to the pipe non-blocking; this may fail.
    SetNonblocking,
    /// Make a string of the system's own from the path.
    CreateString,
    /// Make a list of the system's own from that string.
    CreateArray,
    /// Make the stream of events.
    CreateStream,
    /// Make the queue for the stream and give it to the stream.
    CreateQueue,
    /// Start the stream.
    StartStream,
    /// Start the thread that reads the pipe.
    SpawnReader,
}

/// Something that has to be given back.
#[derive(Clone, Copy, Debug, PartialEq, Eq, Structural)]
pub enum FsResource {
    /// The end of the pipe that is read.
    PipeRead,
    /// The end of the pipe that is written.
    PipeWrite,
    /// The string.
    Path,
    /// The list.
    Array,
    /// The stream: it is invalidated and released.
    Stream,
    /// The queue.
    Queue,
}

/// Why watching could not be started.
#[derive(Clone, Copy, Debug, PartialEq, Eq, Structural)]
pub enum FsEventsError {
    /// The pipe could not be made.
    Pipe,
    /// The path has a zero byte in it.
    PathContainsNul,
    CreateString,
    CreateArray,
    CreateStream,
    StartStream,
    SpawnReader,
}

/// What follows a stage.
#[derive(Clone, Copy, Debug, PartialEq, Eq, Structural)]
pub enum FsNext {
    /// The next stage.
    Do(FsStage),
    /// Watching could not be started.
    Failed(FsEventsError),
    /// The directory is watched.
    Started,
}

/// What is given back after a stage, in this order, before what follows.
pub open spec fn given_back(stage: FsStage, succeeded: bool) -> Seq<FsResource> {
    match stage {
        FsStage::CreateString => if succeeded {
            Seq::empty()
        } else {
            seq![FsResource::PipeRead, FsResource::PipeWrite]
        },
        FsStage::CreateArray => if succeeded {
            seq![FsResource::Path]
        } else {
            seq![FsResource::Path, FsResource::PipeRead, FsResource::PipeWrite]
        },
        FsStage::CreateStream => if succeeded {
            seq![FsResource::Array]
        } else {
            seq![FsResource::Array, FsResource::PipeRead, FsResource::PipeWrite]
        },
        FsStage::StartStream => if succeeded {
            Seq::empty()
        } else {
            seq![
                FsResource::Stream,
                FsResource::Queue,
                FsResource::PipeRead,
                FsResource::PipeWrite,
            ]
        },
        _ => Seq::empty(),
    }
}

/// What follows a stage. A path with a zero byte in it is noticed before it is
/// handed to the system.
pub open spec fn fs_next(stage: FsStage, succeeded: bool, path_has_nul: bool) -> FsNext {
    match stage {
        FsStage::Pipe => if succeeded {
            FsNext::Do(FsStage::SetNonblocking)
        } else {
            FsNext::Failed(FsEventsError::Pipe)
        },
        FsStage::SetNonblocking => if path_has_nul {
            FsNext::Failed(FsEventsError::PathContainsNul)
        } else {
            FsNext::Do(FsStage::CreateString)
        },
        FsStage::CreateString => if succeeded {
            FsNext::Do(FsStage::CreateArray)
        } else {
            FsNext::Failed(FsEventsError::CreateString)
        },
        FsStage::CreateArray => if succeeded {
            FsNext::Do(FsStage::CreateStream)
        } else {
            FsNext::Failed(FsEventsError::CreateArray)
        },
        FsStage::CreateStream => if succeeded {
            FsNext::Do(FsStage::CreateQueue)
        } else {
            FsNext::Failed(FsEventsError::CreateStream)
        },
        FsStage::CreateQueue => FsNext::Do(FsStage::StartStream),
        FsStage::StartStream => if succeeded {
            FsNext::Do(FsStage::SpawnReader)
        } else {
            FsNext::Failed(FsEventsError::StartStream)
        },
        FsStage::SpawnReader => if succeeded {
            FsNext::Started
        } else {
            FsNext::Failed(FsEventsError::SpawnReader)
        },
    }
}

/// The first stage.
pub open spec fn fs_first() -> FsNext {
    FsNext::Do(FsStage::Pipe)
}

/// What is held when a stage begins.
pub open spec fn held(stage: FsStage) -> Set<FsResource> {
    let pipe = set![FsResource::PipeRead, FsResource::PipeWrite];
    match stage {
        FsStage::Pipe => Set::empty(),
        FsStage::SetNonblocking => pipe,
        FsStage::CreateString => pipe,
        FsStage::CreateArray => pipe.insert(FsResource::Path),
        FsStage::CreateStream => pipe.insert(FsResource::Array),
        FsStage::CreateQueue => pipe.insert(FsResource::Stream),
        FsStage::StartStream => pipe.insert(FsResource::Stream).insert(FsResource::Queue),
        FsStage::SpawnReader => pipe.insert(FsResource::Stream).insert(FsResource::Queue),
    }
}

/// What a stage that succeeds makes.
pub open spec fn made(stage: FsStage) -> Set<FsResource> {
    match stage {
        FsStage::Pipe => set![FsResource::PipeRead, FsResource::PipeWrite],
        FsStage::CreateString => set![FsResource::Path],
        FsStage::CreateArray => set![FsResource::Array],
        FsStage::CreateStream => set![FsResource::Stream],
        FsStage::CreateQueue => set![FsResource::Queue],
        _ => Set::empty(),
    }
}

/// What follows a stage, and what is given back before.
pub struct FsStep {
    pub give_back: Vec<FsResource>,
    pub next: FsNext,
}

/// A directory that is watched.
#[derive(Clone, Copy, Debug, PartialEq, Eq, Structural)]
pub struct FsEventsMonitor {
    /// Whether the path has a zero byte in it.
    pub path_has_nul: bool,
}

impl FsEventsMonitor {
    /// Starts to watch the directory with this path.
    pub fn start(path: &[u8]) -> (r: (FsEventsMonitor, FsNext))
        ensures
            r.0.path_has_nul == path@.contains(0u8),
            r.1 == fs_first(),
    {
        let mut path_has_nul: bool = false;
        let mut i: usize = 0;
        while i < path.len()
            invariant
                i <= path@.len(),
                path_has_nul == path@.take(i as int).contains(0u8),
            decreases path.len() - i,
        {
            proof {
                let before = path@.take(i as int);
                let after = path@.take(i + 1);
                assert(after[i as int] == path@[i as int]);
                if before.contains(0u8) {
                    let k = choose|k: int| 0 <= k < before.len() && before[k] == 0u8;
                    assert(after[k] == 0u8);
                }
                if after.contains(0u8) && path@[i as int] != 0 {
                    let k = choose|k: int| 0 <= k < after.len() && after[k] == 0u8;
                    assert(before[k] == 0u8);
                }
            }
            if path[i] == 0 {
                path_has_nul = true;
            }
            i += 1;
        }
        assert(path@.take(i as int) =~= path@);
        (FsEventsMonitor { path_has_nul }, FsNext::Do(FsStage::Pipe))
    }

    /// What follows a stage that succeeded or failed.
    pub fn after(&self, stage: FsStage, succeeded: bool) -> (step: FsStep)
        ensures
            step.next == fs_next(stage, succeeded, self.path_has_nul),
            step.give_back@ == given_back(stage, succeeded),
    {
        let mut give_back: Vec<FsResource> = Vec::new();
        let next: FsNext = match stage {
            FsStage::Pipe => if succeeded {
                FsNext::Do(FsStage::SetNonblocking)
            } else {
                FsNext::Failed(FsEventsError::Pipe)
            },
            FsStage::SetNonblocking => if self.path_has_nul {
                FsNext::Failed(FsEventsError::PathContainsNul)
            } else {
                FsNext::Do(FsStage::CreateString)
            },
            FsStage::CreateString => if succeeded {
                FsNext::Do(FsStage::CreateArray)
            } else {
                give_back.push(FsResource::PipeRead);
                give_back.push(FsResource::PipeWrite);
                FsNext::Failed(FsEventsError::CreateString)
            },
            FsStage::CreateArray => {
                give_back.push(FsResource::Path);
                if succeeded {
                    FsNext::Do(FsStage::CreateStream)
                } else {
                    give_back.push(FsResource::PipeRead);
                    give_back.push(FsResource::PipeWrite);
                    FsNext::Failed(FsEventsError::CreateArray)
                }
            },
            FsStage::CreateStream => {
                give_back.push(FsResource::Array);
                if succeeded {
                    FsNext::Do(FsStage::CreateQueue)
                } else {
                    give_back.push(FsResource::PipeRead);
                    give_back.push(FsResource::PipeWrite);
                    FsNext::Failed(FsEventsError::CreateStream)
                }
            },
            FsStage::CreateQueue => FsNext::Do(FsStage::StartStream),
            FsStage::StartStream => if succeeded {
                FsNext::Do(FsStage::SpawnReader)
            } else {
                give_back.push(FsResource::Stream);
                give_back.push(FsResource::Queue);
                give_back.push(FsResource::PipeRead);
                give_back.push(FsResource::PipeWrite);
                FsNext::Failed(FsEventsError::StartStream)
            },
            FsStage::SpawnReader => if succeeded {
                FsNext::Started
            } else {
                FsNext::Failed(FsEventsError::SpawnReader)
            },
        };
        assert(give_back@ =~= given_back(stage, succeeded));
        FsStep { give_back, next }
    }
}

/// What is held is kept track of: what a stage makes and does not give back is
/// held when the next one begins, and nothing is given back that is not held.
pub proof fn law_resources_are_tracked(stage: FsStage, succeeded: bool, path_has_nul: bool)
    ensures
        succeeded || !(stage is CreateQueue) ==> (fs_next(
            stage,
            succeeded,
            path_has_nul,
        ) matches FsNext::Do(next) ==> held(next) == held(stage).union(
            if succeeded {
                made(stage)
            } else {
                Set::empty()
            },
        ).difference(given_back(stage, succeeded).to_set())),
        given_back(stage, succeeded).to_set().subset_of(held(stage)),
        given_back(stage, succeeded).no_duplicates(),
{
    if let FsNext::Do(next) = fs_next(stage, succeeded, path_has_nul) {
        if succeeded {
            assert(held(next) =~= held(stage).union(made(stage)).difference(
                given_back(stage, succeeded).to_set(),
            )) by {
                lemma_given_back(stage, succeeded);
            }
        } else if !(stage is CreateQueue) {
            assert(held(next) =~= held(stage).union(Set::empty()).difference(
                given_back(stage, succeeded).to_set(),
            )) by {
                lemma_given_back(stage, succeeded);
            }
        }
    }
    lemma_given_back(stage, succeeded);
    assert(given_back(stage, succeeded).to_set().subset_of(held(stage)));
}

proof fn lemma_given_back(stage: FsStage, succeeded: bool)
    ensures
        forall|r: FsResource| #[trigger]
            given_back(stage, succeeded).to_set().contains(r) <==> (match stage {
                FsStage::CreateString => !succeeded && (r is PipeRead || r is PipeWrite),
                FsStage::CreateArray => r is Path || (!succeeded && (r is PipeRead || r
                    is PipeWrite)),
                FsStage::CreateStream => r is Array || (!succeeded && (r is PipeRead || r
                    is PipeWrite)),
                FsStage::StartStream => !succeeded && (r is Stream || r is Queue || r is PipeRead
                    || r is PipeWrite),
                _ => false,
            }),
{
    let s = given_back(stage, succeeded);
    assert forall|r: FsResource| #[trigger] s.to_set().contains(r) <==> s.contains(r) by {}
    assert(s.len() > 0 ==> s.contains(s[0]));
    assert(s.len() > 1 ==> s.contains(s[1]));
    assert(s.len() > 2 ==> s.contains(s[2]));
    assert(s.len() > 3 ==> s.contains(s[3]));
}

/// A start that the system refuses leaves nothing behind: what was held is given
/// back.
pub proof fn law_failed_start_gives_back(stage: FsStage)
    requires
        stage is CreateString || stage is CreateArray || stage is CreateStream || stage
            is StartStream,
    ensures
        held(stage).difference(given_back(stage, false).to_set()) == Set::<FsResource>::empty(),
{
    lemma_given_back(stage, false);
    assert(held(stage).difference(given_back(stage, false).to_set())
        =~= Set::<FsResource>::empty());
}

/// The writes that tell these paths: each path and a newline; a path that is
/// missing is passed over.
pub open spec fn path_writes(paths: Seq<Option<Vec<u8>>>) -> Seq<Seq<u8>>
    decreases paths.len(),
{
    if paths.len() == 0 {
        Seq::empty()
    } else {
        let before = path_writes(paths.drop_last());
        match paths.last() {
            Some(path) => before.push(path@).push(seq![10u8]),
            None => before,
        }
    }
}

/// The writes to the pipe that tell these paths. Each is made once, whether or
/// not there is room in the pipe.
pub fn fsevents_callback(paths: &Vec<Option<Vec<u8>>>) -> (writes: Vec<Vec<u8>>)
    ensures
        writes@.len() == path_writes(paths@).len(),
        forall|i: int| 0 <= i < writes@.len() ==> (#[trigger] writes@[i])@ == path_writes(paths@)[i],
{
    let mut writes: Vec<Vec<u8>> = Vec::new();
    let mut i: usize = 0;
    while i < paths.len()
        invariant
            i <= paths@.len(),
            writes@.len() == path_writes(paths@.take(i as int)).len(),
            forall|j: int|
                0 <= j < writes@.len() ==> (#[trigger] writes@[j])@ == path_writes(
                    paths@.take(i as int),
                )[j],
        decreases paths.len() - i,
    {
        let ghost before = writes@;
        assert(paths@.take(i + 1).drop_last() =~= paths@.take(i as int));
        match &paths[i] {
            Some(path) => {
                let copy: Vec<u8> = vstd::slice::slice_to_vec(path.as_slice());
                assert(copy@ =~= path@);
                writes.push(copy);
                let mut newline: Vec<u8> = Vec::new();
                newline.push(10);
                assert(newline@ =~= seq![10u8]);
                writes.push(newline);
            },
            None => {},
        }
        i += 1;
    }
    assert(paths@.take(i as int) =~= paths@);
    writes
}

/// The bytes of a sequence of writes, one after the other.
pub open spec fn written(writes: Seq<Seq<u8>>) -> Seq<u8>
    decreases writes.len(),
{
    if writes.len() == 0 {
        Seq::empty()
    } else {
        written(writes.drop_last()) + writes.last()
    }
}

/// The bytes of a sequence of lines, each with a newline behind it.
pub open spec fn joined(lines: Seq<Seq<u8>>) -> Seq<u8>
    decreases lines.len(),
{
    if lines.len() == 0 {
        Seq::empty()
    } else {
        joined(lines.drop_last()) + lines.last().push(10u8)
    }
}

/// Whether these are lines: no newline is in any of them.
pub open spec fn are_lines(lines: Seq<Seq<u8>>) -> bool {
    forall|i: int| 0 <= i < lines.len() ==> !(#[trigger] lines[i]).contains(10u8)
}

/// The paths that are not missing.
pub open spec fn told_paths(paths: Seq<Option<Vec<u8>>>) -> Seq<Seq<u8>>
    decreases paths.len(),
{
    if paths.len() == 0 {
        Seq::empty()
    } else {
        let before = told_paths(paths.drop_last());
        match paths.last() {
            Some(path) => before.push(path@),
            None => before,
        }
    }
}

/// What the pipe takes in are the paths, one on each line.
proof fn lemma_written(paths: Seq<Option<Vec<u8>>>)
    ensures
        written(path_writes(paths)) == joined(told_paths(paths)),
    decreases paths.len(),
{
    reveal_with_fuel(written, 3);
    if paths.len() > 0 {
        lemma_written(paths.drop_last());
        if let Some(path) = paths.last() {
            let before = path_writes(paths.drop_last());
            let writes = path_writes(paths);
            assert(writes.drop_last() =~= before.push(path@));
            assert(before.push(path@).drop_last() =~= before);
            let told = told_paths(paths.drop_last());
            assert(told_paths(paths).drop_last() =~= told);
            assert(written(writes) =~= written(before) + path@.push(10u8));
        }
    }
}

/// Different lines do not make up the same bytes.
proof fn lemma_lines_are_unique(a: Seq<Seq<u8>>, b: Seq<Seq<u8>>)
    requires
        are_lines(a),
        are_lines(b),
        joined(a) == joined(b),
    ensures
        a == b,
    decreases a.len(),
{
    if a.len() > 0 && b.len() > 0 {
        let s = joined(a);
        let x = a.last();
        let y = b.last();
        let before_a = joined(a.drop_last());
        let before_b = joined(b.drop_last());
        lemma_ends_with_newline(a.drop_last());
        lemma_ends_with_newline(b.drop_last());
        if x.len() < y.len() {
            let k = before_a.len() - 1;
            assert(before_a.len() > 0);
            assert(s[k] == before_a[k]);
            assert(s[k] == y[k - before_b.len()]);
            assert(y.contains(10u8));
        } else if y.len() < x.len() {
            let k = before_b.len() - 1;
            assert(before_b.len() > 0);
            assert(s[k] == before_b[k]);
            assert(s[k] == x[k - before_a.len()]);
            assert(x.contains(10u8));
        }
        assert(before_a =~= s.take(before_a.len() as int));
        assert(before_b =~= s.take(before_b.len() as int));
        assert forall|i: int| 0 <= i < x.len() implies x[i] == y[i] by {
            assert(s[before_a.len() + i] == x[i]);
            assert(s[before_b.len() + i] == y[i]);
        }
        assert(x =~= y);
        lemma_lines_are_unique(a.drop_last(), b.drop_last());
        assert(a =~= a.drop_last().push(x));
        assert(b =~= b.drop_last().push(y));
    } else {
        lemma_ends_with_newline(a);
        lemma_ends_with_newline(b);
        assert(a =~= b);
    }
}

proof fn lemma_ends_with_newline(lines: Seq<Seq<u8>>)
    ensures
        lines.len() > 0 ==> joined(lines).len() > 0 && joined(lines).last() == 10u8,
        lines.len() == 0 ==> joined(lines).len() == 0,
{
}

/// The reading thread sees the paths that were told: if nothing of the writes is
/// lost, then whatever lines make up the bytes in the pipe are these paths.
pub proof fn law_told_paths_are_read(paths: Seq<Option<Vec<u8>>>, lines: Seq<Seq<u8>>)
    requires
        are_lines(told_paths(paths)),
        are_lines(lines),
        joined(lines) == written(path_writes(paths)),
    ensures
        lines == told_paths(paths),
{
    lemma_written(paths);
    lemma_lines_are_unique(lines, told_paths(paths));
}

/// What the reading thread does with a line.
#[derive(Clone, Copy, Debug, PartialEq, Eq, Structural)]
pub enum LineStep {
    /// Look up the file and mark it: [`StaleSet::mark`].
    LookUp,
    /// Nothing: the line is empty.
    Skip,
    /// End: the pipe is closed or broken.
    Stop,
}

/// What is done with a line, given its length if it could be read.
pub open spec fn line_action(line: Option<usize>) -> LineStep {
    match line {
        Some(len) => if len > 0 {
            LineStep::LookUp
        } else {
            LineStep::Skip
        },
        None => LineStep::Stop,
    }
}

/// What the reading thread does with a line, given its length if it could be
/// read.
pub fn line_step(line: Option<usize>) -> (step: LineStep)
    ensures
        step == line_action(line),
{
    match line {
        Some(len) => if len > 0 {
            LineStep::LookUp
        } else {
            LineStep::Skip
        },
        None => LineStep::Stop,
    }
}

/// The files that are stale once the file that was looked up was marked.
pub open spec fn marked(stale: Set<(u64, u64)>, file: Option<(u64, u64)>) -> Set<(u64, u64)> {
    match file {
        Some(key) => stale.insert(key),
        None => stale,
    }
}

/// A line that the reading thread got.
#[derive(Clone, Copy, Debug, PartialEq, Eq)]
pub struct LineRead {
    /// Its length, if it could be read.
    pub line: Option<usize>,
    /// The file that it names, if there is one.
    pub file: Option<(u64, u64)>,
}

/// The files that are stale once the reading thread has gone through these lines.
pub open spec fn stale_after(stale: Set<(u64, u64)>, reads: Seq<LineRead>) -> Set<(u64, u64)>
    decreases reads.len(),
{
    if reads.len() == 0 {
        stale
    } else {
        match line_action(reads[0].line) {
            LineStep::LookUp => stale_after(marked(stale, reads[0].file), reads.skip(1)),
            LineStep::Skip => stale_after(stale, reads.skip(1)),
            LineStep::Stop => stale,
        }
    }
}

/// Whether one of these lines names this file, and no line before it is one that
/// could not be read.
pub open spec fn names_file(reads: Seq<LineRead>, i: int, key: (u64, u64)) -> bool {
    &&& 0 <= i < reads.len()
    &&& forall|j: int| 0 <= j < i ==> (#[trigger] reads[j]).line is Some
    &&& reads[i].line matches Some(len) && len > 0
    &&& reads[i].file == Some(key)
}

/// The reading thread marks the files that changed, and no other: once it has gone
/// through some lines, a file is stale exactly if it was before or a line names it.
/// Empty lines and files that are gone are passed over; the first line that cannot
/// be read ends it.
pub proof fn law_changed_files_are_stale(stale: Set<(u64, u64)>, reads: Seq<LineRead>)
    ensures
        forall|key: (u64, u64)| #[trigger]
            stale_after(stale, reads).contains(key) <==> stale.contains(key) || exists|i: int|
                names_file(reads, i, key),
    decreases reads.len(),
{
    if reads.len() > 0 && reads[0].line is Some {
        let rest = reads.skip(1);
        let next = if line_action(reads[0].line) is LookUp {
            marked(stale, reads[0].file)
        } else {
            stale
        };
        law_changed_files_are_stale(next, rest);
        assert(stale_after(stale, reads) == stale_after(next, rest));
        assert forall|key: (u64, u64)| #[trigger]
            stale_after(stale, reads).contains(key) <==> stale.contains(key) || exists|i: int|
                names_file(reads, i, key) by {
            assert(stale_after(next, rest).contains(key) <==> next.contains(key) || exists|i: int|
                names_file(rest, i, key));
            if exists|i: int| names_file(rest, i, key) {
                let i = choose|i: int| names_file(rest, i, key);
                assert forall|j: int| 0 <= j < i + 1 implies (#[trigger] reads[j]).line is Some by {
                    if j > 0 {
                        assert(rest[j - 1] == reads[j]);
                    }
                }
                assert(rest[i] == reads[i + 1]);
                assert(names_file(reads, i + 1, key));
            }
            if exists|i: int| names_file(reads, i, key) {
                let i = choose|i: int| names_file(reads, i, key);
                if i > 0 {
                    assert forall|j: int| 0 <= j < i - 1 implies (#[trigger] rest[j]).line
                        is Some by {
                        assert(rest[j] == reads[j + 1]);
                    }
                    assert(rest[i - 1] == reads[i]);
                    assert(names_file(rest, i - 1, key));
                } else {
                    assert(next.contains(key));
                }
            }
            if next.contains(key) && !stale.contains(key) {
                assert(names_file(reads, 0, key));
            }
        }
    } else {
        assert forall|key: (u64, u64), i: int| #[trigger] names_file(reads, i, key) implies false by {
            if i > 0 {
                assert(reads[0].line is Some);
            }
        }
    }
}

/// The files that changed, by inode and device number.
pub struct StaleSet {
    pub inodes: BTreeSet<(u64, u64)>,
}

impl StaleSet {
    /// No file changed yet.
    pub fn new() -> (set: StaleSet)
        ensures
            set.inodes@ == Set::<(u64, u64)>::empty(),
    {
        StaleSet { inodes: BTreeSet::new() }
    }

    /// Marks the file that was looked up; one that is gone is passed over.
    pub fn mark(&mut self, file: Option<(u64, u64)>)
        ensures
            final(self).inodes@ == marked(old(self).inodes@, file),
    {
        if let Some(key) = file {
            self.inodes.insert(key);
        }
    }
}

/// The stages of starting to watch, from `next` on, where each succeeds as `succeeds`
/// says, and how it ends.
pub open spec fn fs_run(
    next: FsNext,
    path_has_nul: bool,
    succeeds: spec_fn(FsStage) -> bool,
    fuel: nat,
) -> (Seq<FsStage>, FsNext)
    decreases fuel,
{
    match next {
        FsNext::Do(stage) => if fuel == 0 {
            (Seq::empty(), next)
        } else {
            let rest = fs_run(
                fs_next(stage, succeeds(stage), path_has_nul),
                path_has_nul,
                succeeds,
                (fuel - 1) as nat,
            );
            (seq![stage] + rest.0, rest.1)
        },
        _ => (Seq::empty(), next),
    }
}

/// A directory is watched once every stage was gone through, in this order; the pipe may
/// block, and the queue is always there.
pub proof fn law_start_stage_by_stage(succeeds: spec_fn(FsStage) -> bool)
    requires
        forall|stage: FsStage|
            !(stage is SetNonblocking || stage is CreateQueue) ==> #[trigger] succeeds(stage),
    ensures
        fs_run(fs_first(), false, succeeds, 8) == (
            seq![
                FsStage::Pipe,
                FsStage::SetNonblocking,
                FsStage::CreateString,
                FsStage::CreateArray,
                FsStage::CreateStream,
                FsStage::CreateQueue,
                FsStage::StartStream,
                FsStage::SpawnReader,
            ],
            FsNext::Started,
        ),
{
    reveal_with_fuel(fs_run, 9);
    let stages = fs_run(fs_first(), false, succeeds, 8).0;
    assert(stages =~= seq![
        FsStage::Pipe,
        FsStage::SetNonblocking,
        FsStage::CreateString,
        FsStage::CreateArray,
        FsStage::CreateStream,
        FsStage::CreateQueue,
        FsStage::StartStream,
        FsStage::SpawnReader,
    ]);
}

/// A start fails at the first stage that fails, with the error that belongs to it, and a
/// path with a zero byte in it fails before anything of the system's own is made of it.
pub proof fn law_start_fails_at_its_stage(stage: FsStage, path_has_nul: bool)
    ensures
        match stage {
            FsStage::Pipe => fs_next(stage, false, path_has_nul) == FsNext::Failed(
                FsEventsError::Pipe,
            ),
            FsStage::CreateString => fs_next(stage, false, path_has_nul) == FsNext::Failed(
                FsEventsError::CreateString,
            ),
            FsStage::CreateArray => fs_next(stage, false, path_has_nul) == FsNext::Failed(
                FsEventsError::CreateArray,
            ),
            FsStage::CreateStream => fs_next(stage, false, path_has_nul) == FsNext::Failed(
                FsEventsError::CreateStream,
            ),
            FsStage::StartStream => fs_next(stage, false, path_has_nul) == FsNext::Failed(
                FsEventsError::StartStream,
            ),
            FsStage::SpawnReader => fs_next(stage, false, path_has_nul) == FsNext::Failed(
                FsEventsError::SpawnReader,
            ),
            FsStage::SetNonblocking => fs_next(stage, true, true) == FsNext::Failed(
                FsEventsError::PathContainsNul,
            ) && fs_next(stage, false, path_has_nul) == fs_next(stage, true, path_has_nul),
            FsStage::CreateQueue => fs_next(stage, false, path_has_nul) == fs_next(
                stage,
                true,
                path_has_nul,
            ),
        },
        !(stage is SetNonblocking) ==> !(fs_next(stage, true, path_has_nul) is Failed),
{
}

/// Each path that is told takes two writes, the path itself and a newline, in the order of
/// the paths; one that is missing takes none.
pub proof fn law_paths_are_written(paths: Seq<Option<Vec<u8>>>, path: Vec<u8>)
    ensures
        path_writes(paths.push(None)) == path_writes(paths),
        path_writes(paths.push(Some(path))) == path_writes(paths).push(path@).push(seq![10u8]),
        path_writes(Seq::empty()).len() == 0,
{
    assert(paths.push(None).drop_last() =~= paths);
    assert(paths.push(Some(path)).drop_last() =~= paths);
}

/// What is done with a line and with the file that it names: an empty line is passed over,
/// one that cannot be read ends the thread, and any other names a file, which is marked
/// unless it is gone.
pub proof fn law_lines_are_told_apart(
    line: Option<usize>,
    stale: Set<(u64, u64)>,
    key: (u64, u64),
    other: (u64, u64),
)
    ensures
        line_action(line) is Stop <==> line is None,
        line_action(line) is Skip <==> line == Some(0usize),
        line_action(line) is LookUp <==> line is Some && line->0 > 0,
        marked(stale, None) == stale,
        marked(stale, Some(key)).contains(other) <==> stale.contains(other) || other == key,
{
}

} // verus!
