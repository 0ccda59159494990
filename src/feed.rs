//! Installing a version of the language server from the package feed: the
//! download, the removal of superseded version directories, and a
//! breadth-first walk that marks every unpacked file executable. Like the
//! release resolution it is a state machine driven by its caller; unlike it,
//! every failure is an error.
use vstd::prelude::*;

use crate::release::DownloadedFileType;
use crate::text::{concat, owned, seq_views, str_eq};

verus! {

/// A package that the feed cannot serve is not expected: every failure of
/// the installation is surfaced as an error.
pub const MISSING_PACKAGE_IS_EXPECTED: bool = false;

#[derive(Clone, Copy, Debug, PartialEq, Eq, Structural)]
pub enum EntryKind {
    Dir,
    File,
    Other,
}

/// An entry of a directory listing: its file name and its full path.
pub struct DirEntry {
    pub name: String,
    pub path: String,
    pub kind: EntryKind,
}

/// What the installation asks its caller to do next.
pub enum FeedAction {
    /// Download from the url into the directory, unpacking as the type says.
    Download(String, String, DownloadedFileType),
    /// List the entries of a directory.
    ListDir(String),
    /// Remove a directory and all it holds; a failure is ignored.
    RemoveDir(String),
    /// Mark the file executable.
    MakeExecutable(String),
    /// The installation is over: the server's path, or why it failed.
    Done(Result<String, String>),
}

/// What the caller found when it did what was asked.
pub enum FeedEvent {
    Downloaded(Result<(), String>),
    Listed(Result<Vec<DirEntry>, String>),
    Removed,
    MadeExecutable(Result<(), String>),
}

#[derive(Clone, Copy, Debug, PartialEq, Eq, Structural)]
pub enum FeedStage {
    Downloading,
    ListingWorkdir,
    Removing,
    ListingVersion,
    ListingSubdir,
    Marking,
    Finished,
}

/// A directory of the working directory that an installation of
/// `version_dir` removes: another version's, never a file.
pub open spec fn is_stale(e: DirEntry, version_dir: Seq<char>) -> bool {
    e.kind == EntryKind::Dir && e.name@ != version_dir
}

/// The paths of the stale directories among `entries`, in order.
pub open spec fn stale_paths(entries: Seq<DirEntry>, version_dir: Seq<char>) -> Seq<Seq<char>>
    decreases entries.len(),
{
    if entries.len() == 0 {
        seq![]
    } else {
        let init = stale_paths(entries.drop_last(), version_dir);
        if is_stale(entries.last(), version_dir) {
            init.push(entries.last().path@)
        } else {
            init
        }
    }
}

/// The directories that an installation of `version_dir` removes from a
/// listing of the working directory.
pub fn stale_version_dirs(entries: &Vec<DirEntry>, version_dir: &str) -> (r: Vec<String>)
    ensures
        seq_views(r@) == stale_paths(entries@, version_dir@),
{
    let mut out: Vec<String> = Vec::new();
    let mut i: usize = 0;
    assert(entries@.take(0) =~= Seq::<DirEntry>::empty());
    assert(seq_views(out@) =~= Seq::<Seq<char>>::empty());
    while i < entries.len()
        invariant
            i <= entries@.len(),
            seq_views(out@) == stale_paths(entries@.take(i as int), version_dir@),
        decreases entries@.len() - i,
    {
        assert(entries@.take(i + 1).drop_last() =~= entries@.take(i as int));
        assert(entries@.take(i + 1).last() == entries@[i as int]);
        let e = &entries[i];
        let is_dir = match e.kind {
            EntryKind::Dir => true,
            _ => false,
        };
        if is_dir && !str_eq(e.name.as_str(), version_dir) {
            let ghost prev = out@;
            out.push(e.path.clone());
            assert(seq_views(out@) =~= seq_views(prev).push(e.path@));
        }
        i = i + 1;
    }
    assert(entries@.take(i as int) =~= entries@);
    out
}

/// Cleanup removes exactly the superseded version directories: every
/// directory of the listing but the one just installed, and nothing else;
/// files, and the new version's directory, stay.
pub proof fn lemma_cleanup_removes_only_stale(entries: Seq<DirEntry>, version_dir: Seq<char>)
    ensures
        forall|i: int|
            0 <= i < entries.len() && is_stale(entries[i], version_dir) ==> stale_paths(
                entries,
                version_dir,
            ).contains(entries[i].path@),
        forall|k: int|
            0 <= k < stale_paths(entries, version_dir).len() ==> exists|i: int|
                0 <= i < entries.len() && is_stale(entries[i], version_dir) && entries[i].path@
                    == #[trigger] stale_paths(entries, version_dir)[k],
    decreases entries.len(),
{
    if entries.len() > 0 {
        let init = entries.drop_last();
        lemma_cleanup_removes_only_stale(init, version_dir);
        let sp = stale_paths(entries, version_dir);
        let si = stale_paths(init, version_dir);
        assert forall|i: int|
            0 <= i < entries.len() && is_stale(entries[i], version_dir) implies sp.contains(
            entries[i].path@,
        ) by {
            if i < entries.len() - 1 {
                assert(entries[i] == init[i]);
                let j = choose|j: int| 0 <= j < si.len() && si[j] == entries[i].path@;
                assert(sp[j] == si[j]);
            } else {
                assert(sp[sp.len() - 1] == entries[i].path@);
            }
        }
        assert forall|k: int| 0 <= k < sp.len() implies exists|i: int|
            0 <= i < entries.len() && is_stale(entries[i], version_dir) && entries[i].path@
                == #[trigger] sp[k] by {
            if k < si.len() {
                let i = choose|i: int|
                    0 <= i < init.len() && is_stale(init[i], version_dir) && init[i].path@
                        == si[k];
                assert(entries[i] == init[i]);
                assert(sp[k] == si[k]);
            } else {
                assert(entries[entries.len() - 1] == entries.last());
            }
        }
    }
}

/// `n` moved back to `len` where it lies beyond it.
pub open spec fn clamp(n: usize, len: nat) -> int {
    if n <= len {
        n as int
    } else {
        len as int
    }
}

/// `r` is the walk's next step from position `from` of `q`, which it has
/// left at `to`: entries that are neither directories nor files are passed
/// over; the next directory is listed, the next file marked; once the queue
/// is used up the installation is over, with the server's path.
pub open spec fn walk_next(
    q: Seq<DirEntry>,
    from: int,
    to: int,
    r: FeedAction,
    binary_path: String,
    stage: FeedStage,
) -> bool {
    &&& from <= to <= q.len()
    &&& match r {
        FeedAction::ListDir(p) => from < to && q[to - 1].kind == EntryKind::Dir && p == q[to
            - 1].path && stage == FeedStage::ListingSubdir && forall|i: int|
            from <= i < to - 1 ==> #[trigger] q[i].kind == EntryKind::Other,
        FeedAction::MakeExecutable(p) => from < to && q[to - 1].kind == EntryKind::File && p
            == q[to - 1].path && stage == FeedStage::Marking && forall|i: int|
            from <= i < to - 1 ==> #[trigger] q[i].kind == EntryKind::Other,
        FeedAction::Done(res) => res == Ok::<String, String>(binary_path) && to == q.len()
            && stage == FeedStage::Finished && forall|i: int|
            from <= i < q.len() ==> #[trigger] q[i].kind == EntryKind::Other,
        _ => false,
    }
}

/// `r` goes on with the cleanup from the stale directory at `next`: it
/// removes that one, or lists the new version's directory once none is
/// left, to start the walk there.
pub open spec fn removal_next(next: int, f: PackageFeed, r: FeedAction) -> bool {
    if next < f.removals@.len() {
        r == FeedAction::RemoveDir(f.removals@[next]) && f.next_removal == next + 1 && f.stage
            == FeedStage::Removing
    } else {
        r == FeedAction::ListDir(f.version_dir) && f.stage == FeedStage::ListingVersion
            && f.queue@.len() == 0 && f.next_entry == 0
    }
}

/// The installation `f` ends with an error whose message is `m`.
pub open spec fn fails_with(f: PackageFeed, r: FeedAction, m: Seq<char>) -> bool {
    (r matches FeedAction::Done(Err(e)) && e@ == m) && f.stage == FeedStage::Finished
}

/// What one step of an installation does: from `old`, given `event`, it
/// reaches `new` and asks for `r`.
pub open spec fn feed_step_post(old: PackageFeed, new: PackageFeed, event: FeedEvent, r: FeedAction) -> bool {
    &&& new.wf()
    &&& new.url == old.url
    &&& new.binary_path == old.binary_path
    &&& new.version_dir == old.version_dir
    &&& match (old.stage, event) {
        (FeedStage::Downloading, FeedEvent::Downloaded(Ok(()))) => (r matches FeedAction::ListDir(
            d,
        ) && d@ == "."@) && new.stage == FeedStage::ListingWorkdir,
        (FeedStage::Downloading, FeedEvent::Downloaded(Err(e))) => fails_with(
            new,
            r,
            "failed to download file: "@ + e@,
        ),
        (FeedStage::ListingWorkdir, FeedEvent::Listed(Ok(entries))) => seq_views(new.removals@)
            == stale_paths(entries@, old.version_dir@) && removal_next(0, new, r),
        (FeedStage::ListingWorkdir, FeedEvent::Listed(Err(e))) => fails_with(
            new,
            r,
            "failed to list working directory "@ + e@,
        ),
        (FeedStage::Removing, FeedEvent::Removed) => new.removals == old.removals && removal_next(
            clamp(old.next_removal, old.removals@.len()),
            new,
            r,
        ),
        (FeedStage::ListingVersion, FeedEvent::Listed(Ok(entries))) => new.queue@ == old.queue@
            + entries@ && walk_next(
            new.queue@,
            clamp(old.next_entry, old.queue@.len()),
            new.next_entry as int,
            r,
            old.binary_path,
            new.stage,
        ),
        (FeedStage::ListingSubdir, FeedEvent::Listed(Ok(entries))) => new.queue@ == old.queue@
            + entries@ && walk_next(
            new.queue@,
            clamp(old.next_entry, old.queue@.len()),
            new.next_entry as int,
            r,
            old.binary_path,
            new.stage,
        ),
        (FeedStage::ListingVersion, FeedEvent::Listed(Err(e))) => fails_with(
            new,
            r,
            "failed to list version directory "@ + e@,
        ),
        (FeedStage::ListingSubdir, FeedEvent::Listed(Err(e))) => fails_with(
            new,
            r,
            "failed to list sub-directory "@ + e@,
        ),
        (FeedStage::Marking, FeedEvent::MadeExecutable(Ok(()))) => new.queue == old.queue
            && walk_next(
            old.queue@,
            clamp(old.next_entry, old.queue@.len()),
            new.next_entry as int,
            r,
            old.binary_path,
            new.stage,
        ),
        (FeedStage::Marking, FeedEvent::MadeExecutable(Err(e))) => fails_with(
            new,
            r,
            "failed to make file executable "@ + e@,
        ),
        _ => fails_with(new, r, "unexpected event while installing the language server"@),
    }
}

/// An installation in progress. `removals` are the stale directories still
/// to remove from `next_removal` on; `queue` holds the entries met by the
/// walk, of which those from `next_entry` on are still to visit.
pub struct PackageFeed {
    pub url: String,
    pub version_dir: String,
    pub binary_path: String,
    pub stage: FeedStage,
    pub removals: Vec<String>,
    pub next_removal: usize,
    pub queue: Vec<DirEntry>,
    pub next_entry: usize,
}

impl PackageFeed {
    /// Starts an installation: download the package from `url` into
    /// `version_dir`; the server will be at `binary_path`.
    pub fn new(url: String, version_dir: String, binary_path: String) -> (r: (PackageFeed, FeedAction))
        ensures
            r.0.url == url,
            r.0.version_dir == version_dir,
            r.0.binary_path == binary_path,
            r.0.stage == FeedStage::Downloading,
            r.0.wf(),
            r.1 matches FeedAction::Download(u, d, k) && u == url && d == version_dir && k
                == DownloadedFileType::Zip,
    {
        let action = FeedAction::Download(url.clone(), version_dir.clone(), DownloadedFileType::Zip);
        (
            PackageFeed {
                url,
                version_dir,
                binary_path,
                stage: FeedStage::Downloading,
                removals: Vec::new(),
                next_removal: 0,
                queue: Vec::new(),
                next_entry: 0,
            },
            action,
        )
    }

    /// Visits the next entry of the walk that needs work: a directory to
    /// list or a file to mark. Entries of any other kind are passed over.
    fn continue_walk(&mut self) -> (r: FeedAction)
        requires
            old(self).next_entry <= old(self).queue@.len(),
        ensures
            final(self).url == old(self).url,
            final(self).version_dir == old(self).version_dir,
            final(self).binary_path == old(self).binary_path,
            final(self).queue == old(self).queue,
            final(self).removals == old(self).removals,
            final(self).next_removal == old(self).next_removal,
            walk_next(
                old(self).queue@,
                old(self).next_entry as int,
                final(self).next_entry as int,
                r,
                old(self).binary_path,
                final(self).stage,
            ),
    {
        while self.next_entry < self.queue.len()
            invariant
                self.url == old(self).url,
                self.version_dir == old(self).version_dir,
                self.binary_path == old(self).binary_path,
                self.queue == old(self).queue,
                self.removals == old(self).removals,
                self.next_removal == old(self).next_removal,
                old(self).next_entry <= self.next_entry <= self.queue@.len(),
                forall|i: int|
                    old(self).next_entry <= i < self.next_entry ==> old(self).queue@[i].kind
                        == EntryKind::Other,
            decreases self.queue@.len() - self.next_entry,
        {
            let i = self.next_entry;
            self.next_entry = i + 1;
            match self.queue[i].kind {
                EntryKind::Dir => {
                    self.stage = FeedStage::ListingSubdir;
                    return FeedAction::ListDir(self.queue[i].path.clone());
                },
                EntryKind::File => {
                    self.stage = FeedStage::Marking;
                    return FeedAction::MakeExecutable(self.queue[i].path.clone());
                },
                EntryKind::Other => {},
            }
        }
        self.stage = FeedStage::Finished;
        FeedAction::Done(Ok(self.binary_path.clone()))
    }

    /// Adds a listing to the walk and goes on with it.
    fn enqueue(&mut self, entries: Vec<DirEntry>) -> (r: FeedAction)
        requires
            old(self).next_entry <= old(self).queue@.len(),
        ensures
            final(self).binary_path == old(self).binary_path,
            final(self).version_dir == old(self).version_dir,
            final(self).removals == old(self).removals,
            final(self).next_removal == old(self).next_removal,
            final(self).url == old(self).url,
            final(self).queue@ == old(self).queue@ + entries@,
            walk_next(
                final(self).queue@,
                old(self).next_entry as int,
                final(self).next_entry as int,
                r,
                old(self).binary_path,
                final(self).stage,
            ),
    {
        let mut entries = entries;
        self.queue.append(&mut entries);
        self.continue_walk()
    }

    /// Moves on to the next stale directory, or to the walk once none is left.
    fn continue_removal(&mut self) -> (r: FeedAction)
        requires
            old(self).next_removal <= old(self).removals@.len(),
            old(self).next_entry <= old(self).queue@.len(),
        ensures
            final(self).url == old(self).url,
            final(self).binary_path == old(self).binary_path,
            final(self).version_dir == old(self).version_dir,
            final(self).removals == old(self).removals,
            final(self).wf(),
            removal_next(old(self).next_removal as int, *final(self), r),
    {
        if self.next_removal < self.removals.len() {
            let i = self.next_removal;
            self.next_removal = i + 1;
            self.stage = FeedStage::Removing;
            FeedAction::RemoveDir(self.removals[i].clone())
        } else {
            self.stage = FeedStage::ListingVersion;
            self.queue = Vec::new();
            self.next_entry = 0;
            FeedAction::ListDir(self.version_dir.clone())
        }
    }

    pub open spec fn wf(&self) -> bool {
        &&& self.next_entry <= self.queue@.len()
        &&& self.next_removal <= self.removals@.len()
    }

    /// Takes in what the caller found and says what to do next.
    pub fn step(&mut self, event: FeedEvent) -> (r: FeedAction)
        ensures
            feed_step_post(*old(self), *final(self), event, r),
    {
        if self.next_entry > self.queue.len() {
            self.next_entry = self.queue.len();
        }
        if self.next_removal > self.removals.len() {
            self.next_removal = self.removals.len();
        }
        match (self.stage, event) {
            (FeedStage::Downloading, FeedEvent::Downloaded(Ok(()))) => {
                self.stage = FeedStage::ListingWorkdir;
                FeedAction::ListDir(owned("."))
            },
            (FeedStage::Downloading, FeedEvent::Downloaded(Err(e))) => {
                self.stage = FeedStage::Finished;
                FeedAction::Done(Err(concat("failed to download file: ", e.as_str())))
            },
            (FeedStage::ListingWorkdir, FeedEvent::Listed(Ok(entries))) => {
                self.removals = stale_version_dirs(&entries, self.version_dir.as_str());
                self.next_removal = 0;
                self.continue_removal()
            },
            (FeedStage::ListingWorkdir, FeedEvent::Listed(Err(e))) => {
                self.stage = FeedStage::Finished;
                FeedAction::Done(Err(concat("failed to list working directory ", e.as_str())))
            },
            (FeedStage::Removing, FeedEvent::Removed) => self.continue_removal(),
            (FeedStage::ListingVersion, FeedEvent::Listed(Ok(entries))) => self.enqueue(entries),
            (FeedStage::ListingSubdir, FeedEvent::Listed(Ok(entries))) => self.enqueue(entries),
            (FeedStage::ListingVersion, FeedEvent::Listed(Err(e))) => {
                self.stage = FeedStage::Finished;
                FeedAction::Done(Err(concat("failed to list version directory ", e.as_str())))
            },
            (FeedStage::ListingSubdir, FeedEvent::Listed(Err(e))) => {
                self.stage = FeedStage::Finished;
                FeedAction::Done(Err(concat("failed to list sub-directory ", e.as_str())))
            },
            (FeedStage::Marking, FeedEvent::MadeExecutable(Ok(()))) => self.continue_walk(),
            (FeedStage::Marking, FeedEvent::MadeExecutable(Err(e))) => {
                self.stage = FeedStage::Finished;
                FeedAction::Done(Err(concat("failed to make file executable ", e.as_str())))
            },
            _ => {
                self.stage = FeedStage::Finished;
                FeedAction::Done(Err(owned("unexpected event while installing the language server")))
            },
        }
    }
}

} // verus!
