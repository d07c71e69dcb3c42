//! The walk below a root, one directory listing at a time.

use crate::error::{IoFailure, ValidationError};
use crate::file_discovery::{DiscoveryStats, FileDiscovery};
use crate::paths::{join, joined};
use crate::text::{chars_of, has_char, push_all, string_of};
use vstd::prelude::*;

verus! {

/// What an entry of a directory is, links followed.
#[derive(Clone, Copy, Debug, PartialEq, Eq, Structural)]
pub enum EntryKind {
    File,
    Directory,
    /// Neither a file nor a directory.
    Other,
}

/// One entry of a directory listing.
#[derive(Clone, Debug, PartialEq, Eq)]
pub struct DirEntry {
    /// The name of the entry within its directory.
    pub name: String,
    /// Whether the entry is a symbolic link.
    pub is_symlink: bool,
    /// What the entry is, or nothing where it could not be examined.
    pub kind: Option<EntryKind>,
}

/// What the walk asks for next.
#[derive(Clone, Debug, PartialEq, Eq)]
pub enum WalkAction {
    /// List this directory.
    List { directory: String },
    /// The walk is over.
    Finish,
}

/// How many `/` stand in `s`.
pub open spec fn separators(s: Seq<char>) -> nat
    decreases s.len(),
{
    if s.len() == 0 {
        0
    } else {
        separators(s.drop_last()) + if s.last() == '/' {
            1nat
        } else {
            0nat
        }
    }
}

/// The separators of two texts in a row are those of the one and those of
/// the other.
pub proof fn lemma_separators_add(a: Seq<char>, b: Seq<char>)
    ensures
        separators(a + b) == separators(a) + separators(b),
    decreases b.len(),
{
    if b.len() == 0 {
        assert(a + b =~= a);
    } else {
        lemma_separators_add(a, b.drop_last());
        assert((a + b).drop_last() =~= a + b.drop_last());
    }
}

/// A text without `/` has no separator.
pub proof fn lemma_no_separator(s: Seq<char>)
    requires
        !s.contains('/'),
    ensures
        separators(s) == 0,
    decreases s.len(),
{
    if s.len() > 0 {
        assert(s.last() == s[s.len() - 1]);
        assert forall|k: int| 0 <= k < s.drop_last().len() implies s.drop_last()[k] != '/' by {
            assert(s.drop_last()[k] == s[k]);
        }
        lemma_no_separator(s.drop_last());
    }
}

/// The path of what lies at `relative` below `root`: the root itself for
/// the empty relative path.
pub open spec fn located(root: Seq<char>, relative: Seq<char>) -> Seq<char> {
    if relative.len() == 0 {
        root
    } else {
        join(root, relative)
    }
}

/// The relative path of the entry `name` of the directory at `relative`.
pub open spec fn child(relative: Seq<char>, name: Seq<char>) -> Seq<char> {
    if relative.len() == 0 {
        name
    } else {
        relative + seq!['/'] + name
    }
}

/// The depth of the entries of the directory at `relative`: 0 for the root.
pub open spec fn depth_below(relative: Seq<char>) -> nat {
    if relative.len() == 0 {
        0
    } else {
        separators(relative) + 1
    }
}

/// Whether an entry at depth `depth` is within the limit.
pub open spec fn within(limit: Option<usize>, depth: nat) -> bool {
    match limit {
        Some(m) => depth <= m,
        None => true,
    }
}

/// A directory that is still to be listed.
#[derive(Clone, Debug, PartialEq, Eq)]
pub struct PendingDir {
    /// Where the directory lies below the root; empty for the root.
    pub relative: String,
    /// The depth of its entries.
    pub depth: usize,
}

/// Whether the walk looks at the entry `e` at all: it is no symbolic link,
/// or the walk follows such links.
pub open spec fn regarded(d: &FileDiscovery, e: DirEntry) -> bool {
    !e.is_symlink || d.follows_symlinks()
}

/// Whether the name of the entry is a name: it is not empty and holds no
/// `/`.
pub open spec fn named(e: DirEntry) -> bool {
    e.name@.len() > 0 && !e.name@.contains('/')
}

/// Whether the entry `e` of the directory at `relative` below `root` is
/// emitted: the walk looks at it, it is a file, and it passes the filters.
pub open spec fn emits(d: &FileDiscovery, root: Seq<char>, relative: Seq<char>, e: DirEntry) -> bool {
    regarded(d, e) && e.kind == Some(EntryKind::File) && named(e) && d.accepts(
        located(root, child(relative, e.name@)),
    )
}

/// Whether the entry `e` of a directory whose entries have the depth
/// `depth` is kept for listing: the walk looks at it, it is a directory,
/// and its own entries are within the limit.
pub open spec fn descends(d: &FileDiscovery, depth: usize, e: DirEntry) -> bool {
    regarded(d, e) && e.kind == Some(EntryKind::Directory) && named(e) && (match d.depth_limit() {
        Some(m) => depth < m,
        None => depth < usize::MAX,
    })
}

/// Whether the entry `e` counts as a failure: the walk looks at it, and it
/// could not be examined or has no name.
pub open spec fn fails(d: &FileDiscovery, e: DirEntry) -> bool {
    regarded(d, e) && (e.kind is None || !named(e))
}

/// Where the entries of `entries` that are emitted lie below the root, in
/// the order of the listing.
pub open spec fn emitted(
    d: &FileDiscovery,
    root: Seq<char>,
    relative: Seq<char>,
    entries: Seq<DirEntry>,
) -> Seq<Seq<char>>
    decreases entries.len(),
{
    if entries.len() == 0 {
        Seq::<Seq<char>>::empty()
    } else {
        let before = emitted(d, root, relative, entries.drop_last());
        if emits(d, root, relative, entries.last()) {
            before.push(child(relative, entries.last().name@))
        } else {
            before
        }
    }
}

/// Where the entries of `entries` that are kept for listing lie below the
/// root, in the order of the listing.
pub open spec fn descended(
    d: &FileDiscovery,
    relative: Seq<char>,
    depth: usize,
    entries: Seq<DirEntry>,
) -> Seq<Seq<char>>
    decreases entries.len(),
{
    if entries.len() == 0 {
        Seq::<Seq<char>>::empty()
    } else {
        let before = descended(d, relative, depth, entries.drop_last());
        if descends(d, depth, entries.last()) {
            before.push(child(relative, entries.last().name@))
        } else {
            before
        }
    }
}

/// How many of the entries count as failures.
pub open spec fn failed(d: &FileDiscovery, entries: Seq<DirEntry>) -> nat
    decreases entries.len(),
{
    if entries.len() == 0 {
        0
    } else {
        failed(d, entries.drop_last()) + if fails(d, entries.last()) {
            1nat
        } else {
            0nat
        }
    }
}

/// `n`, or the largest count where `n` is beyond counting.
pub open spec fn counted(n: nat) -> nat {
    if n <= usize::MAX {
        n
    } else {
        usize::MAX as nat
    }
}

/// The paths of what lies at `relative` below `root`, one for each.
pub open spec fn located_all(root: Seq<char>, relative: Seq<Seq<char>>) -> Seq<Seq<char>> {
    relative.map_values(|r: Seq<char>| located(root, r))
}

/// A walk under way.
#[derive(Clone, Debug, PartialEq, Eq)]
pub struct Walk {
    root: String,
    pending: Vec<PendingDir>,
    current: Option<PendingDir>,
    found: Vec<String>,
    found_relative: Vec<String>,
    errors: usize,
}

/// Whether the directory `dir` is one whose entries are within the limit.
pub open spec fn listable(dir: PendingDir, limit: Option<usize>) -> bool {
    dir.depth == depth_below(dir.relative@) && within(limit, dir.depth as nat)
}

impl Walk {
    /// The root of the walk.
    pub closed spec fn root(&self) -> Seq<char> {
        self.root@
    }

    /// The files found so far.
    pub closed spec fn files(&self) -> Seq<Seq<char>> {
        self.found@.map_values(|f: String| f@)
    }

    /// Where the files found so far lie below the root.
    pub closed spec fn relative_files(&self) -> Seq<Seq<char>> {
        self.found_relative@.map_values(|f: String| f@)
    }

    /// Where the directory whose listing the walk waits for lies below the
    /// root, and the depth of its entries.
    pub closed spec fn awaited_dir(&self) -> Option<(Seq<char>, usize)> {
        match self.current {
            Some(dir) => Some((dir.relative@, dir.depth)),
            None => None,
        }
    }

    /// Where the directories that are still to be listed lie below the
    /// root; the last is listed next.
    pub closed spec fn queue(&self) -> Seq<Seq<char>> {
        self.pending@.map_values(|dir: PendingDir| dir.relative@)
    }

    /// How many entries could not be examined.
    pub closed spec fn failures(&self) -> nat {
        self.errors as nat
    }

    /// Whether the walk is in order for the filters `d`: every file found
    /// lies where its relative path says, passes the filters and is within
    /// the depth limit; and every directory still to be listed is one whose
    /// entries are.
    pub closed spec fn well_formed(&self, d: &FileDiscovery) -> bool {
        &&& self.found@.len() == self.found_relative@.len()
        &&& forall|i: int|
            0 <= i < self.found@.len() ==> {
                &&& (#[trigger] self.found@[i])@ == located(self.root@, self.found_relative@[i]@)
                &&& d.accepts(self.found@[i]@)
                &&& within(d.depth_limit(), separators(self.found_relative@[i]@))
            }
        &&& forall|i: int|
            0 <= i < self.pending@.len() ==> listable(#[trigger] self.pending@[i], d.depth_limit())
        &&& self.current matches Some(dir) ==> listable(dir, d.depth_limit())
    }

    /// Begins a walk at `root`, given what the root is. A root that cannot
    /// be examined fails the walk. A root that is a file is the walk's only
    /// candidate; a root that is a directory is the first to be listed.
    pub fn begin(d: &FileDiscovery, root: &str, probe: Result<EntryKind, IoFailure>) -> (r: Result<
        Walk,
        ValidationError,
    >)
        ensures
            match probe {
                Err(io) => r == Err::<Walk, ValidationError>(ValidationError::Io(io)),
                Ok(kind) => r matches Ok(walk) && {
                    &&& walk.well_formed(d)
                    &&& walk.root() == root@
                    &&& walk.awaited_dir() is None
                    &&& walk.failures() == 0
                    &&& walk.queue() == if kind == EntryKind::Directory {
                        seq![Seq::<char>::empty()]
                    } else {
                        Seq::<Seq<char>>::empty()
                    }
                    &&& walk.files() == if kind == EntryKind::File && d.accepts(root@) {
                        seq![root@]
                    } else {
                        Seq::<Seq<char>>::empty()
                    }
                },
            },
    {
        let kind = match probe {
            Ok(kind) => kind,
            Err(io) => {
                return Err(ValidationError::Io(io));
            },
        };
        let mut walk = Walk {
            root: root.to_owned(),
            pending: Vec::new(),
            current: None,
            found: Vec::new(),
            found_relative: Vec::new(),
            errors: 0,
        };
        match kind {
            EntryKind::File => {
                if d.should_process(root) {
                    walk.found.push(root.to_owned());
                    walk.found_relative.push(String::new());
                    assert(walk.files() =~= seq![root@]);
                } else {
                    assert(walk.files() =~= Seq::<Seq<char>>::empty());
                }
            },
            EntryKind::Directory => {
                walk.pending.push(PendingDir { relative: String::new(), depth: 0 });
                assert(walk.files() =~= Seq::<Seq<char>>::empty());
                assert(walk.queue() =~= seq![Seq::<char>::empty()]);
            },
            EntryKind::Other => {
                assert(walk.files() =~= Seq::<Seq<char>>::empty());
            },
        }
        if kind != EntryKind::Directory {
            assert(walk.queue() =~= Seq::<Seq<char>>::empty());
        }
        Ok(walk)
    }

    /// Says what the walk needs next: the listing it still waits for, or
    /// that of the directory that was kept last, or nothing more.
    pub fn next(&mut self, d: &FileDiscovery) -> (action: WalkAction)
        requires
            old(self).well_formed(d),
        ensures
            final(self).well_formed(d),
            final(self).root() == old(self).root(),
            final(self).files() == old(self).files(),
            final(self).relative_files() == old(self).relative_files(),
            final(self).failures() == old(self).failures(),
            match old(self).awaited_dir() {
                Some(dir) => {
                    &&& final(self).awaited_dir() == Some(dir)
                    &&& final(self).queue() == old(self).queue()
                    &&& action matches WalkAction::List { directory }
                    &&& directory@ == located(old(self).root(), dir.0)
                },
                None => if old(self).queue().len() > 0 {
                    &&& final(self).awaited_dir() == Some(
                        (old(self).queue().last(), depth_below(old(self).queue().last()) as usize),
                    )
                    &&& final(self).queue() == old(self).queue().drop_last()
                    &&& action matches WalkAction::List { directory }
                    &&& directory@ == located(old(self).root(), old(self).queue().last())
                } else {
                    &&& final(self).awaited_dir() is None
                    &&& final(self).queue() == old(self).queue()
                    &&& action is Finish
                },
            },
    {
        if self.current.is_none() {
            if self.pending.len() == 0 {
                return WalkAction::Finish;
            }
            let ghost before = self.pending@;
            let dir = self.pending.pop();
            assert(dir == Some(before.last()));
            assert(self.queue() =~= old(self).queue().drop_last());
            assert forall|i: int| 0 <= i < self.pending@.len() implies listable(
                #[trigger] self.pending@[i],
                d.depth_limit(),
            ) by {
                assert(self.pending@[i] == before[i]);
            }
            self.current = dir;
        }
        match &self.current {
            Some(dir) => WalkAction::List { directory: self.locate(dir.relative.as_str()) },
            None => WalkAction::Finish,
        }
    }

    /// The path of what lies at `relative` below the root.
    fn locate(&self, relative: &str) -> (path: String)
        ensures
            path@ == located(self.root@, relative@),
    {
        let rel = chars_of(relative);
        if rel.len() == 0 {
            self.root.clone()
        } else {
            string_of(&joined(&chars_of(self.root.as_str()), &rel))
        }
    }

    /// Takes in the listing of the directory that the walk waits for, or
    /// the news that it could not be listed.
    ///
    /// A directory that cannot be listed counts as one failure and is left
    /// behind. Of the entries, symbolic links are passed over unless the
    /// walk follows them. A file is emitted if it passes the filters. A
    /// directory is kept for listing unless its entries would lie deeper
    /// than the limit. An entry that could not be examined, or whose name is
    /// no name, counts as a failure. Nothing else stops the walk. A listing
    /// that the walk does not wait for changes nothing.
    pub fn listed(&mut self, d: &FileDiscovery, entries: Option<Vec<DirEntry>>)
        requires
            old(self).well_formed(d),
        ensures
            final(self).well_formed(d),
            final(self).root() == old(self).root(),
            final(self).awaited_dir() is None,
            final(self).files() == located_all(final(self).root(), final(self).relative_files()),
            match (old(self).awaited_dir(), entries) {
                (Some(dir), Some(es)) => {
                    &&& final(self).relative_files() == old(self).relative_files() + emitted(
                        d,
                        old(self).root(),
                        dir.0,
                        es@,
                    )
                    &&& final(self).queue() == old(self).queue() + descended(d, dir.0, dir.1, es@)
                    &&& final(self).failures() == counted(old(self).failures() + failed(d, es@))
                },
                (Some(dir), None) => {
                    &&& final(self).relative_files() == old(self).relative_files()
                    &&& final(self).queue() == old(self).queue()
                    &&& final(self).failures() == counted(old(self).failures() + 1)
                },
                (None, _) => {
                    &&& final(self).relative_files() == old(self).relative_files()
                    &&& final(self).queue() == old(self).queue()
                    &&& final(self).failures() == old(self).failures()
                },
            },
    {
        proof {
            self.lemma_located(d);
        }
        let dir = match self.current.take() {
            Some(dir) => dir,
            None => {
                return ;
            },
        };
        let entries = match entries {
            Some(entries) => entries,
            None => {
                self.note_failure(d);
                proof {
                    self.lemma_located(d);
                }
                return ;
            },
        };
        let relative = chars_of(dir.relative.as_str());
        let mut i: usize = 0;
        assert(self.relative_files() =~= old(self).relative_files() + emitted(
            d,
            self.root@,
            dir.relative@,
            entries@.take(0),
        ));
        assert(self.queue() =~= old(self).queue() + descended(
            d,
            dir.relative@,
            dir.depth,
            entries@.take(0),
        ));
        while i < entries.len()
            invariant
                i <= entries.len(),
                self.well_formed(d),
                self.current is None,
                self.root == old(self).root,
                relative@ == dir.relative@,
                listable(dir, d.depth_limit()),
                self.relative_files() == old(self).relative_files() + emitted(
                    d,
                    self.root@,
                    dir.relative@,
                    entries@.take(i as int),
                ),
                self.queue() == old(self).queue() + descended(
                    d,
                    dir.relative@,
                    dir.depth,
                    entries@.take(i as int),
                ),
                self.failures() == counted(
                    old(self).failures() + failed(d, entries@.take(i as int)),
                ),
            decreases entries.len() - i,
        {
            assert(entries@.take(i + 1).drop_last() =~= entries@.take(i as int));
            assert(entries@.take(i + 1).last() == entries@[i as int]);
            self.take_in(d, &dir, &relative, &entries[i]);
            i = i + 1;
        }
        assert(entries@.take(entries.len() as int) =~= entries@);
        proof {
            self.lemma_located(d);
        }
    }

    /// In a walk in order, every file lies where its relative path says.
    proof fn lemma_located(&self, d: &FileDiscovery)
        requires
            self.well_formed(d),
        ensures
            self.files() == located_all(self.root@, self.relative_files()),
    {
        assert(self.files() =~= located_all(self.root@, self.relative_files()));
    }

    /// Takes in one entry of the directory `dir`.
    fn take_in(&mut self, d: &FileDiscovery, dir: &PendingDir, relative: &Vec<char>, entry: &DirEntry)
        requires
            old(self).well_formed(d),
            relative@ == dir.relative@,
            listable(*dir, d.depth_limit()),
        ensures
            final(self).well_formed(d),
            final(self).root == old(self).root,
            final(self).current == old(self).current,
            final(self).relative_files() == old(self).relative_files() + if emits(
                d,
                old(self).root@,
                dir.relative@,
                *entry,
            ) {
                seq![child(dir.relative@, entry.name@)]
            } else {
                Seq::<Seq<char>>::empty()
            },
            final(self).queue() == old(self).queue() + if descends(d, dir.depth, *entry) {
                seq![child(dir.relative@, entry.name@)]
            } else {
                Seq::<Seq<char>>::empty()
            },
            final(self).failures() == counted(
                old(self).failures() + if fails(d, *entry) {
                    1nat
                } else {
                    0nat
                },
            ),
    {
        let ghost none = Seq::<Seq<char>>::empty();
        assert(self.relative_files() + none =~= self.relative_files());
        assert(self.queue() + none =~= self.queue());
        if entry.is_symlink && !d.follow_symlinks() {
            return ;
        }
        let kind = match entry.kind {
            Some(kind) => kind,
            None => {
                self.note_failure(d);
                return ;
            },
        };
        let name = chars_of(entry.name.as_str());
        if name.len() == 0 || has_char(&name, '/') {
            self.note_failure(d);
            return ;
        }
        // Where the entry lies below the root.
        let mut below: Vec<char> = Vec::new();
        if relative.len() > 0 {
            push_all(&mut below, relative);
            below.push('/');
        }
        push_all(&mut below, &name);
        proof {
            assert(below@ =~= child(relative@, name@));
            lemma_no_separator(name@);
            if relative.len() > 0 {
                lemma_separators_add(relative@ + seq!['/'], name@);
                lemma_separators_add(relative@, seq!['/']);
                assert(seq!['/'].len() == 1 && seq!['/'].last() == '/');
                assert(seq!['/'].drop_last() =~= Seq::<char>::empty());
                assert(separators(seq!['/'].drop_last()) == 0);
                assert(separators(seq!['/']) == 1);
            }
            assert(separators(below@) == dir.depth);
            assert(below@.len() > 0);
        }
        let below_text = string_of(&below);
        match kind {
            EntryKind::File => {
                let path = self.locate(below_text.as_str());
                if d.should_process(path.as_str()) {
                    self.emit(d, path, below_text);
                    assert(self.relative_files() =~= old(self).relative_files() + seq![
                        child(dir.relative@, entry.name@),
                    ]);
                }
            },
            EntryKind::Directory => {
                let deeper = match d.max_depth() {
                    Some(m) => dir.depth < m,
                    None => dir.depth < usize::MAX,
                };
                if deeper {
                    self.enqueue(d, PendingDir { relative: below_text, depth: dir.depth + 1 });
                    assert(self.queue() =~= old(self).queue() + seq![
                        child(dir.relative@, entry.name@),
                    ]);
                }
            },
            EntryKind::Other => {},
        }
    }

    /// Counts an entry that could not be examined.
    fn note_failure(&mut self, d: &FileDiscovery)
        requires
            old(self).well_formed(d),
        ensures
            final(self).well_formed(d),
            final(self).root == old(self).root,
            final(self).current == old(self).current,
            final(self).found == old(self).found,
            final(self).found_relative == old(self).found_relative,
            final(self).pending == old(self).pending,
            final(self).failures() == counted(old(self).failures() + 1),
    {
        self.errors = self.errors.saturating_add(1);
    }

    /// Emits the file `path`, which lies at `below`.
    fn emit(&mut self, d: &FileDiscovery, path: String, below: String)
        requires
            old(self).well_formed(d),
            path@ == located(old(self).root@, below@),
            d.accepts(path@),
            within(d.depth_limit(), separators(below@)),
        ensures
            final(self).well_formed(d),
            final(self).root == old(self).root,
            final(self).current == old(self).current,
            final(self).pending == old(self).pending,
            final(self).errors == old(self).errors,
            final(self).files() == old(self).files().push(path@),
            final(self).relative_files() == old(self).relative_files().push(below@),
    {
        let ghost found_before = self.found@;
        let ghost found_relative_before = self.found_relative@;
        self.found.push(path);
        self.found_relative.push(below);
        assert(self.files() =~= old(self).files().push(path@));
        assert(self.relative_files() =~= old(self).relative_files().push(below@));
        assert forall|k: int| 0 <= k < self.found@.len() implies {
            &&& (#[trigger] self.found@[k])@ == located(self.root@, self.found_relative@[k]@)
            &&& d.accepts(self.found@[k]@)
            &&& within(d.depth_limit(), separators(self.found_relative@[k]@))
        } by {
            if k < found_before.len() {
                assert(self.found@[k] == found_before[k]);
                assert(self.found_relative@[k] == found_relative_before[k]);
            }
        }
    }

    /// Keeps the directory `dir` for listing.
    fn enqueue(&mut self, d: &FileDiscovery, dir: PendingDir)
        requires
            old(self).well_formed(d),
            listable(dir, d.depth_limit()),
        ensures
            final(self).well_formed(d),
            final(self).root == old(self).root,
            final(self).current == old(self).current,
            final(self).found == old(self).found,
            final(self).found_relative == old(self).found_relative,
            final(self).errors == old(self).errors,
            final(self).queue() == old(self).queue().push(dir.relative@),
    {
        let ghost pending_before = self.pending@;
        self.pending.push(dir);
        assert(self.queue() =~= old(self).queue().push(dir.relative@));
        assert forall|k: int| 0 <= k < self.pending@.len() implies listable(
            #[trigger] self.pending@[k],
            d.depth_limit(),
        ) by {
            if k < pending_before.len() {
                assert(self.pending@[k] == pending_before[k]);
            }
        }
    }

    /// What the walk has found so far.
    pub fn stats(&self) -> (s: DiscoveryStats)
        ensures
            s.files_found == self.files().len(),
            s.errors == self.failures(),
    {
        DiscoveryStats { files_found: self.found.len(), errors: self.errors }
    }

    /// The files that the walk found, in the order of their finding.
    pub fn into_files(self) -> (files: Vec<String>)
        ensures
            files.deep_view() == self.files(),
    {
        assert(self.found.deep_view() =~= self.files());
        self.found
    }

    /// Where the files that the walk found lie below the root, in the order
    /// of their finding.
    pub fn relative_paths(&self) -> (paths: &Vec<String>)
        ensures
            paths.deep_view() == self.relative_files(),
    {
        assert(self.found_relative.deep_view() =~= self.relative_files());
        &self.found_relative
    }
}

/// Filter correctness and the bound on depth: every file that a walk in
/// order has found lies below the root where its relative path says, passes
/// the filters, and has no more separators in its relative path than the
/// depth limit allows.
pub proof fn lemma_found_files(walk: Walk, d: FileDiscovery, i: int)
    requires
        walk.well_formed(&d),
        0 <= i < walk.files().len(),
    ensures
        walk.files().len() == walk.relative_files().len(),
        walk.files() == located_all(walk.root(), walk.relative_files()),
        walk.files()[i] == located(walk.root(), walk.relative_files()[i]),
        d.accepts(walk.files()[i]),
        d.depth_limit() matches Some(m) ==> separators(walk.relative_files()[i]) <= m,
{
    assert(walk.found@[i]@ == walk.files()[i]);
    assert(walk.files() =~= located_all(walk.root(), walk.relative_files()));
}

} // verus!
