//! A disk in memory.
//!
//! It answers the requests of the add-file machine the way a disk would, as
//! far as the machine can tell, and holds files and directories by their
//! full path. What putting a file together adds up to is stated and proved
//! on it; tests run on it.

use crate::addfile::{FsReply, FsRequest, ReplyView, RequestView};
use crate::assets::PathStat;
use crate::text::str_eq;
use vstd::prelude::*;

verus! {

/// What the disk holds at a path.
pub enum Node {
    /// A file and its content.
    File(Vec<u8>),
    /// A directory.
    Dir,
    /// Nothing any more.
    Removed,
}

/// What a disk holds at a path, over plain values.
pub enum NodeView {
    File(Seq<u8>),
    Dir,
}

/// One path of the disk and what is there.
pub struct DiskEntry {
    pub path: String,
    pub node: Node,
}

/// What is at the first entry for `path`, removed or not.
pub open spec fn raw_lookup(entries: Seq<DiskEntry>, path: Seq<char>) -> Option<Node>
    decreases entries.len(),
{
    if entries.len() == 0 {
        None
    } else if entries[0].path@ == path {
        Some(entries[0].node)
    } else {
        raw_lookup(entries.drop_first(), path)
    }
}

/// What a node stands for.
pub open spec fn node_view(node: Option<Node>) -> Option<NodeView> {
    match node {
        Some(Node::File(content)) => Some(NodeView::File(content@)),
        Some(Node::Dir) => Some(NodeView::Dir),
        Some(Node::Removed) => None,
        None => None,
    }
}

/// What a disk answers to a request, and what it holds afterwards.
pub open spec fn perform_spec(disk: Map<Seq<char>, NodeView>, request: RequestView) -> (
    Map<Seq<char>, NodeView>,
    ReplyView,
) {
    match request {
        RequestView::Stat { path } => (
            disk,
            ReplyView::Stat(
                if !disk.contains_key(path) {
                    PathStat::Missing
                } else if disk[path] is Dir {
                    PathStat::Dir
                } else {
                    PathStat::File
                },
            ),
        ),
        RequestView::CreateDirAll { path } => if disk.contains_key(path) && disk[path] is File {
            (disk, ReplyView::Failed)
        } else {
            (disk.insert(path, NodeView::Dir), ReplyView::Done)
        },
        RequestView::CreateFile { path } => if disk.contains_key(path) && disk[path] is Dir {
            (disk, ReplyView::Failed)
        } else {
            (disk.insert(path, NodeView::File(Seq::empty())), ReplyView::Done)
        },
        RequestView::Append { path, bytes } => if disk.contains_key(path) && disk[path] is File {
            (disk.insert(path, NodeView::File(disk[path]->File_0 + bytes)), ReplyView::Done)
        } else {
            (disk, ReplyView::Failed)
        },
        RequestView::Sync { path } => if disk.contains_key(path) && disk[path] is File {
            (disk, ReplyView::Done)
        } else {
            (disk, ReplyView::Failed)
        },
        RequestView::ReadAll { path } => if disk.contains_key(path) && disk[path] is File {
            (disk, ReplyView::Content(disk[path]->File_0))
        } else {
            (disk, ReplyView::Failed)
        },
        RequestView::Copy { from, to } => if disk.contains_key(from) && disk[from] is File && !(
        disk.contains_key(to) && disk[to] is Dir) {
            (disk.insert(to, disk[from]), ReplyView::Done)
        } else {
            (disk, ReplyView::Failed)
        },
        RequestView::Remove { path } => if disk.contains_key(path) && disk[path] is File {
            (disk.remove(path), ReplyView::Done)
        } else {
            (disk, ReplyView::Failed)
        },
    }
}

/// Replacing the first entry for a path changes what is found at that path
/// and nothing else.
pub proof fn lemma_lookup_update(entries: Seq<DiskEntry>, i: int, entry: DiskEntry, other: Seq<char>)
    requires
        0 <= i < entries.len(),
        entries[i].path@ == entry.path@,
        forall|j: int| 0 <= j < i ==> (#[trigger] entries[j]).path@ != entry.path@,
    ensures
        raw_lookup(entries.update(i, entry), other) == if other == entry.path@ {
            Some(entry.node)
        } else {
            raw_lookup(entries, other)
        },
    decreases i,
{
    let updated = entries.update(i, entry);
    if i == 0 {
        assert(updated.drop_first() =~= entries.drop_first());
    } else {
        assert(updated[0] == entries[0]);
        assert(updated.drop_first() =~= entries.drop_first().update(i - 1, entry));
        assert forall|j: int| 0 <= j < i - 1 implies (#[trigger] entries.drop_first()[j]).path@
            != entry.path@ by {
            assert(entries.drop_first()[j] == entries[j + 1]);
        }
        lemma_lookup_update(entries.drop_first(), i - 1, entry, other);
    }
}

/// Adding an entry for a path that has none changes what is found at that
/// path and nothing else.
pub proof fn lemma_lookup_push(entries: Seq<DiskEntry>, entry: DiskEntry, other: Seq<char>)
    requires
        raw_lookup(entries, entry.path@) is None,
    ensures
        raw_lookup(entries.push(entry), other) == if other == entry.path@ {
            Some(entry.node)
        } else {
            raw_lookup(entries, other)
        },
    decreases entries.len(),
{
    let pushed = entries.push(entry);
    if entries.len() == 0 {
        assert(pushed.drop_first() =~= entries);
    } else {
        assert(pushed[0] == entries[0]);
        assert(pushed.drop_first() =~= entries.drop_first().push(entry));
        lemma_lookup_push(entries.drop_first(), entry, other);
    }
}

/// A disk in memory.
pub struct MemoryDisk {
    entries: Vec<DiskEntry>,
}

impl MemoryDisk {
    /// What the disk holds, by path.
    pub closed spec fn view(&self) -> Map<Seq<char>, NodeView> {
        Map::new(
            |path: Seq<char>| node_view(raw_lookup(self.entries@, path)) is Some,
            |path: Seq<char>| node_view(raw_lookup(self.entries@, path))->0,
        )
    }

    /// An empty disk.
    pub fn new() -> (disk: MemoryDisk)
        ensures
            disk@ == Map::<Seq<char>, NodeView>::empty(),
    {
        let disk = MemoryDisk { entries: Vec::new() };
        assert(disk@ =~= Map::<Seq<char>, NodeView>::empty());
        disk
    }

    fn position(&self, path: &str) -> (found: Option<usize>)
        ensures
            match found {
                Some(i) => {
                    &&& i < self.entries@.len()
                    &&& self.entries@[i as int].path@ == path@
                    &&& forall|j: int| 0 <= j < i ==> (#[trigger] self.entries@[j]).path@ != path@
                    &&& raw_lookup(self.entries@, path@) == Some(self.entries@[i as int].node)
                },
                None => raw_lookup(self.entries@, path@) is None,
            },
    {
        let mut i: usize = 0;
        assert(self.entries@.skip(0) =~= self.entries@);
        while i < self.entries.len()
            invariant
                i <= self.entries.len(),
                raw_lookup(self.entries@, path@) == raw_lookup(self.entries@.skip(i as int), path@),
                forall|j: int| 0 <= j < i ==> (#[trigger] self.entries@[j]).path@ != path@,
            decreases self.entries.len() - i,
        {
            assert(self.entries@.skip(i as int)[0] == self.entries@[i as int]);
            assert(self.entries@.skip(i as int).drop_first() =~= self.entries@.skip(i + 1));
            if str_eq(self.entries[i].path.as_str(), path) {
                return Some(i);
            }
            i += 1;
        }
        None
    }

    fn put(&mut self, path: String, node: Node)
        ensures
            forall|other: Seq<char>|
                #[trigger] raw_lookup(final(self).entries@, other) == if other == path@ {
                    Some(node)
                } else {
                    raw_lookup(old(self).entries@, other)
                },
    {
        let ghost before = self.entries@;
        let entry = DiskEntry { path, node };
        match self.position(entry.path.as_str()) {
            Some(i) => {
                self.entries.set(i, entry);
                assert forall|other: Seq<char>|
                    #[trigger] raw_lookup(self.entries@, other) == if other == entry.path@ {
                        Some(entry.node)
                    } else {
                        raw_lookup(before, other)
                    } by {
                    lemma_lookup_update(before, i as int, entry, other);
                }
            },
            None => {
                self.entries.push(entry);
                assert forall|other: Seq<char>|
                    #[trigger] raw_lookup(self.entries@, other) == if other == entry.path@ {
                        Some(entry.node)
                    } else {
                        raw_lookup(before, other)
                    } by {
                    lemma_lookup_push(before, entry, other);
                }
            },
        }
    }

    fn store(&mut self, path: String, node: Node)
        ensures
            match node_view(Some(node)) {
                Some(view) => final(self)@ == old(self)@.insert(path@, view),
                None => final(self)@ == old(self)@.remove(path@),
            },
    {
        self.put(path, node);
        proof {
            match node_view(Some(node)) {
                Some(view) => {
                    assert(self@ =~= old(self)@.insert(path@, view));
                },
                None => {
                    assert(self@ =~= old(self)@.remove(path@));
                },
            }
        }
    }

    /// Performs a request the way a disk would and says what came of it.
    pub fn perform(&mut self, request: FsRequest) -> (reply: FsReply)
        ensures
            final(self)@ == perform_spec(old(self)@, request@).0,
            reply@ == perform_spec(old(self)@, request@).1,
    {
        match request {
            FsRequest::Stat { path } => FsReply::Stat(self.stat(path.as_str())),
            FsRequest::CreateDirAll { path } => match self.stat(path.as_str()) {
                PathStat::File => FsReply::Failed,
                _ => {
                    self.store(path, Node::Dir);
                    FsReply::Done
                },
            },
            FsRequest::CreateFile { path } => match self.stat(path.as_str()) {
                PathStat::Dir => FsReply::Failed,
                _ => {
                    self.store(path, Node::File(Vec::new()));
                    FsReply::Done
                },
            },
            FsRequest::Append { path, bytes } => match self.read(path.as_str()) {
                None => FsReply::Failed,
                Some(content) => {
                    let mut content = content;
                    let mut bytes = bytes;
                    let ghost head = content@;
                    let ghost tail = bytes@;
                    content.append(&mut bytes);
                    assert(content@ == head + tail);
                    self.store(path, Node::File(content));
                    FsReply::Done
                },
            },
            FsRequest::Sync { path } => match self.stat(path.as_str()) {
                PathStat::File => FsReply::Done,
                _ => FsReply::Failed,
            },
            FsRequest::ReadAll { path } => match self.read(path.as_str()) {
                None => FsReply::Failed,
                Some(content) => FsReply::Content(content),
            },
            FsRequest::Copy { from, to } => match self.read(from.as_str()) {
                None => FsReply::Failed,
                Some(content) => match self.stat(to.as_str()) {
                    PathStat::Dir => FsReply::Failed,
                    _ => {
                        self.store(to, Node::File(content));
                        FsReply::Done
                    },
                },
            },
            FsRequest::Remove { path } => match self.stat(path.as_str()) {
                PathStat::File => {
                    self.store(path, Node::Removed);
                    FsReply::Done
                },
                _ => FsReply::Failed,
            },
        }
    }

    /// The content of the file at `path`.
    pub fn read(&self, path: &str) -> (content: Option<Vec<u8>>)
        ensures
            match content {
                Some(bytes) => self@.contains_key(path@) && self@[path@] == NodeView::File(
                    bytes@,
                ),
                None => !(self@.contains_key(path@) && self@[path@] is File),
            },
    {
        match self.position(path) {
            None => None,
            Some(i) => match &self.entries[i].node {
                Node::File(content) => Some(content.clone()),
                _ => None,
            },
        }
    }

    /// What is at `path`.
    pub fn stat(&self, path: &str) -> (found: PathStat)
        ensures
            found == if !self@.contains_key(path@) {
                PathStat::Missing
            } else if self@[path@] is Dir {
                PathStat::Dir
            } else {
                PathStat::File
            },
    {
        match self.position(path) {
            None => PathStat::Missing,
            Some(i) => match &self.entries[i].node {
                Node::File(_) => PathStat::File,
                Node::Dir => PathStat::Dir,
                Node::Removed => PathStat::Missing,
            },
        }
    }
}

} // verus!
