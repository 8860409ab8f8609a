//! What the steps of putting a file together add up to.
//!
//! The driver runs the add-file machine against the disk in memory. Its
//! contract is the end-to-end statement: the file that is published holds
//! the chunks in the order in which they were named and has the announced
//! digest, the chunks have left the cache and the temporary file is gone;
//! an attempt that fails leaves the destination as it was and says why it
//! failed. Nothing but the destination, the directory that holds it and the
//! temporary file is ever written.

use crate::addfile::{
    begin_refusal, next_step, taken_chunk, temp_path_text, AddFile, AddFileView, FsRequest,
    Progress, ProgressView, ReplyView, RequestView, Stage, TEMP_TAG_LENGTH,
};
use crate::assets::AssetError;
use crate::chunks::{concat_chunks, id_views, stores_all, ChunkCache};
use crate::crypto::{all_alphanumeric, hex_lower, sha512_digest};
use crate::disk::{perform_spec, MemoryDisk, NodeView};
use crate::paths::ResolvedPath;
use crate::text::replaced;
use vstd::prelude::*;

verus! {

/// Whether two disks hold the same at `path`.
pub open spec fn same_at(a: Map<Seq<char>, NodeView>, b: Map<Seq<char>, NodeView>, path: Seq<char>) -> bool {
    a.contains_key(path) == b.contains_key(path) && (a.contains_key(path) ==> a[path] == b[path])
}

/// Whether the disk holds a file with this content at `path`.
pub open spec fn holds_file(disk: Map<Seq<char>, NodeView>, path: Seq<char>, content: Seq<u8>) -> bool {
    disk.contains_key(path) && disk[path] == NodeView::File(content)
}

/// The bytes of the first `count` chunks of a job, as `chunks` stores them.
pub open spec fn written(job: AddFileView, chunks: Map<Seq<char>, Seq<u8>>, count: int) -> Seq<u8> {
    concat_chunks(chunks, job.chunks.take(count))
}

/// The whole content of a job, as `chunks` stores it.
pub open spec fn whole(job: AddFileView, chunks: Map<Seq<char>, Seq<u8>>) -> Seq<u8> {
    concat_chunks(chunks, job.chunks)
}

/// Why the directory that is to hold the file stands against an attempt,
/// if it does: a file is in its place.
pub open spec fn parent_refusal(disk: Map<Seq<char>, NodeView>, parent: Seq<char>) -> Option<
    AssetError,
> {
    if disk.contains_key(parent) && disk[parent] is File {
        Some(AssetError::NotADirectory)
    } else {
        None
    }
}

/// Why what is on the disk stands against an attempt, if it does: a
/// directory at the destination, a file there that may not be replaced, or
/// a file where the directory for the destination should be.
pub open spec fn disk_refusal(
    disk: Map<Seq<char>, NodeView>,
    dest: Seq<char>,
    parent: Seq<char>,
    overwrite: bool,
) -> Option<AssetError> {
    if disk.contains_key(dest) && disk[dest] is Dir {
        Some(
            if overwrite {
                AssetError::ReplacesDirectory
            } else {
                AssetError::AlreadyExists
            },
        )
    } else if disk.contains_key(dest) && !overwrite {
        Some(AssetError::AlreadyExists)
    } else {
        parent_refusal(disk, parent)
    }
}

/// Whether the disk is as it was everywhere but at the destination, the
/// directory that holds it and the temporary file.
pub open spec fn others_same(
    disk: Map<Seq<char>, NodeView>,
    start: Map<Seq<char>, NodeView>,
    dest: Seq<char>,
    parent: Seq<char>,
    temp: Seq<char>,
) -> bool {
    forall|path: Seq<char>|
        path != dest && path != parent && path != temp ==> #[trigger] same_at(disk, start, path)
}

/// Whether the directory for the destination is as it was, or was missing
/// and has been made.
pub open spec fn parent_made(
    disk: Map<Seq<char>, NodeView>,
    start: Map<Seq<char>, NodeView>,
    parent: Seq<char>,
) -> bool {
    same_at(disk, start, parent) || (!start.contains_key(parent) && disk.contains_key(parent)
        && disk[parent] is Dir)
}

/// What holds of the disk once nothing on it stands against the attempt:
/// the destination is as it was, and so is every path that the attempt does
/// not write to.
pub open spec fn under_way(
    job: AddFileView,
    disk: Map<Seq<char>, NodeView>,
    start: Map<Seq<char>, NodeView>,
) -> bool {
    &&& disk_refusal(start, job.dest, job.parent, job.overwrite) is None
    &&& same_at(disk, start, job.dest)
    &&& others_same(disk, start, job.dest, job.parent, job.temp)
    &&& parent_made(disk, start, job.parent)
}

/// Whether an attempt is on track: the request that is pending is the one
/// of the stage, the temporary file holds the chunks written so far, and
/// the destination is as it was until the copy has been made.
pub open spec fn on_track(
    job: AddFileView,
    stage: Stage,
    request: RequestView,
    disk: Map<Seq<char>, NodeView>,
    start: Map<Seq<char>, NodeView>,
    chunks: Map<Seq<char>, Seq<u8>>,
) -> bool {
    match stage {
        Stage::StatDestination => request == (RequestView::Stat { path: job.dest }) && disk
            == start,
        Stage::StatParent => {
            &&& request == (RequestView::Stat { path: job.parent })
            &&& disk == start
            &&& !(start.contains_key(job.dest) && start[job.dest] is Dir)
            &&& !(start.contains_key(job.dest) && !job.overwrite)
        },
        Stage::CreateParent => {
            &&& request == (RequestView::CreateDirAll { path: job.parent })
            &&& disk == start
            &&& disk_refusal(start, job.dest, job.parent, job.overwrite) is None
            &&& !start.contains_key(job.parent)
        },
        Stage::CreateTemp => {
            &&& request == (RequestView::CreateFile { path: job.temp })
            &&& under_way(job, disk, start)
            &&& same_at(disk, start, job.temp)
        },
        Stage::Write(count) => {
            &&& 1 <= count <= job.chunks.len()
            &&& chunks.contains_key(job.chunks[count - 1])
            &&& request == (RequestView::Append {
                path: job.temp,
                bytes: chunks[job.chunks[count - 1]],
            })
            &&& holds_file(disk, job.temp, written(job, chunks, count - 1))
            &&& under_way(job, disk, start)
        },
        Stage::Sync => {
            &&& request == (RequestView::Sync { path: job.temp })
            &&& holds_file(disk, job.temp, whole(job, chunks))
            &&& under_way(job, disk, start)
        },
        Stage::ReadBack => {
            &&& request == (RequestView::ReadAll { path: job.temp })
            &&& holds_file(disk, job.temp, whole(job, chunks))
            &&& under_way(job, disk, start)
        },
        Stage::Publish => {
            &&& request == (RequestView::Copy { from: job.temp, to: job.dest })
            &&& holds_file(disk, job.temp, whole(job, chunks))
            &&& job.sha512 == hex_lower(sha512_digest(whole(job, chunks)))
            &&& under_way(job, disk, start)
        },
        Stage::Cleanup => {
            &&& request == (RequestView::Remove { path: job.temp })
            &&& holds_file(disk, job.temp, whole(job, chunks))
            &&& holds_file(disk, job.dest, whole(job, chunks))
            &&& job.sha512 == hex_lower(sha512_digest(whole(job, chunks)))
            &&& disk_refusal(start, job.dest, job.parent, job.overwrite) is None
            &&& others_same(disk, start, job.dest, job.parent, job.temp)
            &&& parent_made(disk, start, job.parent)
        },
        Stage::Done => false,
    }
}

/// How many steps an attempt has left at most.
pub open spec fn steps_left(stage: Stage, count: nat) -> nat {
    match stage {
        Stage::StatDestination => count + 9,
        Stage::StatParent => count + 8,
        Stage::CreateParent => count + 7,
        Stage::CreateTemp => count + 6,
        Stage::Write(written) => if written <= count {
            (count - written + 5) as nat
        } else {
            5
        },
        Stage::Sync => 4,
        Stage::ReadBack => 3,
        Stage::Publish => 2,
        Stage::Cleanup => 1,
        Stage::Done => 0,
    }
}

/// How many chunks have been handed out for writing when a stage is
/// reached.
pub open spec fn handed_out(stage: Stage, count: nat) -> int {
    match stage {
        Stage::Write(written) => written as int,
        Stage::Sync | Stage::ReadBack | Stage::Publish | Stage::Cleanup => count as int,
        _ => 0,
    }
}

/// Why an attempt that met no refusal at its start has failed with `error`:
/// a chunk had left the cache, the disk stood against it, the content had
/// another digest than announced, or a directory was in the place of the
/// temporary file. No other error ends an attempt on this disk.
pub open spec fn failure_cause(
    error: AssetError,
    job: AddFileView,
    start: Map<Seq<char>, NodeView>,
    chunks: Map<Seq<char>, Seq<u8>>,
) -> bool {
    match error {
        AssetError::ChunkMissing => true,
        AssetError::AlreadyExists | AssetError::ReplacesDirectory | AssetError::NotADirectory => {
            disk_refusal(start, job.dest, job.parent, job.overwrite) == Some(error)
        },
        AssetError::HashMismatch => {
            &&& disk_refusal(start, job.dest, job.parent, job.overwrite) is None
            &&& job.sha512 != hex_lower(sha512_digest(whole(job, chunks)))
        },
        AssetError::Io => {
            &&& disk_refusal(start, job.dest, job.parent, job.overwrite) is None
            &&& start.contains_key(job.temp) && start[job.temp] is Dir
        },
        _ => false,
    }
}

/// Whether `tag` can be the random part of a temporary file's name.
pub open spec fn is_temp_tag(tag: Seq<char>) -> bool {
    tag.len() == TEMP_TAG_LENGTH && all_alphanumeric(tag)
}

/// Whether an attempt has written nowhere but at the destination, in the
/// directory that holds it, and at a temporary file, which is gone again
/// where the attempt has succeeded.
pub open spec fn wrote_in_place(
    start: Map<Seq<char>, NodeView>,
    disk: Map<Seq<char>, NodeView>,
    dest: Seq<char>,
    parent: Seq<char>,
    published: bool,
) -> bool {
    disk == start || exists|tag: Seq<char>|
        {
            &&& is_temp_tag(tag)
            &&& #[trigger] others_same(disk, start, dest, parent, temp_path_text(tag, dest))
            &&& parent_made(disk, start, parent)
            &&& published ==> !disk.contains_key(temp_path_text(tag, dest))
        }
}

/// The temporary file is neither the destination nor the directory that
/// holds it: its name is longer than either.
pub proof fn lemma_temp_is_elsewhere(tag: Seq<char>, dir: Seq<char>, name: Seq<char>)
    requires
        name.len() > 0,
    ensures
        temp_path_text(tag, dir + seq!['/'] + name) != dir + seq!['/'] + name,
        temp_path_text(tag, dir + seq!['/'] + name) != dir,
        dir + seq!['/'] + name != dir,
{
    let dest = dir + seq!['/'] + name;
    let temp = temp_path_text(tag, dest);
    assert(replaced(dest, '/', '>').len() == dest.len());
    assert(temp.len() >= dest.len() + "/tmp/arcadia-cdn-file"@.len() + "@"@.len());
    reveal_strlit("@");
    assert(temp.len() > dest.len());
    assert(dest.len() > dir.len());
}

/// A part of a part of a map is a part of the map.
pub proof fn lemma_submap_chain(
    a: Map<Seq<char>, Seq<u8>>,
    b: Map<Seq<char>, Seq<u8>>,
    c: Map<Seq<char>, Seq<u8>>,
)
    requires
        a.submap_of(b),
        b.submap_of(c),
    ensures
        a.submap_of(c),
{
    assert forall|key: Seq<char>| #[trigger] a.dom().contains(key) implies c.dom().contains(key)
        && a[key] == c[key] by {
        assert(b.dom().contains(key));
        assert(c.dom().contains(key));
    }
}

/// One round of the driver keeps an attempt on track: after the disk has
/// performed the pending request and the machine has taken the reply,
/// either the attempt is on track at the next stage with fewer steps left
/// and at most one more chunk handed out, or it has ended: with the file
/// published, or with the destination as it was and for one of the causes
/// of a failure.
pub proof fn lemma_round(
    job: AddFileView,
    stage: Stage,
    request: RequestView,
    disk: Map<Seq<char>, NodeView>,
    start: Map<Seq<char>, NodeView>,
    chunks: Map<Seq<char>, Seq<u8>>,
    cache: Map<Seq<char>, Seq<u8>>,
)
    requires
        on_track(job, stage, request, disk, start, chunks),
        cache.submap_of(chunks),
        job.dest != job.temp,
        job.dest != job.parent,
        job.temp != job.parent,
        job.chunks.len() <= usize::MAX,
    ensures
        others_same(perform_spec(disk, request).0, start, job.dest, job.parent, job.temp),
        parent_made(perform_spec(disk, request).0, start, job.parent),
        match next_step(job, stage, perform_spec(disk, request).1, cache).progress {
            ProgressView::Continue(next) => {
                &&& on_track(
                    job,
                    next_step(job, stage, perform_spec(disk, request).1, cache).stage,
                    next,
                    perform_spec(disk, request).0,
                    start,
                    chunks,
                )
                &&& steps_left(
                    next_step(job, stage, perform_spec(disk, request).1, cache).stage,
                    job.chunks.len(),
                ) < steps_left(stage, job.chunks.len())
                &&& handed_out(
                    next_step(job, stage, perform_spec(disk, request).1, cache).stage,
                    job.chunks.len(),
                ) == handed_out(stage, job.chunks.len()) + (if taken_chunk(
                    job,
                    stage,
                    perform_spec(disk, request).1,
                ) is Some {
                    1int
                } else {
                    0int
                })
                &&& taken_chunk(job, stage, perform_spec(disk, request).1) matches Some(id)
                    ==> 0 <= handed_out(stage, job.chunks.len()) < job.chunks.len() && id
                    == job.chunks[handed_out(stage, job.chunks.len())]
            },
            ProgressView::Finished(Ok(())) => {
                &&& holds_file(perform_spec(disk, request).0, job.dest, whole(job, chunks))
                &&& job.sha512 == hex_lower(sha512_digest(whole(job, chunks)))
                &&& !perform_spec(disk, request).0.contains_key(job.temp)
                &&& disk_refusal(start, job.dest, job.parent, job.overwrite) is None
                &&& handed_out(stage, job.chunks.len()) == job.chunks.len()
            },
            ProgressView::Finished(Err(e)) => {
                &&& same_at(perform_spec(disk, request).0, start, job.dest)
                &&& failure_cause(e, job, start, chunks)
                &&& e == AssetError::ChunkMissing ==> (taken_chunk(
                    job,
                    stage,
                    perform_spec(disk, request).1,
                ) matches Some(id) && !cache.contains_key(id))
            },
        },
{
    let after = perform_spec(disk, request).0;
    let reply = perform_spec(disk, request).1;
    let step = next_step(job, stage, reply, cache);
    let count = job.chunks.len();
    assert(job.chunks.take(0) =~= Seq::<Seq<char>>::empty());
    assert(job.chunks.take(count as int) =~= job.chunks);
    assert forall|path: Seq<char>|
        path != job.dest && path != job.parent && path != job.temp implies #[trigger] same_at(
        after,
        start,
        path,
    ) by {
        assert(same_at(disk, start, path));
    }
    match stage {
        Stage::CreateTemp => {
            if reply is Done {
                assert(holds_file(after, job.temp, written(job, chunks, 0)));
                if count > 0 && cache.contains_key(job.chunks[0]) {
                    assert(chunks.contains_key(job.chunks[0]));
                    assert(cache[job.chunks[0]] == chunks[job.chunks[0]]);
                }
            }
        },
        Stage::Write(done) => {
            if reply is Done {
                let so_far = job.chunks.take(done as int);
                assert(so_far.drop_last() =~= job.chunks.take(done - 1));
                assert(so_far.last() == job.chunks[done - 1]);
                assert(written(job, chunks, done as int) == written(job, chunks, done - 1)
                    + chunks[job.chunks[done - 1]]);
                assert(holds_file(after, job.temp, written(job, chunks, done as int)));
                if done < count && cache.contains_key(job.chunks[done as int]) {
                    assert(chunks.contains_key(job.chunks[done as int]));
                    assert(cache[job.chunks[done as int]] == chunks[job.chunks[done as int]]);
                }
            }
        },
        _ => {},
    }
}

/// An attempt goes on as long as nothing stands against it: where the disk
/// held no obstacle at the start, the digest that was announced is the one
/// of the chunks, and the cache still stores every chunk that has not been
/// handed out, a round ends with the next request or with the file
/// published, and never with an error.
pub proof fn lemma_round_goes_on(
    job: AddFileView,
    stage: Stage,
    request: RequestView,
    disk: Map<Seq<char>, NodeView>,
    start: Map<Seq<char>, NodeView>,
    chunks: Map<Seq<char>, Seq<u8>>,
    cache: Map<Seq<char>, Seq<u8>>,
)
    requires
        on_track(job, stage, request, disk, start, chunks),
        cache.submap_of(chunks),
        job.dest != job.temp,
        job.dest != job.parent,
        job.temp != job.parent,
        job.chunks.len() <= usize::MAX,
        disk_refusal(start, job.dest, job.parent, job.overwrite) is None,
        !(start.contains_key(job.temp) && start[job.temp] is Dir),
        job.sha512 == hex_lower(sha512_digest(whole(job, chunks))),
        forall|i: int|
            handed_out(stage, job.chunks.len()) <= i < job.chunks.len() ==> cache.contains_key(
                #[trigger] job.chunks[i],
            ),
    ensures
        !(next_step(job, stage, perform_spec(disk, request).1, cache).progress matches ProgressView::Finished(
            Err(_),
        )),
{
    lemma_round(job, stage, request, disk, start, chunks, cache);
}

/// Puts a file together on the disk in memory: runs the add-file machine
/// to its end, performing each request on the disk.
///
/// On success the destination holds the chunks, in the order in which they
/// were named and as the cache stored them, the content has the announced
/// digest, every chunk that was named has left the cache, and the temporary
/// file is gone. On failure the destination is as it was, and the error
/// says why: a refusal at the start, a chunk that was not in the cache, what
/// stood on the disk, or a content with another digest. Either way nothing
/// is written but the destination, the directory that holds it and the
/// temporary file. Whether an attempt with a right digest succeeds lies
/// with the cache, which may drop a chunk at any time.
pub fn add_file(
    disk: &mut MemoryDisk,
    cache: &mut ChunkCache,
    resolved: &ResolvedPath,
    overwrite: bool,
    chunks: Vec<String>,
    sha512: String,
) -> (result: Result<(), AssetError>)
    ensures
        final(cache)@.submap_of(old(cache)@),
        final(cache).lifetime() == old(cache).lifetime(),
        wrote_in_place(old(disk)@, final(disk)@, resolved.full(), resolved.dir(), result is Ok),
        match result {
            Ok(()) => {
                &&& begin_refusal(resolved.name().len(), chunks@.len()) is None
                &&& disk_refusal(old(disk)@, resolved.full(), resolved.dir(), overwrite) is None
                &&& stores_all(old(cache)@, id_views(chunks@))
                &&& holds_file(
                    final(disk)@,
                    resolved.full(),
                    concat_chunks(old(cache)@, id_views(chunks@)),
                )
                &&& sha512@ == hex_lower(
                    sha512_digest(concat_chunks(old(cache)@, id_views(chunks@))),
                )
                &&& forall|i: int|
                    0 <= i < chunks@.len() ==> !final(cache)@.contains_key(
                        #[trigger] id_views(chunks@)[i],
                    )
            },
            Err(e) => {
                &&& same_at(final(disk)@, old(disk)@, resolved.full())
                &&& match begin_refusal(resolved.name().len(), chunks@.len()) {
                    Some(refusal) => e == refusal && final(disk)@ == old(disk)@ && final(cache)@
                        == old(cache)@,
                    None => match e {
                        AssetError::ChunkMissing => true,
                        AssetError::AlreadyExists
                        | AssetError::ReplacesDirectory
                        | AssetError::NotADirectory => disk_refusal(
                            old(disk)@,
                            resolved.full(),
                            resolved.dir(),
                            overwrite,
                        ) == Some(e) && final(disk)@ == old(disk)@ && final(cache)@ == old(
                            cache,
                        )@,
                        AssetError::HashMismatch => {
                            &&& disk_refusal(
                                old(disk)@,
                                resolved.full(),
                                resolved.dir(),
                                overwrite,
                            ) is None
                            &&& stores_all(old(cache)@, id_views(chunks@))
                            &&& sha512@ != hex_lower(
                                sha512_digest(concat_chunks(old(cache)@, id_views(chunks@))),
                            )
                        },
                        AssetError::Io => disk_refusal(
                            old(disk)@,
                            resolved.full(),
                            resolved.dir(),
                            overwrite,
                        ) is None,
                        _ => false,
                    },
                }
            },
        },
{
    let ghost start = disk@;
    let ghost stored = cache@;
    let ghost ids = id_views(chunks@);
    let named = resolved.has_name();
    let (mut machine, first) = match AddFile::begin(resolved, overwrite, chunks, sha512, cache) {
        Err(e) => {
            return Err(e);
        },
        Ok(begun) => begun,
    };
    let ghost job = machine.job();
    let ghost tag = machine.tag();
    proof {
        lemma_temp_is_elsewhere(tag, resolved.dir(), resolved.name());
    }
    let mut request = first;
    loop
        invariant
            machine.job() == job,
            job.dest == resolved.full(),
            job.parent == resolved.dir(),
            job.temp == temp_path_text(tag, job.dest),
            is_temp_tag(tag),
            job.overwrite == overwrite,
            job.chunks == ids,
            job.sha512 == sha512@,
            job.dest != job.temp,
            job.dest != job.parent,
            job.temp != job.parent,
            job.chunks.len() <= usize::MAX,
            ids == id_views(chunks@),
            begin_refusal(resolved.name().len(), chunks@.len()) is None,
            stored == old(cache)@,
            start == old(disk)@,
            stores_all(stored, ids),
            cache@.submap_of(stored),
            cache.lifetime() == old(cache).lifetime(),
            on_track(job, machine.stage(), request@, disk@, start, stored),
            forall|j: int|
                0 <= j < handed_out(machine.stage(), ids.len()) ==> !cache@.contains_key(
                    #[trigger] ids[j],
                ),
            machine.stage() is StatDestination || machine.stage() is StatParent || machine.stage() is CreateParent
                ==> cache@ == stored,
        decreases steps_left(machine.stage(), job.chunks.len()),
    {
        proof {
            lemma_round(job, machine.stage(), request@, disk@, start, stored, cache@);
        }
        let ghost before = cache@;
        let ghost stage = machine.stage();
        let ghost pending = request@;
        let ghost disk_before = disk@;
        let reply = disk.perform(request);
        let progress = machine.advance(reply, cache);
        proof {
            lemma_submap_chain(cache@, before, stored);
            let given = handed_out(stage, ids.len());
            assert forall|j: int| 0 <= j < given implies !cache@.contains_key(
                #[trigger] ids[j],
            ) by {
                if cache@.contains_key(ids[j]) {
                    assert(cache@.dom().contains(ids[j]));
                    assert(before.dom().contains(ids[j]));
                }
            }
            match taken_chunk(job, stage, reply@) {
                Some(id) => {
                    if cache@.contains_key(id) {
                        assert(cache@.dom().contains(id));
                        assert(before.remove(id).dom().contains(id));
                    }
                },
                None => {},
            }
        }
        match progress {
            Progress::Finished(result) => {
                proof {
                    assert(others_same(disk@, start, job.dest, job.parent, temp_path_text(tag, job.dest)));
                }
                return result;
            },
            Progress::Continue(next) => {
                request = next;
            },
        }
    }
}

} // verus!
