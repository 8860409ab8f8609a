//! Putting a file together from uploaded chunks, step by step.
//!
//! The steps alternate with work on the disk, which the caller does: the
//! machine asks for one operation, the caller performs it and hands back
//! what came of it, and the machine decides what follows. The content goes
//! to a temporary file first; only a content with the announced digest is
//! copied to its destination.

use crate::assets::{AssetError, PathStat};
use crate::chunks::{check_chunk_count, chunk_count_refusal, id_views, ChunkCache, ChunkError};
use crate::crypto::{all_alphanumeric, digest_matches, gen_random, hex_lower, sha512_digest};
use crate::paths::ResolvedPath;
use crate::text::{joined, replace_char, replaced};
use vstd::prelude::*;

verus! {

/// Number of random characters in the name of a temporary file.
pub const TEMP_TAG_LENGTH: usize = 32;

/// One operation on the disk that the machine asks for.
pub enum FsRequest {
    /// Look up what is at `path`.
    Stat { path: String },
    /// Create the directory `path` and all that lead to it.
    CreateDirAll { path: String },
    /// Create the file `path`, empty.
    CreateFile { path: String },
    /// Write `bytes` at the end of the file `path`.
    Append { path: String, bytes: Vec<u8> },
    /// Flush the file `path` to the disk.
    Sync { path: String },
    /// Read the whole file `path`.
    ReadAll { path: String },
    /// Copy the file `from` to `to`.
    Copy { from: String, to: String },
    /// Remove the file `path`.
    Remove { path: String },
}

/// A request over plain values.
pub enum RequestView {
    Stat { path: Seq<char> },
    CreateDirAll { path: Seq<char> },
    CreateFile { path: Seq<char> },
    Append { path: Seq<char>, bytes: Seq<u8> },
    Sync { path: Seq<char> },
    ReadAll { path: Seq<char> },
    Copy { from: Seq<char>, to: Seq<char> },
    Remove { path: Seq<char> },
}

impl View for FsRequest {
    type V = RequestView;

    open spec fn view(&self) -> RequestView {
        match self {
            FsRequest::Stat { path } => RequestView::Stat { path: path@ },
            FsRequest::CreateDirAll { path } => RequestView::CreateDirAll { path: path@ },
            FsRequest::CreateFile { path } => RequestView::CreateFile { path: path@ },
            FsRequest::Append { path, bytes } => RequestView::Append { path: path@, bytes: bytes@ },
            FsRequest::Sync { path } => RequestView::Sync { path: path@ },
            FsRequest::ReadAll { path } => RequestView::ReadAll { path: path@ },
            FsRequest::Copy { from, to } => RequestView::Copy { from: from@, to: to@ },
            FsRequest::Remove { path } => RequestView::Remove { path: path@ },
        }
    }
}

/// What came of an operation on the disk.
pub enum FsReply {
    /// What a lookup found.
    Stat(PathStat),
    /// The operation was performed.
    Done,
    /// The content that was read.
    Content(Vec<u8>),
    /// The operation failed.
    Failed,
}

/// A reply over plain values.
pub enum ReplyView {
    Stat(PathStat),
    Done,
    Content(Seq<u8>),
    Failed,
}

impl View for FsReply {
    type V = ReplyView;

    open spec fn view(&self) -> ReplyView {
        match self {
            FsReply::Stat(stat) => ReplyView::Stat(*stat),
            FsReply::Done => ReplyView::Done,
            FsReply::Content(bytes) => ReplyView::Content(bytes@),
            FsReply::Failed => ReplyView::Failed,
        }
    }
}

/// What the machine says after a step.
pub enum Progress {
    /// Perform this operation and come back with the reply.
    Continue(FsRequest),
    /// The file is published, or the attempt has ended with an error.
    Finished(Result<(), AssetError>),
}

/// A progress over plain values.
pub enum ProgressView {
    Continue(RequestView),
    Finished(Result<(), AssetError>),
}

impl View for Progress {
    type V = ProgressView;

    open spec fn view(&self) -> ProgressView {
        match self {
            Progress::Continue(request) => ProgressView::Continue(request@),
            Progress::Finished(result) => ProgressView::Finished(*result),
        }
    }
}

/// Where the machine stands: the reply that it waits for.
#[derive(Clone, Copy, Debug, PartialEq, Eq, Structural)]
pub enum Stage {
    /// The lookup of the destination.
    StatDestination,
    /// The lookup of the directory that is to hold the file.
    StatParent,
    /// The creation of that directory.
    CreateParent,
    /// The creation of the temporary file.
    CreateTemp,
    /// The write of a chunk; the number says how many chunks have been
    /// handed out, this one included.
    Write(usize),
    /// The flush of the temporary file.
    Sync,
    /// The content of the temporary file.
    ReadBack,
    /// The copy to the destination.
    Publish,
    /// The removal of the temporary file.
    Cleanup,
    /// Nothing: the attempt has ended.
    Done,
}

/// What an attempt is about, which no step changes.
pub struct AddFileView {
    pub dest: Seq<char>,
    pub parent: Seq<char>,
    pub temp: Seq<char>,
    pub chunks: Seq<Seq<char>>,
    pub overwrite: bool,
    pub sha512: Seq<char>,
}

/// The name of the temporary file for a destination and a random tag: it
/// lies outside every scope, and holds the destination with its separators
/// replaced.
pub open spec fn temp_path_text(tag: Seq<char>, dest: Seq<char>) -> Seq<char> {
    "/tmp/arcadia-cdn-file"@ + tag + "@"@ + replaced(dest, '/', '>')
}

/// Builds the name of the temporary file for a destination and a tag.
pub fn temp_file_path(tag: &str, dest: &str) -> (path: String)
    ensures
        path@ == temp_path_text(tag@, dest@),
{
    let with_tag = joined("/tmp/arcadia-cdn-file", tag);
    let with_at = joined(with_tag.as_str(), "@");
    let flat = replace_char(dest, '/', '>');
    joined(with_at.as_str(), flat.as_str())
}

/// A stage and what the machine says on reaching it.
pub struct Step {
    pub stage: Stage,
    pub progress: ProgressView,
}

/// The step that ends an attempt with an error.
pub open spec fn fail(error: AssetError) -> Step {
    Step { stage: Stage::Done, progress: ProgressView::Finished(Err(error)) }
}

/// The step that asks for an operation and waits for its reply.
pub open spec fn ask(stage: Stage, request: RequestView) -> Step {
    Step { stage, progress: ProgressView::Continue(request) }
}

/// The step after `written` chunks have gone to the temporary file: the
/// next chunk is written if the cache still has it, and after the last one
/// the file is flushed.
pub open spec fn write_step(job: AddFileView, written: int, chunks: Map<Seq<char>, Seq<u8>>) -> Step {
    if 0 <= written < job.chunks.len() {
        if chunks.contains_key(job.chunks[written]) {
            ask(
                Stage::Write((written + 1) as usize),
                RequestView::Append { path: job.temp, bytes: chunks[job.chunks[written]] },
            )
        } else {
            fail(AssetError::ChunkMissing)
        }
    } else {
        ask(Stage::Sync, RequestView::Sync { path: job.temp })
    }
}

/// The step that follows the lookup of the destination.
pub open spec fn destination_step(job: AddFileView, found: PathStat) -> Step {
    match found {
        PathStat::Failed => fail(AssetError::MetadataFailed),
        PathStat::Missing => ask(Stage::StatParent, RequestView::Stat { path: job.parent }),
        PathStat::Dir => if job.overwrite {
            fail(AssetError::ReplacesDirectory)
        } else {
            fail(AssetError::AlreadyExists)
        },
        PathStat::File | PathStat::Other => if job.overwrite {
            ask(Stage::StatParent, RequestView::Stat { path: job.parent })
        } else {
            fail(AssetError::AlreadyExists)
        },
    }
}

/// The step that follows the lookup of the directory for the file.
pub open spec fn parent_step(job: AddFileView, found: PathStat) -> Step {
    match found {
        PathStat::Dir => ask(Stage::CreateTemp, RequestView::CreateFile { path: job.temp }),
        PathStat::Missing => ask(
            Stage::CreateParent,
            RequestView::CreateDirAll { path: job.parent },
        ),
        PathStat::File | PathStat::Other => fail(AssetError::NotADirectory),
        PathStat::Failed => fail(AssetError::MetadataFailed),
    }
}

/// The step that follows the content of the temporary file: it is
/// published if it has the announced digest, and otherwise the attempt
/// ends.
pub open spec fn digest_step(job: AddFileView, content: Seq<u8>) -> Step {
    if job.sha512 == hex_lower(sha512_digest(content)) {
        ask(Stage::Publish, RequestView::Copy { from: job.temp, to: job.dest })
    } else {
        fail(AssetError::HashMismatch)
    }
}

/// What the machine does with a reply: the stage that it moves to and what
/// it says. `chunks` is what the cache stores when the reply comes in.
pub open spec fn next_step(
    job: AddFileView,
    stage: Stage,
    reply: ReplyView,
    chunks: Map<Seq<char>, Seq<u8>>,
) -> Step {
    match (stage, reply) {
        (Stage::Done, _) => fail(AssetError::UnexpectedReply),
        (_, ReplyView::Failed) => fail(AssetError::Io),
        (Stage::StatDestination, ReplyView::Stat(found)) => destination_step(job, found),
        (Stage::StatParent, ReplyView::Stat(found)) => parent_step(job, found),
        (Stage::CreateParent, ReplyView::Done) => ask(
            Stage::CreateTemp,
            RequestView::CreateFile { path: job.temp },
        ),
        (Stage::CreateTemp, ReplyView::Done) => write_step(job, 0, chunks),
        (Stage::Write(written), ReplyView::Done) => write_step(job, written as int, chunks),
        (Stage::Sync, ReplyView::Done) => ask(
            Stage::ReadBack,
            RequestView::ReadAll { path: job.temp },
        ),
        (Stage::ReadBack, ReplyView::Content(content)) => digest_step(job, content),
        (Stage::Publish, ReplyView::Done) => ask(
            Stage::Cleanup,
            RequestView::Remove { path: job.temp },
        ),
        (Stage::Cleanup, ReplyView::Done) => Step {
            stage: Stage::Done,
            progress: ProgressView::Finished(Ok(())),
        },
        _ => fail(AssetError::UnexpectedReply),
    }
}

/// Whether the step takes a chunk out of the cache, and which.
pub open spec fn taken_chunk(job: AddFileView, stage: Stage, reply: ReplyView) -> Option<Seq<char>> {
    match (stage, reply) {
        (Stage::CreateTemp, ReplyView::Done) => if job.chunks.len() > 0 {
            Some(job.chunks[0])
        } else {
            None
        },
        (Stage::Write(written), ReplyView::Done) => if written < job.chunks.len() {
            Some(job.chunks[written as int])
        } else {
            None
        },
        _ => None,
    }
}

/// A stage together with what the machine says on reaching it.
pub open spec fn step_of(stage: Stage, progress: ProgressView) -> Step {
    Step { stage, progress }
}

/// The request to look up what is at `path`.
pub open spec fn stat_request(path: Seq<char>) -> RequestView {
    RequestView::Stat { path }
}

/// What an attempt is about, for a destination, the directory that holds
/// it, and the tag of the temporary file.
pub open spec fn job_for(
    dest: Seq<char>,
    parent: Seq<char>,
    tag: Seq<char>,
    chunks: Seq<Seq<char>>,
    overwrite: bool,
    sha512: Seq<char>,
) -> AddFileView {
    AddFileView { dest, parent, temp: temp_path_text(tag, dest), chunks, overwrite, sha512 }
}

/// Why an attempt cannot begin for an asset with a name of this length and
/// with this many chunks, if it cannot: a file needs a name, and at least
/// one chunk and not too many.
pub open spec fn begin_refusal(name_len: nat, count: nat) -> Option<AssetError> {
    if name_len == 0 {
        Some(AssetError::NotAFile)
    } else {
        match chunk_count_refusal(count) {
            Some(ChunkError::NoChunks) => Some(AssetError::NoChunks),
            Some(_) => Some(AssetError::TooManyChunks),
            None => None,
        }
    }
}

/// An attempt to put a file together.
pub struct AddFile {
    dest: String,
    parent: String,
    temp: String,
    tag: String,
    chunks: Vec<String>,
    overwrite: bool,
    sha512: String,
    stage: Stage,
}

impl AddFile {
    /// What the attempt is about.
    pub closed spec fn job(&self) -> AddFileView {
        AddFileView {
            dest: self.dest@,
            parent: self.parent@,
            temp: self.temp@,
            chunks: id_views(self.chunks@),
            overwrite: self.overwrite,
            sha512: self.sha512@,
        }
    }

    /// The reply that the machine waits for.
    pub closed spec fn stage(&self) -> Stage {
        self.stage
    }

    /// The random part of the temporary file's name.
    pub closed spec fn tag(&self) -> Seq<char> {
        self.tag@
    }

    /// Whether the attempt has ended.
    pub fn is_finished(&self) -> (finished: bool)
        ensures
            finished == (self.stage() == Stage::Done),
    {
        self.stage == Stage::Done
    }

    /// The name of the temporary file.
    pub fn temp_path(&self) -> (path: &String)
        ensures
            path@ == self.job().temp,
    {
        &self.temp
    }

    /// Begins an attempt for chunks that were found in the cache or not,
    /// with a given tag for the temporary file, and asks for the lookup of
    /// the destination.
    pub fn begin_with(
        resolved: &ResolvedPath,
        overwrite: bool,
        chunks: Vec<String>,
        sha512: String,
        all_present: bool,
        tag: String,
    ) -> (result: Result<(AddFile, FsRequest), AssetError>)
        ensures
            match result {
                Err(e) => match begin_refusal(resolved.name().len(), chunks@.len()) {
                    Some(refusal) => e == refusal,
                    None => e == AssetError::ChunkMissing && !all_present,
                },
                Ok((machine, request)) => {
                    &&& begin_refusal(resolved.name().len(), chunks@.len()) is None
                    &&& all_present
                    &&& machine.stage() == Stage::StatDestination
                    &&& machine.tag() == tag@
                    &&& machine.job() == job_for(
                        resolved.full(),
                        resolved.dir(),
                        tag@,
                        id_views(chunks@),
                        overwrite,
                        sha512@,
                    )
                    &&& request@ == stat_request(resolved.full())
                },
            },
    {
        if !resolved.has_name() {
            return Err(AssetError::NotAFile);
        }
        match check_chunk_count(chunks.len()) {
            Err(ChunkError::NoChunks) => {
                return Err(AssetError::NoChunks);
            },
            Err(_) => {
                return Err(AssetError::TooManyChunks);
            },
            Ok(()) => {},
        }
        if !all_present {
            return Err(AssetError::ChunkMissing);
        }
        let dest = resolved.asset_file().clone();
        let parent = resolved.asset_dir().clone();
        let temp = temp_file_path(tag.as_str(), dest.as_str());
        let request = FsRequest::Stat { path: dest.clone() };
        let machine = AddFile {
            dest,
            parent,
            temp,
            tag,
            chunks,
            overwrite,
            sha512,
            stage: Stage::StatDestination,
        };
        Ok((machine, request))
    }

    /// Begins an attempt: checks the number of chunks and that the cache
    /// has them all, draws the name of the temporary file, and asks for the
    /// lookup of the destination.
    pub fn begin(
        resolved: &ResolvedPath,
        overwrite: bool,
        chunks: Vec<String>,
        sha512: String,
        cache: &ChunkCache,
    ) -> (result: Result<(AddFile, FsRequest), AssetError>)
        ensures
            match result {
                Err(e) => match begin_refusal(resolved.name().len(), chunks@.len()) {
                    Some(refusal) => e == refusal,
                    None => e == AssetError::ChunkMissing,
                },
                Ok((machine, request)) => {
                    &&& begin_refusal(resolved.name().len(), chunks@.len()) is None
                    &&& crate::chunks::stores_all(cache@, id_views(chunks@))
                    &&& machine.stage() == Stage::StatDestination
                    &&& machine.tag().len() == TEMP_TAG_LENGTH
                    &&& all_alphanumeric(machine.tag())
                    &&& machine.job() == job_for(
                        resolved.full(),
                        resolved.dir(),
                        machine.tag(),
                        id_views(chunks@),
                        overwrite,
                        sha512@,
                    )
                    &&& request@ == stat_request(resolved.full())
                },
            },
    {
        let all_present = cache.contains_all(&chunks);
        let tag = gen_random(TEMP_TAG_LENGTH);
        AddFile::begin_with(resolved, overwrite, chunks, sha512, all_present, tag)
    }

    fn finish(&mut self, result: Result<(), AssetError>) -> (progress: Progress)
        ensures
            final(self).job() == old(self).job(),
            final(self).tag() == old(self).tag(),
            final(self).stage() == Stage::Done,
            progress@ == ProgressView::Finished(result),
    {
        self.stage = Stage::Done;
        Progress::Finished(result)
    }

    fn request(&mut self, stage: Stage, request: FsRequest) -> (progress: Progress)
        ensures
            final(self).job() == old(self).job(),
            final(self).tag() == old(self).tag(),
            final(self).stage() == stage,
            progress@ == ProgressView::Continue(request@),
    {
        self.stage = stage;
        Progress::Continue(request)
    }

    fn write_next(&mut self, written: usize, cache: &mut ChunkCache) -> (progress: Progress)
        ensures
            final(self).job() == old(self).job(),
            final(self).tag() == old(self).tag(),
            step_of(final(self).stage(), progress@) == write_step(
                old(self).job(),
                written as int,
                old(cache)@,
            ),
            final(cache)@.submap_of(old(cache)@),
            final(cache).lifetime() == old(cache).lifetime(),
            written >= old(self).job().chunks.len() ==> final(cache)@ == old(cache)@,
            written < old(self).job().chunks.len() ==> final(cache)@.submap_of(
                old(cache)@.remove(old(self).job().chunks[written as int]),
            ),
    {
        if written < self.chunks.len() {
            assert(id_views(self.chunks@)[written as int] == self.chunks@[written as int]@);
            let ghost id = self.chunks@[written as int]@;
            let taken = cache.take(&self.chunks[written]);
            assert(cache@.submap_of(old(cache)@)) by {
                let before = old(cache)@;
                assert forall|key: Seq<char>| #[trigger]
                    cache@.dom().contains(key) implies before.dom().contains(key) && cache@[key]
                    == before[key] by {
                    assert(before.remove(id).dom().contains(key));
                }
            }
            match taken {
                Some(bytes) => {
                    let path = self.temp.clone();
                    self.request(Stage::Write(written + 1), FsRequest::Append { path, bytes })
                },
                None => self.finish(Err(AssetError::ChunkMissing)),
            }
        } else {
            let path = self.temp.clone();
            self.request(Stage::Sync, FsRequest::Sync { path })
        }
    }

    /// Takes the reply to the last request and says what follows.
    ///
    /// A chunk leaves the cache when it is handed out for writing; nothing
    /// else changes the cache.
    pub fn advance(&mut self, reply: FsReply, cache: &mut ChunkCache) -> (progress: Progress)
        ensures
            final(self).job() == old(self).job(),
            final(self).tag() == old(self).tag(),
            step_of(final(self).stage(), progress@) == next_step(
                old(self).job(),
                old(self).stage(),
                reply@,
                old(cache)@,
            ),
            final(cache)@.submap_of(old(cache)@),
            final(cache).lifetime() == old(cache).lifetime(),
            match taken_chunk(old(self).job(), old(self).stage(), reply@) {
                Some(id) => final(cache)@.submap_of(old(cache)@.remove(id)),
                None => final(cache)@ == old(cache)@,
            },
    {
        let stage = self.stage;
        match (stage, reply) {
            (Stage::Done, _) => self.finish(Err(AssetError::UnexpectedReply)),
            (_, FsReply::Failed) => self.finish(Err(AssetError::Io)),
            (Stage::StatDestination, FsReply::Stat(found)) => {
                let proceed = match found {
                    PathStat::Failed => {
                        return self.finish(Err(AssetError::MetadataFailed));
                    },
                    PathStat::Missing => true,
                    PathStat::Dir => {
                        if self.overwrite {
                            return self.finish(Err(AssetError::ReplacesDirectory));
                        }
                        false
                    },
                    PathStat::File | PathStat::Other => self.overwrite,
                };
                if proceed {
                    let path = self.parent.clone();
                    self.request(Stage::StatParent, FsRequest::Stat { path })
                } else {
                    self.finish(Err(AssetError::AlreadyExists))
                }
            },
            (Stage::StatParent, FsReply::Stat(found)) => match found {
                PathStat::Dir => {
                    let path = self.temp.clone();
                    self.request(Stage::CreateTemp, FsRequest::CreateFile { path })
                },
                PathStat::Missing => {
                    let path = self.parent.clone();
                    self.request(Stage::CreateParent, FsRequest::CreateDirAll { path })
                },
                PathStat::File | PathStat::Other => self.finish(Err(AssetError::NotADirectory)),
                PathStat::Failed => self.finish(Err(AssetError::MetadataFailed)),
            },
            (Stage::CreateParent, FsReply::Done) => {
                let path = self.temp.clone();
                self.request(Stage::CreateTemp, FsRequest::CreateFile { path })
            },
            (Stage::CreateTemp, FsReply::Done) => self.write_next(0, cache),
            (Stage::Write(written), FsReply::Done) => self.write_next(written, cache),
            (Stage::Sync, FsReply::Done) => {
                let path = self.temp.clone();
                self.request(Stage::ReadBack, FsRequest::ReadAll { path })
            },
            (Stage::ReadBack, FsReply::Content(content)) => {
                if digest_matches(content.as_slice(), self.sha512.as_str()) {
                    let from = self.temp.clone();
                    let to = self.dest.clone();
                    self.request(Stage::Publish, FsRequest::Copy { from, to })
                } else {
                    self.finish(Err(AssetError::HashMismatch))
                }
            },
            (Stage::Publish, FsReply::Done) => {
                let path = self.temp.clone();
                self.request(Stage::Cleanup, FsRequest::Remove { path })
            },
            (Stage::Cleanup, FsReply::Done) => self.finish(Ok(())),
            _ => self.finish(Err(AssetError::UnexpectedReply)),
        }
    }
}

/// The path that a request writes to, if it writes.
pub open spec fn written_path(request: RequestView) -> Option<Seq<char>> {
    match request {
        RequestView::Stat { .. } => None,
        RequestView::ReadAll { .. } => None,
        RequestView::Sync { .. } => None,
        RequestView::CreateDirAll { path } => Some(path),
        RequestView::CreateFile { path } => Some(path),
        RequestView::Append { path, .. } => Some(path),
        RequestView::Copy { to, .. } => Some(to),
        RequestView::Remove { path } => Some(path),
    }
}

/// The machine asks for the copy to the destination only on the content of
/// the temporary file, and only if that content has the announced digest.
pub proof fn lemma_publish_needs_digest(
    job: AddFileView,
    stage: Stage,
    reply: ReplyView,
    chunks: Map<Seq<char>, Seq<u8>>,
)
    requires
        next_step(job, stage, reply, chunks).progress matches ProgressView::Continue(
            RequestView::Copy { .. },
        ),
    ensures
        stage == Stage::ReadBack,
        reply matches ReplyView::Content(content) && job.sha512 == hex_lower(
            sha512_digest(content),
        ),
        next_step(job, stage, reply, chunks) == ask(
            Stage::Publish,
            RequestView::Copy { from: job.temp, to: job.dest },
        ),
{
}

/// A content without the announced digest ends the attempt with
/// `HashMismatch`, and no operation is asked for any more.
pub proof fn lemma_mismatch_ends_attempt(
    job: AddFileView,
    content: Seq<u8>,
    chunks: Map<Seq<char>, Seq<u8>>,
)
    requires
        job.sha512 != hex_lower(sha512_digest(content)),
    ensures
        next_step(job, Stage::ReadBack, ReplyView::Content(content), chunks) == fail(
            AssetError::HashMismatch,
        ),
        next_step(job, Stage::Done, ReplyView::Done, chunks).progress is Finished,
{
}

/// No request but the copy writes to the destination, as long as the
/// destination is neither the temporary file nor the directory that holds
/// it.
pub proof fn lemma_destination_written_by_copy_only(
    job: AddFileView,
    stage: Stage,
    reply: ReplyView,
    chunks: Map<Seq<char>, Seq<u8>>,
)
    requires
        job.dest != job.temp,
        job.dest != job.parent,
        next_step(job, stage, reply, chunks).progress matches ProgressView::Continue(request)
            && written_path(request) == Some(job.dest),
    ensures
        next_step(job, stage, reply, chunks) == ask(
            Stage::Publish,
            RequestView::Copy { from: job.temp, to: job.dest },
        ),
        reply matches ReplyView::Content(content) && job.sha512 == hex_lower(
            sha512_digest(content),
        ),
{
}

/// The chunks go to the temporary file in the order in which they were
/// named: after `written` chunks the next write carries the chunk at that
/// position.
pub proof fn lemma_chunks_written_in_order(
    job: AddFileView,
    written: usize,
    chunks: Map<Seq<char>, Seq<u8>>,
)
    requires
        written < job.chunks.len(),
        chunks.contains_key(job.chunks[written as int]),
    ensures
        next_step(job, Stage::Write(written), ReplyView::Done, chunks) == ask(
            Stage::Write((written + 1) as usize),
            RequestView::Append { path: job.temp, bytes: chunks[job.chunks[written as int]] },
        ),
{
}

} // verus!
