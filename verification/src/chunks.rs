//! The time-bounded cache of uploaded chunks.
//!
//! A chunk is a fragment of a file that waits in memory until the file is
//! put together. The cache drops a chunk by itself once it has lived for
//! [`CHUNK_TTL_SECS`], so nothing here can promise that a chunk is still
//! there: the contracts say what a chunk holds if it is, and that nothing
//! enters the cache but through `upload`.

use crate::crypto::{all_alphanumeric, gen_random};
use vstd::prelude::*;

verus! {

/// Largest chunk that is accepted, in bytes.
pub const MAX_CHUNK_SIZE: usize = 100_000_000;

/// Number of characters of a chunk id.
pub const CHUNK_ID_LENGTH: usize = 32;

/// How many ids are tried before an upload gives up.
pub const CHUNK_ID_ATTEMPTS: usize = 10;

/// Seconds that a chunk lives in the cache if it is never consumed: ten
/// minutes.
pub const CHUNK_TTL_SECS: u64 = 600;

/// Most chunks that one file may be made of.
pub const MAX_CHUNKS_PER_FILE: usize = 100_000;

/// `moka::sync::Cache`, declared as a type whose inside stays hidden.
#[verifier::external_type_specification]
#[verifier::external_body]
#[verifier::reject_recursive_types(K)]
#[verifier::reject_recursive_types(V)]
#[verifier::reject_recursive_types(S)]
pub struct ExMokaCache<K, V, S>(moka::sync::Cache<K, V, S>);

/// The entries that a chunk cache stores, expired ones that it has not yet
/// dropped included.
pub uninterp spec fn stored_chunks(cache: moka::sync::Cache<String, Vec<u8>>) -> Map<
    Seq<char>,
    Seq<u8>,
>;

/// The time to live, in seconds, of a chunk cache that was built with one
/// and without a limit on its size; `None` for a cache built otherwise.
pub uninterp spec fn chunk_lifetime(cache: moka::sync::Cache<String, Vec<u8>>) -> Option<u64>;

/// Whether a cache keeps what is put into it until its time to live has
/// run out: it was built with a time to live of at least a second and
/// without a limit on its size.
pub open spec fn keeps_chunks(cache: moka::sync::Cache<String, Vec<u8>>) -> bool {
    chunk_lifetime(cache) matches Some(secs) && secs > 0
}

/// Whether `id` has the length and the characters of a chunk id.
pub open spec fn is_chunk_id(id: Seq<char>) -> bool {
    id.len() == CHUNK_ID_LENGTH && all_alphanumeric(id)
}

/// Whether the cache stores a chunk under an id that an upload could draw.
pub open spec fn holds_chunk_id(chunks: Map<Seq<char>, Seq<u8>>) -> bool {
    exists|id: Seq<char>| #[trigger] chunks.contains_key(id) && is_chunk_id(id)
}

/// The cache content without any chunk.
pub open spec fn no_chunks() -> Map<Seq<char>, Seq<u8>> {
    Map::empty()
}

/// Why a chunk was refused or could not be found.
#[derive(Clone, Copy, Debug, PartialEq, Eq, Structural)]
pub enum ChunkError {
    /// The chunk holds no bytes.
    Empty,
    /// The chunk is larger than [`MAX_CHUNK_SIZE`].
    TooLarge,
    /// Every id that was tried is in use.
    IdExhausted,
    /// A file was asked for without any chunk.
    NoChunks,
    /// A file was asked for with more than [`MAX_CHUNKS_PER_FILE`] chunks.
    TooManyChunks,
    /// A chunk id is not, or no longer, in the cache.
    Missing,
}

/// Builds a `moka::sync::Cache` with `CacheBuilder::time_to_live` and
/// `CacheBuilder::build`, and with no limit on its size. The contract
/// claims that the new cache stores nothing and has the time to live that
/// was asked for; the bound keeps the duration under the builder's limit.
#[verifier::external_body]
fn cache_with_ttl(ttl_secs: u64) -> (cache: moka::sync::Cache<String, Vec<u8>>)
    requires
        ttl_secs <= 31_536_000,
    ensures
        stored_chunks(cache) == no_chunks(),
        chunk_lifetime(cache) == Some(ttl_secs),
{
    moka::sync::Cache::builder().time_to_live(std::time::Duration::from_secs(ttl_secs)).build()
}

/// Calls `Cache::contains_key` of `moka`. The contract claims that a key
/// reported as present is stored; a stored key may be reported absent, for it
/// may have expired.
#[verifier::external_body]
fn cache_contains(cache: &moka::sync::Cache<String, Vec<u8>>, key: &String) -> (present: bool)
    ensures
        present ==> stored_chunks(*cache).contains_key(key@),
{
    cache.contains_key(key)
}

/// Calls `Cache::insert` of `moka`. The contract claims that afterwards the
/// cache stores nothing but what it stored before and the new entry, and
/// that its time to live is as it was. For a cache that keeps what is put
/// into it, it claims that the entry is in the cache's table when the call
/// returns: the call puts it there with a fresh timestamp, and drops on its
/// way only entries whose time to live has run out.
#[verifier::external_body]
fn cache_insert(cache: &mut moka::sync::Cache<String, Vec<u8>>, key: String, value: Vec<u8>)
    ensures
        stored_chunks(*final(cache)).submap_of(stored_chunks(*old(cache)).insert(key@, value@)),
        keeps_chunks(*old(cache)) ==> stored_chunks(*final(cache)).contains_key(key@),
        chunk_lifetime(*final(cache)) == chunk_lifetime(*old(cache)),
{
    cache.insert(key, value)
}

/// Calls `Cache::remove` of `moka`. The contract claims that the value
/// stored under the key comes back, `None` where none was stored, that
/// afterwards the cache stores nothing but what it stored before, without
/// the key, and that its time to live is as it was.
#[verifier::external_body]
fn cache_remove(cache: &mut moka::sync::Cache<String, Vec<u8>>, key: &String) -> (value: Option<
    Vec<u8>,
>)
    ensures
        match value {
            Some(bytes) => stored_chunks(*old(cache)).contains_key(key@) && stored_chunks(
                *old(cache),
            )[key@] == bytes@,
            None => !stored_chunks(*old(cache)).contains_key(key@),
        },
        stored_chunks(*final(cache)).submap_of(stored_chunks(*old(cache)).remove(key@)),
        chunk_lifetime(*final(cache)) == chunk_lifetime(*old(cache)),
{
    cache.remove(key)
}

/// The bytes of the chunks `ids`, one after the other, as `chunks` stores
/// them.
pub open spec fn concat_chunks(chunks: Map<Seq<char>, Seq<u8>>, ids: Seq<Seq<char>>) -> Seq<u8>
    decreases ids.len(),
{
    if ids.len() == 0 {
        Seq::empty()
    } else {
        concat_chunks(chunks, ids.drop_last()) + chunks[ids.last()]
    }
}

/// Whether `chunks` stores every id of `ids`.
pub open spec fn stores_all(chunks: Map<Seq<char>, Seq<u8>>, ids: Seq<Seq<char>>) -> bool {
    forall|i: int| 0 <= i < ids.len() ==> chunks.contains_key(#[trigger] ids[i])
}

/// The ids of a list of strings.
pub open spec fn id_views(ids: Seq<String>) -> Seq<Seq<char>> {
    ids.map_values(|id: String| id@)
}

/// The size rule for one chunk: not empty, and not over the limit.
pub open spec fn chunk_size_refusal(len: nat) -> Option<ChunkError> {
    if len > MAX_CHUNK_SIZE {
        Some(ChunkError::TooLarge)
    } else if len == 0 {
        Some(ChunkError::Empty)
    } else {
        None
    }
}

/// The rule for the number of chunks of one file.
pub open spec fn chunk_count_refusal(count: nat) -> Option<ChunkError> {
    if count == 0 {
        Some(ChunkError::NoChunks)
    } else if count > MAX_CHUNKS_PER_FILE {
        Some(ChunkError::TooManyChunks)
    } else {
        None
    }
}

/// Checks the size of a chunk before it is cached.
pub fn check_chunk_size(len: usize) -> (verdict: Result<(), ChunkError>)
    ensures
        verdict is Ok <==> chunk_size_refusal(len as nat) is None,
        verdict matches Err(e) ==> chunk_size_refusal(len as nat) == Some(e),
{
    if len > MAX_CHUNK_SIZE {
        Err(ChunkError::TooLarge)
    } else if len == 0 {
        Err(ChunkError::Empty)
    } else {
        Ok(())
    }
}

/// Checks the number of chunks that a file is to be made of.
pub fn check_chunk_count(count: usize) -> (verdict: Result<(), ChunkError>)
    ensures
        verdict is Ok <==> chunk_count_refusal(count as nat) is None,
        verdict matches Err(e) ==> chunk_count_refusal(count as nat) == Some(e),
{
    if count == 0 {
        Err(ChunkError::NoChunks)
    } else if count > MAX_CHUNKS_PER_FILE {
        Err(ChunkError::TooManyChunks)
    } else {
        Ok(())
    }
}

/// A chunk that is found after an upload under the id that the upload gave
/// is the chunk that was uploaded, and whatever else is found was there
/// before: nothing enters the cache but what is uploaded.
pub proof fn lemma_upload_stores_the_chunk(
    before: Map<Seq<char>, Seq<u8>>,
    after: Map<Seq<char>, Seq<u8>>,
    id: Seq<char>,
    chunk: Seq<u8>,
)
    requires
        after.submap_of(before.insert(id, chunk)),
    ensures
        after.contains_key(id) ==> after[id] == chunk,
        forall|other: Seq<char>|
            other != id && #[trigger] after.contains_key(other) ==> before.contains_key(other)
                && after[other] == before[other],
{
    if after.contains_key(id) {
        assert(after.dom().contains(id));
        assert(before.insert(id, chunk).dom().contains(id));
    }
    assert forall|other: Seq<char>| other != id && #[trigger] after.contains_key(
        other,
    ) implies before.contains_key(other) && after[other] == before[other] by {
        assert(after.dom().contains(other));
        assert(before.insert(id, chunk).dom().contains(other));
    }
}

/// What is stored under a key after it has been inserted is the value that
/// was inserted.
pub proof fn lemma_stored_as_inserted(
    before: Map<Seq<char>, Seq<u8>>,
    after: Map<Seq<char>, Seq<u8>>,
    id: Seq<char>,
    chunk: Seq<u8>,
)
    requires
        after.submap_of(before.insert(id, chunk)),
    ensures
        after.contains_key(id) ==> after[id] == chunk,
{
    if after.contains_key(id) {
        assert(after.dom().contains(id));
        assert(before.insert(id, chunk).dom().contains(id));
    }
}

/// The cache of uploaded chunks, keyed by chunk id.
pub struct ChunkCache {
    cache: moka::sync::Cache<String, Vec<u8>>,
}

impl ChunkCache {
    /// The chunks that the cache stores.
    pub closed spec fn view(&self) -> Map<Seq<char>, Seq<u8>> {
        stored_chunks(self.cache)
    }

    /// The time to live, in seconds, that the cache was built with.
    pub closed spec fn lifetime(&self) -> Option<u64> {
        chunk_lifetime(self.cache)
    }

    /// Whether the cache keeps a chunk until its time to live has run out.
    /// That is so for every cache that `new` has built.
    pub open spec fn keeps(&self) -> bool {
        self.lifetime() matches Some(secs) && secs > 0
    }

    /// An empty cache whose chunks live for [`CHUNK_TTL_SECS`].
    pub fn new() -> (cache: ChunkCache)
        ensures
            cache@ == no_chunks(),
            cache.lifetime() == Some(CHUNK_TTL_SECS),
            cache.keeps(),
    {
        ChunkCache { cache: cache_with_ttl(CHUNK_TTL_SECS) }
    }

    /// Whether a live chunk is cached under `id`.
    pub fn contains(&self, id: &String) -> (present: bool)
        ensures
            present ==> self@.contains_key(id@),
    {
        cache_contains(&self.cache, id)
    }

    /// Caches `chunk` under `id` if no live chunk has that id.
    ///
    /// Returns whether the chunk was cached.
    pub fn store_under(&mut self, id: String, chunk: Vec<u8>) -> (stored: bool)
        ensures
            final(self).lifetime() == old(self).lifetime(),
            stored ==> final(self)@.submap_of(old(self)@.insert(id@, chunk@)),
            old(self).keeps() && stored ==> final(self)@.contains_key(id@) && final(self)@[id@]
                == chunk@,
            !stored ==> final(self)@ == old(self)@ && old(self)@.contains_key(id@),
            !old(self)@.contains_key(id@) ==> stored,
    {
        if cache_contains(&self.cache, &id) {
            false
        } else {
            cache_insert(&mut self.cache, id, chunk);
            proof {
                lemma_stored_as_inserted(old(self)@, self@, id@, chunk@);
            }
            true
        }
    }

    /// Accepts a chunk and returns the id under which it is cached.
    ///
    /// An empty chunk and one over [`MAX_CHUNK_SIZE`] are refused. The id is
    /// random; where it is taken, another is drawn, at most
    /// [`CHUNK_ID_ATTEMPTS`] times in all. So an upload of a chunk of the
    /// right size fails only where the cache stores a chunk under an id
    /// that could be drawn, and on success the chunk is cached under the id
    /// that comes back.
    pub fn upload(&mut self, chunk: Vec<u8>) -> (result: Result<String, ChunkError>)
        ensures
            final(self).lifetime() == old(self).lifetime(),
            chunk_size_refusal(chunk@.len()) is Some ==> result is Err,
            chunk_size_refusal(chunk@.len()) is None && !holds_chunk_id(old(self)@) ==> result is Ok,
            chunk_size_refusal(chunk@.len()) is None && old(self)@ == no_chunks() ==> result is Ok,
            match result {
                Ok(id) => {
                    &&& chunk_size_refusal(chunk@.len()) is None
                    &&& is_chunk_id(id@)
                    &&& final(self)@.submap_of(old(self)@.insert(id@, chunk@))
                    &&& old(self).keeps() ==> final(self)@.contains_key(id@) && final(self)@[id@]
                        == chunk@
                },
                Err(e) => {
                    &&& final(self)@ == old(self)@
                    &&& chunk_size_refusal(chunk@.len()) matches Some(refusal) ==> e == refusal
                    &&& chunk_size_refusal(chunk@.len()) is None ==> e == ChunkError::IdExhausted
                        && holds_chunk_id(old(self)@)
                },
            },
    {
        match check_chunk_size(chunk.len()) {
            Err(e) => {
                return Err(e);
            },
            Ok(()) => {},
        }
        let mut tries: usize = 0;
        while tries < CHUNK_ID_ATTEMPTS
            invariant
                tries <= CHUNK_ID_ATTEMPTS,
                *self == *old(self),
                chunk_size_refusal(chunk@.len()) is None,
                tries > 0 ==> holds_chunk_id(old(self)@),
            decreases CHUNK_ID_ATTEMPTS - tries,
        {
            let id = gen_random(CHUNK_ID_LENGTH);
            if !cache_contains(&self.cache, &id) {
                let key = id.clone();
                cache_insert(&mut self.cache, key, chunk);
                proof {
                    lemma_stored_as_inserted(old(self)@, self@, id@, chunk@);
                }
                return Ok(id);
            }
            assert(self@.contains_key(id@) && is_chunk_id(id@));
            tries += 1;
        }
        Err(ChunkError::IdExhausted)
    }

    /// Takes the chunk cached under `id` out of the cache.
    pub fn take(&mut self, id: &String) -> (chunk: Option<Vec<u8>>)
        ensures
            match chunk {
                Some(bytes) => old(self)@.contains_key(id@) && old(self)@[id@] == bytes@,
                None => !old(self)@.contains_key(id@),
            },
            final(self)@.submap_of(old(self)@.remove(id@)),
            !final(self)@.contains_key(id@),
            final(self).lifetime() == old(self).lifetime(),
    {
        let chunk = cache_remove(&mut self.cache, id);
        proof {
            if self@.contains_key(id@) {
                assert(self@.dom().contains(id@));
                assert(old(self)@.remove(id@).dom().contains(id@));
            }
        }
        chunk
    }

    /// Whether a live chunk is cached under each of `ids`; true for none.
    pub fn contains_all(&self, ids: &Vec<String>) -> (present: bool)
        ensures
            present ==> stores_all(self@, id_views(ids@)),
            ids@.len() == 0 ==> present,
    {
        let mut i: usize = 0;
        while i < ids.len()
            invariant
                i <= ids.len(),
                forall|j: int| 0 <= j < i ==> self@.contains_key(#[trigger] id_views(ids@)[j]),
            decreases ids.len() - i,
        {
            if !cache_contains(&self.cache, &ids[i]) {
                return false;
            }
            i += 1;
        }
        true
    }
}

} // verus!
