use arcadia::addfile::{temp_file_path, AddFile, FsReply, FsRequest, Progress};
use arcadia::assets::{
    copy_plan, copy_target, create_folder_check, delete_plan, entry_plan, list_path_check,
    read_file_check, AssetError, CopyPlan, DeletePlan, EntryPlan, PathStat,
};
use arcadia::chunks::{
    check_chunk_count, check_chunk_size, ChunkCache, ChunkError, CHUNK_ID_LENGTH, MAX_CHUNK_SIZE,
};
use arcadia::crypto::{content_digest, digest_matches, gen_random};
use arcadia::disk::MemoryDisk;
use arcadia::error::ErrorKind;
use arcadia::paths::{resolve, CdnScopes, ResolvedPath};
use arcadia::publish::add_file;

const ABC_SHA512: &str = "ddaf35a193617abacc417349ae20413112e6fa4e89a97ea20a9eeee64b55d39a2192992a274fc1a836ba3c23a3feebbd454d4423643ce80e2a9ac94fa54ca49f";
const EMPTY_SHA512: &str = "cf83e1357eefb8bdf1542850d66d8007d620e4050b5715dc83f4a921d36ce9ce47d0d13c5d85f2b0ff8318d2877eec2f63b931bd47417a81a538327af927da3e";

fn target(name: &str, path: &str) -> ResolvedPath {
    let mut scopes = CdnScopes::new();
    scopes.add("main".to_string(), "/cdn".to_string());
    resolve(&scopes, "main", name, path).unwrap()
}

#[test]
fn digest_of_known_content() {
    assert_eq!(content_digest(b"abc"), ABC_SHA512);
    assert_eq!(content_digest(b""), EMPTY_SHA512);
    assert!(digest_matches(b"abc", ABC_SHA512));
    assert!(!digest_matches(b"abd", ABC_SHA512));
    assert!(!digest_matches(b"abc", &ABC_SHA512.to_uppercase()));
    assert!(!digest_matches(b"abc", "abc"));
}

#[test]
fn random_strings_are_alphanumeric() {
    let a = gen_random(32);
    assert_eq!(a.len(), 32);
    assert!(a.chars().all(|c| c.is_ascii_alphanumeric()));
    assert_eq!(gen_random(0), "");
    assert_ne!(gen_random(32), gen_random(32));
}

#[test]
fn chunk_size_rules() {
    assert_eq!(check_chunk_size(0), Err(ChunkError::Empty));
    assert_eq!(check_chunk_size(1), Ok(()));
    assert_eq!(check_chunk_size(MAX_CHUNK_SIZE), Ok(()));
    assert_eq!(check_chunk_size(MAX_CHUNK_SIZE + 1), Err(ChunkError::TooLarge));
    assert_eq!(check_chunk_count(0), Err(ChunkError::NoChunks));
    assert_eq!(check_chunk_count(100_000), Ok(()));
    assert_eq!(check_chunk_count(100_001), Err(ChunkError::TooManyChunks));
}

#[test]
fn upload_refuses_empty_and_oversized_chunks() {
    let mut cache = ChunkCache::new();
    assert_eq!(cache.upload(Vec::new()), Err(ChunkError::Empty));
    assert_eq!(cache.upload(vec![0u8; MAX_CHUNK_SIZE + 1]), Err(ChunkError::TooLarge));
}

#[test]
fn uploaded_chunk_is_found_and_taken_once() {
    let mut cache = ChunkCache::new();
    let id = cache.upload(vec![1, 2, 3]).unwrap();
    assert_eq!(id.len(), CHUNK_ID_LENGTH);
    assert!(id.chars().all(|c| c.is_ascii_alphanumeric()));
    assert!(cache.contains(&id));
    assert!(cache.contains_all(&vec![id.clone()]));
    assert!(!cache.contains(&"missing".to_string()));
    assert_eq!(cache.take(&id), Some(vec![1, 2, 3]));
    assert_eq!(cache.take(&id), None);
    assert!(!cache.contains(&id));
}

#[test]
fn every_id_of_an_empty_list_is_cached() {
    let mut cache = ChunkCache::new();
    assert!(cache.contains_all(&Vec::new()));
    let id = cache.upload(vec![9]).unwrap();
    assert!(cache.contains_all(&vec![id.clone()]));
    assert!(!cache.contains_all(&vec![id, "missing".to_string()]));
}

#[test]
fn upload_into_an_empty_cache_succeeds_and_stores_the_chunk() {
    let mut cache = ChunkCache::new();
    let id = cache.upload(vec![1, 2]).unwrap();
    assert!(cache.contains(&id));
    assert_eq!(cache.take(&id), Some(vec![1, 2]));
    assert!(!cache.contains(&id));
}

#[test]
fn store_under_keeps_a_live_chunk() {
    let mut cache = ChunkCache::new();
    assert!(cache.store_under("id".to_string(), vec![1]));
    assert!(!cache.store_under("id".to_string(), vec![2]));
    assert_eq!(cache.take(&"id".to_string()), Some(vec![1]));
}

#[test]
fn three_chunks_of_ten_bytes_make_a_file_of_thirty() {
    let mut cache = ChunkCache::new();
    let mut disk = MemoryDisk::new();
    let parts: Vec<Vec<u8>> = vec![vec![b'a'; 10], vec![b'b'; 10], vec![b'c'; 10]];
    let mut ids = Vec::new();
    let mut content = Vec::new();
    for part in &parts {
        ids.push(cache.upload(part.clone()).unwrap());
        content.extend_from_slice(part);
    }
    let digest = content_digest(&content);
    let resolved = target("file.bin", "assets");
    assert_eq!(add_file(&mut disk, &mut cache, &resolved, false, ids.clone(), digest), Ok(()));
    let published = disk.read("/cdn/assets/file.bin").unwrap();
    assert_eq!(published.len(), 30);
    assert_eq!(published, content);
    assert_eq!(disk.stat("/cdn/assets"), PathStat::Dir);
    for id in &ids {
        assert!(!cache.contains(id));
    }
}

#[test]
fn wrong_digest_leaves_the_destination_untouched() {
    let mut cache = ChunkCache::new();
    let mut disk = MemoryDisk::new();
    let resolved = target("file.bin", "");
    let id = cache.upload(b"old".to_vec()).unwrap();
    assert_eq!(
        add_file(&mut disk, &mut cache, &resolved, false, vec![id], content_digest(b"old")),
        Ok(())
    );
    let id = cache.upload(b"new".to_vec()).unwrap();
    let result = add_file(&mut disk, &mut cache, &resolved, true, vec![id], content_digest(b"other"));
    assert_eq!(result, Err(AssetError::HashMismatch));
    assert_eq!(result.unwrap_err().kind(), ErrorKind::Integrity);
    assert_eq!(disk.read("/cdn/file.bin"), Some(b"old".to_vec()));
}

#[test]
fn existing_file_needs_overwrite() {
    let mut cache = ChunkCache::new();
    let mut disk = MemoryDisk::new();
    let resolved = target("file.bin", "");
    let id = cache.upload(b"old".to_vec()).unwrap();
    add_file(&mut disk, &mut cache, &resolved, false, vec![id], content_digest(b"old")).unwrap();
    let id = cache.upload(b"new".to_vec()).unwrap();
    assert_eq!(
        add_file(&mut disk, &mut cache, &resolved, false, vec![id.clone()], content_digest(b"new")),
        Err(AssetError::AlreadyExists)
    );
    assert!(cache.contains(&id));
    assert_eq!(
        add_file(&mut disk, &mut cache, &resolved, true, vec![id], content_digest(b"new")),
        Ok(())
    );
    assert_eq!(disk.read("/cdn/file.bin"), Some(b"new".to_vec()));
}

#[test]
fn missing_and_repeated_chunks_are_refused() {
    let mut cache = ChunkCache::new();
    let mut disk = MemoryDisk::new();
    let resolved = target("file.bin", "");
    assert_eq!(
        add_file(&mut disk, &mut cache, &resolved, false, vec!["nope".to_string()], String::new()),
        Err(AssetError::ChunkMissing)
    );
    assert_eq!(
        add_file(&mut disk, &mut cache, &resolved, false, Vec::new(), String::new()),
        Err(AssetError::NoChunks)
    );
    let id = cache.upload(b"x".to_vec()).unwrap();
    assert_eq!(
        add_file(
            &mut disk,
            &mut cache,
            &resolved,
            false,
            vec![id.clone(), id],
            content_digest(b"xx")
        ),
        Err(AssetError::ChunkMissing)
    );
    assert_eq!(disk.stat("/cdn/file.bin"), PathStat::Missing);
}

#[test]
fn a_file_needs_a_name() {
    let mut cache = ChunkCache::new();
    let mut disk = MemoryDisk::new();
    let id = cache.upload(b"x".to_vec()).unwrap();
    let resolved = target("", "dir");
    assert_eq!(
        add_file(&mut disk, &mut cache, &resolved, true, vec![id], content_digest(b"x")),
        Err(AssetError::NotAFile)
    );
    assert_eq!(disk.stat("/cdn/dir"), PathStat::Missing);
}

#[test]
fn machine_asks_step_by_step() {
    let mut cache = ChunkCache::new();
    let id = cache.upload(b"abc".to_vec()).unwrap();
    let resolved = target("f", "d");
    let (mut machine, first) =
        AddFile::begin(&resolved, false, vec![id], ABC_SHA512.to_string(), &cache).unwrap();
    let temp = machine.temp_path().clone();
    assert!(temp.starts_with("/tmp/arcadia-cdn-file"));
    assert!(temp.ends_with("@>cdn>d>f"));
    assert_eq!(temp.len(), "/tmp/arcadia-cdn-file".len() + 32 + "@>cdn>d>f".len());
    assert!(matches!(first, FsRequest::Stat { path } if path == "/cdn/d/f"));
    let step = machine.advance(FsReply::Stat(PathStat::Missing), &mut cache);
    assert!(matches!(step, Progress::Continue(FsRequest::Stat { path }) if path == "/cdn/d"));
    let step = machine.advance(FsReply::Stat(PathStat::Missing), &mut cache);
    assert!(matches!(step, Progress::Continue(FsRequest::CreateDirAll { path }) if path == "/cdn/d"));
    let step = machine.advance(FsReply::Done, &mut cache);
    assert!(matches!(step, Progress::Continue(FsRequest::CreateFile { path }) if path == temp));
    let step = machine.advance(FsReply::Done, &mut cache);
    assert!(
        matches!(step, Progress::Continue(FsRequest::Append { path, bytes }) if path == temp && bytes == b"abc")
    );
    let step = machine.advance(FsReply::Done, &mut cache);
    assert!(matches!(step, Progress::Continue(FsRequest::Sync { path }) if path == temp));
    let step = machine.advance(FsReply::Done, &mut cache);
    assert!(matches!(step, Progress::Continue(FsRequest::ReadAll { path }) if path == temp));
    let step = machine.advance(FsReply::Content(b"abc".to_vec()), &mut cache);
    assert!(
        matches!(step, Progress::Continue(FsRequest::Copy { from, to }) if from == temp && to == "/cdn/d/f")
    );
    let step = machine.advance(FsReply::Done, &mut cache);
    assert!(matches!(step, Progress::Continue(FsRequest::Remove { path }) if path == temp));
    assert!(!machine.is_finished());
    let step = machine.advance(FsReply::Done, &mut cache);
    assert!(matches!(step, Progress::Finished(Ok(()))));
    assert!(machine.is_finished());
    let step = machine.advance(FsReply::Done, &mut cache);
    assert!(matches!(step, Progress::Finished(Err(AssetError::UnexpectedReply))));
}

#[test]
fn machine_stops_on_failures() {
    let mut cache = ChunkCache::new();
    let id = cache.upload(b"abc".to_vec()).unwrap();
    let resolved = target("f", "d");
    let begin = |cache: &ChunkCache, overwrite: bool| {
        AddFile::begin(&resolved, overwrite, vec![id.clone()], ABC_SHA512.to_string(), cache)
            .unwrap()
            .0
    };
    let mut machine = begin(&cache, true);
    let step = machine.advance(FsReply::Stat(PathStat::Dir), &mut cache);
    assert!(matches!(step, Progress::Finished(Err(AssetError::ReplacesDirectory))));
    let mut machine = begin(&cache, false);
    let step = machine.advance(FsReply::Stat(PathStat::Dir), &mut cache);
    assert!(matches!(step, Progress::Finished(Err(AssetError::AlreadyExists))));
    let mut machine = begin(&cache, false);
    let step = machine.advance(FsReply::Stat(PathStat::Failed), &mut cache);
    assert!(matches!(step, Progress::Finished(Err(AssetError::MetadataFailed))));
    let mut machine = begin(&cache, false);
    machine.advance(FsReply::Stat(PathStat::Missing), &mut cache);
    let step = machine.advance(FsReply::Stat(PathStat::File), &mut cache);
    assert!(matches!(step, Progress::Finished(Err(AssetError::NotADirectory))));
    let mut machine = begin(&cache, false);
    let step = machine.advance(FsReply::Failed, &mut cache);
    assert!(matches!(step, Progress::Finished(Err(AssetError::Io))));
    let mut machine = begin(&cache, false);
    let step = machine.advance(FsReply::Done, &mut cache);
    assert!(matches!(step, Progress::Finished(Err(AssetError::UnexpectedReply))));
    assert!(cache.contains(&id));
}

#[test]
fn temp_file_name() {
    assert_eq!(temp_file_path("TAG", "/cdn/a/b.png"), "/tmp/arcadia-cdn-fileTAG@>cdn>a>b.png");
}

#[test]
fn decisions_on_what_is_found() {
    assert_eq!(list_path_check(PathStat::Dir), Ok(()));
    assert_eq!(list_path_check(PathStat::File), Err(AssetError::NotADirectory));
    assert_eq!(list_path_check(PathStat::Missing), Err(AssetError::MetadataFailed));
    assert_eq!(read_file_check(PathStat::File), Ok(()));
    assert_eq!(read_file_check(PathStat::Dir), Err(AssetError::NotAFile));
    assert_eq!(read_file_check(PathStat::Failed), Err(AssetError::MetadataFailed));
    assert_eq!(create_folder_check(PathStat::Missing), Ok(()));
    assert_eq!(create_folder_check(PathStat::Dir), Err(AssetError::AlreadyExists));
    assert_eq!(create_folder_check(PathStat::Failed), Err(AssetError::MetadataFailed));
    assert_eq!(delete_plan(PathStat::File), Ok(DeletePlan::RemoveFile));
    assert_eq!(delete_plan(PathStat::Dir), Ok(DeletePlan::RemoveTree));
    assert_eq!(delete_plan(PathStat::Other), Ok(DeletePlan::Nothing));
    assert_eq!(delete_plan(PathStat::Missing), Err(AssetError::NotFound));
}

#[test]
fn copy_and_move_are_two_paths() {
    assert_eq!(copy_plan(PathStat::Missing, PathStat::File, false, true), Ok(CopyPlan::RenameFile));
    assert_eq!(copy_plan(PathStat::Missing, PathStat::File, false, false), Ok(CopyPlan::CopyFile));
    assert_eq!(copy_plan(PathStat::Missing, PathStat::Dir, false, true), Ok(CopyPlan::MoveTree));
    assert_eq!(copy_plan(PathStat::Dir, PathStat::Dir, false, false), Ok(CopyPlan::CopyTree));
    assert_eq!(
        copy_plan(PathStat::File, PathStat::File, false, false),
        Err(AssetError::CopyTargetExists)
    );
    assert_eq!(copy_plan(PathStat::File, PathStat::File, true, false), Ok(CopyPlan::CopyFile));
    assert_eq!(copy_plan(PathStat::Missing, PathStat::Missing, true, false), Err(AssetError::NotFound));
    assert_eq!(
        copy_plan(PathStat::Failed, PathStat::File, true, false),
        Err(AssetError::MetadataFailed)
    );
    assert_eq!(entry_plan(true, true), EntryPlan::Descend);
    assert_eq!(entry_plan(false, true), EntryPlan::Rename);
    assert_eq!(entry_plan(false, false), EntryPlan::Copy);
}

#[test]
fn copy_target_is_validated() {
    let resolved = target("f", "d");
    assert_eq!(copy_target(&resolved, "x/y"), Ok("/cdn/x/y".to_string()));
    assert_eq!(copy_target(&resolved, ""), Err(AssetError::EmptyCopyTarget));
    assert_eq!(copy_target(&resolved, "../y"), Err(AssetError::InvalidCopyTarget));
    assert_eq!(copy_target(&resolved, "/y"), Err(AssetError::InvalidCopyTarget));
}

#[test]
fn chunk_errors() {
    assert_eq!(ChunkError::Missing.kind(), ErrorKind::Integrity);
    assert_eq!(ChunkError::IdExhausted.kind(), ErrorKind::Infrastructure);
    assert_eq!(ChunkError::TooLarge.message(), "Chunk size is too large");
    assert_eq!(AssetError::HashMismatch.message(), "SHA512 hash does not match");
}
