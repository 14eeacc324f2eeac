use minibooru::config::{Data, DataThumbnails};
use minibooru::error::{Error, SqlFailure};
use minibooru::ingest::{batch_reply, catalog_dimension, Pending, Settlement, Spooling, UploadResponse};
use minibooru::sniff::MediaType;

const PNG: [u8; 12] = [0x89, 0x50, 0x4E, 0x47, 0x0D, 0x0A, 0x1A, 0x0A, 0, 0, 0, 13];

fn data() -> Data {
    Data { media: String::from("/data"), thumbnails: DataThumbnails { resolution: 200 } }
}

fn pending_png() -> Pending {
    let mut spool = Spooling::open(Some(&PNG)).ok().unwrap();
    spool.absorb(b"IHDR and the rest");
    spool.finish().describe(None, 640, 480, 29).ok().unwrap()
}

fn duplicate_key() -> SqlFailure {
    SqlFailure::Database { constraint: Some(String::from("posts_md5_key")), message: String::from("duplicate") }
}

#[test]
fn a_stream_without_chunks_is_a_bad_request() {
    match Spooling::open(None) {
        Err(Error::BadRequest(why)) => assert_eq!(why, "empty file"),
        _ => panic!("expected a bad request"),
    }
}

#[test]
fn five_bytes_of_noise_are_unsupported_and_nothing_is_spooled() {
    match Spooling::open(Some(&[0x13, 0x37, 0x00, 0x42, 0x99])) {
        Err(e) => {
            let reply = e.into_response();
            assert_eq!(reply.status, 415);
            assert_eq!(reply.body, "couldn't determine");
        },
        Ok(_) => panic!("noise was accepted"),
    }
}

#[test]
fn a_text_file_is_refused_before_spooling() {
    match Spooling::open(Some(b"#!/bin/sh\necho hello\n")) {
        Err(Error::UnsupportedMediaType(why)) => assert_eq!(why, "MIME type text/x-shellscript is unsupported"),
        _ => panic!("expected a refusal"),
    }
    match Spooling::open(Some(b"plain words, no magic")) {
        Err(Error::UnsupportedMediaType(why)) => assert_eq!(why, "couldn't determine"),
        _ => panic!("expected a refusal"),
    }
}

#[test]
fn the_first_chunk_is_part_of_the_digest() {
    let spool = Spooling::open(Some(b"GIF89a")).ok().unwrap();
    let done = spool.finish();
    let expected = minibooru::digest::digest_chunks(&vec![b"GIF89a".to_vec()]);
    assert_eq!(done.digest.as_str(), expected.as_str());
    assert_eq!(done.format.extension, "gif");
    assert_eq!(done.format.media_type, MediaType::Image);
}

#[test]
fn chunks_are_digested_in_order_of_arrival() {
    let mut spool = Spooling::open(Some(b"GIF")).ok().unwrap();
    spool.absorb(b"89a");
    spool.absorb(b"");
    spool.absorb(b" tail");
    let chunked = spool.finish();
    let whole = Spooling::open(Some(b"GIF89a tail")).ok().unwrap().finish();
    assert_eq!(chunked.digest.as_str(), whole.digest.as_str());
    assert_eq!(chunked.digest.as_str(), minibooru::digest::digest_chunks(&vec![b"GIF89a tail".to_vec()]).as_str());
}

#[test]
fn spool_files_have_fresh_names() {
    let a = Spooling::open(Some(&PNG)).ok().unwrap();
    let b = Spooling::open(Some(&PNG)).ok().unwrap();
    assert_eq!(a.temp_file().len(), 32);
    assert_ne!(a.temp_file(), b.temp_file());
    let name = a.temp_file().to_string();
    assert_eq!(a.finish().temp_name, name);
}

#[test]
fn the_row_holds_digest_sizes_and_both_paths() {
    let spooled = Spooling::open(Some(&PNG)).ok().unwrap().finish();
    let digest = spooled.digest.as_str().to_string();
    let temp = spooled.temp_name.clone();
    let pending = spooled.describe(None, 640, 480, 12).ok().unwrap();
    assert_eq!(pending.temp_file(), temp);
    let row = pending.row();
    assert!(row.uploader_id.is_none());
    assert_eq!(row.md5, digest);
    assert_eq!((row.width, row.height), (640, 480));
    assert_eq!(row.media_type, MediaType::Image);
    assert_eq!(row.file_size, 12);
    assert_eq!(row.media_path, format!("{}/{}/{}.png", &digest[0..2], &digest[2..4], digest));
    assert_eq!(row.thumbnail_path, format!("{}/{}/{}.webp", &digest[0..2], &digest[2..4], digest));
}

#[test]
fn the_uploader_is_carried_into_the_row() {
    let id = uuid::Uuid::from_u128(0x1234_5678_9abc_def0_1234_5678_9abc_def0);
    let pending = Spooling::open(Some(&PNG)).ok().unwrap().finish().describe(Some(id), 1, 1, 1).ok().unwrap();
    assert_eq!(pending.row().uploader_id, Some(id));
}

#[test]
fn files_beyond_the_size_column_are_too_large() {
    let spooled = Spooling::open(Some(&PNG)).ok().unwrap().finish();
    match spooled.describe(None, 1, 1, i64::MAX as u64 + 1) {
        Err(Error::ContentTooLarge(why)) => assert_eq!(why, "Files over 9,300 petabytes are not supported"),
        _ => panic!("expected a refusal"),
    }
    let spooled = Spooling::open(Some(&PNG)).ok().unwrap().finish();
    assert_eq!(spooled.describe(None, 1, 1, i64::MAX as u64).ok().unwrap().row().file_size, i64::MAX);
    let spooled = Spooling::open(Some(&PNG)).ok().unwrap().finish();
    assert!(matches!(spooled.describe(None, 1, 1, u64::MAX), Err(Error::ContentTooLarge(_))));
}

#[test]
fn dimensions_wrap_into_the_signed_column() {
    assert_eq!(catalog_dimension(0), 0);
    assert_eq!(catalog_dimension(1920), 1920);
    assert_eq!(catalog_dimension(i32::MAX as u32), i32::MAX);
    assert_eq!(catalog_dimension(i32::MAX as u32 + 1), i32::MIN);
    assert_eq!(catalog_dimension(u32::MAX), -1);
}

#[test]
fn an_accepted_row_is_committed_below_the_roots() {
    let pending = pending_png();
    let temp = pending.temp_file().to_string();
    let media_path = pending.row().media_path.clone();
    let thumbnail_path = pending.row().thumbnail_path.clone();
    let shard = media_path[0..5].to_string();
    match pending.settle(Ok(42), &data()) {
        Settlement::Commit(plan) => {
            assert_eq!(plan.post_id, 42);
            assert_eq!(plan.temp_name, temp);
            assert_eq!(plan.media_dir, format!("/data/media/{}", shard));
            assert_eq!(plan.resting_place, format!("/data/media/{}", media_path));
            assert_eq!(plan.thumbnail_dir, format!("/data/thumb/{}", shard));
            assert_eq!(plan.thumbnail, format!("/data/thumb/{}", thumbnail_path));
            assert_eq!(plan.resolution, 200);
            assert_eq!(plan.done(), UploadResponse { post_id: 42 });
        },
        _ => panic!("expected a commit"),
    }
}

#[test]
fn a_duplicate_digest_is_a_conflict_and_only_the_spool_file_goes() {
    let pending = pending_png();
    let temp = pending.temp_file().to_string();
    match pending.settle(Err(duplicate_key()), &data()) {
        Settlement::Duplicate { temp_name, error: Error::Conflict(why) } => {
            assert_eq!(temp_name, temp);
            assert_eq!(why, "Duplicate post");
        },
        _ => panic!("expected a duplicate"),
    }
}

#[test]
fn other_store_failures_are_passed_on() {
    let other = SqlFailure::Database { constraint: Some(String::from("posts_pkey")), message: String::from("m") };
    match pending_png().settle(Err(other), &data()) {
        Settlement::Failed(Error::Sql(f)) => assert!(f.is_violation_of("posts_pkey")),
        _ => panic!("expected a failure"),
    }
    match pending_png().settle(Err(SqlFailure::Other(String::from("pool timed out"))), &data()) {
        Settlement::Failed(Error::Sql(SqlFailure::Other(why))) => assert_eq!(why, "pool timed out"),
        _ => panic!("expected a failure"),
    }
    assert!(matches!(
        pending_png().settle(Err(SqlFailure::RowNotFound), &data()),
        Settlement::Failed(Error::Sql(SqlFailure::RowNotFound))
    ));
}

#[test]
fn the_same_image_twice_in_one_batch() {
    let mut rows: Vec<String> = Vec::new();
    let mut outcomes: Vec<Result<UploadResponse, Error>> = Vec::new();
    let mut stored: Vec<String> = Vec::new();
    for _ in 0..2 {
        let pending = Spooling::open(Some(&PNG)).ok().unwrap().finish().describe(None, 1, 1, 12).ok().unwrap();
        let inserted = if rows.contains(&pending.row().md5) {
            Err(duplicate_key())
        } else {
            rows.push(pending.row().md5.clone());
            Ok(rows.len() as i32)
        };
        match pending.settle(inserted, &data()) {
            Settlement::Commit(plan) => {
                stored.push(plan.resting_place.clone());
                outcomes.push(Ok(plan.done()));
            },
            Settlement::Duplicate { error, .. } => outcomes.push(Err(error)),
            Settlement::Failed(error) => outcomes.push(Err(error)),
        }
    }
    assert_eq!(outcomes.len(), 2);
    assert!(matches!(outcomes[0], Ok(UploadResponse { post_id: 1 })));
    assert!(matches!(&outcomes[1], Err(Error::Conflict(why)) if why == "Duplicate post"));
    assert_eq!(stored.len(), 1);
    assert_eq!(rows.len(), 1);
    match batch_reply(outcomes) {
        Err(e) => assert_eq!(e.into_response().status, 409),
        Ok(_) => panic!("the batch holds a conflict"),
    }
}

#[test]
fn a_batch_of_stored_files_replies_in_order() {
    let outcomes = vec![Ok(UploadResponse { post_id: 3 }), Ok(UploadResponse { post_id: 1 }), Ok(UploadResponse { post_id: 2 })];
    let reply = batch_reply(outcomes).ok().unwrap();
    assert_eq!(reply, vec![UploadResponse { post_id: 3 }, UploadResponse { post_id: 1 }, UploadResponse { post_id: 2 }]);
    assert_eq!(batch_reply(Vec::new()).ok().unwrap(), Vec::new());
}

#[test]
fn a_batch_reports_its_first_failure() {
    let outcomes = vec![
        Ok(UploadResponse { post_id: 1 }),
        Err(Error::Conflict(String::from("Duplicate post"))),
        Ok(UploadResponse { post_id: 2 }),
        Err(Error::Unauthorized),
    ];
    match batch_reply(outcomes) {
        Err(Error::Conflict(why)) => assert_eq!(why, "Duplicate post"),
        _ => panic!("expected the conflict"),
    }
}
