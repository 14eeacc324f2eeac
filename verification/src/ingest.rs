//! The ingestion orchestrator: the decisions taken for one uploaded file, from
//! its first chunk to the commit of original and thumbnail.
//!
//! Reading the stream, writing the spool file, probing the media, talking to
//! the catalog store and moving files are the caller's work. Each state below
//! stands for a moment between two such pieces of work; its method takes what
//! the last one gave and says what is to be done next.

use vstd::prelude::*;
use crate::config::Data;
use crate::digest::{digest_text, stream_bytes, temp_filename, ContentDigest, StreamDigest};
use crate::error::{Error, SqlFailure};
use crate::paths::{
    content_path,
    hashed_path,
    join_path,
    joined_path,
    shard,
    shard_path,
    thumbnail_extension,
    thumbnail_path,
};
use crate::sniff::{inferred, sniff, sniffing_gives, understood, MediaType, Sniffed};

verus! {

/// The name of the catalog's uniqueness constraint on digests.
pub open spec fn digest_constraint() -> Seq<char> {
    "posts_md5_key"@
}

/// An upload that passed the sniffer and is being written to its spool file
/// while its digest is computed.
pub struct Spooling {
    format: Sniffed,
    running: StreamDigest,
    temp_name: String,
}

/// An upload whose stream has ended: its digest is known and its bytes rest
/// in the spool file.
pub struct Spooled {
    pub digest: ContentDigest,
    pub format: Sniffed,
    pub temp_name: String,
}

/// The catalog row of a post, as it is handed to the store.
pub struct PostDraft {
    pub uploader_id: Option<uuid::Uuid>,
    pub md5: String,
    pub width: i32,
    pub height: i32,
    pub media_type: MediaType,
    pub file_size: i64,
    pub media_path: String,
    pub thumbnail_path: String,
}

/// An upload whose row is ready for the catalog store.
pub struct Pending {
    draft: PostDraft,
    digest: ContentDigest,
    temp_name: String,
}

/// What is left to do for an upload whose row the store has accepted.
pub struct CommitPlan {
    pub post_id: i32,
    /// The spool file to move.
    pub temp_name: String,
    /// The directory to create for the original.
    pub media_dir: String,
    /// Where the original comes to rest.
    pub resting_place: String,
    /// The directory to create for the thumbnail.
    pub thumbnail_dir: String,
    /// Where the thumbnail is written.
    pub thumbnail: String,
    /// The side of the thumbnail's bounding box.
    pub resolution: u32,
}

/// How an upload ends once the store has answered.
pub enum Settlement {
    /// The row is in: move the spool file to its resting place, then make the
    /// thumbnail.
    Commit(CommitPlan),
    /// The content is already there: remove the spool file and report the
    /// conflict. Nothing under the content tree is touched.
    Duplicate { temp_name: String, error: Error },
    /// The store failed otherwise: report it.
    Failed(Error),
}

/// The reply for one stored file.
#[derive(Clone, Copy, Debug, PartialEq, Eq, Structural)]
pub struct UploadResponse {
    pub post_id: i32,
}

/// What opening an upload gives: a bad request for a stream without chunks,
/// the sniffer's refusal for an unsupported first chunk, and otherwise a spool
/// that has taken in exactly the first chunk.
pub open spec fn opens_as(first_chunk: Option<Seq<u8>>, opened: Result<Spooling, Error>) -> bool {
    match first_chunk {
        None => opened matches Err(Error::BadRequest(why)) && why@ == "empty file"@,
        Some(chunk) => match opened {
            Ok(spool) => sniffing_gives(inferred(chunk), Ok(spool.format())) && spool.bytes() == chunk
                && spool.temp_name().len() == 32,
            Err(e) => sniffing_gives(inferred(chunk), Err(e)),
        },
    }
}

/// The contents of an optional buffer.
pub open spec fn chunk_view(chunk: Option<&[u8]>) -> Option<Seq<u8>> {
    match chunk {
        Some(c) => Some(c@),
        None => None,
    }
}

impl Spooling {
    /// The bytes taken in so far.
    pub closed spec fn bytes(&self) -> Seq<u8> {
        self.running.bytes()
    }

    /// The format that the sniffer found.
    pub closed spec fn format(&self) -> Sniffed {
        self.format
    }

    /// The name of the spool file.
    pub closed spec fn temp_name(&self) -> Seq<char> {
        self.temp_name@
    }

    /// Opens an upload on the first chunk of its stream, `None` standing for
    /// a stream that ended at once. Only an upload that passes the sniffer
    /// gets a spool file name.
    pub fn open(first_chunk: Option<&[u8]>) -> (opened: Result<Spooling, Error>)
        ensures
            opens_as(chunk_view(first_chunk), opened),
    {
        match first_chunk {
            None => Err(Error::BadRequest(String::from_str("empty file"))),
            Some(chunk) => match sniff(chunk) {
                Err(e) => Err(e),
                Ok(format) => {
                    let mut running = StreamDigest::new();
                    running.update(chunk);
                    assert(running.bytes() =~= chunk@);
                    let temp_name = temp_filename();
                    Ok(Spooling { format, running, temp_name })
                },
            },
        }
    }

    /// The name of the spool file, to which every chunk is to be written.
    pub fn temp_file(&self) -> (name: &str)
        ensures
            name@ == self.temp_name(),
    {
        self.temp_name.as_str()
    }

    /// Takes in the next chunk of the stream.
    pub fn absorb(&mut self, chunk: &[u8])
        ensures
            final(self).bytes() == old(self).bytes() + chunk@,
            final(self).format() == old(self).format(),
            final(self).temp_name() == old(self).temp_name(),
    {
        self.running.update(chunk);
    }

    /// Ends the stream: the digest is that of all bytes taken in.
    pub fn finish(self) -> (done: Spooled)
        ensures
            done.digest.text() == digest_text(self.bytes()),
            done.format == self.format(),
            done.temp_name@ == self.temp_name(),
    {
        Spooled { digest: self.running.finish(), format: self.format, temp_name: self.temp_name }
    }
}

/// A probed dimension as the catalog's 32-bit signed column holds it.
pub open spec fn wrapped_dimension(v: u32) -> int {
    if v <= 0x7FFF_FFFF {
        v as int
    } else {
        v as int - 0x1_0000_0000
    }
}

/// Converts a probed dimension for the catalog.
pub fn catalog_dimension(v: u32) -> (d: i32)
    ensures
        d == wrapped_dimension(v),
{
    if v <= 0x7FFF_FFFF {
        v as i32
    } else {
        let wide: i64 = v as i64 - 0x1_0000_0000;
        wide as i32
    }
}

/// What describing a spooled upload gives: a refusal for a file too large for
/// the catalog's size column, and otherwise the row with digest, dimensions,
/// kind, size and both content-addressed paths.
pub open spec fn describes_as(
    spooled: Spooled,
    uploader_id: Option<uuid::Uuid>,
    width: u32,
    height: u32,
    size_on_disk: u64,
    described: Result<Pending, Error>,
) -> bool {
    if size_on_disk > 0x7FFF_FFFF_FFFF_FFFF {
        described matches Err(Error::ContentTooLarge(why)) && why@
            == "Files over 9,300 petabytes are not supported"@
    } else {
        described matches Ok(pending) && pending.temp_name() == spooled.temp_name@ && pending.digest()
            == spooled.digest.text() && pending.draft().uploader_id == uploader_id && pending.draft().md5@
            == spooled.digest.text() && pending.draft().width == wrapped_dimension(width)
            && pending.draft().height == wrapped_dimension(height) && pending.draft().media_type
            == spooled.format.media_type && pending.draft().file_size == size_on_disk
            && pending.draft().media_path@ == hashed_path(spooled.digest.text(), spooled.format.extension@)
            && pending.draft().thumbnail_path@ == hashed_path(spooled.digest.text(), thumbnail_extension())
    }
}

impl Spooled {
    /// Makes the catalog row from what probing the spool file gave: the
    /// stream's native dimensions and the file's size in bytes.
    pub fn describe(self, uploader_id: Option<uuid::Uuid>, width: u32, height: u32, size_on_disk: u64) -> (described:
        Result<Pending, Error>)
        ensures
            describes_as(self, uploader_id, width, height, size_on_disk, described),
    {
        if size_on_disk > 0x7FFF_FFFF_FFFF_FFFF {
            return Err(
                Error::ContentTooLarge(String::from_str("Files over 9,300 petabytes are not supported")),
            );
        }
        let media_path = content_path(&self.digest, self.format.extension.as_str());
        let thumbnail_path = thumbnail_path(&self.digest);
        let md5 = String::from_str(self.digest.as_str());
        let draft = PostDraft {
            uploader_id,
            md5,
            width: catalog_dimension(width),
            height: catalog_dimension(height),
            media_type: self.format.media_type,
            file_size: size_on_disk as i64,
            media_path,
            thumbnail_path,
        };
        Ok(Pending { draft, digest: self.digest, temp_name: self.temp_name })
    }
}

/// How an upload settles on the store's answer to the insert: a commit plan
/// below the configured roots where the row went in, a duplicate where the
/// digest's uniqueness was violated, and the store's failure otherwise.
pub open spec fn settles_as(
    pending: Pending,
    inserted: Result<i32, SqlFailure>,
    data: Data,
    settlement: Settlement,
) -> bool {
    match inserted {
        Ok(id) => settlement matches Settlement::Commit(plan) && plan.post_id == id && plan.temp_name@
            == pending.temp_name() && plan.media_dir@ == joined_path(data.media_root(), shard(pending.digest()))
            && plan.resting_place@ == joined_path(data.media_root(), pending.draft().media_path@)
            && plan.thumbnail_dir@ == joined_path(data.thumbnail_root(), shard(pending.digest()))
            && plan.thumbnail@ == joined_path(data.thumbnail_root(), pending.draft().thumbnail_path@)
            && plan.resolution == data.thumbnails.resolution,
        Err(failure) => if failure.violates(digest_constraint()) {
            settlement matches Settlement::Duplicate { temp_name, error: Error::Conflict(why) } && temp_name@
                == pending.temp_name() && why@ == "Duplicate post"@
        } else {
            settlement matches Settlement::Failed(Error::Sql(f)) && f == failure
        },
    }
}

impl Pending {
    /// The row to insert.
    pub closed spec fn draft(&self) -> PostDraft {
        self.draft
    }

    /// The digest of the upload.
    pub closed spec fn digest(&self) -> Seq<char> {
        self.digest.text()
    }

    /// The name of the spool file.
    pub closed spec fn temp_name(&self) -> Seq<char> {
        self.temp_name@
    }

    /// The row to insert.
    pub fn row(&self) -> (row: &PostDraft)
        ensures
            *row == self.draft(),
    {
        &self.draft
    }

    /// The name of the spool file.
    pub fn temp_file(&self) -> (name: &str)
        ensures
            name@ == self.temp_name(),
    {
        self.temp_name.as_str()
    }

    /// Takes the store's answer to the insert, the new post's identifier or
    /// the failure, and decides how the upload ends.
    pub fn settle(self, inserted: Result<i32, SqlFailure>, data: &Data) -> (settlement: Settlement)
        ensures
            settles_as(self, inserted, *data, settlement),
    {
        match inserted {
            Ok(post_id) => {
                let media_root = data.media();
                let thumbnail_root = data.thumbnails();
                let shard = shard_path(&self.digest);
                Settlement::Commit(
                    CommitPlan {
                        post_id,
                        media_dir: join_path(media_root.as_str(), shard.as_str()),
                        resting_place: join_path(media_root.as_str(), self.draft.media_path.as_str()),
                        thumbnail_dir: join_path(thumbnail_root.as_str(), shard.as_str()),
                        thumbnail: join_path(thumbnail_root.as_str(), self.draft.thumbnail_path.as_str()),
                        resolution: data.thumbnails.resolution,
                        temp_name: self.temp_name,
                    },
                )
            },
            Err(failure) => {
                if failure.is_violation_of("posts_md5_key") {
                    Settlement::Duplicate {
                        temp_name: self.temp_name,
                        error: Error::Conflict(String::from_str("Duplicate post")),
                    }
                } else {
                    Settlement::Failed(Error::Sql(failure))
                }
            },
        }
    }
}

impl CommitPlan {
    /// The reply for the file once original and thumbnail are in place.
    pub fn done(&self) -> (reply: UploadResponse)
        ensures
            reply.post_id == self.post_id,
    {
        UploadResponse { post_id: self.post_id }
    }
}

/// The reply to a batch whose files ended as `outcomes`, in the order of their
/// arrival: the list of replies where every file was stored, and otherwise the
/// error of the first file that was not.
pub fn batch_reply(outcomes: Vec<Result<UploadResponse, Error>>) -> (reply: Result<Vec<UploadResponse>, Error>)
    ensures
        match reply {
            Ok(stored) => stored@.len() == outcomes@.len() && forall|i: int|
                0 <= i < outcomes@.len() ==> outcomes@[i] == Ok::<UploadResponse, Error>(stored@[i]),
            Err(e) => exists|k: int|
                0 <= k < outcomes@.len() && outcomes@[k] == Err::<UploadResponse, Error>(e) && forall|j: int|
                    0 <= j < k ==> outcomes@[j] is Ok,
        },
{
    let mut rest = outcomes;
    let mut stored: Vec<UploadResponse> = Vec::new();
    while rest.len() > 0
        invariant
            stored@.len() + rest@.len() == outcomes@.len(),
            forall|i: int| 0 <= i < stored@.len() ==> outcomes@[i] == Ok::<UploadResponse, Error>(stored@[i]),
            forall|i: int| 0 <= i < rest@.len() ==> rest@[i] == outcomes@[stored@.len() + i],
        decreases rest@.len(),
    {
        let ghost k = stored@.len() as int;
        let next = rest.remove(0);
        match next {
            Ok(r) => {
                stored.push(r);
            },
            Err(e) => {
                assert(outcomes@[k] == Err::<UploadResponse, Error>(e));
                return Err(e);
            },
        }
    }
    Ok(stored)
}

/// An upload of an unsupported type never gets as far as a spool file: where
/// the first chunk is not of an understood type, opening fails as unsupported
/// media, and no spool state, and with it no spool file name, comes to be.
pub proof fn unsupported_uploads_are_never_spooled(chunk: Seq<u8>, opened: Result<Spooling, Error>)
    requires
        opens_as(Some(chunk), opened),
        !(inferred(chunk) matches Some(found) && understood(found.0) is Some),
    ensures
        opened matches Err(e) && e is UnsupportedMediaType,
{
}

/// An upload whose digest the catalog already holds ends as a duplicate: the
/// answer is a conflict, the only file named is the spool file to remove, and
/// no commit under the content tree is planned.
pub proof fn duplicates_leave_the_content_tree_alone(
    pending: Pending,
    failure: SqlFailure,
    data: Data,
    settlement: Settlement,
)
    requires
        failure.violates(digest_constraint()),
        settles_as(pending, Err(failure), data, settlement),
    ensures
        settlement matches Settlement::Duplicate { temp_name, error } && temp_name@ == pending.temp_name()
            && error.status_code() == 409,
        !(settlement is Commit),
{
}

/// A row that went in names the very places that the commit fills: the
/// original comes to rest at the row's content path below the media root, and
/// the thumbnail is written at the row's thumbnail path below the thumbnail
/// root. Between the insert and the move the row is ahead of the file; the
/// plan is what closes that gap.
pub proof fn committed_rows_name_the_committed_files(
    pending: Pending,
    id: i32,
    data: Data,
    settlement: Settlement,
)
    requires
        settles_as(pending, Ok(id), data, settlement),
    ensures
        settlement matches Settlement::Commit(plan) && plan.post_id == id && plan.resting_place@ == joined_path(
            data.media_root(),
            pending.draft().media_path@,
        ) && plan.thumbnail@ == joined_path(data.thumbnail_root(), pending.draft().thumbnail_path@),
{
}

/// Where an upload is stored depends on its bytes alone: two streams that
/// carry the same bytes, however they are cut into chunks, have the same
/// digest, the same content path and the same thumbnail path.
pub proof fn same_bytes_same_places(a: Seq<Seq<u8>>, b: Seq<Seq<u8>>, extension: Seq<char>)
    requires
        stream_bytes(a) == stream_bytes(b),
    ensures
        digest_text(stream_bytes(a)) == digest_text(stream_bytes(b)),
        hashed_path(digest_text(stream_bytes(a)), extension) == hashed_path(
            digest_text(stream_bytes(b)),
            extension,
        ),
        hashed_path(digest_text(stream_bytes(a)), thumbnail_extension()) == hashed_path(
            digest_text(stream_bytes(b)),
            thumbnail_extension(),
        ),
{
}

} // verus!
