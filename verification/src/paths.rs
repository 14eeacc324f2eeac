//! The content-addressed storage layout: where a file with a given digest
//! lives below a root of the content tree.

use vstd::prelude::*;
use crate::digest::ContentDigest;

verus! {

/// `rel` below `base`: a separator is put between the two unless `base` is
/// empty or already ends in one, and a `rel` that starts at the root stands
/// alone.
pub open spec fn joined_path(base: Seq<char>, rel: Seq<char>) -> Seq<char> {
    if rel.len() > 0 && rel[0] == '/' {
        rel
    } else if base.len() == 0 || base.last() == '/' {
        base + rel
    } else {
        base + seq!['/'] + rel
    }
}

/// The two-level directory that shards files by the leading digits of their
/// digest: the first two characters, then the next two.
pub open spec fn shard(digest: Seq<char>) -> Seq<char>
    recommends
        digest.len() >= 4,
{
    digest.subrange(0, 2) + seq!['/'] + digest.subrange(2, 4)
}

/// The relative path of the file with the given digest and extension:
/// the shard, then the whole digest as file name, then the extension.
pub open spec fn hashed_path(digest: Seq<char>, extension: Seq<char>) -> Seq<char>
    recommends
        digest.len() >= 4,
{
    let stem = shard(digest) + seq!['/'] + digest;
    if extension.len() == 0 {
        stem
    } else {
        stem + seq!['.'] + extension
    }
}

/// The extension of every thumbnail, whatever the source was.
pub open spec fn thumbnail_extension() -> Seq<char> {
    seq!['w', 'e', 'b', 'p']
}

/// Joins two paths.
pub fn join_path(base: &str, rel: &str) -> (out: String)
    ensures
        out@ == joined_path(base@, rel@),
{
    let rel_len: usize = rel.unicode_len();
    if rel_len > 0 && rel.get_char(0) == '/' {
        return String::from_str(rel);
    }
    let base_len: usize = base.unicode_len();
    let mut out = String::from_str(base);
    if base_len > 0 && base.get_char(base_len - 1) != '/' {
        proof {
            reveal_strlit("/");
            assert("/"@ =~= seq!['/']);
        }
        out.append("/");
    }
    out.append(rel);
    out
}

/// The shard in which the files with this digest are stored.
pub fn shard_path(digest: &ContentDigest) -> (out: String)
    ensures
        out@ == shard(digest.text()),
{
    let hex = digest.as_str();
    proof {
        reveal_strlit("/");
        assert("/"@ =~= seq!['/']);
    }
    let mut out = String::from_str(hex.substring_char(0, 2));
    out.append("/");
    out.append(hex.substring_char(2, 4));
    out
}

/// The relative path at which the original with this digest is stored.
pub fn content_path(digest: &ContentDigest, extension: &str) -> (out: String)
    ensures
        out@ == hashed_path(digest.text(), extension@),
{
    let hex = digest.as_str();
    proof {
        reveal_strlit("/");
        reveal_strlit(".");
        assert("/"@ =~= seq!['/']);
        assert("."@ =~= seq!['.']);
    }
    let mut out = String::from_str(hex.substring_char(0, 2));
    out.append("/");
    out.append(hex.substring_char(2, 4));
    out.append("/");
    out.append(hex);
    if extension.unicode_len() > 0 {
        out.append(".");
        out.append(extension);
    }
    out
}

/// The relative path at which the thumbnail for this digest is stored.
pub fn thumbnail_path(digest: &ContentDigest) -> (out: String)
    ensures
        out@ == hashed_path(digest.text(), thumbnail_extension()),
{
    proof {
        reveal_strlit("webp");
        assert("webp"@ =~= thumbnail_extension());
    }
    content_path(digest, "webp")
}

/// Files with different digests never share a path: among digests of the
/// fixed length and for one extension, the path determines the digest.
pub proof fn paths_do_not_collide(a: Seq<char>, b: Seq<char>, extension: Seq<char>)
    requires
        a.len() == 32,
        b.len() == 32,
        hashed_path(a, extension) == hashed_path(b, extension),
    ensures
        a == b,
{
    let pa = hashed_path(a, extension);
    let pb = hashed_path(b, extension);
    assert forall|i: int| 0 <= i < 32 implies a[i] == b[i] by {
        assert(pa[6 + i] == a[i]);
        assert(pb[6 + i] == b[i]);
    }
    assert(a =~= b);
}

} // verus!
