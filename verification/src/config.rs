//! The configuration that the library reads: where the content tree lives,
//! how large thumbnails are, and the rules for accounts.

use vstd::prelude::*;
use crate::paths::{join_path, joined_path};

verus! {

/// The rules for accounts. The two rules are regular expressions, kept as
/// written.
pub struct Accounts {
    /// What a user name has to look like.
    pub username_regex: String,
    /// What a password has to look like.
    pub password_regex: String,
    /// The password of the first account, made when there is none.
    pub initial_superuser_password: String,
}

/// Settings of the thumbnailer.
pub struct DataThumbnails {
    /// Side of the square that every thumbnail fits into, in pixels.
    pub resolution: u32,
}

/// Where uploaded media and what is derived from it are kept.
pub struct Data {
    /// The data root, below which everything is stored.
    pub media: String,
    pub thumbnails: DataThumbnails,
}

impl Data {
    /// The root of the tree of originals.
    pub open spec fn media_root(&self) -> Seq<char> {
        joined_path(self.media@, seq!['m', 'e', 'd', 'i', 'a'])
    }

    /// The root of the tree of thumbnails.
    pub open spec fn thumbnail_root(&self) -> Seq<char> {
        joined_path(self.media@, seq!['t', 'h', 'u', 'm', 'b'])
    }

    /// Returns the root path for storing original-quality media.
    pub fn media(&self) -> (path: String)
        ensures
            path@ == self.media_root(),
    {
        proof {
            reveal_strlit("media");
            assert("media"@ =~= seq!['m', 'e', 'd', 'i', 'a']);
        }
        join_path(self.media.as_str(), "media")
    }

    /// Returns the root path for storing thumbnails.
    pub fn thumbnails(&self) -> (path: String)
        ensures
            path@ == self.thumbnail_root(),
    {
        proof {
            reveal_strlit("thumb");
            assert("thumb"@ =~= seq!['t', 'h', 'u', 'm', 'b']);
        }
        join_path(self.media.as_str(), "thumb")
    }
}

} // verus!
