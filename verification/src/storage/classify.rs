//! The four-state classification of `clips.db`.
//!
//! The most dangerous read in the application: every deletion in startup
//! recovery is gated on a *positive* classification, and misreading an
//! unreadable encrypted store as an absent one destroys the only copy of the
//! wrapped DEK.

use vstd::prelude::*;

verus! {

/// The length of the header a classification reads.
pub const HEADER_LEN: usize = 16;

/// The first 16 bytes of a plaintext SQLite database, `"SQLite format 3\0"`.
/// A SQLCipher database begins with a random salt, so it never matches.
pub const SQLITE_MAGIC: [u8; HEADER_LEN] = [
    0x53, 0x51, 0x4c, 0x69, 0x74, 0x65, 0x20, 0x66, 0x6f, 0x72, 0x6d, 0x61, 0x74, 0x20, 0x33, 0x00,
];

/// What `clips.db` is. Established once, from one open and one read.
#[derive(Debug, Clone, Copy, PartialEq, Eq, Structural)]
pub enum Classification {
    /// The open failed because the file is not there, specifically.
    Absent,
    /// Sixteen bytes were read and they are the SQLite magic.
    Plaintext,
    /// Sixteen bytes were read and they are anything else.
    Encrypted,
    /// The open or the read failed for any other reason. Deletes nothing,
    /// creates nothing, opens nothing.
    Unreadable,
}

/// What opening `clips.db` and reading its first sixteen bytes gave.
pub enum HeaderRead {
    /// The open failed with "not found".
    NotFound,
    /// The open failed for another reason, or fewer than sixteen bytes could
    /// be read. A file too short to classify has not been shown to be absent.
    Failed,
    /// Sixteen bytes.
    Read([u8; HEADER_LEN]),
}

/// The classification a header read calls for.
pub open spec fn classified(read: HeaderRead) -> Classification {
    match read {
        HeaderRead::NotFound => Classification::Absent,
        HeaderRead::Failed => Classification::Unreadable,
        HeaderRead::Read(header) => if header@ == SQLITE_MAGIC@ {
            Classification::Plaintext
        } else {
            Classification::Encrypted
        },
    }
}

impl Classification {
    /// Whether the store is encrypted. Never "not plaintext": `Unreadable` is
    /// not an answer to this question, and treating it as one is what deletes
    /// a user's key material.
    pub fn is_encrypted(self) -> (r: bool)
        ensures
            r == (self == Classification::Encrypted),
    {
        match self {
            Classification::Encrypted => true,
            _ => false,
        }
    }

    /// Whether a stray `keyfile` beside this store may be deleted: only on a
    /// positive `Absent` or `Plaintext`.
    pub fn permits_keyfile_delete(self) -> (r: bool)
        ensures
            r == (self == Classification::Absent || self == Classification::Plaintext),
    {
        match self {
            Classification::Absent | Classification::Plaintext => true,
            _ => false,
        }
    }
}

/// Whether two headers hold the same bytes.
fn same_header(a: &[u8; HEADER_LEN], b: &[u8; HEADER_LEN]) -> (r: bool)
    ensures
        r == (a@ == b@),
{
    let mut i: usize = 0;
    while i < HEADER_LEN
        invariant
            i <= HEADER_LEN,
            forall|j: int| 0 <= j < i ==> a@[j] == b@[j],
        decreases HEADER_LEN - i,
    {
        if a[i] != b[i] {
            assert(a@[i as int] != b@[i as int]);
            return false;
        }
        i = i + 1;
    }
    assert(a@ =~= b@);
    true
}

/// Classify `clips.db` from what opening it and reading its header gave.
///
/// Only "not found" is `Absent`: a permission failure, a directory in the
/// file's place, or a short read is `Unreadable`, because each of those read
/// as absence is what sends recovery down the delete-the-keyfile path over an
/// intact encrypted store.
pub fn classify(read: HeaderRead) -> (r: Classification)
    ensures
        r == classified(read),
{
    match read {
        HeaderRead::NotFound => Classification::Absent,
        HeaderRead::Failed => Classification::Unreadable,
        HeaderRead::Read(header) => {
            let magic: [u8; HEADER_LEN] = SQLITE_MAGIC;
            if same_header(&header, &magic) {
                Classification::Plaintext
            } else {
                Classification::Encrypted
            }
        },
    }
}

} // verus!
