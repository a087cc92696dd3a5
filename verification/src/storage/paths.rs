//! Where the store lives: a `.fast-clip` directory under the user's home, and
//! every file name the store uses inside it.
//!
//! The pre-refactor `%LOCALAPPDATA%\FastClip\db` is a different directory, not
//! a different file name, which is what keeps the two stores from colliding.

use vstd::prelude::*;

use std::path::Path;

use crate::error::{ClipError, ErrorView};

verus! {

/// The directory name under the user's home directory.
pub const DIR_NAME: &'static str = ".fast-clip";
/// The clip database.
pub const DB_FILE: &'static str = "clips.db";
/// The database's write-ahead log. Committed data: never swept.
pub const DB_WAL_FILE: &'static str = "clips.db-wal";
/// The database's shared-memory index. Never swept.
pub const DB_SHM_FILE: &'static str = "clips.db-shm";
/// The intermediate a conversion builds beside the live store.
pub const DB_NEW_FILE: &'static str = "clips.db.new";
/// The intermediate's write-ahead log.
pub const DB_NEW_WAL_FILE: &'static str = "clips.db.new-wal";
/// The intermediate's shared-memory index.
pub const DB_NEW_SHM_FILE: &'static str = "clips.db.new-shm";
/// The protected wrapped DEK. Present only when encryption is on.
pub const KEYFILE: &'static str = "keyfile";
/// The intermediate every write of `keyfile` goes through.
pub const KEYFILE_NEW: &'static str = "keyfile.new";
/// Plaintext, readable while locked, holds no clip data.
pub const SETTINGS_FILE: &'static str = "settings.json";
/// The intermediate `settings.json` is written to before it is renamed. Not in
/// the sweep list: it holds a version number and a boolean, and the next write
/// truncates it.
pub const SETTINGS_NEW_FILE: &'static str = "settings.json.new";

/// Whether a name is one plain path component: not empty, not `.` or `..`,
/// and free of the characters that would make it a directory, a drive or a
/// root.
pub open spec fn is_plain_name(name: Seq<char>) -> bool {
    &&& name.len() > 0
    &&& name != "."@
    &&& name != ".."@
    &&& forall|i: int| 0 <= i < name.len() ==> #[trigger] name[i] != '/' && name[i] != '\\' && name[i] != ':'
}

/// Whether `text` ends with `suffix`.
pub open spec fn ends_with(text: Seq<char>, suffix: Seq<char>) -> bool {
    text.len() >= suffix.len() && text.subrange(text.len() - suffix.len(), text.len() as int) == suffix
}

/// The characters a path separator can be: `/` on every platform, `\` on
/// Windows.
pub open spec fn is_separator(c: char) -> bool {
    c == '/' || c == '\\'
}

/// A Windows verbatim path (`\\?\...`), which `Path::join` normalises
/// rather than extends. Either slash is counted, so the test errs towards
/// calling a path verbatim.
pub open spec fn is_verbatim(dir: Seq<char>) -> bool {
    &&& dir.len() >= 4
    &&& is_separator(dir[0]) && is_separator(dir[1]) && dir[2] == '?' && is_separator(dir[3])
}

/// A bare drive (`C:`), onto which Windows joins a name without a separator.
pub open spec fn is_drive_only(dir: Seq<char>) -> bool {
    dir.len() == 2 && dir[1] == ':'
}

/// Whether `joined` is `dir`, one separator, then `name`.
pub open spec fn separated(joined: Seq<char>, dir: Seq<char>, name: Seq<char>) -> bool {
    &&& joined.len() == dir.len() + 1 + name.len()
    &&& joined.subrange(0, dir.len() as int) == dir
    &&& is_separator(joined[dir.len() as int])
    &&& joined.subrange(dir.len() + 1int, joined.len() as int) == name
}

/// Whether `joined` is `name` placed inside `dir`: after a separator, which
/// is added unless `dir` already ends with one. Where the platform decides
/// (a trailing `\\`, which only Windows reads as a separator; an empty
/// directory; a bare drive), either form is allowed.
pub open spec fn joins(joined: Seq<char>, dir: Seq<char>, name: Seq<char>) -> bool {
    if dir.len() > 0 && dir.last() == '/' {
        joined == dir + name
    } else if dir.len() == 0 || is_drive_only(dir) || dir.last() == '\\' {
        joined == dir + name || separated(joined, dir, name)
    } else {
        separated(joined, dir, name)
    }
}

/// `Path::new(dir).join(name)`, as text. For a relative, plain `name`,
/// `join` adds the platform's separator after `dir` unless `dir` already ends
/// with one, and then appends `name`. A verbatim `dir` is normalised instead,
/// so nothing is claimed of its result. Both parts are valid UTF-8, so the
/// text conversion loses nothing.
#[verifier::external_body]
fn join_path(dir: &str, name: &str) -> (r: String)
    requires
        is_plain_name(name@),
    ensures
        !is_verbatim(dir@) ==> joins(r@, dir@, name@),
{
    Path::new(dir).join(name).to_string_lossy().into_owned()
}

/// The user's home directory (`dirs::home_dir`), as text, or `None` when
/// there is none or it is not valid UTF-8. It comes from the environment, so
/// nothing is claimed of it.
#[verifier::external_body]
fn home_dir() -> Option<String> {
    dirs::home_dir().and_then(|home| home.into_os_string().into_string().ok())
}

/// Every path the store uses, derived from one directory.
#[derive(Debug, Clone, PartialEq, Eq)]
pub struct StorePaths {
    dir: String,
}

/// The four files that exist only inside a conversion, in the order they are
/// swept.
pub open spec fn intermediate_names() -> Seq<Seq<char>> {
    seq![DB_NEW_FILE@, DB_NEW_WAL_FILE@, DB_NEW_SHM_FILE@, KEYFILE_NEW@]
}

/// The names are plain, distinct where they must be, and the sweep list holds
/// neither of the live database's sidecars.
pub proof fn lemma_names()
    ensures
        is_plain_name(DIR_NAME@), is_plain_name(DB_FILE@), is_plain_name(DB_WAL_FILE@),
        is_plain_name(DB_SHM_FILE@), is_plain_name(DB_NEW_FILE@), is_plain_name(DB_NEW_WAL_FILE@),
        is_plain_name(DB_NEW_SHM_FILE@), is_plain_name(KEYFILE@), is_plain_name(KEYFILE_NEW@),
        is_plain_name(SETTINGS_FILE@), is_plain_name(SETTINGS_NEW_FILE@),
        intermediate_names().len() == 4,
        !intermediate_names().contains(DB_WAL_FILE@),
        !intermediate_names().contains(DB_SHM_FILE@),
        !intermediate_names().contains(DB_FILE@),
        !intermediate_names().contains(KEYFILE@),
{
    reveal_strlit(".");
    reveal_strlit("..");
    reveal_strlit(".fast-clip");
    reveal_strlit("clips.db");
    reveal_strlit("clips.db-wal");
    reveal_strlit("clips.db-shm");
    reveal_strlit("clips.db.new");
    reveal_strlit("clips.db.new-wal");
    reveal_strlit("clips.db.new-shm");
    reveal_strlit("keyfile");
    reveal_strlit("keyfile.new");
    reveal_strlit("settings.json");
    reveal_strlit("settings.json.new");
    assert("."@.len() == 1 && ".."@.len() == 2);
    assert(DIR_NAME@.len() == 10 && DB_FILE@.len() == 8 && DB_WAL_FILE@.len() == 12);
    assert(DB_SHM_FILE@.len() == 12 && DB_NEW_FILE@.len() == 12 && DB_NEW_WAL_FILE@.len() == 16);
    assert(DB_NEW_SHM_FILE@.len() == 16 && KEYFILE@.len() == 7 && KEYFILE_NEW@.len() == 11);
    assert(SETTINGS_FILE@.len() == 13 && SETTINGS_NEW_FILE@.len() == 17);
    let names = intermediate_names();
    assert(DB_WAL_FILE@[8] == '-');
    assert(DB_SHM_FILE@[8] == '-');
    assert(names[0].len() == 12 && names[0][8] == '.');
    assert(names[1].len() == 16);
    assert(names[2].len() == 16);
    assert(names[3].len() == 11);
    assert(!names.contains(DB_WAL_FILE@)) by {
        if names.contains(DB_WAL_FILE@) {
            let k = choose|k: int| 0 <= k < names.len() && names[k] == DB_WAL_FILE@;
            assert(names[k][8] == DB_WAL_FILE@[8]);
        }
    }
    assert(!names.contains(DB_SHM_FILE@)) by {
        if names.contains(DB_SHM_FILE@) {
            let k = choose|k: int| 0 <= k < names.len() && names[k] == DB_SHM_FILE@;
            assert(names[k][8] == DB_SHM_FILE@[8]);
        }
    }
    assert(!names.contains(DB_FILE@)) by {
        if names.contains(DB_FILE@) {
            let k = choose|k: int| 0 <= k < names.len() && names[k] == DB_FILE@;
            assert(names[k].len() == 8);
        }
    }
    assert(!names.contains(KEYFILE@)) by {
        if names.contains(KEYFILE@) {
            let k = choose|k: int| 0 <= k < names.len() && names[k] == KEYFILE@;
            assert(names[k].len() == 7);
        }
    }
}

/// A join ends with the name it placed.
proof fn lemma_joins_ends_with(joined: Seq<char>, dir: Seq<char>, name: Seq<char>)
    requires
        joins(joined, dir, name),
    ensures
        ends_with(joined, name),
{
    if joined == dir + name {
        assert(joined.subrange(joined.len() - name.len(), joined.len() as int) =~= name);
    } else {
        assert(separated(joined, dir, name));
    }
}

impl StorePaths {
    /// The directory everything else is derived from.
    pub closed spec fn directory(&self) -> Seq<char> {
        self.dir@
    }

    /// `~/.fast-clip/`. A machine with no resolvable home directory, or one
    /// whose home directory is not valid UTF-8, is `storage`, not a panic.
    /// Which directory the environment names is not this library's to state:
    /// what is made of it is [`StorePaths::under_home`]'s contract.
    pub fn from_home() -> (r: Result<StorePaths, ClipError>)
        ensures
            r matches Err(e) ==> e@ == ErrorView::Storage,
    {
        match home_dir() {
            Some(home) => Ok(StorePaths::under_home(home.as_str())),
            None => Err(ClipError::Storage),
        }
    }

    /// The store directory under a home directory: `.fast-clip` joined onto
    /// it. A home in Windows verbatim form is joined too, but `Path::join`
    /// normalises such a path, so nothing is claimed of the result.
    pub fn under_home(home: &str) -> (r: StorePaths)
        ensures
            !is_verbatim(home@) ==> joins(r.directory(), home@, DIR_NAME@),
            !is_verbatim(home@) ==> ends_with(r.directory(), DIR_NAME@),
    {
        proof { lemma_names(); }
        let dir = join_path(home, DIR_NAME);
        proof {
            if !is_verbatim(home@) {
                lemma_joins_ends_with(dir@, home@, DIR_NAME@);
            }
        }
        StorePaths { dir }
    }

    /// An arbitrary directory. Tests use this so they never touch the real
    /// store.
    pub fn at(dir: &str) -> (r: StorePaths)
        ensures
            r.directory() == dir@,
    {
        StorePaths { dir: dir.to_owned() }
    }

    pub fn dir(&self) -> (r: &str)
        ensures
            r@ == self.directory(),
    {
        self.dir.as_str()
    }

    /// `name` inside the store directory.
    fn file(&self, name: &str) -> (r: String)
        requires
            is_plain_name(name@),
        ensures
            !is_verbatim(self.directory()) ==> joins(r@, self.directory(), name@),
    {
        join_path(self.dir.as_str(), name)
    }

    pub fn db(&self) -> (r: String)
        ensures
            !is_verbatim(self.directory()) ==> joins(r@, self.directory(), DB_FILE@),
    {
        proof { lemma_names(); }
        self.file(DB_FILE)
    }

    /// `clips.db-wal`. Never swept: a log beside the database is committed data.
    pub fn db_wal(&self) -> (r: String)
        ensures
            !is_verbatim(self.directory()) ==> joins(r@, self.directory(), DB_WAL_FILE@),
    {
        proof { lemma_names(); }
        self.file(DB_WAL_FILE)
    }

    /// `clips.db-shm`.
    pub fn db_shm(&self) -> (r: String)
        ensures
            !is_verbatim(self.directory()) ==> joins(r@, self.directory(), DB_SHM_FILE@),
    {
        proof { lemma_names(); }
        self.file(DB_SHM_FILE)
    }

    pub fn db_new(&self) -> (r: String)
        ensures
            !is_verbatim(self.directory()) ==> joins(r@, self.directory(), DB_NEW_FILE@),
    {
        proof { lemma_names(); }
        self.file(DB_NEW_FILE)
    }

    pub fn keyfile(&self) -> (r: String)
        ensures
            !is_verbatim(self.directory()) ==> joins(r@, self.directory(), KEYFILE@),
    {
        proof { lemma_names(); }
        self.file(KEYFILE)
    }

    /// The temporary file every write to `keyfile` goes through: a sibling of
    /// its target, because a rename is atomic only within one volume.
    pub fn keyfile_new(&self) -> (r: String)
        ensures
            !is_verbatim(self.directory()) ==> joins(r@, self.directory(), KEYFILE_NEW@),
    {
        proof { lemma_names(); }
        self.file(KEYFILE_NEW)
    }

    pub fn settings(&self) -> (r: String)
        ensures
            !is_verbatim(self.directory()) ==> joins(r@, self.directory(), SETTINGS_FILE@),
    {
        proof { lemma_names(); }
        self.file(SETTINGS_FILE)
    }

    /// The temporary file a settings write is renamed from, in the same
    /// directory as its target.
    pub fn settings_new(&self) -> (r: String)
        ensures
            !is_verbatim(self.directory()) ==> joins(r@, self.directory(), SETTINGS_NEW_FILE@),
    {
        proof { lemma_names(); }
        self.file(SETTINGS_NEW_FILE)
    }

    /// The files that exist only inside a conversion. Any that survives a
    /// restart is debris from an interrupted one, and startup recovery deletes
    /// all of them before it classifies anything. The live database's sidecars
    /// are not among them.
    pub fn intermediates(&self) -> (r: Vec<String>)
        ensures
            r@.len() == 4,
            !is_verbatim(self.directory()) ==> forall|k: int|
                0 <= k < 4 ==> joins(#[trigger] r@[k]@, self.directory(), intermediate_names()[k]),
    {
        proof { lemma_names(); }
        let mut r: Vec<String> = Vec::new();
        r.push(self.file(DB_NEW_FILE));
        r.push(self.file(DB_NEW_WAL_FILE));
        r.push(self.file(DB_NEW_SHM_FILE));
        r.push(self.file(KEYFILE_NEW));
        r
    }
}

} // verus!
