//! The schema, its version, and the rule every launch applies to the version
//! a store reports.
//!
//! The version lives in `PRAGMA user_version`, a header field readable in one
//! statement before anything is known about the schema.

use vstd::prelude::*;

use crate::error::{ClipError, CryptoReason, ErrorView, VersionComponent};
use crate::text::{decimal, decimal_text};

verus! {

/// The schema version this build writes and understands.
pub const SCHEMA_VERSION: i64 = 1;

/// The lowest version this build knows how to read. Anything below it is not
/// an old FastClip store, because no FastClip schema was ever numbered below
/// it: `PRAGMA user_version` reports 0 for any SQLite file that never set it.
pub const MINIMUM_SCHEMA_VERSION: i64 = 1;

/// One table. `position` is `UNIQUE`, which makes a duplicate position
/// impossible on disk rather than merely unlikely.
pub const CREATE_SCHEMA_SQL: &'static str = "CREATE TABLE clips (\n    id        TEXT    NOT NULL PRIMARY KEY,\n    label     TEXT    NOT NULL,\n    value     TEXT    NOT NULL,\n    colour    TEXT    NOT NULL,\n    use_count INTEGER NOT NULL DEFAULT 0 CHECK (use_count >= 0),\n    position  INTEGER NOT NULL UNIQUE CHECK (position >= 0)\n) STRICT;\n\nCREATE INDEX clips_ranking ON clips (use_count DESC, position ASC);\n";

/// The floor is a real version, and one this build could have written:
/// otherwise a store it created would be refused on the next launch.
pub proof fn lemma_floor_is_writable()
    ensures
        1 <= MINIMUM_SCHEMA_VERSION <= SCHEMA_VERSION,
{
}

/// What a store reporting `found` gives.
///
/// | `found` | Outcome |
/// | --- | --- |
/// | above [`SCHEMA_VERSION`] | `unsupported_version { schema }`: a newer build's store is rejected, never misread |
/// | [`MINIMUM_SCHEMA_VERSION`]`..=`[`SCHEMA_VERSION`] | held; there is nothing to migrate at version 1 |
/// | below [`MINIMUM_SCHEMA_VERSION`] | `crypto { corrupt }`: not a lower version, not a FastClip store |
pub open spec fn version_verdict(found: i64) -> Result<(), ErrorView> {
    if found > SCHEMA_VERSION {
        Err(ErrorView::UnsupportedVersion {
            component: VersionComponent::Schema,
            found,
            supported: SCHEMA_VERSION,
        })
    } else if found < MINIMUM_SCHEMA_VERSION {
        Err(ErrorView::Crypto { reason: CryptoReason::Corrupt })
    } else {
        Ok(())
    }
}

/// Judge the `user_version` a store reported. The migration chain goes in
/// the in-range arm when there is one.
pub fn check_version(found: i64) -> (r: Result<(), ClipError>)
    ensures
        r matches Ok(_) <==> version_verdict(found) is Ok,
        r matches Err(e) ==> version_verdict(found) == Err::<(), ErrorView>(e@),
{
    if found > SCHEMA_VERSION {
        return Err(ClipError::UnsupportedVersion {
            component: VersionComponent::Schema,
            found,
            supported: SCHEMA_VERSION,
        });
    }
    if found < MINIMUM_SCHEMA_VERSION {
        return Err(ClipError::Crypto { reason: CryptoReason::Corrupt });
    }
    Ok(())
}

/// The batch that creates a store: the schema and the version stamp, in one
/// transaction, so a kill during creation leaves either no schema or a
/// complete stamped one.
pub open spec fn create_batch_text() -> Seq<char> {
    "BEGIN;\n"@ + CREATE_SCHEMA_SQL@ + "\nPRAGMA user_version = "@ + decimal(SCHEMA_VERSION as nat)
        + ";\nCOMMIT;"@
}

/// The statement text that creates the schema and stamps the version.
pub fn create_batch() -> (r: String)
    ensures
        r@ == create_batch_text(),
{
    let mut sql = String::from_str("BEGIN;\n");
    sql.append(CREATE_SCHEMA_SQL);
    sql.append("\nPRAGMA user_version = ");
    let version = decimal_text(SCHEMA_VERSION as u64);
    sql.append(version.as_str());
    sql.append(";\nCOMMIT;");
    sql
}

/// A store this build creates is one it accepts on the next launch.
pub proof fn lemma_created_store_is_accepted()
    ensures
        version_verdict(SCHEMA_VERSION) is Ok,
{
}

} // verus!
