//! The dialogue store, as far as it decides anything: the store itself is a
//! table that maps a chat to its state.

use vstd::prelude::*;

verus! {

/// Why the store refused.
#[derive(Clone, Copy, Debug, PartialEq, Eq, Structural)]
pub enum SqliteStorageError {
    /// A state could not be written down or read back.
    SerdeError,
    /// The database failed.
    SqliteError,
    /// There was no dialogue to remove.
    DialogueNotFound,
}

/// What removing a dialogue came to, by the number of rows that went: none
/// means that there was no such dialogue.
pub fn remove_dialogue(deleted_rows_count: u64) -> (removed: Result<(), SqliteStorageError>)
    ensures
        removed is Ok <==> deleted_rows_count > 0,
        removed matches Err(e) ==> e == SqliteStorageError::DialogueNotFound,
{
    if deleted_rows_count == 0 {
        return Err(SqliteStorageError::DialogueNotFound);
    }
    Ok(())
}

} // verus!
