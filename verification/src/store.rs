//! How failed calls to the item store are reported: each takes the text of
//! the store's error and gives the service's error.
use vstd::prelude::*;

use crate::error::AppError;
use crate::text::{contains_text, join_text, seq_contains};

verus! {

/// The text by which the store tells that a conditional write found its
/// condition false.
pub open spec fn conditional_check_marker() -> Seq<char> {
    "ConditionalCheckFailed"@
}

/// The error for a failed creation: a write refused because an entity with
/// the same id exists is a validation error, any other failure a database
/// error that carries the cause.
pub fn create_failure(cause: &str) -> (res: AppError)
    ensures
        seq_contains(cause@, conditional_check_marker()) ==> (res matches AppError::ValidationError(m)
            && m@ == "Entity with this ID already exists"@),
        !seq_contains(cause@, conditional_check_marker()) ==> (res matches AppError::DatabaseError(m)
            && m@ == "Failed to create entity: "@ + cause@),
{
    let marker = "ConditionalCheckFailed";
    proof {
        reveal_strlit("ConditionalCheckFailed");
    }
    if contains_text(cause, marker) {
        AppError::ValidationError("Entity with this ID already exists".to_string())
    } else {
        AppError::DatabaseError(join_text("Failed to create entity: ", cause))
    }
}

/// The error for a failed read of one item.
pub fn get_failure(cause: &str) -> (res: AppError)
    ensures
        res matches AppError::DatabaseError(m) && m@ == "Failed to get item: "@ + cause@,
{
    AppError::DatabaseError(join_text("Failed to get item: ", cause))
}

/// The error for a failed update.
pub fn update_failure(cause: &str) -> (res: AppError)
    ensures
        res matches AppError::DatabaseError(m) && m@ == "Failed to update entity: "@ + cause@,
{
    AppError::DatabaseError(join_text("Failed to update entity: ", cause))
}

/// The error for a failed deletion.
pub fn delete_failure(cause: &str) -> (res: AppError)
    ensures
        res matches AppError::DatabaseError(m) && m@ == "Failed to delete entity: "@ + cause@,
{
    AppError::DatabaseError(join_text("Failed to delete entity: ", cause))
}

/// The error for a failed scan of a table.
pub fn scan_failure(cause: &str) -> (res: AppError)
    ensures
        res matches AppError::DatabaseError(m) && m@ == "Failed to scan table: "@ + cause@,
{
    AppError::DatabaseError(join_text("Failed to scan table: ", cause))
}

} // verus!
