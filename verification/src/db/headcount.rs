//! Storing a headcount.

use vstd::prelude::*;

use crate::db::models::Headcount;
use crate::text::same;

verus! {

/// What became of an attempt to store a headcount.
#[derive(Debug)]
pub enum CreateOutcome {
    /// It is stored.
    Created(Headcount),
    /// There is one for the same dungeon in the same tier.
    SlotInUse,
}

/// The code by which the database says that a row has to be unique and is not.
pub const UNIQUE_VIOLATION: &'static str = "23505";

/// Whether an error of the database says that a row has to be unique and is not.
pub fn is_unique_violation(code: Option<&str>) -> (r: bool)
    ensures
        r == match code {
            Some(c) => c@ == UNIQUE_VIOLATION@,
            None => false,
        },
{
    match code {
        Some(c) => same(c, UNIQUE_VIOLATION),
        None => false,
    }
}

/// What became of an attempt to store a headcount: the row, or the code of an error
/// of the database, where it has one. Every error but that of a row that has to be
/// unique is an error of the attempt too.
pub fn create_outcome(result: Result<Headcount, Option<&str>>) -> (r: Result<CreateOutcome, ()>)
    ensures
        match result {
            Ok(row) => r == Ok::<CreateOutcome, ()>(CreateOutcome::Created(row)),
            Err(Some(c)) => if c@ == UNIQUE_VIOLATION@ {
                r == Ok::<CreateOutcome, ()>(CreateOutcome::SlotInUse)
            } else {
                r is Err
            },
            Err(None) => r is Err,
        },
{
    match result {
        Ok(row) => Ok(CreateOutcome::Created(row)),
        Err(code) => if is_unique_violation(code) {
            Ok(CreateOutcome::SlotInUse)
        } else {
            Err(())
        },
    }
}

} // verus!
