//! Owner commands on protected memory.

pub mod commands;

use vstd::prelude::*;

verus! {

pub const PROTECTED_STORAGE: &'static str = "Personal memory requires protected storage; inspect xana storage status. No plaintext memory was created";

pub const UNKNOWN_CONTROL: &'static str = "Unknown local memory control; use memory --help";

pub const EXPORT_NOTICE: &'static str = "Readable private export outside managed encryption; store or remove it deliberately.";

/// When a corrected memory expires: never where the expiry is cleared, otherwise
/// when it was asked to, and otherwise when it did before.
pub open spec fn expiry_of(clear: bool, asked: Option<i64>, held: Option<i64>) -> Option<i64> {
    if clear {
        None
    } else if asked is Some {
        asked
    } else {
        held
    }
}

/// When a corrected memory expires.
pub fn corrected_expiry(clear: bool, asked: Option<i64>, held: Option<i64>) -> (until: Option<i64>)
    ensures
        until == expiry_of(clear, asked, held),
{
    if clear {
        None
    } else if asked.is_some() {
        asked
    } else {
        held
    }
}

/// Memory is used only where there is protected storage: nothing is kept in
/// plain text in its stead.
pub fn admit_memory(protected: bool) -> (admitted: Result<(), String>)
    ensures
        protected ==> admitted is Ok,
        !protected ==> (admitted matches Err(text) && text@ == PROTECTED_STORAGE@),
{
    if protected {
        Ok(())
    } else {
        Err(PROTECTED_STORAGE.to_owned())
    }
}

/// The answer to a spoken memory control, where there is such a control.
pub fn spoken_answer(answer: Option<Result<String, String>>) -> (said: Result<String, String>)
    ensures
        match answer {
            Some(result) => said == result,
            None => said matches Err(text) && text@ == UNKNOWN_CONTROL@,
        },
{
    match answer {
        Some(result) => result,
        None => Err(UNKNOWN_CONTROL.to_owned()),
    }
}

/// A corrected memory keeps its expiry unless another is asked for or none is wanted;
/// clearing wins over everything.
pub proof fn corrections_keep_the_expiry(asked: Option<i64>, held: Option<i64>)
    ensures
        expiry_of(true, asked, held) is None,
        expiry_of(false, None, held) == held,
        asked is Some ==> expiry_of(false, asked, held) == asked,
{
}

}
