//! The resume tracker: one persisted cursor, and what it decides for each
//! item.
//!
//! The cursor is the only state that outlives a run. Before an item is
//! worked on, the cursor is loaded: an item whose ordinal lies below it was
//! reached by an earlier run and is skipped; any other item is processed, and
//! its ordinal is saved as the new cursor before any of its work begins. The
//! cursor is kept as decimal text.

use crate::decimal::{decimal_digits, decimal_u64, format_u64, lemma_format_then_parse, parse_u64};
use vstd::prelude::*;

verus! {

/// What is done with an item.
#[derive(Clone, Copy, Debug, PartialEq, Eq)]
pub enum Decision {
    /// The item lies below the cursor: nothing is done for it.
    Skip,
    /// The item is worked on, after its ordinal was saved as the cursor.
    Process,
}

/// What is done with the item with ordinal `index` when the cursor reads
/// `cursor`.
pub open spec fn decision_of(index: nat, cursor: nat) -> Decision {
    if index < cursor {
        Decision::Skip
    } else {
        Decision::Process
    }
}

/// The cursor after the item with ordinal `index` found it at `cursor`.
pub open spec fn cursor_after(index: nat, cursor: nat) -> nat {
    match decision_of(index, cursor) {
        Decision::Skip => cursor,
        Decision::Process => index,
    }
}

/// The cursor that the item with ordinal `index` finds, in a run that starts
/// at item zero with the cursor at `start` and in which every load returns
/// what was saved last.
pub open spec fn cursor_before(start: nat, index: nat) -> nat
    decreases index,
{
    if index == 0 {
        start
    } else {
        cursor_after((index - 1) as nat, cursor_before(start, (index - 1) as nat))
    }
}

/// The cursor that the text `text` holds, if it holds one: an unsigned
/// decimal number that a `usize` can take.
pub open spec fn cursor_of_text(text: Seq<u8>) -> Option<usize> {
    match decimal_u64(text) {
        Some(number) if number <= usize::MAX => Some(number as usize),
        _ => None,
    }
}

/// Decides what is done with the item with ordinal `index` when the cursor
/// reads `cursor`.
pub fn decide(index: usize, cursor: usize) -> (decision: Decision)
    ensures
        decision == decision_of(index as nat, cursor as nat),
{
    if index < cursor {
        Decision::Skip
    } else {
        Decision::Process
    }
}

/// Reads the cursor from the content of the progress file. Content that is
/// no decimal number, or a number beyond `usize::MAX`, holds no cursor.
pub fn parse_cursor(text: &[u8]) -> (cursor: Option<usize>)
    ensures
        cursor == cursor_of_text(text@),
{
    match parse_u64(text) {
        Some(number) => {
            if number <= usize::MAX as u64 {
                Some(number as usize)
            } else {
                None
            }
        },
        None => None,
    }
}

/// The content of the progress file for `cursor`: its decimal digits.
pub fn cursor_text(cursor: usize) -> (text: Vec<u8>)
    ensures
        text@ == decimal_digits(cursor as nat),
        cursor_of_text(text@) == Some(cursor),
{
    proof {
        lemma_format_then_parse(cursor as u64);
    }
    format_u64(cursor as u64)
}

/// The cursor never moves back: whatever an item finds, it leaves a cursor
/// that is at least as large.
pub proof fn lemma_cursor_never_decreases(index: nat, cursor: nat)
    ensures
        cursor_after(index, cursor) >= cursor,
{
}

/// A run that starts with the cursor at `start` leaves it there until it
/// reaches the item with that ordinal; every later item finds the ordinal of
/// the item before it.
pub proof fn lemma_cursor_before(start: nat, index: nat)
    ensures
        cursor_before(start, index) == if index <= start {
            start
        } else {
            (index - 1) as nat
        },
    decreases index,
{
    if index > 0 {
        lemma_cursor_before(start, (index - 1) as nat);
    }
}

/// Resuming at cursor `start`: the run skips exactly the items whose ordinal
/// lies below `start`, so the first item that it processes is the one with
/// ordinal `start`, and it processes every item from there on.
pub proof fn lemma_resume_skips_below_cursor(start: nat, index: nat)
    ensures
        decision_of(index, cursor_before(start, index)) == if index < start {
            Decision::Skip
        } else {
            Decision::Process
        },
{
    lemma_cursor_before(start, index);
}

} // verus!
