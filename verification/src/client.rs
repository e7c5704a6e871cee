//! The member's side: registering the address a reset may come from.
//!
//! A member keeps the address in a marker file in the home directory. The
//! address is asked for when the member wants to change it, when there is no
//! marker file, and when the marker file does not hold a well-formed
//! address.

use vstd::prelude::*;
use crate::student::{marker_email, read_marker, MarkerFile};
use crate::text::{chars_of, occurs_at, range_equals};

verus! {

/// What the client does for the member.
pub enum ClientStep {
    /// Ask for an address and write it to the marker file.
    Ask,
    /// The marker file holds this address; show it.
    Show(String),
}

/// Whether an argument asks for a change of the address: it begins with
/// `-c`.
pub open spec fn asks_for_change(argument: Seq<char>) -> bool {
    occurs_at(argument, "-c"@, 0)
}

/// Whether one of the arguments asks for a change of the address.
pub fn force_change(arguments: &Vec<String>) -> (forced: bool)
    ensures
        forced == exists|i: int|
            0 <= i < arguments@.len() && asks_for_change((#[trigger] arguments@[i])@),
{
    let flag = chars_of("-c");
    let mut i: usize = 0;
    while i < arguments.len()
        invariant
            i <= arguments@.len(),
            flag@ == "-c"@,
            forall|j: int| 0 <= j < i ==> !asks_for_change((#[trigger] arguments@[j])@),
        decreases arguments@.len() - i,
    {
        let argument = chars_of(arguments[i].as_str());
        proof {
            reveal_strlit("-c");
        }
        if argument.len() >= 2 && range_equals(&argument, 0, 2, &flag) {
            return true;
        }
        i += 1;
    }
    false
}

/// Decides what the client does: it asks when a change is wanted or the
/// marker file registers no address, and shows the registered address
/// otherwise.
pub fn client_step(forced: bool, marker: &MarkerFile) -> (step: ClientStep)
    ensures
        match step {
            ClientStep::Ask => forced || marker_email(*marker) is Err,
            ClientStep::Show(email) => !forced && marker_email(*marker) == Ok::<
                Seq<char>,
                crate::student::WalkDefect,
            >(email@),
        },
{
    if forced {
        return ClientStep::Ask;
    }
    match read_marker(marker) {
        Ok(email) => ClientStep::Show(email),
        Err(_) => ClientStep::Ask,
    }
}

} // verus!
