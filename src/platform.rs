//! The operating-system family the application runs on, where it changes behaviour.

use vstd::prelude::*;

verus! {

#[derive(Clone, Copy, Debug, PartialEq, Eq, Structural)]
pub enum Platform {
    Windows,
    MacOs,
    Other,
}

/// The separator that paths are joined with.
pub open spec fn separator(p: Platform) -> char {
    match p {
        Platform::Windows => '\\',
        _ => '/',
    }
}

pub fn path_separator(p: Platform) -> (r: &'static str)
    ensures
        r@ == seq![separator(p)],
{
    proof {
        reveal_strlit("\\");
        reveal_strlit("/");
    }
    match p {
        Platform::Windows => "\\",
        _ => "/",
    }
}

} // verus!
