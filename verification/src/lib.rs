use vstd::prelude::*;

pub mod app;
pub mod display;
pub mod event;
pub mod state;
pub mod text;
pub mod winget;

verus! {

/// Fixed greeting of the crate, used as a smoke check of the build.
pub fn placeholder_greeting() -> (r: &'static str)
    ensures
        r@ == "wingetui"@,
{
    "wingetui"
}

} // verus!
