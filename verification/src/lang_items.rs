//! Entry-point glue between the reset sequence and a program's `main`.

use vstd::prelude::*;

verus! {

/// Exit status that a program's `main` hands back to the runtime.
pub trait Termination {
    /// Turns the value returned by `main` into a status code.
    fn report(self) -> i32;
}

impl Termination for () {
    fn report(self) -> (code: i32)
        ensures
            code == 0,
    {
        0
    }
}

/// Runs the program's `main` once and reports success to the reset
/// sequence, whatever `main` returned. The argument count and the address
/// of the argument vector are accepted and ignored: a bare-metal program
/// has no arguments.
pub fn start<T: Termination, F: FnOnce() -> T>(main: F, _argc: isize, _argv: usize) -> (status:
    isize)
    requires
        main.requires(()),
    ensures
        status == 0,
        exists|returned: T| main.ensures((), returned),
{
    let _returned: T = main();
    0
}

} // verus!
