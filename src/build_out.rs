//! Choosing where the build instructions of a sink go.
use vstd::prelude::*;

use crate::cargo_build_out::CargoBuildOut;

verus! {

/// Installs on `out` an in-memory capture that starts with the text of
/// `capture`: later instructions are appended to it instead of reaching
/// standard output. Useful for logging and for tests.
pub fn set(out: &mut CargoBuildOut, capture: String)
    ensures
        final(out)@ == old(out)@.with_capture(capture@),
{
    out.set(capture);
}

/// Makes standard output the destination of `out` again, which build scripts
/// need, and hands back the capture that was installed, if any. A sink starts
/// out writing to standard output, so this is needed only after [`set`].
pub fn reset(out: &mut CargoBuildOut) -> (taken: Option<String>)
    ensures
        final(out)@ == old(out)@.without_capture(),
        match old(out)@.capture {
            Some(c) => taken is Some && taken->0@ == c,
            None => taken is None,
        },
{
    out.reset()
}

} // verus!
