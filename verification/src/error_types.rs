//! The error of starting gnuplot.
use vstd::prelude::*;
use crate::text::put;

verus! {

/// gnuplot could not be started; `cause` is what the system reported.
pub struct GnuplotInitError {
    pub cause: String,
}

impl GnuplotInitError {
    /// The message shown for this error.
    pub open spec fn message_text(&self) -> Seq<char> {
        "Couldn't spawn gnuplot. Make sure it is installed and available in PATH.\nCause: "@
            + self.cause@
    }

    /// The message shown for this error.
    pub fn message(&self) -> (res: String)
        ensures
            res@ == self.message_text(),
    {
        let mut res = String::new();
        put(&mut res, "Couldn't spawn gnuplot. Make sure it is installed and available in PATH.\nCause: ");
        put(&mut res, self.cause.as_str());
        assert(res@ =~= self.message_text());
        res
    }
}

} // verus!
