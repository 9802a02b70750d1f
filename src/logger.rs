use vstd::prelude::*;

verus! {

/// Decides which progress messages are shown, by verbosity level.
pub struct Logger {
    verbosity: u8,
}

impl View for Logger {
    type V = u8;

    closed spec fn view(&self) -> u8 {
        self.verbosity
    }
}

impl Logger {
    pub fn new(verbosity: u8) -> (r: Self)
        ensures
            r@ == verbosity,
    {
        Logger { verbosity }
    }

    /// The line to show for an informational message: shown from verbosity 1 on.
    pub fn log(&self, msg: &str) -> (r: Option<String>)
        ensures
            r is Some <==> self@ > 0,
            r matches Some(line) ==> line@ == msg@,
    {
        if self.verbosity > 0 {
            Some(msg.to_owned())
        } else {
            None
        }
    }

    /// The line to show for a debugging message: shown from verbosity 2 on.
    pub fn debug(&self, msg: &str) -> (r: Option<String>)
        ensures
            r is Some <==> self@ > 1,
            r matches Some(line) ==> line@ == msg@,
    {
        if self.verbosity > 1 {
            Some(msg.to_owned())
        } else {
            None
        }
    }
}

} // verus!
