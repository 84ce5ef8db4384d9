//! The commands the tool offers.
use vstd::prelude::*;

verus! {

/// Options of one run.
#[derive(Debug)]
pub struct Opts {
    /// The command; none means `Now`.
    pub command: Option<Command>,
}

/// One command of the tool.
#[derive(Debug)]
pub enum Command {
    /// Print the current time.
    Time,
    /// Print the current date.
    Date,
    /// Print the current time and date.
    Now,
    /// Keep printing the current time and date.
    Clock,
    /// Start a stopwatch.
    Stopwatch,
    /// Set a timer for a given duration.
    Timer { duration: Option<String> },
    /// Set an alarm at a given time of day.
    Alarm { datetime: Option<String> },
}

impl Opts {
    /// The command to run: the one given, or `Now`.
    pub fn command(self) -> (r: Command)
        ensures
            r == (match self.command {
                Some(c) => c,
                None => Command::Now,
            }),
    {
        match self.command {
            Some(c) => c,
            None => Command::Now,
        }
    }
}

} // verus!
