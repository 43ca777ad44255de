//! The log panel: what the client tells the user about its own doings.

use vstd::prelude::*;

use crate::ext::now_timestamp;

verus! {

/// Severity of a log line.
#[derive(Clone, Copy, PartialEq, Eq, Structural, Debug)]
pub enum LogLevel {
    Error,
    Warn,
    Info,
    Debug,
    Trace,
}

/// One log line, stamped with seconds since the epoch.
pub struct Log {
    pub level: LogLevel,
    pub content: String,
    pub time: i64,
}

impl Log {
    pub fn new(level: LogLevel, content: String, time: i64) -> (r: Self)
        ensures
            r.level == level,
            r.content@ == content@,
            r.time == time,
    {
        Self { level, content, time }
    }
}

/// The lines logged so far, oldest first.
pub struct LogViewModel {
    pub contents: Vec<Log>,
}

impl LogViewModel {
    /// An empty log.
    pub fn new() -> (r: Self)
        ensures
            r.contents@ == Seq::<Log>::empty(),
    {
        let r = Self { contents: Vec::new() };
        proof {
            assert(r.contents@ =~= Seq::<Log>::empty());
        }
        r
    }

    /// Appends a line, stamped with the clock's current reading.
    pub fn log(&mut self, level: LogLevel, content: String)
        ensures
            final(self).contents@.len() == old(self).contents@.len() + 1,
            final(self).contents@.subrange(0, old(self).contents@.len() as int) == old(
                self,
            ).contents@,
            final(self).contents@.last().level == level,
            final(self).contents@.last().content@ == content@,
    {
        let time = now_timestamp();
        let ghost pre = self.contents@;
        self.contents.push(Log::new(level, content, time));
        proof {
            assert(self.contents@.subrange(0, pre.len() as int) =~= pre);
        }
    }
}

} // verus!
