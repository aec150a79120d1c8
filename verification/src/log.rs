//! The in-application log: levelled lines and the colour each level is
//! shown in.

use vstd::prelude::*;

verus! {

/// The severity of a log line.
#[derive(Clone, Copy, Debug, PartialEq, Eq, Structural)]
pub enum Level {
    Trace,
    Debug,
    Info,
    Warn,
    Error,
}

/// The colour of a level, as red, green and blue bytes.
pub open spec fn level_color(l: Level) -> (u8, u8, u8) {
    match l {
        Level::Trace => (0x80, 0x00, 0x80),
        Level::Debug => (0x00, 0x00, 0xff),
        Level::Info => (0x00, 0x80, 0x00),
        Level::Warn => (0xff, 0xff, 0x00),
        Level::Error => (0xff, 0x00, 0x00),
    }
}

impl Level {
    /// The colour a line of this level is shown in: purple for trace, blue
    /// for debug, green for info, yellow for warnings, red for errors.
    pub fn as_color(&self) -> (c: (u8, u8, u8))
        ensures
            c == level_color(*self),
    {
        match self {
            Level::Trace => (0x80, 0x00, 0x80),
            Level::Debug => (0x00, 0x00, 0xff),
            Level::Info => (0x00, 0x80, 0x00),
            Level::Warn => (0xff, 0xff, 0x00),
            Level::Error => (0xff, 0x00, 0x00),
        }
    }
}

/// The lines of a log, each message as its character sequence.
pub open spec fn entries_view(v: Seq<(Level, String)>) -> Seq<(Level, Seq<char>)> {
    v.map_values(|e: (Level, String)| (e.0, e.1@))
}

/// A log: the lines recorded so far, oldest first.
pub struct Log(pub Vec<(Level, String)>);

impl View for Log {
    type V = Seq<(Level, Seq<char>)>;

    open spec fn view(&self) -> Seq<(Level, Seq<char>)> {
        entries_view(self.0@)
    }
}

impl Default for Log {
    /// An empty log.
    fn default() -> (r: Self)
        ensures
            r@.len() == 0,
    {
        Log(Vec::new())
    }
}

impl Log {
    /// Appends one line at `level`.
    fn record(&mut self, level: Level, message: String) -> (r: ())
        ensures
            final(self)@ == old(self)@.push((level, message@)),
    {
        let ghost before = self.0@;
        self.0.push((level, message));
        proof {
            assert(entries_view(self.0@) =~= entries_view(before).push((level, message@)));
        }
    }

    /// Records a trace line.
    pub fn trace(&mut self, message: String)
        ensures
            final(self)@ == old(self)@.push((Level::Trace, message@)),
    {
        self.record(Level::Trace, message);
    }

    /// Records a debug line.
    pub fn debug(&mut self, message: String)
        ensures
            final(self)@ == old(self)@.push((Level::Debug, message@)),
    {
        self.record(Level::Debug, message);
    }

    /// Records an info line.
    pub fn info(&mut self, message: String)
        ensures
            final(self)@ == old(self)@.push((Level::Info, message@)),
    {
        self.record(Level::Info, message);
    }

    /// Records a warning line.
    pub fn warn(&mut self, message: String)
        ensures
            final(self)@ == old(self)@.push((Level::Warn, message@)),
    {
        self.record(Level::Warn, message);
    }

    /// Records an error line.
    pub fn error(&mut self, message: String)
        ensures
            final(self)@ == old(self)@.push((Level::Error, message@)),
    {
        self.record(Level::Error, message);
    }

    /// Forgets every line.
    pub fn clear(&mut self)
        ensures
            final(self)@.len() == 0,
    {
        self.0.clear();
    }

    /// The lines newest first, as they are shown.
    pub fn newest_first(&self) -> (r: Vec<(Level, String)>)
        ensures
            entries_view(r@).len() == self@.len(),
            forall|i: int|
                0 <= i < r@.len() ==> entries_view(r@)[i] == self@[self@.len() - 1 - i],
    {
        let n = self.0.len();
        let mut r: Vec<(Level, String)> = Vec::new();
        for i in 0..n
            invariant
                n == self.0@.len(),
                r@.len() == i,
                forall|j: int|
                    0 <= j < i ==> entries_view(r@)[j] == self@[self@.len() - 1 - j],
        {
            let e = &self.0[n - 1 - i];
            let line = e.1.clone();
            proof {
                let ghost before = r@;
                assert(entries_view(before.push((e.0, line))) =~= entries_view(before).push(
                    (e.0, line@),
                ));
            }
            r.push((e.0, line));
        }
        r
    }
}

} // verus!
