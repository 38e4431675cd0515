use vstd::prelude::*;

use crate::text::{format_line, line_of};

verus! {

/// Average throughput in bytes per second over `elapsed_nanos`
/// nanoseconds, rounded down and capped at `u64::MAX`; over no time at all
/// it is the cap, or zero when nothing was hashed.
pub open spec fn rate_of(bytes: u64, elapsed_nanos: u64) -> u64 {
    if elapsed_nanos == 0 {
        if bytes == 0 {
            0
        } else {
            u64::MAX
        }
    } else {
        let q = (bytes as int * 1_000_000_000) / (elapsed_nanos as int);
        if q > u64::MAX {
            u64::MAX
        } else {
            q as u64
        }
    }
}

/// Bytes per second, floored: `bytes / (elapsed_nanos / 10^9)`.
pub fn average_rate(bytes: u64, elapsed_nanos: u64) -> (r: u64)
    ensures
        r == rate_of(bytes, elapsed_nanos),
{
    if elapsed_nanos == 0 {
        if bytes == 0 {
            0
        } else {
            u64::MAX
        }
    } else {
        let scaled: u128 = bytes as u128 * 1_000_000_000u128;
        let q: u128 = scaled / (elapsed_nanos as u128);
        if q > u64::MAX as u128 {
            u64::MAX
        } else {
            q as u64
        }
    }
}

/// The final report of a run: files, bytes, and average bytes per second.
#[derive(Clone, Copy, Debug, PartialEq, Eq)]
pub struct Summary {
    pub files: u64,
    pub bytes: u64,
    pub rate: u64,
}

/// The sink of a run: turns each emitted result into its output line and
/// keeps the running totals (unless quiet).
pub struct ResultOutput {
    total_files: u64,
    total_bytes: u64,
    quiet: bool,
    separator: String,
    hash_first: bool,
}

impl ResultOutput {
    pub closed spec fn total_files(&self) -> nat {
        self.total_files as nat
    }

    pub closed spec fn total_bytes(&self) -> nat {
        self.total_bytes as nat
    }

    pub closed spec fn quiet(&self) -> bool {
        self.quiet
    }

    pub closed spec fn separator(&self) -> Seq<char> {
        self.separator@
    }

    pub closed spec fn hash_first(&self) -> bool {
        self.hash_first
    }

    /// A quiet sink: lines only, no totals and no summary.
    pub fn new(separator: &str, hash_first: bool) -> (r: ResultOutput)
        ensures
            r.quiet(),
            r.total_files() == 0,
            r.total_bytes() == 0,
            r.separator() == separator@,
            r.hash_first() == hash_first,
    {
        ResultOutput {
            total_files: 0,
            total_bytes: 0,
            quiet: true,
            separator: String::from_str(separator),
            hash_first,
        }
    }

    /// A sink that keeps totals for the summary and feeds a progress
    /// display.
    pub fn with_default_progress(sep: &str, hash_first: bool) -> (r: ResultOutput)
        ensures
            !r.quiet(),
            r.total_files() == 0,
            r.total_bytes() == 0,
            r.separator() == sep@,
            r.hash_first() == hash_first,
    {
        ResultOutput {
            total_files: 0,
            total_bytes: 0,
            quiet: false,
            separator: String::from_str(sep),
            hash_first,
        }
    }

    /// Files counted so far.
    pub fn files(&self) -> (r: u64)
        ensures
            r as nat == self.total_files(),
    {
        self.total_files
    }

    /// Bytes counted so far.
    pub fn bytes(&self) -> (r: u64)
        ensures
            r as nat == self.total_bytes(),
    {
        self.total_bytes
    }

    /// Whether a progress display and a summary go with this sink.
    pub fn is_quiet(&self) -> (r: bool)
        ensures
            r == self.quiet(),
    {
        self.quiet
    }

    /// Takes one result in emission order and returns its output line.
    pub fn handle_output(&mut self, path: &str, hash: &str, size: u64) -> (line: String)
        requires
            old(self).quiet() || (old(self).total_files() < u64::MAX && old(self).total_bytes()
                + size <= u64::MAX),
        ensures
            line@ == line_of(path@, hash@, old(self).separator(), old(self).hash_first()),
            final(self).quiet() == old(self).quiet(),
            final(self).separator() == old(self).separator(),
            final(self).hash_first() == old(self).hash_first(),
            final(self).total_files() == if old(self).quiet() {
                old(self).total_files()
            } else {
                old(self).total_files() + 1
            },
            final(self).total_bytes() == if old(self).quiet() {
                old(self).total_bytes()
            } else {
                old(self).total_bytes() + size as nat
            },
    {
        let line = format_line(path, hash, self.separator.as_str(), self.hash_first);
        if !self.quiet {
            self.total_files = self.total_files + 1;
            self.total_bytes = self.total_bytes + size;
        }
        line
    }

    /// The summary of the run after `elapsed_nanos` nanoseconds; none when
    /// quiet.
    pub fn finish(&self, elapsed_nanos: u64) -> (r: Option<Summary>)
        ensures
            self.quiet() ==> r.is_none(),
            !self.quiet() ==> r == Some(
                Summary {
                    files: self.total_files() as u64,
                    bytes: self.total_bytes() as u64,
                    rate: rate_of(self.total_bytes() as u64, elapsed_nanos),
                },
            ),
    {
        if self.quiet {
            None
        } else {
            Some(
                Summary {
                    files: self.total_files,
                    bytes: self.total_bytes,
                    rate: average_rate(self.total_bytes, elapsed_nanos),
                },
            )
        }
    }
}

} // verus!
