use vstd::prelude::*;

use crate::domain::ExtractStats;
use crate::format::{full_stats_line, push_all, push_full_stats, push_str, string_from_chars};

verus! {

/// File-system access of a real run; the walking, listing and unpacking it
/// stands for are performed by the host around this library.
pub struct FsPorts;

impl FsPorts {
    pub fn new() -> (r: FsPorts) {
        FsPorts
    }
}

/// A progress observer that shows nothing.
pub struct NoProgressReporter;

impl NoProgressReporter {
    pub fn new() -> (r: NoProgressReporter) {
        NoProgressReporter
    }
}

/// `scanning: ROOT` and a line break.
pub open spec fn start_line(root: Seq<char>) -> Seq<char> {
    seq!['s', 'c', 'a', 'n', 'n', 'i', 'n', 'g', ':', ' '] + root + seq!['\n']
}

/// A carriage return, then the full stats line, so that updates overwrite
/// each other on one terminal line.
pub open spec fn update_line(s: ExtractStats) -> Seq<char> {
    seq!['\r'] + full_stats_line(s)
}

/// `invalid zip: PATH (REASON)` on a line of its own.
pub open spec fn invalid_zip_line(path: Seq<char>, reason: Seq<char>) -> Seq<char> {
    seq!['\n', 'i', 'n', 'v', 'a', 'l', 'i', 'd', ' ', 'z', 'i', 'p', ':', ' '] + path + seq![
        ' ',
        '(',
    ] + reason + seq![')', '\n']
}

/// Progress written as plain text lines to `W`. The reporter decides what
/// to write; its host writes it to the writer it holds.
pub struct LineProgressReporter<W> {
    writer: W,
    last_stats: ExtractStats,
    started: bool,
}

impl<W> LineProgressReporter<W> {
    pub closed spec fn writer_spec(&self) -> W {
        self.writer
    }

    /// The counters last written, zero before any.
    pub closed spec fn last_stats_spec(&self) -> ExtractStats {
        self.last_stats
    }

    /// Whether the start line was written.
    pub closed spec fn started_spec(&self) -> bool {
        self.started
    }

    /// A reporter that writes to `writer`, with nothing written yet.
    pub fn with_writer(writer: W) -> (r: Self)
        ensures
            r.writer_spec() == writer,
            r.last_stats_spec() == ExtractStats::zero_spec(),
            !r.started_spec(),
    {
        LineProgressReporter { writer, last_stats: ExtractStats::zero(), started: false }
    }

    /// Gives the writer back.
    pub fn into_inner(self) -> (r: W)
        ensures
            r == self.writer_spec(),
    {
        self.writer
    }

    /// The writer, to write what the reporter decided on.
    pub fn writer_mut(&mut self) -> (r: &mut W)
        ensures
            *r == old(self).writer_spec(),
            final(self).writer_spec() == *final(r),
            final(self).last_stats_spec() == old(self).last_stats_spec(),
            final(self).started_spec() == old(self).started_spec(),
    {
        &mut self.writer
    }

    /// The start line, written once: `None` when the run was already started.
    pub fn start(&mut self, root: &str) -> (r: Option<String>)
        ensures
            final(self).writer_spec() == old(self).writer_spec(),
            final(self).last_stats_spec() == old(self).last_stats_spec(),
            final(self).started_spec(),
            old(self).started_spec() ==> r is None,
            !old(self).started_spec() ==> r is Some && r->0@ == start_line(root@),
    {
        if self.started {
            return None;
        }
        let head = vec!['s', 'c', 'a', 'n', 'n', 'i', 'n', 'g', ':', ' '];
        let mut out: Vec<char> = Vec::new();
        push_all(&mut out, &head);
        push_str(&mut out, root);
        out.push('\n');
        assert(out@ =~= start_line(root@));
        self.started = true;
        Some(string_from_chars(&out))
    }

    /// The update line for `stats`: `None` when they are the counters last
    /// written.
    pub fn update(&mut self, stats: &ExtractStats) -> (r: Option<String>)
        ensures
            final(self).writer_spec() == old(self).writer_spec(),
            final(self).started_spec() == old(self).started_spec(),
            final(self).last_stats_spec() == *stats,
            *stats == old(self).last_stats_spec() ==> r is None,
            *stats != old(self).last_stats_spec() ==> r is Some && r->0@ == update_line(*stats),
    {
        if *stats == self.last_stats {
            return None;
        }
        let mut out: Vec<char> = Vec::new();
        out.push('\r');
        push_full_stats(&mut out, stats);
        assert(out@ =~= update_line(*stats));
        self.last_stats = *stats;
        Some(string_from_chars(&out))
    }

    /// The report of an archive that could not be read.
    pub fn invalid_zip(&self, zip_path: &str, reason: &str) -> (r: String)
        ensures
            r@ == invalid_zip_line(zip_path@, reason@),
    {
        let head = vec!['\n', 'i', 'n', 'v', 'a', 'l', 'i', 'd', ' ', 'z', 'i', 'p', ':', ' '];
        let mut out: Vec<char> = Vec::new();
        push_all(&mut out, &head);
        push_str(&mut out, zip_path);
        out.push(' ');
        out.push('(');
        push_str(&mut out, reason);
        out.push(')');
        out.push('\n');
        assert(out@ =~= invalid_zip_line(zip_path@, reason@));
        string_from_chars(&out)
    }

    /// The closing text: the final counters when they were not written yet,
    /// then a line break.
    pub fn finish(&mut self, stats: &ExtractStats) -> (r: String)
        ensures
            final(self).writer_spec() == old(self).writer_spec(),
            final(self).started_spec() == old(self).started_spec(),
            final(self).last_stats_spec() == *stats,
            *stats == old(self).last_stats_spec() ==> r@ == seq!['\n'],
            *stats != old(self).last_stats_spec() ==> r@ == update_line(*stats) + seq!['\n'],
    {
        let mut out: Vec<char> = Vec::new();
        if *stats != self.last_stats {
            out.push('\r');
            push_full_stats(&mut out, stats);
        }
        out.push('\n');
        self.last_stats = *stats;
        assert(*stats != old(self).last_stats_spec() ==> out@ =~= update_line(*stats) + seq!['\n']);
        assert(*stats == old(self).last_stats_spec() ==> out@ =~= seq!['\n']);
        string_from_chars(&out)
    }
}

} // verus!
