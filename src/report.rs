//! The rules of the report sink: an append-only CSV record with one header
//! line followed by one line per run.
//!
//! The sink's content is modelled as its sequence of lines. Before a run's
//! line is appended, the first line of the sink is checked: an empty sink gets
//! the header first, a sink that starts with the header gets the line, and any
//! other sink is left as it is.
use vstd::prelude::*;

verus! {

/// The header line of the report.
pub const CSV_HEADER: &'static str =
    "Path,Files,Directories,4K,4K_16K,16K_64K,64K_128K,128K_256K,256K_512K,512K_1M,1M_10M,10M_100M,100M_1G,1G";

/// What to do with the sink before a run's line is written.
#[derive(PartialEq, Eq, Structural, Clone, Copy, Debug)]
pub enum SinkPlan {
    /// The sink is absent or empty: write the header, then the line.
    WriteHeader,
    /// The sink starts with the header: append the line.
    Append,
    /// The sink starts with something else: write nothing.
    Mismatch,
}

/// The plan for a sink whose first line is `first_line` (`None` for an
/// absent or empty sink).
pub open spec fn plan_for(first_line: Option<Seq<char>>) -> SinkPlan {
    match first_line {
        None => SinkPlan::WriteHeader,
        Some(l) => if l == CSV_HEADER@ {
            SinkPlan::Append
        } else {
            SinkPlan::Mismatch
        },
    }
}

/// The first line of a sink made of `lines`.
pub open spec fn first_of(lines: Seq<Seq<char>>) -> Option<Seq<char>> {
    if lines.len() == 0 {
        None
    } else {
        Some(lines[0])
    }
}

/// The lines of the sink after a run's line `row` is written to a sink made
/// of `lines`, or `None` where the write is refused.
pub open spec fn sink_after(lines: Seq<Seq<char>>, row: Seq<char>) -> Option<Seq<Seq<char>>> {
    match plan_for(first_of(lines)) {
        SinkPlan::WriteHeader => Some(seq![CSV_HEADER@, row]),
        SinkPlan::Append => Some(lines.push(row)),
        SinkPlan::Mismatch => None,
    }
}

/// The lines of the sink after the lines `rows` of several runs are written
/// in turn, or `None` where a write is refused.
pub open spec fn sink_after_runs(lines: Seq<Seq<char>>, rows: Seq<Seq<char>>) -> Option<
    Seq<Seq<char>>,
>
    decreases rows.len(),
{
    if rows.len() == 0 {
        Some(lines)
    } else {
        match sink_after_runs(lines, rows.drop_last()) {
            Some(l) => sink_after(l, rows.last()),
            None => None,
        }
    }
}

/// A sink that starts with the header takes every run's line: after `rows`
/// are written it holds its old lines followed by `rows`, the header still
/// first. From the header alone, `n` runs leave `n + 1` lines.
pub proof fn lemma_header_kept(lines: Seq<Seq<char>>, rows: Seq<Seq<char>>)
    requires
        lines.len() >= 1,
        lines[0] == CSV_HEADER@,
    ensures
        sink_after_runs(lines, rows) == Some(lines + rows),
        (lines + rows).len() == lines.len() + rows.len(),
        (lines + rows)[0] == CSV_HEADER@,
    decreases rows.len(),
{
    if rows.len() > 0 {
        lemma_header_kept(lines, rows.drop_last());
        let before = lines + rows.drop_last();
        assert(before[0] == CSV_HEADER@);
        assert(before.push(rows.last()) =~= lines + rows);
    } else {
        assert(lines + rows =~= lines);
    }
}

/// A sink whose first line is not the header refuses every write: whatever
/// lines are offered, none is written and the sink keeps its content.
pub proof fn lemma_header_mismatch(lines: Seq<Seq<char>>, rows: Seq<Seq<char>>)
    requires
        lines.len() >= 1,
        lines[0] != CSV_HEADER@,
        rows.len() >= 1,
    ensures
        sink_after_runs(lines, rows) is None,
    decreases rows.len(),
{
    if rows.len() > 1 {
        lemma_header_mismatch(lines, rows.drop_last());
    } else {
        assert(rows.drop_last().len() == 0);
        assert(sink_after_runs(lines, rows.drop_last()) == Some(lines));
        assert(first_of(lines) == Some(lines[0]));
    }
}

/// The header line.
pub fn header_line() -> (r: String)
    ensures
        r@ == CSV_HEADER@,
{
    CSV_HEADER.to_owned()
}

/// Decides how to write to a sink whose first line is `first_line` (`None`
/// for an absent or empty sink); the comparison is exact.
pub fn plan_sink(first_line: Option<&str>) -> (p: SinkPlan)
    ensures
        first_line.is_none() ==> p == plan_for(None),
        first_line.is_some() ==> p == plan_for(Some(first_line->Some_0@)),
{
    match first_line {
        None => SinkPlan::WriteHeader,
        Some(l) => {
            let line = l.to_owned();
            let header = header_line();
            if line == header {
                SinkPlan::Append
            } else {
                SinkPlan::Mismatch
            }
        },
    }
}

/// The text to append to the sink under `plan` for a run's line `row`, each
/// line ended by a newline; `None` where nothing may be written.
pub fn sink_text(plan: SinkPlan, row: &str) -> (r: Option<String>)
    ensures
        plan == SinkPlan::WriteHeader ==> r.is_some() && r->Some_0@ == CSV_HEADER@ + seq!['\n']
            + row@ + seq!['\n'],
        plan == SinkPlan::Append ==> r.is_some() && r->Some_0@ == row@ + seq!['\n'],
        plan == SinkPlan::Mismatch ==> r.is_none(),
{
    proof {
        reveal_strlit("\n");
    }
    match plan {
        SinkPlan::WriteHeader => {
            let mut s = header_line();
            s.append("\n");
            s.append(row);
            s.append("\n");
            Some(s)
        },
        SinkPlan::Append => {
            let mut s = row.to_owned();
            s.append("\n");
            Some(s)
        },
        SinkPlan::Mismatch => None,
    }
}

} // verus!
