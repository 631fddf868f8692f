//! The file emitter's pure part: rendering a columnar table as
//! comma-delimited text (header row of column names, then one line per
//! row), and the dated, entity-named file name the table is written under.

use vstd::prelude::*;
use vstd::string::StringExecFns;
use crate::date::DateYmd;
use crate::date::render_date;
use crate::project::Column;
use crate::project::Table;

verus! {

/// The first `i` of `parts`, joined with commas.
pub open spec fn join_prefix(parts: Seq<Seq<char>>, i: int) -> Seq<char>
    decreases i,
{
    if i <= 0 {
        Seq::empty()
    } else if i == 1 {
        parts[0]
    } else {
        join_prefix(parts, i - 1) + seq![','] + parts[i - 1]
    }
}

/// All of `parts`, joined with commas.
pub open spec fn comma_joined(parts: Seq<Seq<char>>) -> Seq<char> {
    join_prefix(parts, parts.len() as int)
}

/// The column names, in column order.
pub open spec fn header_cells(cols: Seq<Column>) -> Seq<Seq<char>> {
    Seq::new(cols.len(), |j: int| cols[j].name@)
}

/// The cells of row `i`, in column order.
pub open spec fn row_cells(cols: Seq<Column>, i: int) -> Seq<Seq<char>> {
    Seq::new(cols.len(), |j: int| cols[j].cells@[i]@)
}

/// The first `r` data lines of the emitted text, each a comma-joined row
/// followed by a line break.
pub open spec fn body_prefix(cols: Seq<Column>, r: int) -> Seq<char>
    decreases r,
{
    if r <= 0 {
        Seq::empty()
    } else {
        body_prefix(cols, r - 1) + comma_joined(row_cells(cols, r - 1)) + seq!['\n']
    }
}

/// The emitted text up to and including data row `i`: the header line, then
/// the first `i` data lines.
pub open spec fn csv_upto(t: Table, i: int) -> Seq<char> {
    comma_joined(header_cells(t.columns@)) + seq!['\n'] + body_prefix(t.columns@, i)
}

/// The full emitted text of a table: header line, then every data row in
/// input order.
pub open spec fn csv_text(t: Table) -> Seq<char> {
    csv_upto(t, t.row_count())
}

/// Renders a columnar table as comma-delimited text: the header row of
/// column names in column order, then one line per row in input order.
pub fn render_csv(t: &Table) -> (r: String)
    requires
        t.wf(),
    ensures
        r@ == csv_text(*t),
{
    let ncols = t.columns.len();
    let mut out = String::new();
    let mut j: usize = 0;
    while j < ncols
        invariant
            j <= ncols,
            ncols == t.columns@.len(),
            out@ == join_prefix(header_cells(t.columns@), j as int),
        decreases ncols - j,
    {
        if j > 0 {
            out.append(",");
        }
        out.append(t.columns[j].name.as_str());
        proof {
            reveal_strlit(",");
            assert(out@ =~= join_prefix(header_cells(t.columns@), j + 1));
        }
        j = j + 1;
    }
    out.append("\n");
    let nrows = if ncols == 0 {
        0
    } else {
        t.columns[0].cells.len()
    };
    proof {
        reveal_strlit("\n");
        assert(nrows == t.row_count());
        assert(out@ =~= csv_upto(*t, 0));
    }
    let mut i: usize = 0;
    while i < nrows
        invariant
            i <= nrows,
            ncols == t.columns@.len(),
            nrows == t.row_count(),
            t.wf(),
            out@ == csv_upto(*t, i as int),
        decreases nrows - i,
    {
        let mut j: usize = 0;
        while j < ncols
            invariant
                i < nrows,
                j <= ncols,
                ncols == t.columns@.len(),
                nrows == t.row_count(),
                t.wf(),
                out@ == csv_upto(*t, i as int) + join_prefix(row_cells(t.columns@, i as int), j as int),
            decreases ncols - j,
        {
            if j > 0 {
                out.append(",");
            }
            proof {
                assert(t.columns@[j as int].cells@.len() == t.row_count());
            }
            out.append(t.columns[j].cells[i].as_str());
            proof {
                reveal_strlit(",");
                assert(out@ =~= csv_upto(*t, i as int) + join_prefix(
                    row_cells(t.columns@, i as int),
                    j + 1,
                ));
            }
            j = j + 1;
        }
        out.append("\n");
        proof {
            reveal_strlit("\n");
            assert(comma_joined(row_cells(t.columns@, i as int)) == join_prefix(
                row_cells(t.columns@, i as int),
                ncols as int,
            ));
            assert(out@ =~= csv_upto(*t, i + 1));
        }
        i = i + 1;
    }
    out
}

/// The output file's name for a run date and an entity: `YYYY-MM-DD-{entity}.csv`.
pub open spec fn file_name_text(d: DateYmd, entity: Seq<char>) -> Seq<char> {
    d.date_text() + seq!['-'] + entity + ".csv"@
}

/// Renders the output file name for run date `d` and entity `entity`.
pub fn file_name_for(d: &DateYmd, entity: &str) -> (r: String)
    requires
        d.wf(),
    ensures
        r@ == file_name_text(*d, entity@),
{
    let mut s = render_date(d);
    s.append("-");
    s.append(entity);
    s.append(".csv");
    proof {
        reveal_strlit("-");
        assert(s@ =~= file_name_text(*d, entity@));
    }
    s
}

} // verus!
