//! Plain-text tables with aligned columns, for the listing commands'
//! human bodies.

use vstd::prelude::*;
use vstd::string::StrSliceExecFns;
use vstd::string::StringExecFns;

verus! {

broadcast use vstd::std_specs::vec::group_vec_axioms;

/// `n` space characters.
pub open spec fn spaces(n: nat) -> Seq<char>
    decreases n,
{
    if n == 0 {
        Seq::empty()
    } else {
        spaces((n - 1) as nat).push(' ')
    }
}

/// `s` padded with spaces on the right up to width `w` (unchanged when
/// already that wide).
pub open spec fn pad_to(s: Seq<char>, w: nat) -> Seq<char> {
    if s.len() >= w {
        s
    } else {
        s + spaces((w - s.len()) as nat)
    }
}

/// The cell in column `c` of a row, empty when the row is shorter.
pub open spec fn cell_at(row: Seq<Seq<char>>, c: int) -> Seq<char> {
    if 0 <= c < row.len() {
        row[c]
    } else {
        Seq::empty()
    }
}

/// The width of column `c` over the first `r` rows: the widest cell.
pub open spec fn col_width_upto(rows: Seq<Seq<Seq<char>>>, c: int, r: int) -> nat
    decreases r,
{
    if r <= 0 {
        0
    } else {
        let prev = col_width_upto(rows, c, r - 1);
        let here = cell_at(rows[r - 1], c).len();
        if here >= prev {
            here
        } else {
            prev
        }
    }
}

/// The width of column `c`: the widest cell in that column.
pub open spec fn col_width(rows: Seq<Seq<Seq<char>>>, c: int) -> nat {
    col_width_upto(rows, c, rows.len() as int)
}

/// The first `c` cells of a row, each padded to its column's width,
/// joined by two spaces.
pub open spec fn row_text_upto(row: Seq<Seq<char>>, rows: Seq<Seq<Seq<char>>>, c: int) -> Seq<char>
    decreases c,
{
    if c <= 0 {
        Seq::empty()
    } else {
        row_text_upto(row, rows, c - 1) + (if c == 1 {
            Seq::<char>::empty()
        } else {
            "  "@
        }) + pad_to(cell_at(row, c - 1), col_width(rows, c - 1))
    }
}

/// One rendered table row.
pub open spec fn row_text(row: Seq<Seq<char>>, rows: Seq<Seq<Seq<char>>>) -> Seq<char> {
    row_text_upto(row, rows, row.len() as int)
}

/// The first `r` rendered rows, joined by newlines.
pub open spec fn rows_text_upto(rows: Seq<Seq<Seq<char>>>, r: int) -> Seq<char>
    decreases r,
{
    if r <= 0 {
        Seq::empty()
    } else {
        rows_text_upto(rows, r - 1) + (if r == 1 {
            Seq::<char>::empty()
        } else {
            "\n"@
        }) + row_text(rows[r - 1], rows)
    }
}

/// The rendered table: every cell padded to its column's width, cells
/// joined by two spaces, rows joined by newlines.
pub open spec fn table_chars(rows: Seq<Seq<Seq<char>>>) -> Seq<char> {
    rows_text_upto(rows, rows.len() as int)
}

/// The character sequences of one row of cells.
pub open spec fn row_view(row: Seq<String>) -> Seq<Seq<char>> {
    row.map_values(|s: String| s@)
}

/// The character sequences of a table of cells.
pub open spec fn rows_view(rows: Seq<Vec<String>>) -> Seq<Seq<Seq<char>>> {
    rows.map_values(|row: Vec<String>| row_view(row@))
}

fn column_width(rows: &Vec<Vec<String>>, c: usize) -> (w: usize)
    ensures
        w as nat == col_width(rows_view(rows@), c as int),
{
    let mut w: usize = 0;
    let mut r: usize = 0;
    while r < rows.len()
        invariant
            r <= rows@.len(),
            w as nat == col_width_upto(rows_view(rows@), c as int, r as int),
        decreases rows@.len() - r,
    {
        let row = &rows[r];
        proof {
            assert(rows_view(rows@)[r as int] == row_view(row@));
        }
        if c < row.len() {
            let here = row[c].as_str().unicode_len();
            proof {
                assert(cell_at(row_view(row@), c as int) == row@[c as int]@);
            }
            if here > w {
                w = here;
            }
        } else {
            proof {
                assert(cell_at(row_view(row@), c as int) =~= Seq::<char>::empty());
            }
        }
        r = r + 1;
    }
    w
}

fn pad_cell(s: &String, w: usize) -> (r: String)
    ensures
        r@ == pad_to(s@, w as nat),
{
    let len = s.as_str().unicode_len();
    let mut r = s.clone();
    if len >= w {
        return r;
    }
    let mut j = len;
    proof {
        reveal_strlit(" ");
        assert(r@ =~= s@ + spaces(0));
    }
    while j < w
        invariant
            len <= j <= w,
            r@ == s@ + spaces((j - len) as nat),
        decreases w - j,
    {
        r.append(" ");
        proof {
            reveal_strlit(" ");
            assert(" "@ =~= seq![' ']);
            assert(s@ + spaces((j - len) as nat) + seq![' '] =~= s@ + spaces((j + 1 - len) as nat));
        }
        j = j + 1;
    }
    r
}

fn render_row(row: &Vec<String>, rows: &Vec<Vec<String>>) -> (r: String)
    ensures
        r@ == row_text(row_view(row@), rows_view(rows@)),
{
    let mut acc = String::new();
    let mut c: usize = 0;
    proof {
        assert(acc@ =~= row_text_upto(row_view(row@), rows_view(rows@), 0));
    }
    while c < row.len()
        invariant
            c <= row@.len(),
            acc@ == row_text_upto(row_view(row@), rows_view(rows@), c as int),
        decreases row@.len() - c,
    {
        if c > 0 {
            acc.append("  ");
        }
        let w = column_width(rows, c);
        let padded = pad_cell(&row[c], w);
        acc.append(padded.as_str());
        proof {
            assert(cell_at(row_view(row@), c as int) == row@[c as int]@);
            assert(acc@ =~= row_text_upto(row_view(row@), rows_view(rows@), c + 1));
        }
        c = c + 1;
    }
    acc
}

/// Renders rows of cells as a plain text table with aligned columns.
pub fn render_table(rows: &Vec<Vec<String>>) -> (r: String)
    ensures
        r@ == table_chars(rows_view(rows@)),
{
    let mut acc = String::new();
    let mut i: usize = 0;
    proof {
        assert(acc@ =~= rows_text_upto(rows_view(rows@), 0));
    }
    while i < rows.len()
        invariant
            i <= rows@.len(),
            acc@ == rows_text_upto(rows_view(rows@), i as int),
        decreases rows@.len() - i,
    {
        if i > 0 {
            acc.append("\n");
        }
        let line = render_row(&rows[i], rows);
        acc.append(line.as_str());
        proof {
            assert(rows_view(rows@)[i as int] == row_view(rows@[i as int]@));
            assert(acc@ =~= rows_text_upto(rows_view(rows@), i + 1));
        }
        i = i + 1;
    }
    acc
}

} // verus!
