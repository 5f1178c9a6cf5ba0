//! A small column-aligned table renderer.
//!
//! Cells are padded with spaces to the width of their column — the
//! widest of the header cell and every row's cell, counted in
//! characters.  Disabled columns are left out; the last enabled column
//! of a row gets no trailing spacing, and no padding either unless it
//! is right-aligned.  A header line, when present, is underlined and
//! italic through ANSI codes.

use vstd::prelude::*;

verus! {

/// Renders rows of `N` cells under an optional header.
pub struct TableWriter<const N: usize> {
    /// Written at the start of every line.
    pub indent: String,
    /// Written between neighbouring cells.
    pub spacing: String,
    /// The header cells, when a header line is wanted.
    pub header: Option<[String; N]>,
    /// The rows, each with one cell per column.
    pub rows: Vec<[String; N]>,
    /// Which columns appear at all.
    pub enabled_columns: [bool; N],
    /// Which columns are right-aligned.
    pub right_aligned: [bool; N],
}

impl<const N: usize> Default for TableWriter<N> {
    /// An empty table: no indent, two spaces between cells, no header,
    /// no rows, every column enabled and left-aligned.
    fn default() -> (r: Self)
        ensures
            r.indent@ == Seq::<char>::empty(),
            r.spacing@ == ("  ")@,
            r.header is None,
            r.rows@.len() == 0,
            forall|i: int| 0 <= i < N ==> r.enabled_columns@[i],
            forall|i: int| 0 <= i < N ==> !r.right_aligned@[i],
    {
        TableWriter {
            indent: String::new(),
            spacing: String::from_str("  "),
            header: None,
            rows: Vec::new(),
            enabled_columns: [true; N],
            right_aligned: [false; N],
        }
    }
}

/// A run of spaces.
pub open spec fn spaces(n: int) -> Seq<char>
    decreases n,
{
    if n <= 0 {
        Seq::empty()
    } else {
        spaces(n - 1).push(' ')
    }
}

/// A cell padded with spaces to the column width: before the text when
/// right-aligned, after it otherwise.  A cell wider than the column
/// stands as it is.
pub open spec fn pad_cell(s: Seq<char>, width: int, right: bool) -> Seq<char> {
    if right {
        spaces(width - s.len()) + s
    } else {
        s + spaces(width - s.len())
    }
}

/// The width column `i` needs for the given rows, starting from the
/// header's contribution.
pub open spec fn width_from_rows<const N: usize>(
    rows: Seq<[String; N]>,
    i: int,
    init: int,
) -> int
    decreases rows.len(),
{
    if rows.len() == 0 {
        init
    } else {
        let w = width_from_rows(rows.drop_last(), i, init);
        let c = rows.last()@[i]@.len() as int;
        if c > w {
            c
        } else {
            w
        }
    }
}

/// The width of column `i`: the widest of the header cell, if any, and
/// every row's cell.
pub open spec fn col_width<const N: usize>(
    header: Option<[String; N]>,
    rows: Seq<[String; N]>,
    i: int,
) -> int {
    width_from_rows(
        rows,
        i,
        match header {
            Some(h) => h@[i]@.len() as int,
            None => 0,
        },
    )
}

/// The indices of the enabled columns, ascending.
pub open spec fn enabled_cols(en: Seq<bool>) -> Seq<int>
    decreases en.len(),
{
    if en.len() == 0 {
        Seq::empty()
    } else {
        let rest = enabled_cols(en.drop_last());
        if en.last() {
            rest.push(en.len() - 1)
        } else {
            rest
        }
    }
}

/// The first `m` enabled cells of a line, each padded to its column's
/// width and followed by the spacing.
pub open spec fn line_prefix(
    cells: Seq<Seq<char>>,
    widths: Seq<int>,
    right: Seq<bool>,
    cols: Seq<int>,
    spacing: Seq<char>,
    m: int,
) -> Seq<char>
    decreases m,
{
    if m <= 0 {
        Seq::empty()
    } else {
        let i = cols[m - 1];
        line_prefix(cells, widths, right, cols, spacing, m - 1) + pad_cell(
            cells[i],
            widths[i],
            right[i],
        ) + spacing
    }
}

/// One row's line: the indent, every enabled cell but the last with
/// spacing, and the last cell — padded only when right-aligned.
pub open spec fn row_line(
    indent: Seq<char>,
    cells: Seq<Seq<char>>,
    widths: Seq<int>,
    right: Seq<bool>,
    cols: Seq<int>,
    spacing: Seq<char>,
) -> Seq<char> {
    let last = cols.last();
    indent + line_prefix(cells, widths, right, cols, spacing, cols.len() - 1) + (if right[last] {
        pad_cell(cells[last], widths[last], true)
    } else {
        cells[last]
    }) + ("\n")@
}

/// The header's line: underlined and italic, every enabled cell
/// left-aligned and padded, the attributes reset at the end.
pub open spec fn header_line(
    indent: Seq<char>,
    cells: Seq<Seq<char>>,
    widths: Seq<int>,
    cols: Seq<int>,
    spacing: Seq<char>,
) -> Seq<char> {
    let last = cols.last();
    let no_right = Seq::<bool>::new(cells.len(), |i: int| false);
    indent + ("\u{1b}[4m")@ + ("\u{1b}[3m")@ + line_prefix(
        cells,
        widths,
        no_right,
        cols,
        spacing,
        cols.len() - 1,
    ) + pad_cell(cells[last], widths[last], false) + ("\u{1b}[m")@ + ("\n")@
}

/// The cell texts of a row.
pub open spec fn cell_views<const N: usize>(row: [String; N]) -> Seq<Seq<char>> {
    row@.map_values(|s: String| s@)
}

/// The first `t` row lines.
pub open spec fn rows_text<const N: usize>(
    indent: Seq<char>,
    rows: Seq<[String; N]>,
    widths: Seq<int>,
    right: Seq<bool>,
    cols: Seq<int>,
    spacing: Seq<char>,
    t: int,
) -> Seq<char>
    decreases t,
{
    if t <= 0 {
        Seq::empty()
    } else {
        rows_text(indent, rows, widths, right, cols, spacing, t - 1) + row_line(
            indent,
            cell_views(rows[t - 1]),
            widths,
            right,
            cols,
            spacing,
        )
    }
}

/// Everything the writer produces.
pub open spec fn spec_render<const N: usize>(tw: &TableWriter<N>) -> Seq<char> {
    let cols = enabled_cols(tw.enabled_columns@);
    let widths = Seq::<int>::new(N as nat, |i: int| col_width(tw.header, tw.rows@, i));
    if cols.len() == 0 {
        Seq::empty()
    } else {
        (match tw.header {
            Some(h) => header_line(tw.indent@, cell_views(h), widths, cols, tw.spacing@),
            None => Seq::empty(),
        }) + rows_text(
            tw.indent@,
            tw.rows@,
            widths,
            tw.right_aligned@,
            cols,
            tw.spacing@,
            tw.rows@.len() as int,
        )
    }
}

/// Appends a run of spaces.
fn append_spaces(target: &mut String, n: usize)
    ensures
        final(target)@ == old(target)@ + spaces(n as int),
{
    let ghost base = target@;
    let mut i: usize = 0;
    proof {
        assert(base + spaces(0) =~= base);
    }
    while i < n
        invariant
            0 <= i <= n,
            target@ == base + spaces(i as int),
        decreases n - i,
    {
        target.append(" ");
        i = i + 1;
        proof {
            reveal_strlit(" ");
            assert(" "@ =~= Seq::<char>::empty().push(' '));
            assert(base + spaces(i - 1) + " "@ =~= base + spaces(i as int));
        }
    }
}

/// Appends one cell, padded to the column width.
fn append_padded(target: &mut String, cell: &String, width: usize, right: bool)
    ensures
        final(target)@ == old(target)@ + pad_cell(cell@, width as int, right),
{
    let len = cell.as_str().unicode_len();
    let fill: usize = if width > len {
        width - len
    } else {
        0
    };
    proof {
        if width <= len {
            assert(spaces(width - cell@.len()) =~= Seq::<char>::empty());
        }
    }
    if right {
        append_spaces(target, fill);
        target.append(cell.as_str());
        proof {
            assert(old(target)@ + spaces(fill as int) + cell@ =~= old(target)@ + pad_cell(
                cell@,
                width as int,
                true,
            ));
        }
    } else {
        target.append(cell.as_str());
        append_spaces(target, fill);
        proof {
            assert(old(target)@ + cell@ + spaces(fill as int) =~= old(target)@ + pad_cell(
                cell@,
                width as int,
                false,
            ));
        }
    }
}

impl<const N: usize> TableWriter<N> {
    /// Renders the table.
    #[verifier::loop_isolation(false)]
    #[verifier::rlimit(100)]
    #[verifier::spinoff_prover]
    pub fn write(&self) -> (target: String)
        ensures
            target@ == spec_render(self),
    {
        let ghost gwidths = Seq::<int>::new(N as nat, |i: int| col_width(self.header, self.rows@, i));
        let ghost gcols = enabled_cols(self.enabled_columns@);

        // The width of each column.
        let mut widths: Vec<usize> = Vec::new();
        let mut i: usize = 0;
        while i < N
            invariant
                0 <= i <= N,
                widths@.len() == i,
                forall|ii: int| 0 <= ii < i ==> #[trigger] widths@[ii] == gwidths[ii],
            decreases N - i,
        {
            let mut w: usize = match &self.header {
                Some(h) => h[i].as_str().unicode_len(),
                None => 0,
            };
            let ghost init = w as int;
            let mut rr: usize = 0;
            proof {
                assert(self.rows@.take(0).len() == 0);
            }
            while rr < self.rows.len()
                invariant
                    0 <= rr <= self.rows@.len(),
                    0 <= i < N,
                    w as int == width_from_rows(self.rows@.take(rr as int), i as int, init),
                decreases self.rows@.len() - rr,
            {
                let c = self.rows[rr][i].as_str().unicode_len();
                if c > w {
                    w = c;
                }
                rr = rr + 1;
                proof {
                    assert(self.rows@.take(rr as int).drop_last() =~= self.rows@.take(rr - 1));
                    assert(self.rows@.take(rr as int).last() == self.rows@[rr - 1]);
                }
            }
            proof {
                assert(self.rows@.take(self.rows@.len() as int) =~= self.rows@);
            }
            widths.push(w);
            i = i + 1;
        }

        // The enabled columns, in order.
        let mut columns: Vec<usize> = Vec::new();
        let mut i: usize = 0;
        proof {
            assert(self.enabled_columns@.take(0).len() == 0);
        }
        while i < N
            invariant
                0 <= i <= N,
                columns@.map_values(|c: usize| c as int) =~= enabled_cols(
                    self.enabled_columns@.take(i as int),
                ),
                forall|m: int| 0 <= m < columns@.len() ==> (#[trigger] columns@[m]) < N,
            decreases N - i,
        {
            if self.enabled_columns[i] {
                columns.push(i);
            }
            i = i + 1;
            proof {
                assert(self.enabled_columns@.take(i as int).drop_last() =~= self.enabled_columns@
                    .take(i - 1));
                assert(self.enabled_columns@.take(i as int).last() == self.enabled_columns@[i - 1]);
                assert(columns@.map_values(|c: usize| c as int) =~= enabled_cols(
                    self.enabled_columns@.take(i as int),
                ));
            }
        }
        proof {
            assert(self.enabled_columns@.take(N as int) =~= self.enabled_columns@);
            assert(columns@.map_values(|c: usize| c as int) =~= gcols);
        }

        let mut target = String::new();
        if columns.len() == 0 {
            proof {
                assert(target@ =~= spec_render(self));
            }
            return target;
        }
        let last = columns[columns.len() - 1];

        // The header line.
        if let Some(h) = &self.header {
            let ghost hcells = cell_views(*h);
            let ghost no_right = Seq::<bool>::new(hcells.len(), |i: int| false);
            target.append(self.indent.as_str());
            target.append("\u{1b}[4m");
            target.append("\u{1b}[3m");
            let ghost head = self.indent@ + ("\u{1b}[4m")@ + ("\u{1b}[3m")@;
            let mut m: usize = 0;
            proof {
                assert(target@ =~= head + line_prefix(
                    hcells,
                    gwidths,
                    no_right,
                    gcols,
                    self.spacing@,
                    0,
                ));
            }
            while m + 1 < columns.len()
                invariant
                    0 <= m < columns@.len(),
                    target@ == head + line_prefix(
                        hcells,
                        gwidths,
                        no_right,
                        gcols,
                        self.spacing@,
                        m as int,
                    ),
                decreases columns@.len() - m,
            {
                let c = columns[m];
                append_padded(&mut target, &h[c], widths[c], false);
                target.append(self.spacing.as_str());
                m = m + 1;
                proof {
                    assert(gcols[m - 1] == c as int);
                    assert(hcells[c as int] == h@[c as int]@);
                    assert(target@ =~= head + line_prefix(
                        hcells,
                        gwidths,
                        no_right,
                        gcols,
                        self.spacing@,
                        m as int,
                    ));
                }
            }
            append_padded(&mut target, &h[last], widths[last], false);
            target.append("\u{1b}[m");
            target.append("\n");
            proof {
                assert(m == columns@.len() - 1);
                assert(gcols.last() == last as int);
                assert(hcells[last as int] == h@[last as int]@);
                assert(target@ =~= head + line_prefix(
                    hcells,
                    gwidths,
                    no_right,
                    gcols,
                    self.spacing@,
                    gcols.len() - 1,
                ) + pad_cell(hcells[last as int], gwidths[last as int], false) + ("\u{1b}[m")@ + (
                "\n")@);
                assert(target@ =~= header_line(
                    self.indent@,
                    hcells,
                    gwidths,
                    gcols,
                    self.spacing@,
                ));
            }
        }
        let ghost header_text = match &self.header {
            Some(h) => header_line(self.indent@, cell_views(*h), gwidths, gcols, self.spacing@),
            None => Seq::<char>::empty(),
        };
        proof {
            assert(target@ =~= header_text);
        }

        // The rows.
        let mut t: usize = 0;
        proof {
            assert(target@ =~= header_text + rows_text(
                self.indent@,
                self.rows@,
                gwidths,
                self.right_aligned@,
                gcols,
                self.spacing@,
                0,
            ));
        }
        while t < self.rows.len()
            invariant
                0 <= t <= self.rows@.len(),
                target@ == header_text + rows_text(
                    self.indent@,
                    self.rows@,
                    gwidths,
                    self.right_aligned@,
                    gcols,
                    self.spacing@,
                    t as int,
                ),
            decreases self.rows@.len() - t,
        {
            let ghost rowbase = target@;
            let ghost rcells = cell_views(self.rows@[t as int]);
            target.append(self.indent.as_str());
            let ghost head = rowbase + self.indent@;
            let mut m: usize = 0;
            proof {
                assert(target@ =~= head + line_prefix(
                    rcells,
                    gwidths,
                    self.right_aligned@,
                    gcols,
                    self.spacing@,
                    0,
                ));
            }
            while m + 1 < columns.len()
                invariant
                    0 <= m < columns@.len(),
                    0 <= t < self.rows@.len(),
                    target@ == head + line_prefix(
                        rcells,
                        gwidths,
                        self.right_aligned@,
                        gcols,
                        self.spacing@,
                        m as int,
                    ),
                decreases columns@.len() - m,
            {
                let c = columns[m];
                append_padded(&mut target, &self.rows[t][c], widths[c], self.right_aligned[c]);
                target.append(self.spacing.as_str());
                m = m + 1;
                proof {
                    assert(gcols[m - 1] == c as int);
                    assert(rcells[c as int] == self.rows@[t as int]@[c as int]@);
                    assert(target@ =~= head + line_prefix(
                        rcells,
                        gwidths,
                        self.right_aligned@,
                        gcols,
                        self.spacing@,
                        m as int,
                    ));
                }
            }
            if self.right_aligned[last] {
                append_padded(&mut target, &self.rows[t][last], widths[last], true);
            } else {
                target.append(self.rows[t][last].as_str());
            }
            target.append("\n");
            t = t + 1;
            proof {
                assert(m == columns@.len() - 1);
                assert(gcols.last() == last as int);
                assert(rcells[last as int] == self.rows@[t - 1]@[last as int]@);
                assert(target@ =~= rowbase + row_line(
                    self.indent@,
                    rcells,
                    gwidths,
                    self.right_aligned@,
                    gcols,
                    self.spacing@,
                ));
                assert(target@ =~= header_text + rows_text(
                    self.indent@,
                    self.rows@,
                    gwidths,
                    self.right_aligned@,
                    gcols,
                    self.spacing@,
                    t as int,
                ));
            }
        }
        proof {
            assert(target@ =~= spec_render(self));
        }
        target
    }
}

} // verus!
