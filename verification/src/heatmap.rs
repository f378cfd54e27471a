use vstd::prelude::*;

use crate::text::push_char;

verus! {

/// The symbol drawn for an efficiency band. Band 0 is below 70 %, band 1 below 75 %,
/// band 2 below 80 %, band 3 below 85 %, band 4 below 90 %, band 5 below 93 %, and any
/// higher band is 93 % or more.
pub open spec fn band_symbol(band: u8) -> char {
    if band == 0 {
        ' '
    } else if band == 1 {
        '.'
    } else if band == 2 {
        '-'
    } else if band == 3 {
        '='
    } else if band == 4 {
        '+'
    } else if band == 5 {
        '*'
    } else {
        '#'
    }
}

/// One line of the heatmap: a symbol per band, then a line break.
pub open spec fn heatmap_line(row: Seq<u8>) -> Seq<char> {
    row.map_values(|b: u8| band_symbol(b)).push('\n')
}

/// The heatmap: one line per row of bands, in order.
pub open spec fn heatmap_text(rows: Seq<Seq<u8>>) -> Seq<char>
    decreases rows.len(),
{
    if rows.len() == 0 {
        Seq::empty()
    } else {
        heatmap_text(rows.drop_last()) + heatmap_line(rows.last())
    }
}

/// The symbol drawn for an efficiency band.
pub fn heatmap_symbol(band: u8) -> (c: char)
    ensures
        c == band_symbol(band),
{
    match band {
        0 => ' ',
        1 => '.',
        2 => '-',
        3 => '=',
        4 => '+',
        5 => '*',
        _ => '#',
    }
}

/// Draw the heatmap of efficiency bands: row `i` holds the bands for the `i`-th input
/// voltage, one per output voltage.
pub fn render_heatmap(bands: &Vec<Vec<u8>>) -> (r: String)
    ensures
        r@ == heatmap_text(bands.deep_view()),
{
    let mut out = String::new();
    let n = bands.len();
    let ghost rows = bands.deep_view();
    let mut i: usize = 0;
    while i < n
        invariant
            n == bands.len(),
            rows == bands.deep_view(),
            rows.len() == n,
            i <= n,
            out@ == heatmap_text(rows.take(i as int)),
        decreases n - i,
    {
        let row = &bands[i];
        let m = row.len();
        let ghost before = out@;
        let mut j: usize = 0;
        while j < m
            invariant
                m == row.len(),
                row@ == rows[i as int],
                j <= m,
                out@ == before + row@.take(j as int).map_values(|b: u8| band_symbol(b)),
            decreases m - j,
        {
            push_char(&mut out, heatmap_symbol(row[j]));
            j = j + 1;
            assert(row@.take(j as int).map_values(|b: u8| band_symbol(b)) =~= row@.take(
                j - 1,
            ).map_values(|b: u8| band_symbol(b)).push(band_symbol(row@[j - 1])));
        }
        push_char(&mut out, '\n');
        assert(row@.take(m as int) =~= row@);
        assert(rows.take(i + 1).drop_last() =~= rows.take(i as int));
        i = i + 1;
    }
    assert(rows.take(n as int) =~= rows);
    out
}

/// When every row has `m` bands, the heatmap has `m + 1` characters per row: the symbol of
/// band `j` of row `r` stands at `r * (m + 1) + j`, and a line break ends each row.
pub proof fn lemma_heatmap_layout(rows: Seq<Seq<u8>>, m: int)
    requires
        m >= 0,
        forall|r: int| 0 <= r < rows.len() ==> (#[trigger] rows[r]).len() == m,
    ensures
        heatmap_text(rows).len() == rows.len() * (m + 1),
        forall|r: int, j: int|
            0 <= r < rows.len() && 0 <= j < m ==> #[trigger] heatmap_text(rows)[r * (m + 1) + j]
                == band_symbol(rows[r][j]),
        forall|r: int|
            0 <= r < rows.len() ==> #[trigger] heatmap_text(rows)[r * (m + 1) + m] == '\n',
    decreases rows.len(),
{
    if rows.len() > 0 {
        let k = rows.len() - 1;
        let prefix = rows.drop_last();
        assert forall|r: int| 0 <= r < prefix.len() implies (#[trigger] prefix[r]).len() == m by {
            assert(prefix[r] == rows[r]);
        }
        lemma_heatmap_layout(prefix, m);
        let head = heatmap_text(prefix);
        let line = heatmap_line(rows.last());
        assert(head.len() == k * (m + 1));
        assert(line.len() == m + 1);
        assert(rows.len() * (m + 1) == k * (m + 1) + (m + 1)) by (nonlinear_arith)
            requires
                k == rows.len() - 1,
        ;
        assert forall|r: int, j: int| 0 <= r < rows.len() && 0 <= j < m implies #[trigger] heatmap_text(
            rows,
        )[r * (m + 1) + j] == band_symbol(rows[r][j]) by {
            if r < k {
                assert(r * (m + 1) + j < k * (m + 1)) by (nonlinear_arith)
                    requires
                        r < k,
                        0 <= j < m,
                        m >= 0,
                ;
                assert(prefix[r] == rows[r]);
                assert(head[r * (m + 1) + j] == band_symbol(prefix[r][j]));
            } else {
                assert(r * (m + 1) + j == k * (m + 1) + j);
            }
        }
        assert forall|r: int| 0 <= r < rows.len() implies #[trigger] heatmap_text(rows)[r * (m + 1)
            + m] == '\n' by {
            if r < k {
                assert(r * (m + 1) + m < k * (m + 1)) by (nonlinear_arith)
                    requires
                        r < k,
                        m >= 0,
                ;
                assert(head[r * (m + 1) + m] == '\n');
            } else {
                assert(r * (m + 1) + m == k * (m + 1) + m);
            }
        }
    }
}


/// Bands 0 to 6 draw the characters of " .-=+*#" in order, and every higher band draws the
/// last of them.
pub proof fn lemma_band_symbols(band: u8)
    ensures
        band <= 6 ==> band_symbol(band) == " .-=+*#"@[band as int],
        band > 6 ==> band_symbol(band) == " .-=+*#"@[6],
{
    reveal_strlit(" .-=+*#");
}

} // verus!
