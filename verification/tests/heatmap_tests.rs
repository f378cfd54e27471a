use mcp19061_calc::heatmap::{heatmap_symbol, render_heatmap};

#[test]
fn symbols_per_band() {
    assert_eq!(heatmap_symbol(0), ' ');
    assert_eq!(heatmap_symbol(1), '.');
    assert_eq!(heatmap_symbol(2), '-');
    assert_eq!(heatmap_symbol(3), '=');
    assert_eq!(heatmap_symbol(4), '+');
    assert_eq!(heatmap_symbol(5), '*');
    assert_eq!(heatmap_symbol(6), '#');
    assert_eq!(heatmap_symbol(200), '#');
}

#[test]
fn heatmap_rows_and_line_breaks() {
    let bands = vec![vec![0, 1, 2], vec![3, 4, 5], vec![6, 6, 0]];
    assert_eq!(render_heatmap(&bands), " .-\n=+*\n## \n");
}

#[test]
fn heatmap_layout_square_grid() {
    let n = 5;
    let bands: Vec<Vec<u8>> = (0..n).map(|i| (0..n).map(|j| ((i + j) % 7) as u8).collect()).collect();
    let text: Vec<char> = render_heatmap(&bands).chars().collect();
    assert_eq!(text.len(), n * (n + 1));
    for r in 0..n {
        for j in 0..n {
            assert_eq!(text[r * (n + 1) + j], heatmap_symbol(bands[r][j]));
        }
        assert_eq!(text[r * (n + 1) + n], '\n');
    }
}

#[test]
fn heatmap_empty() {
    assert_eq!(render_heatmap(&vec![]), "");
    assert_eq!(render_heatmap(&vec![vec![]]), "\n");
}
