use dotmatrix::display::Display;
use dotmatrix::frame::Frame;
use dotmatrix::{HEIGHT, WIDTH};

fn active_rows(d: &Display) -> Vec<usize> {
    (0..HEIGHT).filter(|&i| d.row_output(i)).collect()
}

fn active_cols(d: &Display) -> Vec<bool> {
    (0..WIDTH).map(|c| d.col_output(c)).collect()
}

#[test]
fn fresh_display_is_idle() {
    let d = Display::new();
    assert_eq!(d.next_row(), 0);
    assert!(active_rows(&d).is_empty());
    assert_eq!(active_cols(&d), vec![false; WIDTH]);
}

#[test]
fn update_enables_exactly_the_cursor_row() {
    let mut d = Display::new();
    d.set(Frame::new(0b10101_01010_11111));
    for step in 0..2 * HEIGHT {
        let before = d.next_row();
        d.update();
        // exactly one row-enable active, and it is the old cursor
        assert_eq!(active_rows(&d), vec![before]);
        // the cursor advanced by one, modulo HEIGHT
        assert_eq!(d.next_row(), (before + 1) % HEIGHT);
    }
}

#[test]
fn full_scan_visits_rows_in_order_with_their_columns() {
    let mut d = Display::new();
    let f = Frame::new(0b10101_01010_11111);
    d.set(f);
    // over HEIGHT consecutive steps: rows 0, 1, 2, each with its own columns
    for expected_row in 0..HEIGHT {
        d.update();
        assert_eq!(active_rows(&d), vec![expected_row]);
        assert_eq!(active_cols(&d), f.row(expected_row).to_vec());
    }
    assert_eq!(d.next_row(), 0);
}

#[test]
fn set_takes_effect_on_the_next_step() {
    let mut d = Display::new();
    d.set(Frame::new(0b11111_00000_00000));
    d.update();
    assert_eq!(active_cols(&d), vec![true; WIDTH]);
    // replace the frame: the already-driven levels stay until the next step
    d.set(Frame::new(0));
    assert_eq!(active_cols(&d), vec![true; WIDTH]);
    d.update();
    assert_eq!(active_cols(&d), vec![false; WIDTH]);
}
