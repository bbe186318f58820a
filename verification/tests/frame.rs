use dotmatrix::frame::Frame;
use dotmatrix::{HEIGHT, WIDTH};

#[test]
fn construct_clears_spare_high_bit() {
    // Only the spare bit is set: every dot must come out dark.
    let f = Frame::new(0x8000);
    for r in 0..HEIGHT {
        assert_eq!(f.row(r), [false; 5]);
    }
}

#[test]
fn construct_keeps_all_dot_bits() {
    let f = Frame::new(0xffff);
    for r in 0..HEIGHT {
        assert_eq!(f.row(r), [true; 5]);
    }
}

#[test]
fn row_zero_is_most_significant_chunk() {
    let f = Frame::new(0b111_1100_0000_0000);
    assert_eq!(f.row(0), [true; 5]);
    assert_eq!(f.row(1), [false; 5]);
    assert_eq!(f.row(2), [false; 5]);
}

#[test]
fn last_row_is_least_significant_chunk() {
    let f = Frame::new(0b000_0000_0001_1111);
    assert_eq!(f.row(0), [false; 5]);
    assert_eq!(f.row(1), [false; 5]);
    assert_eq!(f.row(2), [true; 5]);
}

#[test]
fn row_orders_columns_most_significant_first() {
    // Within a chunk, column 0 is the most significant bit.
    let f = Frame::new(0b000_0000_0001_0000);
    assert_eq!(f.row(2), [true, false, false, false, false]);
    let f = Frame::new(0b000_0000_0000_0001);
    assert_eq!(f.row(2), [false, false, false, false, true]);
}

#[test]
fn single_position_round_trip() {
    // A pattern with only position k set lights dot (k / WIDTH, k % WIDTH)
    // and nothing else.
    for k in 0..WIDTH * HEIGHT {
        let f = Frame::new(1u16 << (WIDTH * HEIGHT - 1 - k));
        for r in 0..HEIGHT {
            let row = f.row(r);
            for c in 0..WIDTH {
                assert_eq!(row[c], r == k / WIDTH && c == k % WIDTH);
            }
        }
    }
}

#[test]
fn top_left_dot_scenario() {
    let f = Frame::new(0b1_0000_0000_0000_00);
    assert_eq!(f.row(0), [true, false, false, false, false]);
    assert_eq!(f.row(1), [false, false, false, false, false]);
    assert_eq!(f.row(2), [false, false, false, false, false]);
}

#[test]
fn default_frame_is_dark() {
    let f = Frame::default();
    for r in 0..HEIGHT {
        assert_eq!(f.row(r), [false; 5]);
    }
}
