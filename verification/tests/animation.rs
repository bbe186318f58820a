use dotmatrix::animation::{frame_at, frame_index, table, FRAME_MILLIS};
use dotmatrix::frame::Frame;
use dotmatrix::{DOTS, HEIGHT, WIDTH};

fn lit_positions(f: &Frame) -> Vec<usize> {
    let mut lit = Vec::new();
    for r in 0..HEIGHT {
        let row = f.row(r);
        for c in 0..WIDTH {
            if row[c] {
                lit.push(r * WIDTH + c);
            }
        }
    }
    lit
}

#[test]
fn chase_frames_light_a_position_and_its_reflection() {
    for i in 0..DOTS {
        let f = frame_at(i);
        let mut expected = vec![i, DOTS - 1 - i];
        expected.sort();
        expected.dedup();
        assert_eq!(lit_positions(&f), expected);
    }
}

#[test]
fn chase_frames_have_two_dots_except_the_centre() {
    for i in 0..DOTS {
        let lit = lit_positions(&frame_at(i));
        if i == DOTS - 1 - i {
            assert_eq!(lit.len(), 1);
        } else {
            assert_eq!(lit.len(), 2);
        }
    }
}

#[test]
fn table_holds_every_chase_frame() {
    let t = table();
    assert_eq!(t.len(), DOTS);
    for (i, f) in t.iter().enumerate() {
        assert_eq!(lit_positions(f), lit_positions(&frame_at(i)));
    }
}

#[test]
fn frame_index_steps_every_period_and_wraps() {
    assert_eq!(frame_index(0), 0);
    assert_eq!(frame_index(FRAME_MILLIS - 1), 0);
    assert_eq!(frame_index(FRAME_MILLIS), 1);
    assert_eq!(frame_index(999), 4);
    assert_eq!(frame_index(FRAME_MILLIS * DOTS as u32), 0);
    assert_eq!(frame_index(u32::MAX), (u32::MAX / FRAME_MILLIS) as usize % DOTS);
}
