use flappy_core::gui::score_label;

#[test]
fn zero_renders_as_a_single_digit() {
    assert_eq!(score_label(0), vec![b'0']);
}

#[test]
fn single_digits_render_plainly() {
    assert_eq!(score_label(7), vec![b'7']);
}

#[test]
fn ten_renders_with_no_leading_zeroes() {
    assert_eq!(score_label(10), vec![b'1', b'0']);
}

#[test]
fn a_long_score_renders_every_digit() {
    assert_eq!(score_label(12345), vec![b'1', b'2', b'3', b'4', b'5']);
    assert_eq!(
        score_label(u32::MAX),
        vec![b'4', b'2', b'9', b'4', b'9', b'6', b'7', b'2', b'9', b'5']
    );
}
