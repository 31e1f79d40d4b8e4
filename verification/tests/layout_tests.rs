use altqnav::layout::calculate_window_size;

#[test]
fn width_is_constant_416() {
    for count in 0..200usize {
        let (w, _) = calculate_window_size(count);
        assert_eq!(w, 416);
    }
}

#[test]
fn zero_apps_still_reserves_one_row() {
    assert_eq!(calculate_window_size(0), (416, 160));
}

#[test]
fn one_full_row() {
    assert_eq!(calculate_window_size(1), (416, 160));
    assert_eq!(calculate_window_size(4), (416, 160));
}

#[test]
fn second_row_starts_at_five() {
    assert_eq!(calculate_window_size(5), (416, 264));
    assert_eq!(calculate_window_size(8), (416, 264));
}

#[test]
fn third_row_starts_at_nine() {
    assert_eq!(calculate_window_size(9), (416, 368));
    assert_eq!(calculate_window_size(12), (416, 368));
}

#[test]
fn height_matches_closed_form() {
    for count in 0..100usize {
        let rows = if count == 0 { 1 } else { (count + 3) / 4 } as u32;
        let expected = rows * 80 + (rows - 1) * 24 + 20 + 30 + 30;
        let (_, h) = calculate_window_size(count);
        assert_eq!(h, expected);
    }
}
