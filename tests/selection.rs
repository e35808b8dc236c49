use compositor::selection::State;

#[test]
fn selection_range_is_ordered() {
    let mut s = State::new();
    assert_eq!(s.selection_range(), None);
    s.selection = Some((9, 3));
    assert_eq!(s.selection_range(), Some((3, 9)));
    s.selection = Some((2, 5));
    assert_eq!(s.selection_range(), Some((2, 5)));
    s.selection = Some((4, 4));
    assert_eq!(s.selection_range(), Some((4, 4)));
}

#[test]
fn lines_follow_each_other_with_a_break() {
    let mut s = State::new();
    s.set_lines(&vec![5, 0, 3]);
    assert_eq!(s.line_boundaries, vec![(0, 6), (6, 7), (7, 11)]);
    assert_eq!(s.total_length, 11);
}

#[test]
fn line_lookup_falls_back_to_the_whole_document() {
    let mut s = State::new();
    s.set_lines(&vec![5, 0, 3]);
    assert_eq!(s.find_line_boundaries(0), (0, 6));
    assert_eq!(s.find_line_boundaries(5), (0, 6));
    assert_eq!(s.find_line_boundaries(6), (6, 7));
    assert_eq!(s.find_line_boundaries(10), (7, 11));
    assert_eq!(s.find_line_boundaries(11), (0, 11));
    assert_eq!(State::new().find_line_boundaries(3), (0, 0));
}

#[test]
fn spans_measure_and_join() {
    let spans = vec![String::from("Hello, "), String::from("wörld"), String::new()];
    assert_eq!(compositor::selection::spans_text_length(&spans), 13);
    assert_eq!(compositor::selection::extract_spans_text(&spans), "Hello, wörld");
    assert_eq!(compositor::selection::spans_text_length(&Vec::new()), 0);
}

fn two_lines() -> (State, Vec<String>) {
    let lines = vec![String::from("first\n"), String::from("second\n")];
    let mut s = State::new();
    s.set_lines(&vec![5, 6]);
    (s, lines)
}

#[test]
fn extract_text_takes_the_covered_parts_of_each_line() {
    let (s, lines) = two_lines();
    assert_eq!(s.extract_text(2, 9, &lines).as_deref(), Some("rst\nsec"));
    assert_eq!(s.extract_text(0, 13, &lines).as_deref(), Some("first\nsecond\n"));
    assert_eq!(s.extract_text(6, 12, &lines).as_deref(), Some("second"));
    assert_eq!(s.extract_text(20, 30, &lines).as_deref(), Some(""));
}

#[test]
fn extract_text_refuses_to_cut_inside_a_character() {
    let lines = vec![String::from("añb\n")];
    let mut s = State::new();
    s.set_lines(&vec![4]);
    assert_eq!(s.extract_text(0, 2, &lines), None);
    assert_eq!(s.extract_text(0, 3, &lines).as_deref(), Some("añ"));
}
