use sspa_tui::history::LineHistory;

fn strings(items: &[&str]) -> Vec<String> {
    items.iter().map(|s| s.to_string()).collect()
}

#[test]
fn capacity_three_keeps_the_last_three() {
    let mut h = LineHistory::new(3);
    for s in ["a", "b", "c", "d"] {
        h.push(s.to_string());
    }
    assert_eq!(h.snapshot(), "bcd");
    assert_eq!(h.lines(), strings(&["b", "c", "d"]));
}

#[test]
fn empty_history_has_empty_snapshot() {
    let h = LineHistory::new(5);
    assert_eq!(h.snapshot(), "");
    assert!(h.lines().is_empty());
}

#[test]
fn snapshot_keeps_line_breaks_as_they_came() {
    let mut h = LineHistory::new(4);
    h.push("line1\n".to_string());
    h.push("line2\n".to_string());
    assert_eq!(h.snapshot(), "line1\nline2\n");
}

#[test]
fn size_never_exceeds_capacity() {
    let mut h = LineHistory::new(2);
    for i in 0..10 {
        h.push(format!("{}", i));
        assert!(h.lines().len() <= 2);
    }
    assert_eq!(h.snapshot(), "89");
}

#[test]
fn push_all_matches_single_pushes() {
    let mut a = LineHistory::new(3);
    let mut b = LineHistory::new(3);
    let items = strings(&["w", "x", "y", "z", "q"]);
    for s in items.iter() {
        a.push(s.clone());
    }
    b.push_all(items);
    assert_eq!(a.lines(), b.lines());
    assert_eq!(b.snapshot(), "yzq");
}

#[test]
fn capacity_one_holds_only_newest() {
    let mut h = LineHistory::new(1);
    h.push_all(strings(&["first", "second"]));
    assert_eq!(h.snapshot(), "second");
}
