use kime::candidate::{lines, read_candidates, CandidatePager, FrameKeys, PAGE_SIZE};

fn keys() -> FrameKeys {
    FrameKeys {
        close: false,
        numbers: [false; 10],
        left_down: false,
        left_released: false,
        right_down: false,
        right_released: false,
    }
}

#[test]
fn reading_candidates() {
    assert_eq!(lines("a\nb\n"), vec!["a".to_string(), "b".to_string()]);
    assert_eq!(lines("a\n\nb"), vec!["a".to_string(), String::new(), "b".to_string()]);
    assert!(lines("").is_empty());
    let c = read_candidates("ㄱ\n가\nㄴ\n나\nㄷ\n");
    assert_eq!(
        c,
        vec![
            ("ㄱ".to_string(), "가".to_string()),
            ("ㄴ".to_string(), "나".to_string())
        ]
    );
}

#[test]
fn page_counts() {
    assert_eq!(PAGE_SIZE, 10);
    assert_eq!(CandidatePager::new(10).max_page_index, 0);
    assert_eq!(CandidatePager::new(11).max_page_index, 1);
    assert_eq!(CandidatePager::new(25).max_page_index, 2);
    assert_eq!(CandidatePager::new(1).max_page_index, 0);
}

#[test]
fn arrows_move_once_per_press() {
    let mut p = CandidatePager::new(25);
    let mut k = keys();
    k.right_down = true;
    assert!(!p.on_keys(&k));
    assert_eq!(p.page_index, 1);
    // Still held: no further move.
    assert!(!p.on_keys(&k));
    assert_eq!(p.page_index, 1);
    k.right_down = false;
    k.right_released = true;
    p.on_keys(&k);
    let mut k = keys();
    k.right_down = true;
    p.on_keys(&k);
    assert_eq!(p.page_index, 2);
    let mut k = keys();
    k.right_released = true;
    p.on_keys(&k);
    let mut k = keys();
    k.right_down = true;
    p.on_keys(&k);
    // Not past the last page.
    assert_eq!(p.page_index, 2);
    let mut k = keys();
    k.left_down = true;
    p.on_keys(&k);
    assert_eq!(p.page_index, 1);
}

#[test]
fn left_stops_at_first_page() {
    let mut p = CandidatePager::new(5);
    let mut k = keys();
    k.left_down = true;
    p.on_keys(&k);
    assert_eq!(p.page_index, 0);
    assert!(p.key_state.left);
}

#[test]
fn number_keys_and_close() {
    let mut p = CandidatePager::new(40);
    let mut k = keys();
    k.numbers[2] = true;
    k.numbers[1] = true;
    p.on_keys(&k);
    assert_eq!(p.page_index, 2);
    let mut k = keys();
    k.close = true;
    k.numbers[0] = true;
    assert!(p.on_keys(&k));
    assert_eq!(p.page_index, 2);
}

#[test]
fn ranges_and_labels() {
    let mut p = CandidatePager::new(25);
    assert_eq!(p.page_range(25), (0, 10));
    p.select_page(2);
    assert_eq!(p.page_range(25), (20, 25));
    assert_eq!(p.page_label(2), "[3]");
    assert_eq!(p.page_label(0), "1");
}
