use webserver::pagination::{count_within, page_window, total_pages, window_within};

#[test]
fn page_windows() {
    let w = page_window(1, 30).unwrap();
    assert_eq!((w.offset, w.limit), (0, 30));
    let w = page_window(3, 30).unwrap();
    assert_eq!((w.offset, w.limit), (60, 30));
    assert!(page_window(0, 30).is_none());
    assert!(page_window(u64::MAX, 30).is_none());
    assert!(page_window(1, u64::MAX).is_none());
    let w = page_window(2, i64::MAX as u64).unwrap();
    assert_eq!(w.offset, i64::MAX);
    assert!(page_window(3, i64::MAX as u64).is_none());
}

#[test]
fn page_counts_round_up() {
    assert_eq!(total_pages(0, 30), 0);
    assert_eq!(total_pages(30, 30), 1);
    assert_eq!(total_pages(31, 30), 2);
    assert_eq!(total_pages(u64::MAX, 1), u64::MAX);
    assert_eq!(total_pages(u64::MAX, 2), u64::MAX / 2 + 1);
}

#[test]
fn windows_within_a_cap() {
    let w = page_window(2, 30).unwrap();
    let cut = window_within(w, Some(45));
    assert_eq!((cut.offset, cut.limit), (30, 15));
    let cut = window_within(page_window(2, 30).unwrap(), Some(20));
    assert_eq!((cut.offset, cut.limit), (30, 0));
    let cut = window_within(page_window(1, 30).unwrap(), None);
    assert_eq!((cut.offset, cut.limit), (0, 30));
    let cut = window_within(page_window(1, 30).unwrap(), Some(-1));
    assert_eq!(cut.limit, 0);
    assert_eq!(count_within(100, Some(45)), 45);
    assert_eq!(count_within(10, Some(45)), 10);
    assert_eq!(count_within(10, Some(-3)), 0);
    assert_eq!(count_within(10, None), 10);
}
