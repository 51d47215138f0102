use katal_github_client::common::Page;
use katal_github_client::context::Context;
use katal_github_client::paging::{replay, Pager};

fn page(items: &[u32], next: Option<&str>) -> Page<u32> {
    Page { items: items.to_vec(), first: None, next: next.map(str::to_string), last: None }
}

#[test]
fn paging_loop_fetches_every_page_once_and_keeps_order() {
    let script = vec![
        page(&[5, 1], Some("https://api.example/page/2")),
        page(&[], Some("https://api.example/page/3")),
        page(&[9, 9, 2], Some("https://api.example/page/4")),
        page(&[7], None),
    ];
    let (items, fetched) = replay(script);
    assert_eq!(fetched, 4);
    assert_eq!(items, vec![5, 1, 9, 9, 2, 7]);
}

#[test]
fn paging_loop_on_single_page() {
    let (items, fetched) = replay(vec![page(&[1, 2], None)]);
    assert_eq!(fetched, 1);
    assert_eq!(items, vec![1, 2]);
}

#[test]
fn paging_loop_stops_at_first_page_without_next() {
    let script = vec![page(&[1], Some("a")), page(&[2], None), page(&[3], Some("b"))];
    let (items, fetched) = replay(script);
    assert_eq!(fetched, 2);
    assert_eq!(items, vec![1, 2]);
}

#[test]
fn paging_loop_stops_when_the_script_runs_out() {
    let (items, fetched) = replay(vec![page(&[1], Some("a")), page(&[2], Some("b"))]);
    assert_eq!(fetched, 2);
    assert_eq!(items, vec![1, 2]);
    let (items, fetched) = replay(Vec::<Page<u32>>::new());
    assert_eq!(fetched, 0);
    assert_eq!(items, Vec::<u32>::new());
}

#[test]
fn pager_hands_out_the_query_for_the_next_cursor() {
    let mut pager = Pager::new();
    let cursor = "https://api.example/r?page=2&per_page=30";
    let query = pager.turn(page(&[4, 5], Some(cursor))).unwrap();
    assert_eq!(query.cursor, cursor);
    assert_eq!(query.auth, None);
    assert_eq!(query.context, Context::new());
    assert_eq!(pager.len(), 2);
    assert!(pager.turn(page(&[6], None)).is_none());
    assert_eq!(pager.len(), 3);
    assert_eq!(pager.into_items(), vec![4, 5, 6]);
}

#[test]
fn pages_taken_before_a_failure_stay() {
    let mut pager = Pager::new();
    assert!(pager.turn(page(&[1, 2], Some("second"))).is_some());
    let kept = pager.into_items();
    assert_eq!(kept, vec![1, 2]);
}
