use troyonthetrails::http::ErrorKind;
use troyonthetrails::pagination::{page_url, strip_paging, Paginator, PER_PAGE};

fn read_all(pages: &[usize]) -> (Vec<u32>, Vec<u64>) {
    let mut paginator: Paginator<u32> = Paginator::new();
    let mut asked = Vec::new();
    let mut served = 0u32;
    while let Some(page) = paginator.next_page() {
        asked.push(page);
        let size = pages.get(asked.len() - 1).copied().unwrap_or(0);
        let items: Vec<u32> = (served..served + size as u32).collect();
        served += size as u32;
        paginator.on_page(Ok(items));
    }
    (paginator.into_items().unwrap(), asked)
}

#[test]
fn pages_of_200_200_0_give_400_items_in_three_requests() {
    let (items, asked) = read_all(&[200, 200, 0]);
    assert_eq!(items.len(), 400);
    assert_eq!(items, (0..400).collect::<Vec<u32>>());
    assert_eq!(asked, vec![1, 2, 3]);
}

#[test]
fn an_empty_first_page_ends_the_reading() {
    let (items, asked) = read_all(&[0, 200]);
    assert!(items.is_empty());
    assert_eq!(asked, vec![1]);
}

#[test]
fn a_short_page_does_not_end_the_reading() {
    let (items, asked) = read_all(&[200, 3, 1, 0, 5]);
    assert_eq!(items.len(), 204);
    assert_eq!(asked, vec![1, 2, 3, 4]);
}

#[test]
fn a_finished_reading_ignores_further_pages() {
    let mut paginator: Paginator<u8> = Paginator::new();
    paginator.on_page(Ok(vec![1, 2]));
    paginator.on_page(Ok(vec![]));
    assert_eq!(paginator.next_page(), None);
    paginator.on_page(Ok(vec![3]));
    paginator.on_page(Err(ErrorKind::TransientNetwork));
    assert_eq!(paginator.next_page(), None);
    assert_eq!(paginator.into_items(), Ok(vec![1, 2]));
}

#[test]
fn a_failed_page_ends_the_reading_and_drops_what_was_read() {
    for kind in [
        ErrorKind::RetriesExceeded,
        ErrorKind::Auth,
        ErrorKind::TransientNetwork,
        ErrorKind::Deserialization,
        ErrorKind::Status(500),
    ] {
        let mut paginator: Paginator<u8> = Paginator::new();
        paginator.on_page(Ok(vec![1, 2]));
        paginator.on_page(Ok(vec![3]));
        assert_eq!(paginator.next_page(), Some(3));
        paginator.on_page(Err(kind));
        assert_eq!(paginator.next_page(), None);
        paginator.on_page(Ok(vec![4]));
        paginator.on_page(Err(ErrorKind::NotFound));
        assert_eq!(paginator.into_items(), Err(kind));
    }
    let mut paginator: Paginator<u8> = Paginator::new();
    paginator.on_page(Err(ErrorKind::Auth));
    assert_eq!(paginator.into_items(), Err(ErrorKind::Auth));
}

#[test]
fn the_address_of_the_due_page_is_handed_out_until_the_reading_is_over() {
    let base = "https://www.strava.com/api/v3/athlete/activities";
    let mut paginator: Paginator<u8> = Paginator::new();
    assert_eq!(
        paginator.next_url(base).as_deref(),
        Some("https://www.strava.com/api/v3/athlete/activities?per_page=200&page=1")
    );
    assert_eq!(paginator.next_page(), Some(1));
    paginator.on_page(Ok(vec![1]));
    assert_eq!(
        paginator.next_url(base).as_deref(),
        Some("https://www.strava.com/api/v3/athlete/activities?per_page=200&page=2")
    );
    paginator.on_page(Ok(vec![]));
    assert_eq!(paginator.next_url(base), None);
    assert_eq!(paginator.into_items(), Ok(vec![1]));
}

#[test]
fn a_base_that_is_no_address_ends_the_reading_before_anything_is_sent() {
    let mut paginator: Paginator<u8> = Paginator::new();
    assert_eq!(paginator.next_url("not an address"), None);
    assert_eq!(paginator.next_page(), None);
    assert_eq!(paginator.into_items(), Err(ErrorKind::InvalidUrl));
}

#[test]
fn a_page_address_carries_size_and_number() {
    assert_eq!(PER_PAGE, 200);
    assert_eq!(
        page_url("https://www.strava.com/api/v3/athlete/activities", PER_PAGE, 1).unwrap(),
        "https://www.strava.com/api/v3/athlete/activities?per_page=200&page=1"
    );
    assert_eq!(
        page_url("https://www.strava.com/api/v3/athlete/activities", PER_PAGE, 12).unwrap(),
        "https://www.strava.com/api/v3/athlete/activities?per_page=200&page=12"
    );
}

#[test]
fn a_page_address_replaces_paging_and_keeps_the_rest() {
    assert_eq!(
        page_url("https://example.test/list?page=9&after=5&per_page=30&q=a+b", 200, 2).unwrap(),
        "https://example.test/list?after=5&q=a+b&per_page=200&page=2"
    );
}

#[test]
fn what_is_no_address_has_no_pages() {
    assert_eq!(page_url("not an address", 200, 1), None);
    assert_eq!(page_url("", 200, 1), None);
}

#[test]
fn an_oversized_address_has_no_pages() {
    let long = format!("https://example.test/?q={}", "a".repeat(16385));
    assert_eq!(page_url(&long, 200, 1), None);
    let fine = format!("https://example.test/?q={}", "a".repeat(16384));
    assert!(page_url(&fine, 200, 1).is_some());
    let many: String = (0..1023).map(|i| format!("k{}=v&", i)).collect();
    assert_eq!(page_url(&format!("https://example.test/?{}", many), 200, 1), None);
    let huge = format!("https://example.test/{}", "a".repeat(262144));
    assert_eq!(page_url(&huge, 200, 1), None);
}

#[test]
fn paging_keys_are_stripped_in_order() {
    let pairs = vec![
        ("a".to_string(), "1".to_string()),
        ("page".to_string(), "2".to_string()),
        ("b".to_string(), "3".to_string()),
        ("per_page".to_string(), "4".to_string()),
        ("Page".to_string(), "5".to_string()),
    ];
    assert_eq!(
        strip_paging(&pairs),
        vec![
            ("a".to_string(), "1".to_string()),
            ("b".to_string(), "3".to_string()),
            ("Page".to_string(), "5".to_string()),
        ]
    );
}
