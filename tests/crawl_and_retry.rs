use tracker_load::crawl::{page_issue_ids, CrawlDriver, CrawlStep};
use tracker_load::models::{Issue, PaginationMeta};
use tracker_load::retry::{RetryPolicy, RetryStep, RETRY_DELAY_MS};

fn meta(page: u32, total_records: u32, total_pages: u32) -> PaginationMeta {
    PaginationMeta { page, per_page: 50, total_records, total_pages }
}

fn issue(id: &str) -> Issue {
    Issue {
        id: id.to_string(),
        key: format!("K-{id}"),
        project_id: "p".to_string(),
        epic_id: None,
        parent_id: None,
        kind: "task".to_string(),
        title: "t".to_string(),
        description: None,
        estimate: None,
        estimate_type: None,
        labels: None,
        created_at: None,
        updated_at: None,
    }
}

/// Drives a crawl over pages of the given sizes; returns the pages fetched and
/// the number of detail fetches dispatched.
fn crawl(sizes: &[usize], total_pages: u32) -> (Vec<u32>, usize) {
    let total: usize = sizes.iter().sum();
    let mut driver = CrawlDriver::new();
    let mut fetched = Vec::new();
    let mut details = 0;
    while let CrawlStep::FetchPage(page) = driver.next_step() {
        fetched.push(page);
        assert!(fetched.len() <= 10);
        let records = sizes.get(page as usize - 1).copied().unwrap_or(0);
        if driver.on_listing(records, &meta(page, total as u32, total_pages)) {
            details += records;
        }
    }
    (fetched, details)
}

#[test]
fn three_page_listing() {
    let (fetched, details) = crawl(&[50, 50, 7], 3);
    assert_eq!(fetched, vec![1, 2, 3]);
    assert_eq!(details, 107);
}

#[test]
fn empty_listing_stops_after_first_page() {
    let (fetched, details) = crawl(&[], 0);
    assert_eq!(fetched, vec![1]);
    assert_eq!(details, 0);
}

#[test]
fn empty_page_stops_the_crawl() {
    let (fetched, details) = crawl(&[50, 0, 7], 3);
    assert_eq!(fetched, vec![1, 2]);
    assert_eq!(details, 50);
}

#[test]
fn finished_crawl_asks_for_nothing() {
    let mut driver = CrawlDriver::new();
    assert_eq!(driver.next_step(), CrawlStep::FetchPage(1));
    assert!(driver.on_listing(3, &meta(1, 3, 1)));
    assert_eq!(driver.next_step(), CrawlStep::Finished);
}

#[test]
fn page_ids_in_order() {
    let page = vec![issue("a"), issue("b"), issue("c")];
    assert_eq!(page_issue_ids(&page), vec!["a", "b", "c"]);
}

#[test]
fn retries_then_gives_up() {
    let mut policy = RetryPolicy::new(2);
    assert_eq!(policy.on_failure(), RetryStep::Wait(RETRY_DELAY_MS));
    assert_eq!(policy.on_failure(), RetryStep::Wait(3000));
    assert_eq!(policy.on_failure(), RetryStep::GiveUp);
}

#[test]
fn no_retries_gives_up_at_once() {
    let mut policy = RetryPolicy::new(0);
    assert_eq!(policy.on_failure(), RetryStep::GiveUp);
}
