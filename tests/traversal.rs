use std::time::Duration;

use anitya::v2::{Package, PackagePage, PackageQuery, ProjectPage, ProjectPageQuery, ProjectQuery};
use anitya::{AnityaClient, PaginatedRequest, Progress, QueryError, Traversal};

fn project_page(query: &ProjectQuery, page: u32) -> ProjectPageQuery<'_> {
    <ProjectQuery as PaginatedRequest<ProjectPage<u32>, Vec<u32>, ProjectPageQuery>>::page_request(query, page)
}

fn package(name: &str) -> Package {
    Package {
        distribution: String::from("Fedora"),
        name: String::from(name),
        project: String::from(name),
        ecosystem: String::from("pypi"),
        version: None,
    }
}

#[test]
fn empty_collection_is_one_empty_page() {
    let query = PackageQuery::new();
    let (mut walk, start) = Traversal::<Package>::start(None);
    assert_eq!(start, Progress { page: 0, pages: 1 });
    assert_eq!(walk.pending(), Some(1));
    let request = query.page_request(1);
    let step = walk.record(&request, PackagePage::new(vec![], 1, 25, 0));
    assert_eq!(step.progress, Progress { page: 1, pages: 1 });
    assert_eq!(step.pause, None);
    assert_eq!(walk.pending(), None);
    assert!(walk.into_results().is_empty());
}

#[test]
fn two_pages_are_gathered_in_order() {
    let query = PackageQuery::new();
    let (mut walk, _) = Traversal::<Package>::start(Some(Duration::from_millis(500)));
    assert_eq!(walk.pending(), Some(1));
    let first = walk.record(
        &query.page_request(1),
        PackagePage::new((0..25).map(|i| package(&format!("p{i}"))).collect(), 1, 25, 30),
    );
    assert_eq!(first.progress, Progress { page: 1, pages: 2 });
    assert_eq!(first.pause, None);
    assert_eq!(walk.pending(), Some(2));
    let second = walk.record(
        &query.page_request(2),
        PackagePage::new((25..30).map(|i| package(&format!("p{i}"))).collect(), 2, 25, 30),
    );
    assert_eq!(second.progress, Progress { page: 2, pages: 2 });
    assert_eq!(second.pause, Some(Duration::from_millis(500)));
    assert_eq!(walk.pending(), None);
    let results = walk.into_results();
    assert_eq!(results.len(), 30);
    for (i, p) in results.iter().enumerate() {
        assert_eq!(p.name, format!("p{i}"));
    }
}

#[test]
fn traversal_follows_the_latest_page_count() {
    let query = ProjectQuery::new();
    let (mut walk, _) = Traversal::<u32>::start(None);
    walk.record(&project_page(&query, 1), ProjectPage::new(vec![1u32], 1, 1, 3));
    assert_eq!(walk.pending(), Some(2));
    let step = walk.record(&project_page(&query, 2), ProjectPage::new(vec![2u32], 2, 1, 2));
    // progress carries the count known when page 2 was fetched
    assert_eq!(step.progress, Progress { page: 2, pages: 3 });
    assert_eq!(walk.pending(), None);
    assert_eq!(walk.into_results(), vec![1, 2]);
}

#[test]
fn traversal_stops_after_the_first_count() {
    let query = ProjectQuery::new();
    let (mut walk, _) = Traversal::<u32>::start(None);
    let mut fetched = 0;
    while let Some(n) = walk.pending() {
        fetched += 1;
        walk.record(&project_page(&query, n), ProjectPage::new(vec![n], n, 10, 40));
    }
    assert_eq!(fetched, 4);
    assert_eq!(walk.into_results(), vec![1, 2, 3, 4]);
}

#[test]
fn growing_count_extends_the_traversal() {
    let query = ProjectQuery::new();
    let (mut walk, _) = Traversal::<u32>::start(None);
    walk.record(&project_page(&query, 1), ProjectPage::new(vec![1u32], 1, 10, 10));
    assert_eq!(walk.pending(), None);
    let (mut walk, _) = Traversal::<u32>::start(None);
    walk.record(&project_page(&query, 1), ProjectPage::new(vec![1u32], 1, 10, 11));
    assert_eq!(walk.pending(), Some(2));
}

#[test]
fn rejected_first_page_ends_the_traversal() {
    let (walk, _) = Traversal::<Package>::start(None);
    assert_eq!(walk.pending(), Some(1));
    let outcome = AnityaClient::accept_status(404, String::from("not found"));
    match outcome {
        Err(QueryError::Request { code, error }) => {
            assert_eq!(code, 404);
            assert_eq!(error, "not found");
        },
        _ => panic!("expected a rejected request"),
    }
    // the failure ends the loop: the traversal is dropped unfinished, and
    // nothing it gathered is handed out
    assert_eq!(walk.pending(), Some(1));
    drop(walk);
}

#[test]
fn failed_fetch_ends_the_traversal_with_its_error() {
    let query = PackageQuery::new();
    let (walk, start) = Traversal::<Package>::start(None);
    assert_eq!(start, Progress { page: 0, pages: 1 });
    let request = query.page_request(1);
    let fetched: Result<PackagePage, QueryError> = AnityaClient::accept_status(404, String::from("not found"))
        .and_then(|_| unreachable!());
    match walk.advance(&request, fetched) {
        Err(QueryError::Request { code, error }) => {
            assert_eq!(code, 404);
            assert_eq!(error, "not found");
        },
        _ => panic!("expected the rejection to end the traversal"),
    }
}

#[test]
fn malformed_first_page_ends_the_traversal() {
    let query = PackageQuery::new();
    let (walk, _) = Traversal::<Package>::start(None);
    let request = query.page_request(1);
    let fetched = AnityaClient::parsed_page(serde_json::from_str::<u32>("{not json").map(|_| PackagePage::new(vec![], 1, 25, 0)));
    assert!(matches!(walk.advance(&request, fetched), Err(QueryError::DeSerialization { .. })));
}

#[test]
fn advance_records_a_fetched_page() {
    let query = PackageQuery::new();
    let (walk, _) = Traversal::<Package>::start(None);
    let request = query.page_request(1);
    let (walk, step) = walk
        .advance(&request, Ok(PackagePage::new(vec![package("a")], 1, 25, 1)))
        .ok()
        .unwrap();
    assert_eq!(step.progress, Progress { page: 1, pages: 1 });
    assert_eq!(walk.pending(), None);
    assert_eq!(walk.into_results(), vec![package("a")]);
}
