use auth_core::decimal::i64_to_dec_string;
use auth_core::task::{TaskQuery, TaskService, UpdateTaskRequest};
use auth_core::task_submission::{TaskSubmissionQuery, TaskSubmissionService};

fn task_query(page: Option<u32>, page_size: Option<u32>) -> TaskQuery {
    TaskQuery { page, page_size, search: None }
}

#[test]
fn task_query_defaults() {
    let q = task_query(None, None);
    assert_eq!(q.page(), 1);
    assert_eq!(q.page_size(), 10);
    assert_eq!(q.offset(), 0);
}

#[test]
fn task_query_clamps_extremes() {
    let q = task_query(Some(0), Some(0));
    assert_eq!(q.page(), 1);
    assert_eq!(q.page_size(), 1);
    let q = task_query(Some(3), Some(1000));
    assert_eq!(q.page_size(), 100);
    assert_eq!(q.offset(), 200);
}

#[test]
fn task_query_offset_formula() {
    let q = task_query(Some(3), Some(20));
    assert_eq!(q.offset(), 40);
}

#[test]
fn task_pagination_rounds_up() {
    let q = task_query(Some(2), Some(10));
    let info = TaskService::pagination_for(&q, 95);
    assert_eq!(info.page, 2);
    assert_eq!(info.page_size, 10);
    assert_eq!(info.total, 95);
    assert_eq!(info.total_pages, 10);
}

#[test]
fn task_pagination_exact_and_empty() {
    let q = task_query(None, Some(10));
    assert_eq!(TaskService::pagination_for(&q, 100).total_pages, 10);
    assert_eq!(TaskService::pagination_for(&q, 0).total_pages, 0);
    assert_eq!(TaskService::pagination_for(&q, 1).total_pages, 1);
}

#[test]
fn submission_query_mirrors_task_query() {
    let q = TaskSubmissionQuery { page: Some(4), page_size: Some(25), status: None };
    assert_eq!(q.page(), 4);
    assert_eq!(q.page_size(), 25);
    assert_eq!(q.offset(), 75);
    let info = TaskSubmissionService::pagination_for(&q, 26);
    assert_eq!(info.total_pages, 2);
}

#[test]
fn empty_update_request_has_no_changes() {
    let none = UpdateTaskRequest { name: None, reward_cny: None, reward_token: None, description: None };
    assert!(!none.has_changes());
    let some = UpdateTaskRequest {
        name: None,
        reward_cny: Some(100),
        reward_token: None,
        description: None,
    };
    assert!(some.has_changes());
}

#[test]
fn decimal_rendering_of_ids() {
    assert_eq!(i64_to_dec_string(0), "0");
    assert_eq!(i64_to_dec_string(42), "42");
    assert_eq!(i64_to_dec_string(-7), "-7");
    assert_eq!(i64_to_dec_string(i64::MAX), "9223372036854775807");
    assert_eq!(i64_to_dec_string(i64::MIN), "-9223372036854775808");
}
