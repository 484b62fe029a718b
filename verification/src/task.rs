//! Task records, list-query parameters, and the pagination arithmetic of
//! the task listing endpoint. The queries and inserts themselves run in
//! the data-access layer around this crate; only the parameter
//! normalisation and the page arithmetic are decided here.

use vstd::prelude::*;

verus! {

/// A task row. Timestamps are seconds since epoch.
#[derive(Clone, Debug)]
pub struct Task {
    pub code: String,
    pub created_at: i64,
    pub description: String,
    pub id: i64,
    pub name: String,
    pub reward_cny: i32,
    pub reward_token: String,
    pub updated_at: i64,
}

/// The body of a task-creation request.
#[derive(Clone, Debug)]
pub struct CreateTaskRequest {
    pub code: String,
    pub name: String,
    pub reward_cny: i32,
    pub reward_token: String,
    pub description: String,
}

/// The body of a task-update request: only the given fields change.
#[derive(Clone, Debug)]
pub struct UpdateTaskRequest {
    pub name: Option<String>,
    pub reward_cny: Option<i32>,
    pub reward_token: Option<String>,
    pub description: Option<String>,
}

impl UpdateTaskRequest {
    /// Whether the request changes anything at all; an empty update is
    /// answered without touching the store.
    pub fn has_changes(&self) -> (r: bool)
        ensures
            r == (self.name is Some || self.reward_cny is Some || self.reward_token is Some
                || self.description is Some),
    {
        self.name.is_some() || self.reward_cny.is_some() || self.reward_token.is_some()
            || self.description.is_some()
    }
}

/// List-query parameters: 1-based page, page size, and an optional search
/// term.
#[derive(Clone, Debug)]
pub struct TaskQuery {
    pub page: Option<u32>,
    pub page_size: Option<u32>,
    pub search: Option<String>,
}

/// A missing or zero page is read as the first page.
pub open spec fn spec_page(page: Option<u32>) -> int {
    match page {
        Some(p) => if p >= 1 {
            p as int
        } else {
            1
        },
        None => 1,
    }
}

/// A missing page size is read as 10; any given size is clamped to
/// 1 through 100.
pub open spec fn spec_page_size(page_size: Option<u32>) -> int {
    match page_size {
        Some(s) => if s < 1 {
            1
        } else if s > 100 {
            100
        } else {
            s as int
        },
        None => 10,
    }
}

impl TaskQuery {
    /// The page to serve, at least 1.
    pub fn page(&self) -> (r: u32)
        ensures
            r as int == spec_page(self.page),
    {
        match self.page {
            Some(p) => if p < 1 {
                1
            } else {
                p
            },
            None => 1,
        }
    }

    /// The page size to serve, between 1 and 100.
    pub fn page_size(&self) -> (r: u32)
        ensures
            r as int == spec_page_size(self.page_size),
    {
        match self.page_size {
            Some(s) => if s < 1 {
                1
            } else if s > 100 {
                100
            } else {
                s
            },
            None => 10,
        }
    }

    /// How many rows precede the requested page.
    pub fn offset(&self) -> (r: u32)
        requires
            (spec_page(self.page) - 1) * spec_page_size(self.page_size) <= u32::MAX,
        ensures
            r as int == (spec_page(self.page) - 1) * spec_page_size(self.page_size),
    {
        (self.page() - 1) * self.page_size()
    }
}

/// One page of tasks with its pagination envelope.
#[derive(Clone, Debug)]
pub struct TaskListResponse {
    pub data: Vec<Task>,
    pub pagination: PaginationInfo,
}

/// The pagination envelope of a list response.
#[derive(Clone, Copy, Debug, PartialEq, Eq, Structural)]
pub struct PaginationInfo {
    pub page: u32,
    pub page_size: u32,
    pub total: u32,
    pub total_pages: u32,
}

/// The task data-access service; the decisions that need no store stand
/// here as verified functions.
pub struct TaskService;

impl TaskService {
    /// The pagination envelope for a list request, given the store's total
    /// row count: `total_pages` is the total rounded up to whole pages.
    pub fn pagination_for(query: &TaskQuery, total: u32) -> (r: PaginationInfo)
        requires
            total + spec_page_size(query.page_size) <= u32::MAX,
        ensures
            r.page as int == spec_page(query.page),
            r.page_size as int == spec_page_size(query.page_size),
            r.total == total,
            r.total_pages as int == (total + spec_page_size(query.page_size) - 1) / spec_page_size(
                query.page_size,
            ),
    {
        let page_size = query.page_size();
        PaginationInfo {
            page: query.page(),
            page_size,
            total,
            total_pages: (total + page_size - 1) / page_size,
        }
    }
}

} // verus!
