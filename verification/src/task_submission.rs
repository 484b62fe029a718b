//! Task-submission records, their list-query parameters, and the
//! pagination arithmetic of the submission listing endpoint.

use vstd::prelude::*;

use crate::task::{spec_page, spec_page_size, PaginationInfo};

verus! {

/// A task-submission row. Timestamps are seconds since epoch.
#[derive(Clone, Debug)]
pub struct TaskSubmission {
    pub id: i64,
    pub task_id: i64,
    pub user_id: i64,
    pub pr_url: String,
    pub status: String,
    pub note: String,
    pub created_at: i64,
    pub updated_at: i64,
}

/// The body of a submission-creation request.
#[derive(Clone, Debug)]
pub struct CreateTaskSubmissionRequest {
    pub task_id: i64,
    pub user_id: i64,
    pub pr_url: String,
    pub note: Option<String>,
}

/// The body of a submission-update request: only the given fields change.
#[derive(Clone, Debug)]
pub struct UpdateTaskSubmissionRequest {
    pub status: Option<String>,
    pub note: Option<String>,
}

/// List-query parameters: 1-based page, page size, and an optional status
/// filter.
#[derive(Clone, Debug)]
pub struct TaskSubmissionQuery {
    pub page: Option<u32>,
    pub page_size: Option<u32>,
    pub status: Option<String>,
}

impl TaskSubmissionQuery {
    /// The page to serve, at least 1.
    pub fn page(&self) -> (r: u32)
        ensures
            r as int == spec_page(self.page),
    {
        match self.page {
            Some(p) => if p < 1 {
                1
            } else {
                p
            },
            None => 1,
        }
    }

    /// The page size to serve, between 1 and 100.
    pub fn page_size(&self) -> (r: u32)
        ensures
            r as int == spec_page_size(self.page_size),
    {
        match self.page_size {
            Some(s) => if s < 1 {
                1
            } else if s > 100 {
                100
            } else {
                s
            },
            None => 10,
        }
    }

    /// How many rows precede the requested page.
    pub fn offset(&self) -> (r: u32)
        requires
            (spec_page(self.page) - 1) * spec_page_size(self.page_size) <= u32::MAX,
        ensures
            r as int == (spec_page(self.page) - 1) * spec_page_size(self.page_size),
    {
        (self.page() - 1) * self.page_size()
    }
}

/// One page of submissions with its pagination envelope.
#[derive(Clone, Debug)]
pub struct TaskSubmissionListResponse {
    pub data: Vec<TaskSubmission>,
    pub pagination: PaginationInfo,
}

/// The submission data-access service; the decisions that need no store
/// stand here as verified functions.
pub struct TaskSubmissionService;

impl TaskSubmissionService {
    /// The pagination envelope for a list request, given the store's total
    /// row count: `total_pages` is the total rounded up to whole pages.
    pub fn pagination_for(query: &TaskSubmissionQuery, total: u32) -> (r: PaginationInfo)
        requires
            total + spec_page_size(query.page_size) <= u32::MAX,
        ensures
            r.page as int == spec_page(query.page),
            r.page_size as int == spec_page_size(query.page_size),
            r.total == total,
            r.total_pages as int == (total + spec_page_size(query.page_size) - 1) / spec_page_size(
                query.page_size,
            ),
    {
        let page_size = query.page_size();
        PaginationInfo {
            page: query.page(),
            page_size,
            total,
            total_pages: (total + page_size - 1) / page_size,
        }
    }
}

} // verus!
