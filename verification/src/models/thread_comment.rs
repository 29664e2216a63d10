use vstd::prelude::*;

verus! {

/// A stored comment.
#[derive(PartialEq, Debug)]
pub struct ThreadComment {
    pub thread_id: i32,
    pub comment_no: i32,
    pub comment_name: String,
    pub comment: String,
    pub lastupdate: Option<chrono::NaiveDateTime>,
}

/// A comment row to insert.
#[derive(Debug)]
pub struct NewThreadComment {
    pub thread_id: i32,
    pub comment_no: i32,
    pub comment_name: String,
    pub comment: String,
}

/// The new-comment form.
#[derive(Clone, Debug)]
pub struct CommentCreateParams {
    pub thd_id: i32,
    pub cmt_name: String,
    pub cmt: String,
    pub thd_name: String,
}

/// The form that opens a thread's comment page.
#[derive(Clone, Debug)]
pub struct ThreadGetParams {
    pub thd_id: i32,
    pub thd_name: String,
}

} // verus!
