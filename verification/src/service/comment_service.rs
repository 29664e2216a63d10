use vstd::prelude::*;
use crate::error_msg::{message_if, message_views, required_message, required_message_of};
use crate::models::thread_comment::{ThreadComment, NewThreadComment, CommentCreateParams};
use crate::service::numbering::{next_number, next_record_number};

verus! {

/// The comment numbers in use, over all threads.
pub open spec fn comment_nos(comments: Seq<ThreadComment>) -> Seq<i32> {
    comments.map_values(|c: ThreadComment| c.comment_no)
}

/// The messages of the new-comment form: the name is missing, the comment
/// is missing.
pub open spec fn comment_errors(name: Seq<char>, comment: Seq<char>) -> Seq<Seq<char>> {
    message_if(name.len() == 0, required_message("ネーム"@)) + message_if(
        comment.len() == 0,
        required_message("コメント"@),
    )
}

impl NewThreadComment {
    /// A comment row with these fields.
    fn new(thd_id: i32, cmt_no: i32, cmt_name: String, cmt: String) -> (res: NewThreadComment)
        ensures
            res.thread_id == thd_id,
            res.comment_no == cmt_no,
            res.comment_name == cmt_name,
            res.comment == cmt,
    {
        NewThreadComment { thread_id: thd_id, comment_no: cmt_no, comment_name: cmt_name, comment: cmt }
    }
}

impl CommentCreateParams {
    /// The new-comment form with these fields.
    pub fn new(thd_id: i32, cmt_name: String, cmt: String, thd_name: String) -> (res:
        CommentCreateParams)
        ensures
            res.thd_id == thd_id,
            res.cmt_name == cmt_name,
            res.cmt == cmt,
            res.thd_name == thd_name,
    {
        CommentCreateParams { thd_id: thd_id, cmt_name: cmt_name, cmt: cmt, thd_name: thd_name }
    }

    /// The comment row that this form stores, given all stored comments:
    /// the form's thread, the next comment number free over all threads, and
    /// the form's name and text.
    pub fn insert_comment(&self, comments: &Vec<ThreadComment>) -> (res: NewThreadComment)
        requires
            forall|i: int| 0 <= i < comments.len() ==> comments[i].comment_no < i32::MAX,
        ensures
            res.thread_id == self.thd_id,
            res.comment_no == next_number(comment_nos(comments@)),
            res.comment_name@ == self.cmt_name@,
            res.comment@ == self.cmt@,
    {
        let mut nos: Vec<i32> = Vec::new();
        let mut i: usize = 0;
        while i < comments.len()
            invariant
                i <= comments.len(),
                nos@ == comment_nos(comments@.take(i as int)),
            decreases comments.len() - i,
        {
            nos.push(comments[i].comment_no);
            assert(nos@ =~= comment_nos(comments@.take(i + 1)));
            i = i + 1;
        }
        assert(comments@.take(comments.len() as int) =~= comments@);
        let cmt_no = next_record_number(&nos);
        NewThreadComment::new(self.thd_id, cmt_no, self.cmt_name.clone(), self.cmt.clone())
    }

    /// Checks the form: neither the name nor the comment may be empty.
    pub fn validation_comment(&self) -> (res: Vec<String>)
        ensures
            message_views(res@) == comment_errors(self.cmt_name@, self.cmt@),
    {
        let mut error_msg: Vec<String> = Vec::new();
        assert(message_views(error_msg@) =~= Seq::<Seq<char>>::empty());
        if self.cmt_name.as_str().is_empty() {
            error_msg.push(required_message_of("ネーム"));
        }
        assert(message_views(error_msg@) =~= message_if(
            self.cmt_name@.len() == 0,
            required_message("ネーム"@),
        ));
        let ghost before = error_msg@;
        if self.cmt.as_str().is_empty() {
            error_msg.push(required_message_of("コメント"));
            assert(message_views(error_msg@) =~= message_views(before).push(
                required_message("コメント"@),
            ));
        }
        assert(message_views(error_msg@) =~= comment_errors(self.cmt_name@, self.cmt@));
        error_msg
    }
}

} // verus!
