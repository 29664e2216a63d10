use vstd::prelude::*;
use crate::error_msg::{
    message_if,
    message,
    message_of,
    message_views,
    required_message,
    required_message_of,
    lemma_message_keys,
};
use crate::models::thread::{
    Thread,
    NewThread,
    ThreadSearchParams,
    ThreadCreateParams,
    ThreadDeleteParams,
};
use crate::service::numbering::{next_number, next_record_number};

verus! {

/// The thread numbers in use.
pub open spec fn thread_ids(threads: Seq<Thread>) -> Seq<i32> {
    threads.map_values(|t: Thread| t.thread_id)
}

/// The messages of the new-thread form: the name is missing.
pub open spec fn thread_errors(name: Seq<char>) -> Seq<Seq<char>> {
    message_if(name.len() == 0, required_message("スレッドネーム"@))
}

/// Some stored thread has number `id` and name `name`.
pub open spec fn thread_listed(threads: Seq<Thread>, id: i32, name: Seq<char>) -> bool {
    exists|i: int| 0 <= i < threads.len() && threads[i].thread_id == id && threads[i].thread_name@ == name
}

impl NewThread {
    /// A thread row with these fields.
    fn new(thd_id: i32, thd_name: String) -> (res: NewThread)
        ensures
            res.thread_id == thd_id,
            res.thread_name == thd_name,
    {
        NewThread { thread_id: thd_id, thread_name: thd_name }
    }
}

impl ThreadSearchParams {
    /// The search form with this keyword.
    pub fn new(keyword: String) -> (res: ThreadSearchParams)
        ensures
            res.search_keyword == keyword,
    {
        ThreadSearchParams { search_keyword: keyword }
    }
}

impl ThreadCreateParams {
    /// The new-thread form with this name.
    pub fn new(thd_name: String) -> (res: ThreadCreateParams)
        ensures
            res.thd_name == thd_name,
    {
        ThreadCreateParams { thd_name: thd_name }
    }

    /// The thread row that this form stores, given the stored threads: the
    /// next free thread number and the form's name.
    pub fn insert_thread(&self, threads: &Vec<Thread>) -> (res: NewThread)
        requires
            forall|i: int| 0 <= i < threads.len() ==> threads[i].thread_id < i32::MAX,
        ensures
            res.thread_id == next_number(thread_ids(threads@)),
            res.thread_name@ == self.thd_name@,
    {
        let mut ids: Vec<i32> = Vec::new();
        let mut i: usize = 0;
        while i < threads.len()
            invariant
                i <= threads.len(),
                ids@ == thread_ids(threads@.take(i as int)),
            decreases threads.len() - i,
        {
            ids.push(threads[i].thread_id);
            assert(ids@ =~= thread_ids(threads@.take(i + 1)));
            i = i + 1;
        }
        assert(threads@.take(threads.len() as int) =~= threads@);
        let thd_id = next_record_number(&ids);
        let thd_name = self.thd_name.clone();
        NewThread::new(thd_id, thd_name)
    }

    /// Checks the form: the name must not be empty.
    pub fn validation_thread(&self) -> (res: Vec<String>)
        ensures
            message_views(res@) == thread_errors(self.thd_name@),
    {
        let mut error_msg: Vec<String> = Vec::new();
        if self.thd_name.as_str().is_empty() {
            error_msg.push(required_message_of("スレッドネーム"));
        }
        assert(message_views(error_msg@) =~= thread_errors(self.thd_name@));
        error_msg
    }
}

impl ThreadDeleteParams {
    /// The deletion form for this thread.
    pub fn new(thd_id: i32, thd_name: String) -> (res: ThreadDeleteParams)
        ensures
            res.thd_id == thd_id,
            res.thd_name == thd_name,
    {
        ThreadDeleteParams { thd_id: thd_id, thd_name: thd_name }
    }

    /// Decides a thread deletion against the stored threads. The thread may
    /// go (answer "") only where it is still stored under the number and
    /// name that the user saw; otherwise the answer asks the user to look at
    /// the threads again.
    pub fn remove_thread(&self, threads: &Vec<Thread>) -> (res: String)
        ensures
            thread_listed(threads@, self.thd_id, self.thd_name@) ==> res@ == Seq::<char>::empty(),
            !thread_listed(threads@, self.thd_id, self.thd_name@) ==> res@ == message(
                "EM_THD_0001"@,
            ),
    {
        let mut i: usize = 0;
        while i < threads.len()
            invariant
                i <= threads.len(),
                forall|k: int|
                    0 <= k < i ==> !(threads[k].thread_id == self.thd_id
                        && threads[k].thread_name@ == self.thd_name@),
            decreases threads.len() - i,
        {
            if threads[i].thread_id == self.thd_id && threads[i].thread_name == self.thd_name {
                return String::new();
            }
            i = i + 1;
        }
        proof {
            lemma_message_keys();
        }
        message_of("EM_THD_0001")
    }
}

} // verus!
