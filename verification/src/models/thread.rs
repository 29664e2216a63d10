use vstd::prelude::*;

verus! {

/// A stored thread.
#[derive(PartialEq, Debug)]
pub struct Thread {
    pub thread_id: i32,
    pub thread_name: String,
    pub lastupdate: Option<chrono::NaiveDateTime>,
}

/// A thread row to insert.
#[derive(Debug)]
pub struct NewThread {
    pub thread_id: i32,
    pub thread_name: String,
}

/// The thread search form.
#[derive(Clone, Debug)]
pub struct AddTreadSearchParams {
    pub search_keyword: String,
}

/// The new-thread form.
#[derive(Clone, Debug)]
pub struct AddTreadParams {
    pub thd_name: String,
}

/// The thread deletion form: the thread as the user last saw it.
#[derive(Clone, Debug)]
pub struct DeleteTreadParams {
    pub thd_id: i32,
    pub thd_name: String,
}

pub type ThreadSearchParams = AddTreadSearchParams;

pub type ThreadCreateParams = AddTreadParams;

pub type ThreadDeleteParams = DeleteTreadParams;

} // verus!
