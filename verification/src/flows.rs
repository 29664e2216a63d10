//! What each form submission decides, apart from reading and writing the
//! database and the session: the messages to show, or the row to store.
use vstd::prelude::*;
use crate::error_msg::{message, message_views};
use crate::models::account::{
    Account,
    NewAccount,
    AccountAddParams,
    AccountNameEditParams,
    PasswordEditParams,
};
use crate::models::thread::{Thread, NewThread, ThreadCreateParams, ThreadDeleteParams};
use crate::models::thread_comment::{ThreadComment, NewThreadComment, CommentCreateParams};
use crate::laws::law_hash_is_not_the_password;
use crate::password_format::is_alphanumeric_text;
use crate::password_hash::{
    bcrypt_verifies,
    is_bcrypt_hash_text,
    bcrypt_verify_panics,
};
use crate::screen_status::{ScreenStatus, status_text};
use crate::service::account_service::{
    accounts_named,
    account_errors,
    account_name_errors,
    account_nos,
    password_errors,
};
use crate::service::comment_service::{comment_errors, comment_nos};
use crate::service::numbering::next_number;
use crate::service::thread_service::{thread_errors, thread_ids, thread_listed};

verus! {


/// A sign-up: the form's messages, or the account row to store.
pub fn signup_account_flow(params: &AccountAddParams, accounts: &Vec<Account>) -> (res: Result<
    NewAccount,
    Vec<String>,
>)
    requires
        params.acct_name@.len() > 0 ==> is_alphanumeric_text(params.pwd@),
        account_errors(
            params.acct_name@,
            params.pwd@,
            status_text(ScreenStatus::SIGNUP),
            accounts@,
        ).len() == 0 ==> forall|i: int|
            0 <= i < accounts.len() ==> accounts[i].account_no < i32::MAX,
    ensures
        match res {
            Err(msgs) => {
                &&& msgs.len() > 0
                &&& message_views(msgs@) == account_errors(
                    params.acct_name@,
                    params.pwd@,
                    status_text(ScreenStatus::SIGNUP),
                    accounts@,
                )
            },
            Ok(row) => {
                &&& account_errors(
                    params.acct_name@,
                    params.pwd@,
                    status_text(ScreenStatus::SIGNUP),
                    accounts@,
                ).len() == 0
                &&& row.account_no == next_number(account_nos(accounts@))
                &&& row.account_name == params.acct_name
                &&& bcrypt_verifies(params.pwd@, row.password@)
                &&& is_bcrypt_hash_text(row.password@)
                &&& row.password@ != params.pwd@
            },
        },
{
    proof {
        crate::screen_status::lemma_status_texts_distinct();
    }
    let status = ScreenStatus::SIGNUP.to_string();
    let error_msg = params.validation_account(status, accounts);
    if error_msg.len() > 0 {
        Err(error_msg)
    } else {
        let row = params.new_account(accounts);
        proof {
            assert(params.acct_name@.len() > 0) by {
                assert(message_views(error_msg@).len() == 0);
            }
            law_hash_is_not_the_password(row.password@, params.pwd@);
        }
        Ok(row)
    }
}

/// A log-in: the form's messages, or the number of the account that logs
/// in, that of the first account of the form's name.
pub fn login_account_flow(params: &AccountAddParams, accounts: &Vec<Account>) -> (res: Result<
    i32,
    Vec<String>,
>)
    requires
        params.acct_name@.len() > 0 && accounts_named(accounts@, params.acct_name@).len() > 0
            ==> !bcrypt_verify_panics(accounts_named(accounts@, params.acct_name@)[0].password@),
    ensures
        match res {
            Err(msgs) => {
                &&& msgs.len() > 0
                &&& message_views(msgs@) == account_errors(
                    params.acct_name@,
                    params.pwd@,
                    status_text(ScreenStatus::LOGIN),
                    accounts@,
                )
            },
            Ok(no) => {
                &&& account_errors(
                    params.acct_name@,
                    params.pwd@,
                    status_text(ScreenStatus::LOGIN),
                    accounts@,
                ).len() == 0
                &&& accounts_named(accounts@, params.acct_name@).len() > 0
                &&& no == accounts_named(accounts@, params.acct_name@)[0].account_no
            },
        },
{
    proof {
        crate::screen_status::lemma_status_texts_distinct();
    }
    let status = ScreenStatus::LOGIN.to_string();
    let error_msg = params.validation_account(status, accounts);
    if error_msg.len() > 0 {
        Err(error_msg)
    } else {
        let temp_list = Account::select_account_byname(&params.acct_name, accounts);
        assert(params.acct_name@.len() > 0 && params.pwd@.len() > 0) by {
            assert(message_views(error_msg@).len() == 0);
        }
        Ok(temp_list[0].account_no)
    }
}

/// A change of the signed-in account's name from `acct_name`: the form's
/// messages, or the new name.
pub fn edit_account_flow(
    params: &AccountNameEditParams,
    acct_name: &String,
    accounts: &Vec<Account>,
) -> (res: Result<String, Vec<String>>)
    ensures
        match res {
            Err(msgs) => {
                &&& msgs.len() > 0
                &&& message_views(msgs@) == account_name_errors(
                    params.edit_acct_name@,
                    acct_name@,
                    accounts@,
                )
            },
            Ok(name) => {
                &&& account_name_errors(params.edit_acct_name@, acct_name@, accounts@).len() == 0
                &&& name@ == params.edit_acct_name@
            },
        },
{
    let error_msg = params.validation_account_name(acct_name, accounts);
    if error_msg.len() > 0 {
        Err(error_msg)
    } else {
        Ok(params.edit_acct_name.clone())
    }
}

/// A password change of the signed-in account named `acct_name`: the form's
/// messages, or the hash to store as the new password.
pub fn edit_password_flow(
    params: &PasswordEditParams,
    acct_name: &String,
    accounts: &Vec<Account>,
) -> (res: Result<String, Vec<String>>)
    requires
        params.current_password@.len() > 0 && params.edit_password@.len() > 0 ==> {
            &&& accounts_named(accounts@, acct_name@).len() > 0
            &&& is_alphanumeric_text(params.edit_password@)
            &&& !bcrypt_verify_panics(accounts_named(accounts@, acct_name@)[0].password@)
        },
    ensures
        match res {
            Err(msgs) => {
                &&& msgs.len() > 0
                &&& message_views(msgs@) == password_errors(
                    params.current_password@,
                    params.edit_password@,
                    acct_name@,
                    accounts@,
                )
            },
            Ok(hash) => {
                &&& password_errors(
                    params.current_password@,
                    params.edit_password@,
                    acct_name@,
                    accounts@,
                ).len() == 0
                &&& bcrypt_verifies(params.edit_password@, hash@)
                &&& is_bcrypt_hash_text(hash@)
                &&& hash@ != params.edit_password@
            },
        },
{
    let error_msg = params.validation_password(acct_name, accounts);
    if error_msg.len() > 0 {
        Err(error_msg)
    } else {
        let mut pwd_edit_params = PasswordEditParams::new(
            params.current_password.clone(),
            params.edit_password.clone(),
        );
        pwd_edit_params.hash_edit_password();
        proof {
            assert(params.current_password@.len() > 0 && params.edit_password@.len() > 0) by {
                assert(message_views(error_msg@).len() == 0);
            }
            law_hash_is_not_the_password(pwd_edit_params.edit_password@, params.edit_password@);
        }
        Ok(pwd_edit_params.edit_password)
    }
}

/// A new thread: the form's messages, or the thread row to store.
pub fn add_thread_flow(params: &ThreadCreateParams, threads: &Vec<Thread>) -> (res: Result<
    NewThread,
    Vec<String>,
>)
    requires
        thread_errors(params.thd_name@).len() == 0 ==> forall|i: int|
            0 <= i < threads.len() ==> threads[i].thread_id < i32::MAX,
    ensures
        match res {
            Err(msgs) => {
                &&& msgs.len() > 0
                &&& message_views(msgs@) == thread_errors(params.thd_name@)
            },
            Ok(row) => {
                &&& thread_errors(params.thd_name@).len() == 0
                &&& row.thread_id == next_number(thread_ids(threads@))
                &&& row.thread_name@ == params.thd_name@
            },
        },
{
    let error_msg = params.validation_thread();
    if error_msg.len() > 0 {
        Err(error_msg)
    } else {
        Ok(params.insert_thread(threads))
    }
}

/// A new comment: the form's messages, or the comment row to store.
pub fn add_thread_comment_flow(params: &CommentCreateParams, comments: &Vec<ThreadComment>) -> (res:
    Result<NewThreadComment, Vec<String>>)
    requires
        comment_errors(params.cmt_name@, params.cmt@).len() == 0 ==> forall|i: int|
            0 <= i < comments.len() ==> comments[i].comment_no < i32::MAX,
    ensures
        match res {
            Err(msgs) => {
                &&& msgs.len() > 0
                &&& message_views(msgs@) == comment_errors(params.cmt_name@, params.cmt@)
            },
            Ok(row) => {
                &&& comment_errors(params.cmt_name@, params.cmt@).len() == 0
                &&& row.thread_id == params.thd_id
                &&& row.comment_no == next_number(comment_nos(comments@))
                &&& row.comment_name@ == params.cmt_name@
                &&& row.comment@ == params.cmt@
            },
        },
{
    let error_msg = params.validation_comment();
    if error_msg.len() > 0 {
        Err(error_msg)
    } else {
        Ok(params.insert_comment(comments))
    }
}

/// A thread deletion: the number of the thread whose row and comments go,
/// or the message asking the user to look at the threads again.
pub fn delete_thread_flow(params: &ThreadDeleteParams, threads: &Vec<Thread>) -> (res: Result<
    i32,
    String,
>)
    ensures
        match res {
            Ok(id) => thread_listed(threads@, params.thd_id, params.thd_name@) && id == params.thd_id,
            Err(msg) => !thread_listed(threads@, params.thd_id, params.thd_name@) && msg@ == message(
                "EM_THD_0001"@,
            ),
        },
{
    proof {
        crate::error_msg::lemma_message_keys();
        reveal_strlit("スレッドが更新されております。ご確認下さい。");
        assert(message("EM_THD_0001"@).len() > 0);
    }
    let remove_status = params.remove_thread(threads);
    if remove_status.as_str().is_empty() {
        Ok(params.thd_id)
    } else {
        Err(remove_status)
    }
}

} // verus!
