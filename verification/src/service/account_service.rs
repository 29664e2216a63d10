use vstd::prelude::*;
use crate::error_msg::{
    message_if,
    message,
    message_of,
    message_views,
    required_message,
    required_message_of,
    lemma_message_keys,
    error_template,
};
use crate::models::account::{
    Account,
    NewAccount,
    AccountAddParams,
    AccountNameEditParams,
    PasswordEditParams,
};
use crate::password_format::{is_alphanumeric_text, matches_alphanumeric};
use crate::password_hash::{
    bcrypt_verifies,
    bcrypt_verify,
    bcrypt_hash,
    is_bcrypt_hash_text,
    bcrypt_verify_panics,
};
use crate::screen_status::{ScreenStatus, status_text, lemma_status_texts_distinct};
use crate::service::numbering::{next_number, next_record_number};
use crate::session::{AccountInfo, acct_no_key, acctno};

verus! {

/// The accounts named `name`, in table order.
pub open spec fn accounts_named(accounts: Seq<Account>, name: Seq<char>) -> Seq<Account> {
    accounts.filter(|a: Account| a.account_name@ == name)
}

/// The account numbers in use.
pub open spec fn account_nos(accounts: Seq<Account>) -> Seq<i32> {
    accounts.map_values(|a: Account| a.account_no)
}

/// The messages for missing account name and password.
pub open spec fn required_account_errors(name: Seq<char>, pwd: Seq<char>) -> Seq<Seq<char>> {
    message_if(name.len() == 0, required_message("アカウント名"@)) + message_if(
        pwd.len() == 0,
        required_message("パスワード"@),
    )
}

/// The messages of a sign-up with a non-empty name: the name is taken, the
/// password is shorter than 8 characters.
pub open spec fn signup_errors(name: Seq<char>, pwd: Seq<char>, accounts: Seq<Account>) -> Seq<
    Seq<char>,
> {
    required_account_errors(name, pwd) + message_if(
        accounts_named(accounts, name).len() > 0,
        message("EM_ACCT_0001"@),
    ) + message_if(pwd.len() < 8, message("EM_ACCT_0002"@))
}

/// The messages of a log-in with a non-empty name: the first account of
/// that name refuses the password, or there is no such account.
pub open spec fn login_errors(name: Seq<char>, pwd: Seq<char>, accounts: Seq<Account>) -> Seq<
    Seq<char>,
> {
    let named = accounts_named(accounts, name);
    required_account_errors(name, pwd) + if named.len() > 0 {
        message_if(!bcrypt_verifies(pwd, named[0].password@), message("EM_ACCT_0003"@))
    } else {
        seq![message("EM_ACCT_0004"@)]
    }
}

/// The messages of the account form on the screen `status`.
pub open spec fn account_errors(
    name: Seq<char>,
    pwd: Seq<char>,
    status: Seq<char>,
    accounts: Seq<Account>,
) -> Seq<Seq<char>> {
    if status == status_text(ScreenStatus::SIGNUP) && name.len() > 0 {
        signup_errors(name, pwd, accounts)
    } else if status == status_text(ScreenStatus::LOGIN) && name.len() > 0 {
        login_errors(name, pwd, accounts)
    } else {
        required_account_errors(name, pwd)
    }
}

/// The messages of the account-name change form, for the signed-in account
/// named `current`.
pub open spec fn account_name_errors(
    edit: Seq<char>,
    current: Seq<char>,
    accounts: Seq<Account>,
) -> Seq<Seq<char>> {
    if edit.len() == 0 {
        seq![required_message("アカウント名"@)]
    } else {
        message_if(edit != current && accounts_named(accounts, edit).len() > 0, message("EM_ACCT_0001"@))
    }
}

/// The messages of the password change form, for the signed-in account
/// named `name`.
pub open spec fn password_errors(
    current: Seq<char>,
    edit: Seq<char>,
    name: Seq<char>,
    accounts: Seq<Account>,
) -> Seq<Seq<char>> {
    if current.len() == 0 || edit.len() == 0 {
        seq![required_message("パスワード"@)]
    } else {
        message_if(
            !bcrypt_verifies(current, accounts_named(accounts, name)[0].password@),
            message("EM_ACCT_0005"@),
        ) + message_if(edit.len() < 8, message("EM_ACCT_0006"@))
    }
}

/// The message keys used by the account forms are in the table.
proof fn lemma_account_keys()
    ensures
        error_template("EM_ACCT_0001"@) is Some,
        error_template("EM_ACCT_0002"@) is Some,
        error_template("EM_ACCT_0003"@) is Some,
        error_template("EM_ACCT_0004"@) is Some,
        error_template("EM_ACCT_0005"@) is Some,
        error_template("EM_ACCT_0006"@) is Some,
{
    lemma_message_keys();
}

/// Appends `m` to `msgs`.
fn push_message(msgs: &mut Vec<String>, m: String)
    ensures
        message_views(final(msgs)@) == message_views(old(msgs)@).push(m@),
{
    msgs.push(m);
    assert(message_views(msgs@) =~= message_views(old(msgs)@).push(m@));
}

impl Account {
    /// The accounts named `acct_name`, in table order.
    pub fn select_account_byname(acct_name: &String, accounts: &Vec<Account>) -> (res: Vec<Account>)
        ensures
            res@ == accounts_named(accounts@, acct_name@),
    {
        let mut res: Vec<Account> = Vec::new();
        let mut i: usize = 0;
        while i < accounts.len()
            invariant
                i <= accounts.len(),
                res@ == accounts_named(accounts@.take(i as int), acct_name@),
            decreases accounts.len() - i,
        {
            proof {
                reveal_with_fuel(Seq::filter, 1);
                assert(accounts@.take(i + 1).drop_last() =~= accounts@.take(i as int));
            }
            if accounts[i].account_name == *acct_name {
                res.push(accounts[i].duplicate());
            }
            i = i + 1;
        }
        assert(accounts@.take(accounts.len() as int) =~= accounts@);
        res
    }
}

impl NewAccount {
    /// An account row with these fields.
    pub fn new(acct_no: i32, acct_name: String, pwd: String) -> (res: NewAccount)
        ensures
            res.account_no == acct_no,
            res.account_name == acct_name,
            res.password == pwd,
    {
        NewAccount { account_no: acct_no, account_name: acct_name, password: pwd }
    }
}

impl AccountAddParams {
    /// The form with these fields.
    pub fn new(acct_name: String, pwd: String) -> (res: AccountAddParams)
        ensures
            res.acct_name == acct_name,
            res.pwd == pwd,
    {
        AccountAddParams { acct_name: acct_name, pwd: pwd }
    }

    /// Checks the form on the screen `status` ("SIGNUP" or "LOGIN") against
    /// the stored accounts, and returns the messages to show, none where the
    /// form is accepted.
    pub fn validation_account(&self, status: String, accounts: &Vec<Account>) -> (res: Vec<String>)
        requires
            status@ == status_text(ScreenStatus::SIGNUP) && self.acct_name@.len() > 0
                ==> is_alphanumeric_text(self.pwd@),
            status@ == status_text(ScreenStatus::LOGIN) && self.acct_name@.len() > 0
                && accounts_named(accounts@, self.acct_name@).len() > 0 ==> !bcrypt_verify_panics(
                accounts_named(accounts@, self.acct_name@)[0].password@,
            ),
        ensures
            message_views(res@) == account_errors(self.acct_name@, self.pwd@, status@, accounts@),
    {
        proof {
            lemma_account_keys();
        }
        let mut error_msg: Vec<String> = Vec::new();
        let acct_name = self.acct_name.clone();
        let pwd = self.pwd.clone();
        assert(message_views(error_msg@) =~= Seq::<Seq<char>>::empty());
        if acct_name.as_str().is_empty() {
            push_message(&mut error_msg, required_message_of("アカウント名"));
        }
        assert(message_views(error_msg@) =~= message_if(
            acct_name@.len() == 0,
            required_message("アカウント名"@),
        ));
        if pwd.as_str().is_empty() {
            push_message(&mut error_msg, required_message_of("パスワード"));
        }
        assert(message_views(error_msg@) =~= required_account_errors(acct_name@, pwd@));

        if status == ScreenStatus::SIGNUP.to_string() && !acct_name.as_str().is_empty() {
            let temp_list = Account::select_account_byname(&acct_name, accounts);
            if temp_list.len() > 0 {
                push_message(&mut error_msg, message_of("EM_ACCT_0001"));
            }
            if pwd.as_str().unicode_len() < 8 {
                push_message(&mut error_msg, message_of("EM_ACCT_0002"));
            }
            let well_formed = matches_alphanumeric(&pwd);
            assert(well_formed);
            assert(message_views(error_msg@) =~= signup_errors(acct_name@, pwd@, accounts@));
            return error_msg;
        }
        if status == ScreenStatus::LOGIN.to_string() && !acct_name.as_str().is_empty() {
            proof {
                lemma_status_texts_distinct();
            }
            let temp_list = Account::select_account_byname(&acct_name, accounts);
            if temp_list.len() > 0 {
                if !bcrypt_verify(&pwd, &temp_list[0].password) {
                    push_message(&mut error_msg, message_of("EM_ACCT_0003"));
                }
            } else {
                push_message(&mut error_msg, message_of("EM_ACCT_0004"));
            }
            assert(message_views(error_msg@) =~= login_errors(acct_name@, pwd@, accounts@));
        }
        error_msg
    }
}

impl AccountNameEditParams {
    /// The form with this field.
    pub fn new(edit_acct_name: String) -> (res: AccountNameEditParams)
        ensures
            res.edit_acct_name == edit_acct_name,
    {
        AccountNameEditParams { edit_acct_name: edit_acct_name }
    }

    /// Checks a change of the signed-in account's name from `acct_name` to
    /// the form's name, against the stored accounts.
    pub fn validation_account_name(&self, acct_name: &String, accounts: &Vec<Account>) -> (res: Vec<
        String,
    >)
        ensures
            message_views(res@) == account_name_errors(self.edit_acct_name@, acct_name@, accounts@),
    {
        proof {
            lemma_account_keys();
        }
        let mut error_msg: Vec<String> = Vec::new();
        let edit_acct_name = self.edit_acct_name.clone();
        if edit_acct_name.as_str().is_empty() {
            push_message(&mut error_msg, required_message_of("アカウント名"));
            assert(message_views(error_msg@) =~= seq![required_message("アカウント名"@)]);
            return error_msg;
        }
        assert(message_views(error_msg@) =~= Seq::<Seq<char>>::empty());
        if edit_acct_name != *acct_name {
            let temp_list = Account::select_account_byname(&edit_acct_name, accounts);
            if temp_list.len() > 0 {
                push_message(&mut error_msg, message_of("EM_ACCT_0001"));
            }
        }
        assert(message_views(error_msg@) =~= account_name_errors(
            edit_acct_name@,
            acct_name@,
            accounts@,
        ));
        error_msg
    }
}

impl PasswordEditParams {
    /// The form with these fields.
    pub fn new(current_password: String, edit_password: String) -> (res: PasswordEditParams)
        ensures
            res.current_password == current_password,
            res.edit_password == edit_password,
    {
        PasswordEditParams { current_password: current_password, edit_password: edit_password }
    }

    /// Checks a password change of the signed-in account named `acct_name`
    /// against the stored accounts.
    pub fn validation_password(&self, acct_name: &String, accounts: &Vec<Account>) -> (res: Vec<
        String,
    >)
        requires
            self.current_password@.len() > 0 && self.edit_password@.len() > 0 ==> {
                &&& accounts_named(accounts@, acct_name@).len() > 0
                &&& is_alphanumeric_text(self.edit_password@)
                &&& !bcrypt_verify_panics(accounts_named(accounts@, acct_name@)[0].password@)
            },
        ensures
            message_views(res@) == password_errors(
                self.current_password@,
                self.edit_password@,
                acct_name@,
                accounts@,
            ),
    {
        proof {
            lemma_account_keys();
        }
        let mut error_msg: Vec<String> = Vec::new();
        let current_password = self.current_password.clone();
        let edit_password = self.edit_password.clone();
        if current_password.as_str().is_empty() || edit_password.as_str().is_empty() {
            push_message(&mut error_msg, required_message_of("パスワード"));
            assert(message_views(error_msg@) =~= seq![required_message("パスワード"@)]);
            return error_msg;
        }
        assert(message_views(error_msg@) =~= Seq::<Seq<char>>::empty());
        let temp_list = Account::select_account_byname(acct_name, accounts);
        if !bcrypt_verify(&current_password, &temp_list[0].password) {
            push_message(&mut error_msg, message_of("EM_ACCT_0005"));
        }
        if edit_password.as_str().unicode_len() < 8 {
            push_message(&mut error_msg, message_of("EM_ACCT_0006"));
        }
        let well_formed = matches_alphanumeric(&edit_password);
        assert(well_formed);
        assert(message_views(error_msg@) =~= password_errors(
            current_password@,
            edit_password@,
            acct_name@,
            accounts@,
        ));
        error_msg
    }

    /// Replaces the new password of the form by its bcrypt hash, as it is
    /// stored.
    pub fn hash_edit_password(&mut self)
        ensures
            final(self).current_password == old(self).current_password,
            bcrypt_verifies(old(self).edit_password@, final(self).edit_password@),
            is_bcrypt_hash_text(final(self).edit_password@),
    {
        let hashed = bcrypt_hash(&self.edit_password).unwrap();
        self.edit_password = hashed;
    }
}

impl AccountAddParams {
    /// The account row that a sign-up of this form stores: the next free
    /// account number, the form's name, and the bcrypt hash of the form's
    /// password.
    pub fn new_account(&self, accounts: &Vec<Account>) -> (res: NewAccount)
        requires
            forall|i: int| 0 <= i < accounts.len() ==> accounts[i].account_no < i32::MAX,
        ensures
            res.account_no == next_number(account_nos(accounts@)),
            res.account_name == self.acct_name,
            bcrypt_verifies(self.pwd@, res.password@),
            is_bcrypt_hash_text(res.password@),
    {
        let mut nos: Vec<i32> = Vec::new();
        let mut i: usize = 0;
        while i < accounts.len()
            invariant
                i <= accounts.len(),
                nos@ == account_nos(accounts@.take(i as int)),
            decreases accounts.len() - i,
        {
            nos.push(accounts[i].account_no);
            assert(nos@ =~= account_nos(accounts@.take(i + 1)));
            i = i + 1;
        }
        assert(accounts@.take(accounts.len() as int) =~= accounts@);
        let acct_no = next_record_number(&nos);
        let pwd = bcrypt_hash(&self.pwd).unwrap();
        NewAccount::new(acct_no, self.acct_name.clone(), pwd)
    }
}

/// The account name to show: the session's, or 名無し where it has none.
pub fn get_acct_name(acct_name: Option<&String>) -> (res: String)
    ensures
        match acct_name {
            Some(v) => res@ == v@,
            None => res@ == "名無し"@,
        },
{
    match acct_name {
        Some(v) => v.clone(),
        None => "名無し".to_owned(),
    }
}

/// The account number to show: the session's, or "0" where it has none.
pub fn get_acct_no(acct_no: Option<&String>) -> (res: String)
    ensures
        match acct_no {
            Some(v) => res@ == v@,
            None => res@ == "0"@,
        },
{
    match acct_no {
        Some(v) => v.clone(),
        None => "0".to_owned(),
    }
}

/// Whether a session shows a signed-in account: it holds an account number
/// other than "0".
pub open spec fn login_status(info: AccountInfo) -> ScreenStatus {
    match info.value_of(acct_no_key()) {
        Some(v) => if v != "0"@ {
            ScreenStatus::LOGIN
        } else {
            ScreenStatus::LOGOUT
        },
        None => ScreenStatus::LOGOUT,
    }
}

/// The log-in state of a session, as text.
pub fn get_login_status(acct_info: &AccountInfo) -> (res: String)
    ensures
        res@ == status_text(login_status(*acct_info)),
{
    let key = acctno();
    if let Some(v) = acct_info.get(&key) {
        let not_login_acct_no = "0".to_owned();
        if *v != not_login_acct_no {
            return ScreenStatus::LOGIN.to_string();
        } else {
            return ScreenStatus::LOGOUT.to_string();
        }
    } else {
        return ScreenStatus::LOGOUT.to_string();
    }
}

} // verus!
