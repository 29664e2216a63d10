use vstd::prelude::*;

verus! {

#[verifier::external_type_specification]
#[verifier::external_body]
pub struct ExNaiveDateTime(chrono::NaiveDateTime);

/// A stored account.
#[derive(PartialEq, Debug)]
pub struct Account {
    pub account_no: i32,
    pub account_name: String,
    pub password: String,
    pub lastupdate: Option<chrono::NaiveDateTime>,
}

impl Account {
    /// A copy of this account, field by field.
    pub fn duplicate(&self) -> (res: Account)
        ensures
            res == *self,
    {
        Account {
            account_no: self.account_no,
            account_name: self.account_name.clone(),
            password: self.password.clone(),
            lastupdate: self.lastupdate,
        }
    }
}

/// An account row to insert.
#[derive(Debug)]
pub struct NewAccount {
    pub account_no: i32,
    pub account_name: String,
    pub password: String,
}

/// The sign-up and log-in form.
#[derive(Clone, Debug)]
pub struct AddAccountParams {
    pub acct_name: String,
    pub pwd: String,
}

/// The account-name change form.
#[derive(Clone, Debug)]
pub struct EditAccountNameParams {
    pub edit_acct_name: String,
}

/// The password change form.
#[derive(Clone, Debug)]
pub struct EditPasswordParams {
    pub current_password: String,
    pub edit_password: String,
}

pub type AccountAddParams = AddAccountParams;

pub type AccountNameEditParams = EditAccountNameParams;

pub type PasswordEditParams = EditPasswordParams;

} // verus!
