use vstd::prelude::*;
use crate::error_msg::{replace_braces, required_message, message};
use crate::models::account::{Account, NewAccount};
use crate::password_format::is_alphanumeric_text;
use crate::password_hash::{
    bcrypt_verifies,
    is_bcrypt_hash_text,
    bcrypt_verify_panics,
    lemma_bcrypt_hash_text,
};
use crate::screen_status::{ScreenStatus, status_text, lemma_status_texts_distinct};
use crate::service::account_service::{
    accounts_named,
    account_errors,
    account_name_errors,
    login_status,
    password_errors,
    required_account_errors,
};
use crate::session::{AccountInfo, acct_no_key};
use crate::models::thread::Thread;
use crate::service::comment_service::comment_errors;
use crate::service::thread_service::{thread_errors, thread_listed};

verus! {

/// The account that a stored account row reads back as.
pub open spec fn stored_account(row: NewAccount, lastupdate: Option<chrono::NaiveDateTime>) -> Account {
    Account {
        account_no: row.account_no,
        account_name: row.account_name,
        password: row.password,
        lastupdate: lastupdate,
    }
}

/// No two accounts share a name.
pub open spec fn names_unique(accounts: Seq<Account>) -> bool {
    forall|i: int, j: int|
        0 <= i < accounts.len() && 0 <= j < accounts.len() && i != j
            ==> accounts[i].account_name@ != accounts[j].account_name@
}

/// Filtering by name after appending one account.
pub proof fn lemma_named_push(accounts: Seq<Account>, a: Account, name: Seq<char>)
    ensures
        accounts_named(accounts.push(a), name) == if a.account_name@ == name {
            accounts_named(accounts, name).push(a)
        } else {
            accounts_named(accounts, name)
        },
{
    reveal_with_fuel(Seq::filter, 1);
    assert(accounts.push(a).drop_last() =~= accounts);
}

/// An account of the given name is listed among the accounts of that name.
pub proof fn lemma_named_contains(accounts: Seq<Account>, name: Seq<char>, j: int)
    requires
        0 <= j < accounts.len(),
        accounts[j].account_name@ == name,
    ensures
        accounts_named(accounts, name).len() > 0,
    decreases accounts.len(),
{
    reveal_with_fuel(Seq::filter, 1);
    if j < accounts.len() - 1 {
        lemma_named_contains(accounts.drop_last(), name, j);
    }
}

/// The first account of the list of a name is the first account with that
/// name in table order.
pub proof fn lemma_first_named(accounts: Seq<Account>, name: Seq<char>, j: int)
    requires
        0 <= j < accounts.len(),
        accounts[j].account_name@ == name,
        forall|k: int| 0 <= k < j ==> accounts[k].account_name@ != name,
    ensures
        accounts_named(accounts, name).len() > 0,
        accounts_named(accounts, name)[0] == accounts[j],
    decreases accounts.len(),
{
    reveal_with_fuel(Seq::filter, 1);
    let init = accounts.drop_last();
    if j == accounts.len() - 1 {
        lemma_none_named(init, name);
    } else {
        lemma_first_named(init, name, j);
    }
}

/// Where no account has the name, the list of that name is empty.
pub proof fn lemma_none_named(accounts: Seq<Account>, name: Seq<char>)
    requires
        forall|k: int| 0 <= k < accounts.len() ==> accounts[k].account_name@ != name,
    ensures
        accounts_named(accounts, name).len() == 0,
    decreases accounts.len(),
{
    reveal_with_fuel(Seq::filter, 1);
    if accounts.len() > 0 {
        lemma_none_named(accounts.drop_last(), name);
    }
}

/// Where no account has the name, none of them is listed under it.
pub proof fn lemma_named_empty_means_none(accounts: Seq<Account>, name: Seq<char>)
    requires
        accounts_named(accounts, name).len() == 0,
    ensures
        forall|k: int| 0 <= k < accounts.len() ==> accounts[k].account_name@ != name,
{
    assert forall|k: int| 0 <= k < accounts.len() implies accounts[k].account_name@ != name by {
        if accounts[k].account_name@ == name {
            lemma_named_contains(accounts, name, k);
        }
    }
}

/// Law: an accepted sign-up can log in. Where the sign-up form passes its
/// checks against the stored accounts, and the row that it stores (the
/// form's name, a hash that bcrypt accepts for the form's password) is
/// appended to them, the same name and password pass the log-in checks,
/// and the account that logs in is the stored one, whose hash the
/// verifier can read.
pub proof fn law_signup_then_login(
    accounts: Seq<Account>,
    name: Seq<char>,
    pwd: Seq<char>,
    row: NewAccount,
    lastupdate: Option<chrono::NaiveDateTime>,
)
    requires
        account_errors(name, pwd, status_text(ScreenStatus::SIGNUP), accounts).len() == 0,
        row.account_name@ == name,
        bcrypt_verifies(pwd, row.password@),
        is_bcrypt_hash_text(row.password@),
    ensures
        account_errors(
            name,
            pwd,
            status_text(ScreenStatus::LOGIN),
            accounts.push(stored_account(row, lastupdate)),
        ).len() == 0,
        accounts_named(accounts.push(stored_account(row, lastupdate)), name) == seq![
            stored_account(row, lastupdate),
        ],
        !bcrypt_verify_panics(row.password@),
{
    lemma_bcrypt_hash_text(row.password@);
    lemma_status_texts_distinct();
    let stored = stored_account(row, lastupdate);
    assert(name.len() > 0) by {
        if name.len() == 0 {
            assert(required_account_errors(name, pwd).len() > 0);
        }
    }
    assert(pwd.len() > 0);
    assert(accounts_named(accounts, name).len() == 0);
    lemma_named_push(accounts, stored, name);
    assert(accounts_named(accounts.push(stored), name) =~= seq![stored]);
}

/// Law: sign-up keeps account names unique. Where no two stored accounts
/// share a name and a sign-up passes its checks, no two share a name once
/// its row is stored.
pub proof fn law_signup_keeps_names_unique(
    accounts: Seq<Account>,
    name: Seq<char>,
    pwd: Seq<char>,
    row: NewAccount,
    lastupdate: Option<chrono::NaiveDateTime>,
)
    requires
        names_unique(accounts),
        account_errors(name, pwd, status_text(ScreenStatus::SIGNUP), accounts).len() == 0,
        row.account_name@ == name,
    ensures
        names_unique(accounts.push(stored_account(row, lastupdate))),
{
    assert(name.len() > 0) by {
        if name.len() == 0 {
            assert(required_account_errors(name, pwd).len() > 0);
        }
    }
    assert(accounts_named(accounts, name).len() == 0);
    lemma_named_empty_means_none(accounts, name);
    let s = accounts.push(stored_account(row, lastupdate));
    assert forall|i: int, j: int|
        0 <= i < s.len() && 0 <= j < s.len() && i != j implies s[i].account_name@
        != s[j].account_name@ by {
        if i < accounts.len() && j < accounts.len() {
            assert(s[i] == accounts[i] && s[j] == accounts[j]);
        } else if i < accounts.len() {
            assert(s[i] == accounts[i]);
        } else {
            assert(s[j] == accounts[j]);
        }
    }
}

/// Law: a changed password is the one that logs in. Where the account
/// found for `name` (the first of that name) gets as its password a hash
/// that bcrypt accepts for `new_pwd`, a non-empty password, the name and
/// `new_pwd` pass the log-in checks, and the verifier can read the hash
/// that the log-in checks against.
pub proof fn law_password_change_then_login(
    accounts: Seq<Account>,
    name: Seq<char>,
    j: int,
    new_pwd: Seq<char>,
    new_hash: String,
)
    requires
        0 <= j < accounts.len(),
        accounts[j].account_name@ == name,
        forall|k: int| 0 <= k < j ==> accounts[k].account_name@ != name,
        name.len() > 0,
        new_pwd.len() > 0,
        bcrypt_verifies(new_pwd, new_hash@),
        is_bcrypt_hash_text(new_hash@),
    ensures
        account_errors(
            name,
            new_pwd,
            status_text(ScreenStatus::LOGIN),
            accounts.update(j, Account { password: new_hash, ..accounts[j] }),
        ).len() == 0,
        !bcrypt_verify_panics(
            accounts_named(
                accounts.update(j, Account { password: new_hash, ..accounts[j] }),
                name,
            )[0].password@,
        ),
{
    lemma_bcrypt_hash_text(new_hash@);
    lemma_status_texts_distinct();
    let updated = accounts.update(j, Account { password: new_hash, ..accounts[j] });
    lemma_first_named(updated, name, j);
}

/// Law: a name change keeps account names unique. Where no two stored
/// accounts share a name and a change of the account at `j` from its name
/// `current` to `edit` passes its checks, no two share a name once the
/// account at `j` carries the new name.
pub proof fn law_rename_keeps_names_unique(
    accounts: Seq<Account>,
    j: int,
    current: Seq<char>,
    edit: String,
)
    requires
        names_unique(accounts),
        0 <= j < accounts.len(),
        accounts[j].account_name@ == current,
        account_name_errors(edit@, current, accounts).len() == 0,
    ensures
        names_unique(accounts.update(j, Account { account_name: edit, ..accounts[j] })),
{
    let s = accounts.update(j, Account { account_name: edit, ..accounts[j] });
    if edit@ != current {
        assert(accounts_named(accounts, edit@).len() == 0);
        lemma_named_empty_means_none(accounts, edit@);
    }
    assert forall|a: int, b: int|
        0 <= a < s.len() && 0 <= b < s.len() && a != b implies s[a].account_name@
        != s[b].account_name@ by {
        if a != j && b != j {
            assert(s[a] == accounts[a] && s[b] == accounts[b]);
        } else if a == j {
            assert(s[b] == accounts[b]);
        } else {
            assert(s[a] == accounts[a]);
        }
    }
}

/// Law: a stored password is never the plaintext. A bcrypt hash starts with `$`, which no alphanumeric password holds, so
/// the stored hash of an accepted password is never that password.
pub proof fn law_hash_is_not_the_password(hash: Seq<char>, pwd: Seq<char>)
    requires
        is_bcrypt_hash_text(hash),
        is_alphanumeric_text(pwd),
    ensures
        hash != pwd,
{
    lemma_bcrypt_hash_text(hash);
    if hash == pwd {
        assert(crate::password_format::is_ascii_alnum(pwd[0]));
    }
}

/// A text without `{` is left as it is by the placeholder substitution.
pub proof fn lemma_replace_braces_plain(s: Seq<char>, with: Seq<char>)
    requires
        forall|i: int| 0 <= i < s.len() ==> s[i] != '{',
    ensures
        replace_braces(s, with) == s,
    decreases s.len(),
{
    if s.len() > 0 {
        lemma_replace_braces_plain(s.skip(1), with);
        assert(seq![s[0]] + s.skip(1) =~= s);
    }
}

/// Law: the "missing" message names the field first. It is the label
/// followed by "が未入力です。".
pub proof fn law_required_message_text(label: Seq<char>)
    ensures
        required_message(label) == label + "が未入力です。"@,
{
    reveal_strlit("EM_0001");
    reveal_strlit("{}が未入力です。");
    reveal_strlit("が未入力です。");
    let t = "{}が未入力です。"@;
    assert(message("EM_0001"@) == t);
    assert(t.skip(2) =~= "が未入力です。"@);
    lemma_replace_braces_plain(t.skip(2), label);
}

/// Law: the new-thread form is accepted exactly when it names the thread.
pub proof fn law_thread_form_accepted_iff_named(name: Seq<char>)
    ensures
        thread_errors(name).len() == 0 <==> name.len() > 0,
{
}

/// Law: the new-comment form gets one message per empty field, so it is
/// accepted exactly when both the name and the comment are given.
pub proof fn law_comment_form_messages(name: Seq<char>, comment: Seq<char>)
    ensures
        comment_errors(name, comment).len() == (if name.len() == 0 { 1int } else { 0int }) + (
        if comment.len() == 0 {
            1int
        } else {
            0int
        }),
        comment_errors(name, comment).len() == 0 <==> (name.len() > 0 && comment.len() > 0),
{
}

/// Law: a thread deletion goes ahead whenever some stored thread has both
/// the number and the name that the user saw, whatever other threads carry
/// the same name or the same number.
pub proof fn law_deletion_accepts_any_matching_thread(threads: Seq<Thread>, id: i32, name: Seq<char>, i: int)
    requires
        0 <= i < threads.len(),
        threads[i].thread_id == id,
        threads[i].thread_name@ == name,
    ensures
        thread_listed(threads, id, name),
{
}

/// Law: a thread deletion is refused only where no stored thread has both
/// the number and the name that the user saw.
pub proof fn law_deletion_refused_without_match(threads: Seq<Thread>, id: i32, name: Seq<char>)
    requires
        forall|i: int|
            0 <= i < threads.len() ==> !(#[trigger] threads[i].thread_id == id
                && threads[i].thread_name@ == name),
    ensures
        !thread_listed(threads, id, name),
{
}

/// Law: a password change checks the current password against the account
/// of the signed-in name (the first stored account with that name), and no
/// other. With both fields given, the messages are exactly: the current
/// password is wrong, where bcrypt rejects it against that account's hash;
/// the new password is short, where it has fewer than 8 characters.
pub proof fn law_password_check_uses_named_account(
    accounts: Seq<Account>,
    name: Seq<char>,
    j: int,
    current: Seq<char>,
    edit: Seq<char>,
)
    requires
        0 <= j < accounts.len(),
        accounts[j].account_name@ == name,
        forall|k: int| 0 <= k < j ==> accounts[k].account_name@ != name,
        current.len() > 0,
        edit.len() > 0,
    ensures
        password_errors(current, edit, name, accounts) == (if bcrypt_verifies(
            current,
            accounts[j].password@,
        ) {
            Seq::<Seq<char>>::empty()
        } else {
            seq![message("EM_ACCT_0005"@)]
        }) + (if edit.len() < 8 {
            seq![message("EM_ACCT_0006"@)]
        } else {
            Seq::<Seq<char>>::empty()
        }),
{
    lemma_first_named(accounts, name, j);
    assert(password_errors(current, edit, name, accounts) =~= (if bcrypt_verifies(
        current,
        accounts[j].password@,
    ) {
        Seq::<Seq<char>>::empty()
    } else {
        seq![message("EM_ACCT_0005"@)]
    }) + (if edit.len() < 8 {
        seq![message("EM_ACCT_0006"@)]
    } else {
        Seq::<Seq<char>>::empty()
    }));
}

/// Law: a session is shown as signed in exactly when it holds an account
/// number other than "0"; without an account number it is signed out.
pub proof fn law_login_status(info: AccountInfo)
    ensures
        info.value_of(acct_no_key()) is None ==> login_status(info) == ScreenStatus::LOGOUT,
        info.value_of(acct_no_key()) is Some ==> (login_status(info) == ScreenStatus::LOGIN
            <==> info.value_of(acct_no_key()).unwrap() != "0"@),
        info.value_of(acct_no_key()) is Some ==> (login_status(info) == ScreenStatus::LOGOUT
            <==> info.value_of(acct_no_key()).unwrap() == "0"@),
{
}

/// Law: a name change is refused as a duplicate only where some stored
/// account has exactly the new name, and the new name is not the current
/// one; a non-empty new name that no account has is always accepted.
pub proof fn law_name_change_duplicate_means_equal_name(
    accounts: Seq<Account>,
    current: Seq<char>,
    edit: Seq<char>,
)
    requires
        edit.len() > 0,
    ensures
        edit == current ==> account_name_errors(edit, current, accounts).len() == 0,
        (forall|i: int| 0 <= i < accounts.len() ==> #[trigger] accounts[i].account_name@ != edit)
            ==> account_name_errors(edit, current, accounts).len() == 0,
        (edit != current && exists|i: int|
            0 <= i < accounts.len() && #[trigger] accounts[i].account_name@ == edit)
            ==> account_name_errors(edit, current, accounts) == seq![message("EM_ACCT_0001"@)],
{
    if forall|i: int| 0 <= i < accounts.len() ==> #[trigger] accounts[i].account_name@ != edit {
        lemma_none_named(accounts, edit);
    }
    if exists|i: int| 0 <= i < accounts.len() && #[trigger] accounts[i].account_name@ == edit {
        let i = choose|i: int| 0 <= i < accounts.len() && #[trigger] accounts[i].account_name@ == edit;
        lemma_named_contains(accounts, edit, i);
    }
}

/// Law: a sign-up with a name and a password is refused as a duplicate
/// exactly when some stored account has exactly that name; its messages
/// are that one, then "too short" where the password has fewer than 8
/// characters.
pub proof fn law_signup_messages(accounts: Seq<Account>, name: Seq<char>, pwd: Seq<char>)
    requires
        name.len() > 0,
        pwd.len() > 0,
    ensures
        account_errors(name, pwd, "SIGNUP"@, accounts) == (if exists|i: int|
            0 <= i < accounts.len() && #[trigger] accounts[i].account_name@ == name {
            seq![message("EM_ACCT_0001"@)]
        } else {
            Seq::<Seq<char>>::empty()
        }) + (if pwd.len() < 8 {
            seq![message("EM_ACCT_0002"@)]
        } else {
            Seq::<Seq<char>>::empty()
        }),
{
    if exists|i: int| 0 <= i < accounts.len() && #[trigger] accounts[i].account_name@ == name {
        let i = choose|i: int| 0 <= i < accounts.len() && #[trigger] accounts[i].account_name@ == name;
        lemma_named_contains(accounts, name, i);
    } else {
        lemma_none_named(accounts, name);
    }
    assert(account_errors(name, pwd, "SIGNUP"@, accounts) =~= (if exists|i: int|
        0 <= i < accounts.len() && #[trigger] accounts[i].account_name@ == name {
        seq![message("EM_ACCT_0001"@)]
    } else {
        Seq::<Seq<char>>::empty()
    }) + (if pwd.len() < 8 {
        seq![message("EM_ACCT_0002"@)]
    } else {
        Seq::<Seq<char>>::empty()
    }));
}

/// Law: a log-in with a name and a password is checked against the first
/// stored account of that name: refused as a wrong password exactly when
/// bcrypt rejects the password against that account's hash.
pub proof fn law_login_uses_first_named_account(
    accounts: Seq<Account>,
    name: Seq<char>,
    pwd: Seq<char>,
    j: int,
)
    requires
        0 <= j < accounts.len(),
        accounts[j].account_name@ == name,
        forall|k: int| 0 <= k < j ==> accounts[k].account_name@ != name,
        name.len() > 0,
        pwd.len() > 0,
    ensures
        account_errors(name, pwd, "LOGIN"@, accounts) == (if bcrypt_verifies(
            pwd,
            accounts[j].password@,
        ) {
            Seq::<Seq<char>>::empty()
        } else {
            seq![message("EM_ACCT_0003"@)]
        }),
{
    lemma_status_texts_distinct();
    lemma_first_named(accounts, name, j);
    assert(account_errors(name, pwd, "LOGIN"@, accounts) =~= (if bcrypt_verifies(
        pwd,
        accounts[j].password@,
    ) {
        Seq::<Seq<char>>::empty()
    } else {
        seq![message("EM_ACCT_0003"@)]
    }));
}

/// Law: a log-in with a name that no stored account has is refused with
/// the message that the account does not exist, and that one only.
pub proof fn law_login_unknown_name(accounts: Seq<Account>, name: Seq<char>, pwd: Seq<char>)
    requires
        name.len() > 0,
        pwd.len() > 0,
        forall|i: int| 0 <= i < accounts.len() ==> #[trigger] accounts[i].account_name@ != name,
    ensures
        account_errors(name, pwd, "LOGIN"@, accounts) == seq![message("EM_ACCT_0004"@)],
{
    lemma_status_texts_distinct();
    lemma_none_named(accounts, name);
    assert(account_errors(name, pwd, "LOGIN"@, accounts) =~= seq![message("EM_ACCT_0004"@)]);
}

/// Law: the messages that the board shows, by key.
pub proof fn law_message_table()
    ensures
        message("EM_ACCT_0001"@) == "アカウント名が重複しています。"@,
        message("EM_ACCT_0002"@) == "パスワードの文字数を8文字以上にしてください。"@,
        message("EM_ACCT_0003"@) == "パスワードが違います。"@,
        message("EM_ACCT_0004"@) == "アカウントが存在していません。"@,
        message("EM_ACCT_0005"@) == "現在のパスワードが違います。"@,
        message("EM_ACCT_0006"@) == "変更後のパスワードの文字数を8文字以上にしてください。"@,
        message("EM_THD_0001"@) == "スレッドが更新されております。ご確認下さい。"@,
{
    crate::error_msg::lemma_message_keys();
}

/// Law: an account form without a name gets "アカウント名が未入力です。",
/// followed by "パスワードが未入力です。" where the password is missing too,
/// and nothing else, whatever the screen and the stored accounts.
pub proof fn law_account_form_without_name(
    pwd: Seq<char>,
    status: Seq<char>,
    accounts: Seq<Account>,
)
    ensures
        account_errors(Seq::empty(), pwd, status, accounts) == seq![
            "アカウント名"@ + "が未入力です。"@,
        ] + (if pwd.len() == 0 {
            seq!["パスワード"@ + "が未入力です。"@]
        } else {
            Seq::<Seq<char>>::empty()
        }),
{
    law_required_message_text("アカウント名"@);
    law_required_message_text("パスワード"@);
    assert(account_errors(Seq::empty(), pwd, status, accounts) =~= seq![
        "アカウント名"@ + "が未入力です。"@,
    ] + (if pwd.len() == 0 {
        seq!["パスワード"@ + "が未入力です。"@]
    } else {
        Seq::<Seq<char>>::empty()
    }));
}

/// Law: a name change to an empty name gets "アカウント名が未入力です。" alone.
pub proof fn law_name_change_without_name(current: Seq<char>, accounts: Seq<Account>)
    ensures
        account_name_errors(Seq::empty(), current, accounts) == seq![
            "アカウント名"@ + "が未入力です。"@,
        ],
{
    law_required_message_text("アカウント名"@);
}

/// Law: a password change with either field empty gets
/// "パスワードが未入力です。" alone.
pub proof fn law_password_change_without_field(
    current: Seq<char>,
    edit: Seq<char>,
    name: Seq<char>,
    accounts: Seq<Account>,
)
    requires
        current.len() == 0 || edit.len() == 0,
    ensures
        password_errors(current, edit, name, accounts) == seq!["パスワード"@ + "が未入力です。"@],
{
    law_required_message_text("パスワード"@);
}

/// Law: the new-thread form without a name gets
/// "スレッドネームが未入力です。", and a named one nothing.
pub proof fn law_thread_form_messages(name: Seq<char>)
    ensures
        thread_errors(name) == if name.len() == 0 {
            seq!["スレッドネーム"@ + "が未入力です。"@]
        } else {
            Seq::<Seq<char>>::empty()
        },
{
    law_required_message_text("スレッドネーム"@);
}

/// Law: the new-comment form gets "ネームが未入力です。" where the name is
/// missing, then "コメントが未入力です。" where the comment is missing.
pub proof fn law_comment_form_message_texts(name: Seq<char>, comment: Seq<char>)
    ensures
        comment_errors(name, comment) == (if name.len() == 0 {
            seq!["ネーム"@ + "が未入力です。"@]
        } else {
            Seq::<Seq<char>>::empty()
        }) + (if comment.len() == 0 {
            seq!["コメント"@ + "が未入力です。"@]
        } else {
            Seq::<Seq<char>>::empty()
        }),
{
    law_required_message_text("ネーム"@);
    law_required_message_text("コメント"@);
    assert(comment_errors(name, comment) =~= (if name.len() == 0 {
        seq!["ネーム"@ + "が未入力です。"@]
    } else {
        Seq::<Seq<char>>::empty()
    }) + (if comment.len() == 0 {
        seq!["コメント"@ + "が未入力です。"@]
    } else {
        Seq::<Seq<char>>::empty()
    }));
}

/// Law: a visitor without a session is seen with account number "9999",
/// the name 名無し, and nothing else.
pub proof fn law_anonymous_session()
    ensures
        crate::session::anonymous_session().dom() == set![acct_no_key(), crate::session::acct_name_key()],
        crate::session::anonymous_session()[acct_no_key()] == "9999"@,
        crate::session::anonymous_session()[crate::session::acct_name_key()] == "名無し"@,
        acct_no_key() == "acct_no"@,
        crate::session::acct_name_key() == "acct_name"@,
{
    reveal_strlit("acct_no");
    reveal_strlit("acct_name");
    assert(acct_no_key().len() != crate::session::acct_name_key().len());
    assert(crate::session::anonymous_session().dom() =~= set![acct_no_key(), crate::session::acct_name_key()]);
}

} // verus!
