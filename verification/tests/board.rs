use thread_board::error_msg::{replace_braces_in, error_template_of, ErrorMsg, GetErrorMsg};
use thread_board::models::account::{Account, AccountAddParams, AccountNameEditParams, PasswordEditParams};
use thread_board::models::thread::{Thread, ThreadCreateParams, ThreadDeleteParams, ThreadSearchParams};
use thread_board::models::thread_comment::{CommentCreateParams, ThreadComment};
use thread_board::password_format::matches_alphanumeric;
use thread_board::password_hash::verify_panics_on;
use thread_board::screen_status::ScreenStatus;
use thread_board::service::account_service::{get_acct_name, get_acct_no, get_login_status};
use thread_board::service::numbering::next_record_number;
use thread_board::session::{acctname, acctno, session_account_info, AccountInfo};

fn s(x: &str) -> String {
    x.to_string()
}

fn account(no: i32, name: &str, password: &str) -> Account {
    Account { account_no: no, account_name: s(name), password: s(password), lastupdate: None }
}

fn thread(id: i32, name: &str) -> Thread {
    Thread { thread_id: id, thread_name: s(name), lastupdate: None }
}

fn comment(thread_id: i32, no: i32) -> ThreadComment {
    ThreadComment {
        thread_id,
        comment_no: no,
        comment_name: s("n"),
        comment: s("c"),
        lastupdate: None,
    }
}

#[test]
fn error_messages_by_key() {
    let e = ErrorMsg {};
    assert_eq!(e.get_error_msg(s("EM_ACCT_0001")), "アカウント名が重複しています。");
    assert_eq!(e.get_error_msg(s("EM_THD_0001")), "スレッドが更新されております。ご確認下さい。");
    assert_eq!(e.get_error_msg_by_place_holder(s("EM_0001"), s("ネーム")), "ネームが未入力です。");
    assert_eq!(error_template_of(&s("EM_ACCT_0007")), None);
    assert_eq!(error_template_of(&s("EM_0001")), Some(s("{}が未入力です。")));
}

#[test]
fn placeholder_replaces_every_pair() {
    assert_eq!(replace_braces_in("{}と{}", "X"), "XとX");
    assert_eq!(replace_braces_in("{x}", "Y"), "{x}");
    assert_eq!(replace_braces_in("{{}}", "Z"), "{Z}");
    assert_eq!(replace_braces_in("", "Z"), "");
}

#[test]
fn numbering_takes_max_plus_one() {
    assert_eq!(next_record_number(&vec![]), 1);
    assert_eq!(next_record_number(&vec![3, 7, 2]), 8);
    assert_eq!(next_record_number(&vec![-5, -1]), 1);
}

#[test]
fn thread_rows_are_numbered() {
    let p = ThreadCreateParams::new(s("雑談"));
    let row = p.insert_thread(&vec![thread(1, "a"), thread(4, "b")]);
    assert_eq!(row.thread_id, 5);
    assert_eq!(row.thread_name, "雑談");
    let first = p.insert_thread(&vec![]);
    assert_eq!(first.thread_id, 1);
}

#[test]
fn comment_rows_are_numbered_over_all_threads() {
    let p = CommentCreateParams::new(2, s("taro"), s("hello"), s("t"));
    let row = p.insert_comment(&vec![comment(1, 9), comment(2, 3)]);
    assert_eq!(row.thread_id, 2);
    assert_eq!(row.comment_no, 10);
    assert_eq!(row.comment_name, "taro");
    assert_eq!(row.comment, "hello");
}

#[test]
fn thread_form_needs_a_name() {
    assert_eq!(ThreadCreateParams::new(s("")).validation_thread(), vec![s("スレッドネームが未入力です。")]);
    assert!(ThreadCreateParams::new(s("x")).validation_thread().is_empty());
}

#[test]
fn comment_form_needs_name_and_comment() {
    let both = CommentCreateParams::new(1, s(""), s(""), s("t")).validation_comment();
    assert_eq!(both, vec![s("ネームが未入力です。"), s("コメントが未入力です。")]);
    let one = CommentCreateParams::new(1, s("a"), s(""), s("t")).validation_comment();
    assert_eq!(one, vec![s("コメントが未入力です。")]);
    assert!(CommentCreateParams::new(1, s("a"), s("b"), s("t")).validation_comment().is_empty());
}

#[test]
fn thread_deletion_checks_the_row_seen() {
    let threads = vec![thread(1, "a"), thread(2, "b")];
    assert_eq!(ThreadDeleteParams::new(2, s("b")).remove_thread(&threads), "");
    assert_eq!(
        ThreadDeleteParams::new(2, s("a")).remove_thread(&threads),
        "スレッドが更新されております。ご確認下さい。"
    );
    assert_eq!(
        ThreadDeleteParams::new(3, s("c")).remove_thread(&threads),
        "スレッドが更新されております。ご確認下さい。"
    );
}

#[test]
fn search_form_keeps_keyword() {
    assert_eq!(ThreadSearchParams::new(s("kw")).search_keyword, "kw");
}

#[test]
fn password_format_rule() {
    assert!(matches_alphanumeric(&s("abcDEF123")));
    assert!(!matches_alphanumeric(&s("")));
    assert!(!matches_alphanumeric(&s("abc def")));
    assert!(!matches_alphanumeric(&s("パスワード1")));
    assert!(!matches_alphanumeric(&s("abc!")));
}

#[test]
fn signup_reports_missing_and_short() {
    let p = AccountAddParams::new(s(""), s(""));
    let msgs = p.validation_account(ScreenStatus::SIGNUP.to_string(), &vec![]);
    assert_eq!(msgs, vec![s("アカウント名が未入力です。"), s("パスワードが未入力です。")]);
    let p = AccountAddParams::new(s("taro"), s("abc"));
    let msgs = p.validation_account(ScreenStatus::SIGNUP.to_string(), &vec![account(1, "taro", "x")]);
    assert_eq!(
        msgs,
        vec![s("アカウント名が重複しています。"), s("パスワードの文字数を8文字以上にしてください。")]
    );
    let p = AccountAddParams::new(s("hanako"), s("abcdefgh"));
    assert!(p.validation_account(ScreenStatus::SIGNUP.to_string(), &vec![account(1, "taro", "x")]).is_empty());
}

#[test]
fn signup_then_login_succeeds() {
    let mut accounts = vec![account(3, "taro", "x")];
    let p = AccountAddParams::new(s("hanako"), s("secret123"));
    assert!(p.validation_account(ScreenStatus::SIGNUP.to_string(), &accounts).is_empty());
    let row = p.new_account(&accounts);
    assert_eq!(row.account_no, 4);
    assert_eq!(row.account_name, "hanako");
    assert_ne!(row.password, "secret123");
    accounts.push(Account {
        account_no: row.account_no,
        account_name: row.account_name.clone(),
        password: row.password.clone(),
        lastupdate: None,
    });
    assert!(p.validation_account(ScreenStatus::LOGIN.to_string(), &accounts).is_empty());
    let wrong = AccountAddParams::new(s("hanako"), s("secret124"));
    assert_eq!(
        wrong.validation_account(ScreenStatus::LOGIN.to_string(), &accounts),
        vec![s("パスワードが違います。")]
    );
    let nobody = AccountAddParams::new(s("jiro"), s("secret123"));
    assert_eq!(
        nobody.validation_account(ScreenStatus::LOGIN.to_string(), &accounts),
        vec![s("アカウントが存在していません。")]
    );
    let found = Account::select_account_byname(&s("hanako"), &accounts);
    assert_eq!(found.len(), 1);
    assert_eq!(found[0].account_no, 4);
}

#[test]
fn other_status_checks_required_fields_only() {
    let p = AccountAddParams::new(s("taro"), s(""));
    assert_eq!(
        p.validation_account(ScreenStatus::LOGOUT.to_string(), &vec![]),
        vec![s("パスワードが未入力です。")]
    );
}

#[test]
fn account_name_change_rules() {
    let accounts = vec![account(1, "taro", "x"), account(2, "hanako", "y")];
    assert_eq!(
        AccountNameEditParams::new(s("")).validation_account_name(&s("taro"), &accounts),
        vec![s("アカウント名が未入力です。")]
    );
    assert_eq!(
        AccountNameEditParams::new(s("hanako")).validation_account_name(&s("taro"), &accounts),
        vec![s("アカウント名が重複しています。")]
    );
    assert!(AccountNameEditParams::new(s("taro")).validation_account_name(&s("taro"), &accounts).is_empty());
    assert!(AccountNameEditParams::new(s("jiro")).validation_account_name(&s("taro"), &accounts).is_empty());
}

#[test]
fn password_change_then_login() {
    let signup = AccountAddParams::new(s("taro"), s("oldpass1"));
    let row = signup.new_account(&vec![]);
    let mut accounts = vec![Account {
        account_no: row.account_no,
        account_name: row.account_name.clone(),
        password: row.password.clone(),
        lastupdate: None,
    }];
    assert_eq!(
        PasswordEditParams::new(s(""), s("x")).validation_password(&s("taro"), &accounts),
        vec![s("パスワードが未入力です。")]
    );
    assert_eq!(
        PasswordEditParams::new(s("wrongpw1"), s("short")).validation_password(&s("taro"), &accounts),
        vec![s("現在のパスワードが違います。"), s("変更後のパスワードの文字数を8文字以上にしてください。")]
    );
    let mut change = PasswordEditParams::new(s("oldpass1"), s("newpass22"));
    assert!(change.validation_password(&s("taro"), &accounts).is_empty());
    change.hash_edit_password();
    assert_eq!(change.current_password, "oldpass1");
    accounts[0].password = change.edit_password.clone();
    let login = AccountAddParams::new(s("taro"), s("newpass22"));
    assert!(login.validation_account(ScreenStatus::LOGIN.to_string(), &accounts).is_empty());
    let old_login = AccountAddParams::new(s("taro"), s("oldpass1"));
    assert_eq!(
        old_login.validation_account(ScreenStatus::LOGIN.to_string(), &accounts),
        vec![s("パスワードが違います。")]
    );
}

#[test]
fn names_and_numbers_shown() {
    assert_eq!(get_acct_name(None), "名無し");
    assert_eq!(get_acct_name(Some(&s("taro"))), "taro");
    assert_eq!(get_acct_no(None), "0");
    assert_eq!(get_acct_no(Some(&s("12"))), "12");
}

fn info(pairs: &[(&str, &str)]) -> AccountInfo {
    let mut info = AccountInfo::new();
    for (k, v) in pairs {
        info.insert(s(k), s(v));
    }
    info
}

#[test]
fn login_status_from_session() {
    let logged_in = info(&[("acct_no", "5"), ("acct_name", "taro")]);
    assert_eq!(get_login_status(&logged_in), "LOGIN");
    let zero = info(&[("acct_no", "0")]);
    assert_eq!(get_login_status(&zero), "LOGOUT");
    let empty = AccountInfo::new();
    assert_eq!(get_login_status(&empty), "LOGOUT");
    assert_eq!(logged_in.get(&acctname()), Some(&s("taro")));
}

#[test]
fn session_insert_replaces_value() {
    let mut i = info(&[("acct_no", "5"), ("acct_name", "taro")]);
    i.insert(acctname(), s("hanako"));
    assert_eq!(i.get(&acctname()), Some(&s("hanako")));
    assert_eq!(i.get(&acctno()), Some(&s("5")));
    assert_eq!(i.get(&s("other")), None);
}

#[test]
fn session_defaults_to_anonymous() {
    let anon = session_account_info(&s(""), true, AccountInfo::new());
    assert_eq!(anon.get(&acctno()), Some(&s("9999")));
    assert_eq!(anon.get(&acctname()), Some(&s("名無し")));
    let kept = session_account_info(&s("abc"), true, AccountInfo::new());
    assert_eq!(kept.get(&acctno()), None);
    let kept2 = session_account_info(&s(""), false, info(&[("acct_name", "taro")]));
    assert_eq!(kept2.get(&acctno()), None);
    assert_eq!(kept2.get(&acctname()), Some(&s("taro")));
}

#[test]
fn verifier_panic_condition() {
    let letters = "a".repeat(21);
    assert!(verify_panics_on(&format!("$2b$10$\u{80}{}", letters)));
    assert!(verify_panics_on(&format!("$2y$04$ab\u{1}{}", "b".repeat(19))));
    assert!(!verify_panics_on(&s("$2b$10$\u{80}")));
    assert!(!verify_panics_on(&format!("$2b$40$\u{80}{}", letters)));
    assert!(!verify_panics_on(&format!("$2c$10$\u{80}{}", letters)));
    assert!(!verify_panics_on(&format!("$2b$10${}\u{80}", "a".repeat(22))));
    assert!(!verify_panics_on(&format!("$2b$10$a!\u{80}{}", letters)));
    assert!(!verify_panics_on(&s("x")));
    let row = AccountAddParams::new(s("taro"), s("password1")).new_account(&vec![]);
    assert!(!verify_panics_on(&row.password));
}

#[test]
fn login_answers_on_malformed_hash_outside_salt() {
    let hash = format!("$2b$10${}\u{80}\u{1}", "a".repeat(22));
    let accounts = vec![account(1, "taro", &hash)];
    let p = AccountAddParams::new(s("taro"), s("password1"));
    assert_eq!(
        p.validation_account(ScreenStatus::LOGIN.to_string(), &accounts),
        vec![s("パスワードが違います。")]
    );
    let bad_cost = format!("$2b$99$\u{80}{}", "a".repeat(21));
    let accounts = vec![account(1, "taro", &bad_cost)];
    assert_eq!(
        p.validation_account(ScreenStatus::LOGIN.to_string(), &accounts),
        vec![s("パスワードが違います。")]
    );
}
