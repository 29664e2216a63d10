use thread_board::flows::{
    add_thread_comment_flow, add_thread_flow, delete_thread_flow, edit_account_flow, edit_password_flow, login_account_flow,
    signup_account_flow,
};
use thread_board::models::account::{Account, AccountAddParams, AccountNameEditParams, PasswordEditParams};
use thread_board::models::thread::{Thread, ThreadCreateParams, ThreadDeleteParams};
use thread_board::models::thread_comment::{CommentCreateParams, ThreadComment};

fn s(x: &str) -> String {
    x.to_string()
}

fn stored(no: i32, name: &str, password: &str) -> Account {
    Account { account_no: no, account_name: s(name), password: s(password), lastupdate: None }
}

#[test]
fn signup_flow_then_login_flow() {
    let mut accounts = vec![stored(1, "taro", "x"), stored(7, "jiro", "y")];
    let form = AccountAddParams::new(s("hanako"), s("Passw0rd"));
    let row = signup_account_flow(&form, &accounts).unwrap();
    assert_eq!(row.account_no, 8);
    assert_eq!(row.password.chars().count(), 60);
    assert!(row.password.starts_with("$2b$10$"));
    accounts.push(stored(row.account_no, &row.account_name, &row.password));
    assert_eq!(login_account_flow(&form, &accounts), Ok(8));
    let again = signup_account_flow(&form, &accounts);
    assert_eq!(again.unwrap_err(), vec![s("アカウント名が重複しています。")]);
}

#[test]
fn login_flow_refusals() {
    let accounts = vec![stored(1, "taro", "x")];
    assert_eq!(
        login_account_flow(&AccountAddParams::new(s(""), s("")), &accounts),
        Err(vec![s("アカウント名が未入力です。"), s("パスワードが未入力です。")])
    );
    assert_eq!(
        login_account_flow(&AccountAddParams::new(s("nobody"), s("pw")), &accounts),
        Err(vec![s("アカウントが存在していません。")])
    );
}

#[test]
fn edit_account_flow_returns_new_name() {
    let accounts = vec![stored(1, "taro", "x"), stored(2, "hanako", "y")];
    assert_eq!(edit_account_flow(&AccountNameEditParams::new(s("jiro")), &s("taro"), &accounts), Ok(s("jiro")));
    assert_eq!(
        edit_account_flow(&AccountNameEditParams::new(s("hanako")), &s("taro"), &accounts),
        Err(vec![s("アカウント名が重複しています。")])
    );
}

#[test]
fn edit_password_flow_returns_hash_of_new_password() {
    let row = signup_account_flow(&AccountAddParams::new(s("taro"), s("firstpw1")), &vec![]).unwrap();
    let mut accounts = vec![stored(row.account_no, &row.account_name, &row.password)];
    let change = PasswordEditParams::new(s("firstpw1"), s("secondpw2"));
    let hash = edit_password_flow(&change, &s("taro"), &accounts).unwrap();
    assert_ne!(hash, "secondpw2");
    accounts[0].password = hash;
    assert_eq!(login_account_flow(&AccountAddParams::new(s("taro"), s("secondpw2")), &accounts), Ok(1));
}

#[test]
fn thread_and_comment_flows() {
    let threads = vec![Thread { thread_id: 2, thread_name: s("a"), lastupdate: None }];
    let row = add_thread_flow(&ThreadCreateParams::new(s("b")), &threads).unwrap();
    assert_eq!((row.thread_id, row.thread_name.as_str()), (3, "b"));
    assert_eq!(
        add_thread_flow(&ThreadCreateParams::new(s("")), &threads).unwrap_err(),
        vec![s("スレッドネームが未入力です。")]
    );
    let comments = vec![ThreadComment { thread_id: 2, comment_no: 5, comment_name: s("n"), comment: s("c"), lastupdate: None }];
    let c = add_thread_comment_flow(&CommentCreateParams::new(2, s("n"), s("hi"), s("a")), &comments).unwrap();
    assert_eq!((c.thread_id, c.comment_no), (2, 6));
    assert!(add_thread_comment_flow(&CommentCreateParams::new(2, s(""), s("hi"), s("a")), &comments).is_err());
    assert_eq!(delete_thread_flow(&ThreadDeleteParams::new(2, s("a")), &threads), Ok(2));
    assert_eq!(
        delete_thread_flow(&ThreadDeleteParams::new(2, s("renamed")), &threads),
        Err(s("スレッドが更新されております。ご確認下さい。"))
    );
}
