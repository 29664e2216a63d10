use vstd::prelude::*;

verus! {

/// The message template stored under `key`, if there is one.
pub open spec fn error_template(key: Seq<char>) -> Option<Seq<char>> {
    if key == "EM_0001"@ {
        Some("{}が未入力です。"@)
    } else if key == "EM_ACCT_0001"@ {
        Some("アカウント名が重複しています。"@)
    } else if key == "EM_ACCT_0002"@ {
        Some("パスワードの文字数を8文字以上にしてください。"@)
    } else if key == "EM_ACCT_0003"@ {
        Some("パスワードが違います。"@)
    } else if key == "EM_ACCT_0004"@ {
        Some("アカウントが存在していません。"@)
    } else if key == "EM_ACCT_0005"@ {
        Some("現在のパスワードが違います。"@)
    } else if key == "EM_ACCT_0006"@ {
        Some("変更後のパスワードの文字数を8文字以上にしてください。"@)
    } else if key == "EM_THD_0001"@ {
        Some("スレッドが更新されております。ご確認下さい。"@)
    } else {
        None
    }
}

/// Every `{}` of `s`, read left to right without overlap, replaced by `with`.
pub open spec fn replace_braces(s: Seq<char>, with: Seq<char>) -> Seq<char>
    decreases s.len(),
{
    if s.len() == 0 {
        Seq::empty()
    } else if s.len() >= 2 && s[0] == '{' && s[1] == '}' {
        with + replace_braces(s.skip(2), with)
    } else {
        seq![s[0]] + replace_braces(s.skip(1), with)
    }
}

/// Looks up the template stored under `key`.
pub fn error_template_of(key: &String) -> (res: Option<String>)
    ensures
        match res {
            Some(t) => error_template(key@) == Some(t@),
            None => error_template(key@) is None,
        },
{
    if *key == "EM_0001".to_owned() {
        Some("{}が未入力です。".to_owned())
    } else if *key == "EM_ACCT_0001".to_owned() {
        Some("アカウント名が重複しています。".to_owned())
    } else if *key == "EM_ACCT_0002".to_owned() {
        Some("パスワードの文字数を8文字以上にしてください。".to_owned())
    } else if *key == "EM_ACCT_0003".to_owned() {
        Some("パスワードが違います。".to_owned())
    } else if *key == "EM_ACCT_0004".to_owned() {
        Some("アカウントが存在していません。".to_owned())
    } else if *key == "EM_ACCT_0005".to_owned() {
        Some("現在のパスワードが違います。".to_owned())
    } else if *key == "EM_ACCT_0006".to_owned() {
        Some("変更後のパスワードの文字数を8文字以上にしてください。".to_owned())
    } else if *key == "EM_THD_0001".to_owned() {
        Some("スレッドが更新されております。ご確認下さい。".to_owned())
    } else {
        None
    }
}

/// Replaces every `{}` of `template` by `place_holder`.
pub fn replace_braces_in(template: &str, place_holder: &str) -> (res: String)
    ensures
        res@ == replace_braces(template@, place_holder@),
{
    let n = template.unicode_len();
    let mut res = String::new();
    let mut i: usize = 0;
    assert(template@.skip(0) =~= template@);
    while i < n
        invariant
            n == template@.len(),
            i <= n,
            replace_braces(template@, place_holder@)
                =~= res@ + replace_braces(template@.skip(i as int), place_holder@),
        decreases n - i,
    {
        let ghost rest = template@.skip(i as int);
        if i + 1 < n && template.get_char(i) == '{' && template.get_char(i + 1) == '}' {
            res.append(place_holder);
            assert(rest.skip(2) =~= template@.skip(i + 2));
            i = i + 2;
        } else {
            let piece = template.substring_char(i, i + 1);
            res.append(piece);
            assert(piece@ =~= seq![rest[0]]);
            assert(rest.skip(1) =~= template@.skip(i + 1));
            i = i + 1;
        }
    }
    assert(template@.skip(n as int) =~= Seq::<char>::empty());
    res
}

/// The message stored under `key`; meaningful where `error_template(key)` is `Some`.
pub open spec fn message(key: Seq<char>) -> Seq<char> {
    error_template(key).unwrap()
}

/// The "`label` is missing" message: the template `EM_0001` with `label` in
/// place of its `{}`.
pub open spec fn required_message(label: Seq<char>) -> Seq<char> {
    replace_braces(message("EM_0001"@), label)
}

/// A list holding `m` where `c` holds, and nothing otherwise.
pub open spec fn message_if(c: bool, m: Seq<char>) -> Seq<Seq<char>> {
    if c {
        seq![m]
    } else {
        Seq::empty()
    }
}

/// The views of a list of messages.
pub open spec fn message_views(v: Seq<String>) -> Seq<Seq<char>> {
    v.map_values(|s: String| s@)
}

/// Looks up user-facing messages by key.
pub struct ErrorMsg {}

pub trait GetErrorMsg {
    /// The message stored under `error_key`.
    fn get_error_msg(&self, error_key: String) -> (res: String)
        requires
            error_template(error_key@) is Some,
        ensures
            res@ == message(error_key@),
    ;

    /// The message stored under `error_key`, with `place_holder` in place of
    /// every `{}`.
    fn get_error_msg_by_place_holder(&self, error_key: String, place_holder: String) -> (res: String)
        requires
            error_template(error_key@) is Some,
        ensures
            res@ == replace_braces(message(error_key@), place_holder@),
    ;
}

impl GetErrorMsg for ErrorMsg {
    fn get_error_msg(&self, error_key: String) -> (res: String) {
        let error_msg = error_template_of(&error_key).unwrap();
        error_msg
    }

    fn get_error_msg_by_place_holder(&self, error_key: String, place_holder: String) -> (res: String) {
        let temp_error_msg = error_template_of(&error_key).unwrap();
        replace_braces_in(temp_error_msg.as_str(), place_holder.as_str())
    }
}

/// The keys of the message table are pairwise distinct strings.
pub proof fn lemma_message_keys()
    ensures
        "EM_0001"@ != "EM_ACCT_0001"@,
        "EM_0001"@ != "EM_ACCT_0002"@,
        "EM_0001"@ != "EM_ACCT_0003"@,
        "EM_0001"@ != "EM_ACCT_0004"@,
        "EM_0001"@ != "EM_ACCT_0005"@,
        "EM_0001"@ != "EM_ACCT_0006"@,
        "EM_0001"@ != "EM_THD_0001"@,
        "EM_ACCT_0001"@ != "EM_ACCT_0002"@,
        "EM_ACCT_0001"@ != "EM_ACCT_0003"@,
        "EM_ACCT_0001"@ != "EM_ACCT_0004"@,
        "EM_ACCT_0001"@ != "EM_ACCT_0005"@,
        "EM_ACCT_0001"@ != "EM_ACCT_0006"@,
        "EM_ACCT_0001"@ != "EM_THD_0001"@,
        "EM_ACCT_0002"@ != "EM_ACCT_0003"@,
        "EM_ACCT_0002"@ != "EM_ACCT_0004"@,
        "EM_ACCT_0002"@ != "EM_ACCT_0005"@,
        "EM_ACCT_0002"@ != "EM_ACCT_0006"@,
        "EM_ACCT_0002"@ != "EM_THD_0001"@,
        "EM_ACCT_0003"@ != "EM_ACCT_0004"@,
        "EM_ACCT_0003"@ != "EM_ACCT_0005"@,
        "EM_ACCT_0003"@ != "EM_ACCT_0006"@,
        "EM_ACCT_0003"@ != "EM_THD_0001"@,
        "EM_ACCT_0004"@ != "EM_ACCT_0005"@,
        "EM_ACCT_0004"@ != "EM_ACCT_0006"@,
        "EM_ACCT_0004"@ != "EM_THD_0001"@,
        "EM_ACCT_0005"@ != "EM_ACCT_0006"@,
        "EM_ACCT_0005"@ != "EM_THD_0001"@,
        "EM_ACCT_0006"@ != "EM_THD_0001"@,
{
    reveal_strlit("EM_0001");
    reveal_strlit("EM_ACCT_0001");
    reveal_strlit("EM_ACCT_0002");
    reveal_strlit("EM_ACCT_0003");
    reveal_strlit("EM_ACCT_0004");
    reveal_strlit("EM_ACCT_0005");
    reveal_strlit("EM_ACCT_0006");
    reveal_strlit("EM_THD_0001");
    assert("EM_0001"@.len() != "EM_ACCT_0001"@.len());
    assert("EM_0001"@.len() != "EM_THD_0001"@.len());
    assert("EM_ACCT_0001"@[11] != "EM_ACCT_0002"@[11]);
    assert("EM_ACCT_0001"@[11] != "EM_ACCT_0003"@[11]);
    assert("EM_ACCT_0001"@[11] != "EM_ACCT_0004"@[11]);
    assert("EM_ACCT_0001"@[11] != "EM_ACCT_0005"@[11]);
    assert("EM_ACCT_0001"@[11] != "EM_ACCT_0006"@[11]);
    assert("EM_ACCT_0002"@[11] != "EM_ACCT_0003"@[11]);
    assert("EM_ACCT_0002"@[11] != "EM_ACCT_0004"@[11]);
    assert("EM_ACCT_0002"@[11] != "EM_ACCT_0005"@[11]);
    assert("EM_ACCT_0002"@[11] != "EM_ACCT_0006"@[11]);
    assert("EM_ACCT_0003"@[11] != "EM_ACCT_0004"@[11]);
    assert("EM_ACCT_0003"@[11] != "EM_ACCT_0005"@[11]);
    assert("EM_ACCT_0003"@[11] != "EM_ACCT_0006"@[11]);
    assert("EM_ACCT_0004"@[11] != "EM_ACCT_0005"@[11]);
    assert("EM_ACCT_0004"@[11] != "EM_ACCT_0006"@[11]);
    assert("EM_ACCT_0005"@[11] != "EM_ACCT_0006"@[11]);
    assert("EM_ACCT_0001"@[3] != "EM_THD_0001"@[3]);
    assert("EM_ACCT_0002"@[3] != "EM_THD_0001"@[3]);
    assert("EM_ACCT_0003"@[3] != "EM_THD_0001"@[3]);
    assert("EM_ACCT_0004"@[3] != "EM_THD_0001"@[3]);
    assert("EM_ACCT_0005"@[3] != "EM_THD_0001"@[3]);
    assert("EM_ACCT_0006"@[3] != "EM_THD_0001"@[3]);
}

/// The message stored under `key`, looked up by the table's own reader.
pub fn message_of(key: &str) -> (res: String)
    requires
        error_template(key@) is Some,
    ensures
        res@ == message(key@),
{
    let error_msg_struct = ErrorMsg {};
    error_msg_struct.get_error_msg(key.to_owned())
}

/// The "`label` is missing" message.
pub fn required_message_of(label: &str) -> (res: String)
    ensures
        res@ == required_message(label@),
{
    let error_msg_struct = ErrorMsg {};
    error_msg_struct.get_error_msg_by_place_holder("EM_0001".to_owned(), label.to_owned())
}

} // verus!
