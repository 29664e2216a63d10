use vstd::prelude::*;

verus! {

/// The screens and session states that the board distinguishes.
#[allow(non_camel_case_types)]
#[derive(Clone, Copy, Debug, PartialEq, Eq, Structural)]
pub enum ScreenStatus {
    LOGIN,
    LOGOUT,
    SIGNUP,
}

/// The text by which a status is passed around and shown.
pub open spec fn status_text(s: ScreenStatus) -> Seq<char> {
    match s {
        ScreenStatus::LOGIN => "LOGIN"@,
        ScreenStatus::LOGOUT => "LOGOUT"@,
        ScreenStatus::SIGNUP => "SIGNUP"@,
    }
}

impl ScreenStatus {
    /// The text of this status.
    pub fn to_string(&self) -> (res: String)
        ensures
            res@ == status_text(*self),
    {
        match self {
            ScreenStatus::LOGIN => "LOGIN".to_owned(),
            ScreenStatus::LOGOUT => "LOGOUT".to_owned(),
            ScreenStatus::SIGNUP => "SIGNUP".to_owned(),
        }
    }
}

/// The three status texts are pairwise distinct.
pub proof fn lemma_status_texts_distinct()
    ensures
        "LOGIN"@ != "LOGOUT"@,
        "LOGIN"@ != "SIGNUP"@,
        "LOGOUT"@ != "SIGNUP"@,
{
    reveal_strlit("LOGIN");
    reveal_strlit("LOGOUT");
    reveal_strlit("SIGNUP");
    assert("LOGIN"@.len() != "LOGOUT"@.len());
    assert("LOGIN"@[0] != "SIGNUP"@[0]);
    assert("LOGOUT"@[0] != "SIGNUP"@[0]);
}

} // verus!
