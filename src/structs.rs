use vstd::prelude::*;

verus! {

/// An account of a user.
pub struct User {
    pub active: bool,
    pub username: String,
    pub email: String,
    pub sign_in_count: u64,
}

/// The character of the decimal digit `d`.
pub open spec fn digit_char(d: nat) -> char {
    if d == 0 {
        '0'
    } else if d == 1 {
        '1'
    } else if d == 2 {
        '2'
    } else if d == 3 {
        '3'
    } else if d == 4 {
        '4'
    } else if d == 5 {
        '5'
    } else if d == 6 {
        '6'
    } else if d == 7 {
        '7'
    } else if d == 8 {
        '8'
    } else {
        '9'
    }
}

/// `n` written in decimal, without leading zeros.
pub open spec fn decimal(n: nat) -> Seq<char>
    decreases n,
{
    if n < 10 {
        seq![digit_char(n)]
    } else {
        decimal(n / 10) + seq![digit_char(n % 10)]
    }
}

/// `b` written as a word.
pub open spec fn bool_text(b: bool) -> Seq<char> {
    if b {
        "true"@
    } else {
        "false"@
    }
}

/// How a user is shown: each field named, in order.
pub open spec fn user_text(
    active: bool,
    username: Seq<char>,
    email: Seq<char>,
    sign_in_count: nat,
) -> Seq<char> {
    "(is_active: "@ + bool_text(active) + ", username: "@ + username + ", email: "@ + email
        + ", sign_in_count: "@ + decimal(sign_in_count) + ")"@
}

fn digit_str(d: u64) -> (r: &'static str)
    requires
        d < 10,
    ensures
        r@ == seq![digit_char(d as nat)],
{
    proof {
        reveal_strlit("0");
        reveal_strlit("1");
        reveal_strlit("2");
        reveal_strlit("3");
        reveal_strlit("4");
        reveal_strlit("5");
        reveal_strlit("6");
        reveal_strlit("7");
        reveal_strlit("8");
        reveal_strlit("9");
    }
    match d {
        0 => "0",
        1 => "1",
        2 => "2",
        3 => "3",
        4 => "4",
        5 => "5",
        6 => "6",
        7 => "7",
        8 => "8",
        _ => "9",
    }
}

/// Writes `n` in decimal.
pub fn decimal_string(n: u64) -> (r: String)
    ensures
        r@ == decimal(n as nat),
    decreases n,
{
    if n < 10 {
        digit_str(n).to_string()
    } else {
        let mut s = decimal_string(n / 10);
        s.append(digit_str(n % 10));
        s
    }
}

/// Returns a new active user with the given email and name, signed in once.
pub fn build_user(email: String, username: String) -> (r: User)
    ensures
        r.active,
        r.username@ == username@,
        r.email@ == email@,
        r.sign_in_count == 1,
{
    User { email, username, active: true, sign_in_count: 1 }
}

impl User {
    /// Returns the user's fields as text, in the form
    /// `(is_active: true, username: ann, email: ann@example.com, sign_in_count: 1)`.
    pub fn describe(&self) -> (r: String)
        ensures
            r@ == user_text(
                self.active,
                self.username@,
                self.email@,
                self.sign_in_count as nat,
            ),
    {
        let mut s = String::new();
        s.append("(is_active: ");
        if self.active {
            s.append("true");
        } else {
            s.append("false");
        }
        s.append(", username: ");
        s.append(self.username.as_str());
        s.append(", email: ");
        s.append(self.email.as_str());
        s.append(", sign_in_count: ");
        let count = decimal_string(self.sign_in_count);
        s.append(count.as_str());
        s.append(")");
        s
    }
}

} // verus!
