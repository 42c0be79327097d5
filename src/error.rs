//! Errors reported to the host.
use std::collections::HashMap;
use vstd::prelude::*;

verus! {

/// The character of a decimal digit.
pub open spec fn digit_char(d: nat) -> char {
    if d == 0 { '0' }
    else if d == 1 { '1' }
    else if d == 2 { '2' }
    else if d == 3 { '3' }
    else if d == 4 { '4' }
    else if d == 5 { '5' }
    else if d == 6 { '6' }
    else if d == 7 { '7' }
    else if d == 8 { '8' }
    else { '9' }
}

/// The decimal digits of a natural number, most significant first.
pub open spec fn digits_of(n: nat) -> Seq<char>
    decreases n,
{
    if n < 10 {
        seq![digit_char(n)]
    } else {
        digits_of(n / 10).push(digit_char(n % 10))
    }
}

/// The decimal text of an integer, with a leading `-` when negative.
pub open spec fn decimal_of(i: int) -> Seq<char> {
    if i < 0 {
        seq!['-'] + digits_of((-i) as nat)
    } else {
        digits_of(i as nat)
    }
}

fn digit_text(d: u64) -> (r: &'static str)
    requires
        d < 10,
    ensures
        r@ == seq![digit_char(d as nat)],
{
    if d == 0 {
        proof { reveal_strlit("0"); }
        "0"
    } else if d == 1 {
        proof { reveal_strlit("1"); }
        "1"
    } else if d == 2 {
        proof { reveal_strlit("2"); }
        "2"
    } else if d == 3 {
        proof { reveal_strlit("3"); }
        "3"
    } else if d == 4 {
        proof { reveal_strlit("4"); }
        "4"
    } else if d == 5 {
        proof { reveal_strlit("5"); }
        "5"
    } else if d == 6 {
        proof { reveal_strlit("6"); }
        "6"
    } else if d == 7 {
        proof { reveal_strlit("7"); }
        "7"
    } else if d == 8 {
        proof { reveal_strlit("8"); }
        "8"
    } else {
        proof { reveal_strlit("9"); }
        "9"
    }
}

fn natural_text(n: u64) -> (r: String)
    ensures
        r@ == digits_of(n as nat),
    decreases n,
{
    if n < 10 {
        String::from_str(digit_text(n))
    } else {
        let mut head = natural_text(n / 10);
        head.append(digit_text(n % 10));
        head
    }
}

/// Decimal text of a signed integer.
pub fn decimal_text(i: i64) -> (r: String)
    ensures
        r@ == decimal_of(i as int),
{
    if i < 0 {
        let magnitude: u64 = if i == i64::MIN {
            (i64::MAX as u64) + 1
        } else {
            (-i) as u64
        };
        proof { reveal_strlit("-"); }
        let mut r = String::from_str("-");
        let digits = natural_text(magnitude);
        r.append(digits.as_str());
        r
    } else {
        natural_text(i as u64)
    }
}

/// Error reported by plugin code: a numeric code, a message and extra context.
#[derive(Clone, Debug)]
pub struct Error {
    code: i32,
    message: String,
    context: HashMap<String, String>,
}

impl Error {
    pub closed spec fn spec_code(&self) -> i32 {
        self.code
    }

    pub closed spec fn spec_message(&self) -> Seq<char> {
        self.message@
    }

    pub closed spec fn spec_context(&self) -> Map<String, String> {
        self.context@
    }

    /// An error with code 1 and the given message, without context.
    pub fn from_string(s: &str) -> (r: Self)
        ensures
            r.spec_code() == 1,
            r.spec_message() == s@,
            r.spec_context() == Map::<String, String>::empty(),
    {
        Error { code: 1, message: String::from_str(s), context: HashMap::new() }
    }

    /// An error built from all of its parts, as the host protocol carries them.
    pub fn new(code: i32, message: String, context: HashMap<String, String>) -> (r: Self)
        ensures
            r.spec_code() == code,
            r.spec_message() == message@,
            r.spec_context() == context@,
    {
        Error { code, message, context }
    }

    /// An error from an operating system failure: its raw code where the
    /// system gave one, else 1.
    pub fn from_os_error(raw_code: Option<i32>, message: String) -> (r: Self)
        ensures
            r.spec_code() == match raw_code {
                Some(c) => c,
                None => 1i32,
            },
            r.spec_message() == message@,
            r.spec_context() == Map::<String, String>::empty(),
    {
        let code = match raw_code {
            Some(c) => c,
            None => 1,
        };
        Error { code, message, context: HashMap::new() }
    }

    pub fn code(&self) -> (r: i32)
        ensures
            r == self.spec_code(),
    {
        self.code
    }

    pub fn message(&self) -> (r: &String)
        ensures
            r@ == self.spec_message(),
    {
        &self.message
    }

    pub fn context(&self) -> (r: &HashMap<String, String>)
        ensures
            r@ == self.spec_context(),
    {
        &self.context
    }

    /// Human-readable form: `<message> (code: <code>)`.
    pub fn describe(&self) -> (r: String)
        ensures
            r@ == self.spec_message() + " (code: "@ + decimal_of(self.spec_code() as int) + ")"@,
    {
        let mut r = self.message.clone();
        r.append(" (code: ");
        let code = decimal_text(self.code as i64);
        r.append(code.as_str());
        r.append(")");
        r
    }
}

/// Conversion of an absent value or a failure into an [`Error`] with a message.
pub trait ErrorExt<T>: Sized {
    spec fn spec_or_err(self, s: Seq<char>) -> Result<T, Seq<char>>;

    /// The value, or an error of code 1 whose message is the one given by
    /// `spec_or_err`.
    fn or_err(self, s: &str) -> (r: Result<T, Error>)
        ensures
            match (r, self.spec_or_err(s@)) {
                (Ok(v), Ok(w)) => v == w,
                (Err(e), Err(m)) => e.spec_code() == 1 && e.spec_message() == m
                    && e.spec_context() == Map::<String, String>::empty(),
                _ => false,
            },
    ;
}

impl<T> ErrorExt<T> for Option<T> {
    /// `None` becomes an error carrying `s` as its message.
    open spec fn spec_or_err(self, s: Seq<char>) -> Result<T, Seq<char>> {
        match self {
            Some(t) => Ok(t),
            None => Err(s),
        }
    }

    fn or_err(self, s: &str) -> (r: Result<T, Error>) {
        match self {
            Some(t) => Ok(t),
            None => Err(Error::from_string(s)),
        }
    }
}

impl<T> ErrorExt<T> for Result<T, Error> {
    /// A failure becomes an error whose message is `s`, `": "` and the
    /// described failure.
    open spec fn spec_or_err(self, s: Seq<char>) -> Result<T, Seq<char>> {
        match self {
            Ok(t) => Ok(t),
            Err(e) => Err(s + ": "@ + e.spec_message() + " (code: "@ + decimal_of(
                e.spec_code() as int,
            ) + ")"@),
        }
    }

    fn or_err(self, s: &str) -> (r: Result<T, Error>) {
        match self {
            Ok(t) => Ok(t),
            Err(e) => {
                let mut m = String::from_str(s);
                m.append(": ");
                let d = e.describe();
                m.append(d.as_str());
                Err(Error::from_string(m.as_str()))
            }
        }
    }
}

} // verus!
