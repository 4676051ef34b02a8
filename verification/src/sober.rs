//! The sobriety test: the user is asked for the sum of two numbers below one
//! hundred, and passes with the right answer.

use vstd::prelude::*;
use rand::Rng;
use crate::constants::{PamMessageStyle, PamResultCode, PAM_PROMPT_ECHO_ON};
use crate::module::{bytes_view, failure, failure_code, text_from_utf8, PamResult};
use crate::text::{digit_value, digits_value, lemma_value_grows, value_of};

verus! {

/// The character of a decimal digit.
pub open spec fn digit_char(d: int) -> char {
    if d == 0 {
        '0'
    } else if d == 1 {
        '1'
    } else if d == 2 {
        '2'
    } else if d == 3 {
        '3'
    } else if d == 4 {
        '4'
    } else if d == 5 {
        '5'
    } else if d == 6 {
        '6'
    } else if d == 7 {
        '7'
    } else if d == 8 {
        '8'
    } else {
        '9'
    }
}

/// A number in decimal notation, without leading zeros.
pub open spec fn decimal(n: nat) -> Seq<char>
    decreases n,
{
    if n < 10 {
        seq![digit_char(n as int)]
    } else {
        decimal(n / 10).push(digit_char((n % 10) as int))
    }
}

/// The number that an answer denotes: decimal digits, with at most one `+`
/// before them, and a value that 32 bits hold.
pub open spec fn answer_value(s: Seq<char>) -> Option<u32> {
    if s.len() > 0 && s[0] == '+' {
        bounded_value(s.subrange(1, s.len() as int))
    } else {
        bounded_value(s)
    }
}

/// Decimal notation denotes the number it was written for.
pub proof fn lemma_decimal_denotes(n: nat)
    ensures
        digits_value(decimal(n)) == Some(n),
        decimal(n).len() >= 1,
    decreases n,
{
    if n >= 10 {
        lemma_decimal_denotes(n / 10);
        let s = decimal(n);
        assert(s.drop_last() =~= decimal(n / 10));
    }
}

/// A number that was written in decimal notation is read back as itself.
pub proof fn lemma_written_number_is_read_back(n: u32)
    ensures
        answer_value(decimal(n as nat)) == Some(n),
    decreases n,
{
    lemma_decimal_denotes(n as nat);
    lemma_decimal_starts_with_digit(n as nat);
}

/// Decimal notation starts with a digit.
proof fn lemma_decimal_starts_with_digit(n: nat)
    ensures
        decimal(n).len() >= 1,
        digit_value(decimal(n)[0]) is Some,
    decreases n,
{
    if n >= 10 {
        lemma_decimal_starts_with_digit(n / 10);
    }
}

/// Draws one number with `Rng::gen` from `rand::thread_rng()`. Nothing is
/// known of the number but its type.
#[verifier::external_body]
fn draw() -> u32 {
    rand::thread_rng().gen::<u32>()
}

/// The decimal digit `d`, as a text of one character.
fn digit_of(d: u32) -> (s: &'static str)
    requires
        d < 10,
    ensures
        s@ == seq![digit_char(d as int)],
{
    proof {
        reveal_strlit("0");
        reveal_strlit("1");
        reveal_strlit("2");
        reveal_strlit("3");
        reveal_strlit("4");
        reveal_strlit("5");
        reveal_strlit("6");
        reveal_strlit("7");
        reveal_strlit("8");
        reveal_strlit("9");
    }
    let s = if d == 0 {
        "0"
    } else if d == 1 {
        "1"
    } else if d == 2 {
        "2"
    } else if d == 3 {
        "3"
    } else if d == 4 {
        "4"
    } else if d == 5 {
        "5"
    } else if d == 6 {
        "6"
    } else if d == 7 {
        "7"
    } else if d == 8 {
        "8"
    } else {
        "9"
    };
    s
}

/// The characters of a list of digits that holds the least significant digit
/// first.
pub open spec fn low_digits(digits: Seq<u32>) -> Seq<char>
    decreases digits.len(),
{
    if digits.len() == 0 {
        Seq::empty()
    } else {
        seq![digit_char(digits.last() as int)] + low_digits(digits.drop_last())
    }
}

/// Writes a number in decimal notation.
pub fn write_decimal(n: u32) -> (s: String)
    ensures
        s@ == decimal(n as nat),
{
    let mut digits: Vec<u32> = Vec::new();
    let mut rest: u32 = n;
    while rest >= 10
        invariant
            decimal(n as nat) == decimal(rest as nat) + low_digits(digits@),
            forall|i: int| 0 <= i < digits@.len() ==> digits@[i] < 10,
        decreases rest,
    {
        let d: u32 = rest % 10;
        proof {
            let longer = digits@.push(d);
            assert(longer.drop_last() =~= digits@);
            assert(decimal(rest as nat) =~= decimal((rest / 10) as nat) + seq![
                digit_char(d as int),
            ]);
            assert(decimal((rest / 10) as nat) + low_digits(longer) =~= decimal(rest as nat)
                + low_digits(digits@));
        }
        digits.push(d);
        rest = rest / 10;
    }
    let mut s = String::new();
    s.append(digit_of(rest));
    let mut i: usize = digits.len();
    assert(digits@.take(i as int) =~= digits@);
    while i > 0
        invariant
            i <= digits@.len(),
            forall|i: int| 0 <= i < digits@.len() ==> digits@[i] < 10,
            s@ + low_digits(digits@.take(i as int)) == decimal(n as nat),
        decreases i,
    {
        proof {
            assert(digits@.take(i as int).drop_last() =~= digits@.take(i - 1));
            assert(s@ + seq![digit_char(digits@[i - 1] as int)] + low_digits(digits@.take(i - 1))
                =~= s@ + low_digits(digits@.take(i as int)));
        }
        i = i - 1;
        s.append(digit_of(digits[i]));
    }
    s
}

/// The number that a text of digits denotes, as far as 32 bits hold it.
pub open spec fn bounded_value(digits: Seq<char>) -> Option<u32> {
    match digits_value(digits) {
        Some(v) => if v <= u32::MAX {
            Some(v as u32)
        } else {
            None
        },
        None => None,
    }
}

/// Reads an answer: the number that the text denotes, if it denotes one.
pub fn read_answer(text: &str) -> (r: Option<u32>)
    ensures
        r == answer_value(text@),
{
    let n = text.unicode_len();
    let start: usize = if n > 0 && text.get_char(0) == '+' {
        1
    } else {
        0
    };
    let ghost digits = text@.subrange(start as int, n as int);
    proof {
        if start == 0 {
            assert(digits =~= text@);
        }
    }
    if start == n {
        return None;
    }
    let mut value: u32 = 0;
    let mut i: usize = start;
    while i < n
        invariant
            n == text@.len(),
            start <= i <= n,
            start < n,
            digits == text@.subrange(start as int, n as int),
            answer_value(text@) == bounded_value(digits),
            i == start ==> value == 0,
            i > start ==> digits_value(digits.take(i - start)) == Some(value as nat),
        decreases n - i,
    {
        let c = text.get_char(i);
        let ghost k = i - start + 1;
        let ghost cur = digits.take(k);
        proof {
            assert(cur.drop_last() =~= digits.take(i - start));
            if digits_value(digits) is Some {
                lemma_value_grows(digits, k);
            }
        }
        match value_of(c) {
            Some(d) => {
                if value > (u32::MAX - d) / 10 {
                    return None;
                }
                value = value * 10 + d;
            },
            None => {
                return None;
            },
        }
        i = i + 1;
    }
    assert(digits.take(n - start) =~= digits);
    Some(value)
}

/// Two numbers below one hundred, whose sum is asked for.
pub struct Challenge {
    a: u32,
    b: u32,
}

impl Challenge {
    /// The first number.
    pub closed spec fn first(&self) -> nat {
        self.a as nat
    }

    /// The second number.
    pub closed spec fn second(&self) -> nat {
        self.b as nat
    }

    /// Well-formedness: both numbers are below one hundred.
    pub closed spec fn wf(&self) -> bool {
        self.a < 100 && self.b < 100
    }

    /// The challenge made of two draws: each is reduced modulo one hundred.
    pub fn from_draws(x: u32, y: u32) -> (c: Challenge)
        ensures
            c.wf(),
            c.first() == x % 100,
            c.second() == y % 100,
    {
        Challenge { a: x % 100, b: y % 100 }
    }

    /// A challenge of two random numbers.
    pub fn random() -> (c: Challenge)
        ensures
            c.wf(),
    {
        let x = draw();
        let y = draw();
        Challenge::from_draws(x, y)
    }

    /// The sum that is asked for.
    pub fn sum(&self) -> (s: u32)
        requires
            self.wf(),
        ensures
            s == self.first() + self.second(),
            s < 199,
    {
        self.a + self.b
    }

    /// The question, as it is put to the user.
    pub fn prompt(&self) -> (s: String)
        requires
            self.wf(),
        ensures
            s@ == decimal(self.first()) + " + "@ + decimal(self.second()) + " = "@,
    {
        let mut s = write_decimal(self.a);
        s.append(" + ");
        s.append(write_decimal(self.b).as_str());
        s.append(" = ");
        s
    }

    /// Whether `answer` denotes the sum.
    pub fn accepts(&self, answer: &str) -> (ok: bool)
        requires
            self.wf(),
        ensures
            ok == (answer_value(answer@) == Some((self.first() + self.second()) as u32)),
    {
        match read_answer(answer) {
            Some(n) => n == self.sum(),
            None => false,
        }
    }
}

/// The module that asks for a sum.
pub struct PamSober;

/// What the hook reports for the host's answer to the question: the code of
/// the failure for a failed conversation; success for a text that denotes the
/// sum; an authentication error for anything else.
pub open spec fn sober_result(
    first: nat,
    second: nat,
    reply: Result<Option<Seq<u8>>, PamResultCode>,
) -> PamResultCode {
    match reply {
        Err(code) => failure_code(code),
        Ok(None) => PamResultCode::PAM_AUTH_ERR,
        Ok(Some(bytes)) => if vstd::utf8::valid_utf8(bytes) && answer_value(
            vstd::utf8::decode_utf8(bytes),
        ) == Some((first + second) as u32) {
            PamResultCode::PAM_SUCCESS
        } else {
            PamResultCode::PAM_AUTH_ERR
        },
    }
}

impl PamSober {
    /// What the hook asks of the user, once: the sum of the two numbers of
    /// `challenge`, with the style that echoes what is typed.
    pub fn prompt(challenge: &Challenge) -> (r: (PamMessageStyle, String))
        requires
            challenge.wf(),
        ensures
            r.0 == PAM_PROMPT_ECHO_ON,
            r.1@ == decimal(challenge.first()) + " + "@ + decimal(challenge.second()) + " = "@,
    {
        (PAM_PROMPT_ECHO_ON, challenge.prompt())
    }

    /// Judges the host's answer to the question of `challenge`.
    pub fn sm_authenticate(challenge: &Challenge, reply: PamResult<Option<Vec<u8>>>) -> (code:
        PamResultCode)
        requires
            challenge.wf(),
        ensures
            code == sober_result(challenge.first(), challenge.second(), bytes_view(reply)),
            code == PamResultCode::PAM_SUCCESS <==> {
                &&& reply matches Ok(Some(bytes))
                &&& vstd::utf8::valid_utf8(bytes@)
                &&& answer_value(vstd::utf8::decode_utf8(bytes@)) == Some(
                    (challenge.first() + challenge.second()) as u32,
                )
            },
    {
        match reply {
            Err(code) => failure(code),
            Ok(None) => PamResultCode::PAM_AUTH_ERR,
            Ok(Some(bytes)) => match text_from_utf8(&bytes) {
                Some(answer) => if challenge.accepts(answer.as_str()) {
                    PamResultCode::PAM_SUCCESS
                } else {
                    PamResultCode::PAM_AUTH_ERR
                },
                None => PamResultCode::PAM_AUTH_ERR,
            },
        }
    }
}

} // verus!
