//! Where a created user can be fetched: the path `/users/` followed by the
//! identifier in decimal.

use vstd::prelude::*;
use vstd::string::{StrSliceExecFns, StringExecFns};

verus! {

/// The character of one decimal digit.
pub open spec fn digit(d: nat) -> char
    recommends
        d < 10,
{
    "0123456789"@[d as int]
}

/// The decimal digits of a natural number, most significant first, without
/// leading zeros.
pub open spec fn digits(n: nat) -> Seq<char>
    decreases n,
{
    if n < 10 {
        seq![digit(n)]
    } else {
        digits(n / 10).push(digit(n % 10))
    }
}

/// An integer in decimal, with a minus sign before a negative one.
pub open spec fn decimal(i: int) -> Seq<char> {
    if i < 0 {
        seq!['-'] + digits((-i) as nat)
    } else {
        digits(i as nat)
    }
}

/// The path under which the user with this identifier is served.
pub open spec fn location_path(id: int) -> Seq<char> {
    "/users/"@ + decimal(id)
}

fn digit_text(d: u64) -> (text: &'static str)
    requires
        d < 10,
    ensures
        text@ == seq![digit(d as nat)],
{
    proof {
        reveal_strlit("0123456789");
    }
    let all: &'static str = "0123456789";
    all.substring_ascii(d as usize, d as usize + 1)
}

fn append_digits(text: &mut String, n: u64)
    ensures
        final(text)@ == old(text)@ + digits(n as nat),
    decreases n,
{
    if n >= 10 {
        append_digits(text, n / 10);
    }
    text.append(digit_text(n % 10));
}

/// Writes an identifier in decimal.
pub fn decimal_text(id: i64) -> (text: String)
    ensures
        text@ == decimal(id as int),
{
    let mut text = String::new();
    if id < 0 {
        proof {
            reveal_strlit("-");
        }
        text.append("-");
        let magnitude: u64 = (-(id + 1)) as u64 + 1;
        append_digits(&mut text, magnitude);
    } else {
        append_digits(&mut text, id as u64);
    }
    text
}

/// The path under which the user with this identifier is served.
pub fn location(id: i64) -> (path: String)
    ensures
        path@ == location_path(id as int),
{
    let mut path = String::from_str("/users/");
    let number = decimal_text(id);
    path.append(number.as_str());
    path
}

proof fn lemma_digits_len(n: nat)
    ensures
        digits(n).len() >= 1,
        n >= 10 ==> digits(n).len() >= 2,
        n < 10 ==> digits(n).len() == 1,
    decreases n,
{
    if n >= 10 {
        lemma_digits_len(n / 10);
    }
}

proof fn lemma_digits_start_with_a_digit(n: nat)
    ensures
        digits(n)[0] != '-',
    decreases n,
{
    reveal_strlit("0123456789");
    if n >= 10 {
        lemma_digits_len(n / 10);
        lemma_digits_start_with_a_digit(n / 10);
    }
}

proof fn lemma_digit_names_one_value(a: nat, b: nat)
    requires
        a < 10,
        b < 10,
        digit(a) == digit(b),
    ensures
        a == b,
{
    reveal_strlit("0123456789");
}

proof fn lemma_digits_name_one_number(a: nat, b: nat)
    requires
        digits(a) == digits(b),
    ensures
        a == b,
    decreases a,
{
    lemma_digits_len(a);
    lemma_digits_len(b);
    if a >= 10 {
        assert(digits(a).drop_last() == digits(a / 10));
        assert(digits(b).drop_last() == digits(b / 10));
        assert(digits(a).last() == digit(a % 10));
        assert(digits(b).last() == digit(b % 10));
        lemma_digits_name_one_number(a / 10, b / 10);
        lemma_digit_names_one_value(a % 10, b % 10);
    } else {
        assert(digits(a)[0] == digit(a));
        assert(digits(b)[0] == digit(b));
        lemma_digit_names_one_value(a, b);
    }
}

/// Two identifiers with the same decimal text are the same identifier.
pub proof fn lemma_decimal_is_injective(a: int, b: int)
    requires
        decimal(a) == decimal(b),
    ensures
        a == b,
{
    if a < 0 {
        lemma_digits_start_with_a_digit(b as nat);
        assert(decimal(a)[0] == '-');
        assert(digits((-a) as nat) == decimal(a).subrange(1, decimal(a).len() as int));
        assert(digits((-b) as nat) == decimal(b).subrange(1, decimal(b).len() as int));
        lemma_digits_name_one_number((-a) as nat, (-b) as nat);
    } else {
        lemma_digits_start_with_a_digit(a as nat);
        assert(decimal(b)[0] != '-');
        lemma_digits_name_one_number(a as nat, b as nat);
    }
}

/// A location names one user: two identifiers with the same location are
/// the same identifier.
pub proof fn lemma_location_names_one_user(a: int, b: int)
    requires
        location_path(a) == location_path(b),
    ensures
        a == b,
{
    let prefix = "/users/"@;
    assert(decimal(a) == location_path(a).subrange(
        prefix.len() as int,
        location_path(a).len() as int,
    ));
    assert(decimal(b) == location_path(b).subrange(
        prefix.len() as int,
        location_path(b).len() as int,
    ));
    lemma_decimal_is_injective(a, b);
}

} // verus!
