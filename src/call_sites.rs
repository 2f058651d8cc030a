//! Call sites wired to doubles. Each one asks its double whether it is set;
//! if so it dispatches to the double, and otherwise it runs the real
//! function.
use vstd::prelude::*;

use crate::error::NotConfigured;
use crate::fake::FakeDouble;
use crate::mock::MockDouble;
use crate::stub::StubDouble;
use crate::text::{decimal, push_decimal};

verus! {

/// The configuration used outside tests.
pub fn get_config() -> (r: String)
    ensures
        r@ == "production_config"@,
{
    String::from_str("production_config")
}

/// The configuration, from `stub` when it is set.
pub fn process_config(stub: &StubDouble<String>) -> (r: String)
    ensures
        match stub@.value {
            Some(v) => r@ == v@,
            None => r@ == "production_config"@,
        },
{
    if stub.is_set() {
        match stub.get_return_value() {
            Ok(v) => v,
            Err(_) => get_config(),
        }
    } else {
        get_config()
    }
}

/// The port used outside tests.
pub fn get_port() -> (r: u16)
    ensures
        r == 8080,
{
    8080
}

/// The port, from `stub` when it is set.
pub fn process_port(stub: &StubDouble<u16>) -> (r: u16)
    ensures
        match stub@.value {
            Some(v) => r == v,
            None => r == 8080,
        },
{
    if stub.is_set() {
        match stub.get_return_value() {
            Ok(v) => v,
            Err(_) => get_port(),
        }
    } else {
        get_port()
    }
}

pub fn add_two(x: i32) -> (r: i32)
    requires
        x <= i32::MAX - 2,
    ensures
        r == x + 2,
{
    x + 2
}

/// `add_two` as the fake implements it; fails when the fake is not set.
pub fn add_two_fake<F: Fn(i32) -> i32>(x: i32, fake: &FakeDouble<F>) -> (r: Result<i32, NotConfigured>)
    requires
        fake@.implementation matches Some(f) ==> call_requires(f, (x,)),
    ensures
        match fake@.implementation {
            Some(f) => r matches Ok(y) && call_ensures(f, (x,), y),
            None => r matches Err(e) && e.name@ == fake@.name,
        },
{
    match fake.get_implementation() {
        Ok(f) => Ok(f(x)),
        Err(e) => Err(e),
    }
}

/// `add_two(x) + add_two(x)`, where `add_two` is the fake when it is set.
pub fn calc<F: Fn(i32) -> i32>(x: i32, fake: &FakeDouble<F>) -> (r: i32)
    requires
        match fake@.implementation {
            Some(f) => {
                &&& call_requires(f, (x,))
                &&& forall|y: i32| call_ensures(f, (x,), y) ==> i32::MIN / 2 <= y <= i32::MAX / 2
            },
            None => i32::MIN <= 2 * (x + 2) <= i32::MAX,
        },
    ensures
        match fake@.implementation {
            Some(f) => exists|a: i32, b: i32|
                call_ensures(f, (x,), a) && call_ensures(f, (x,), b) && r == a + b,
            None => r == 2 * (x + 2),
        },
{
    match fake.get_implementation() {
        Ok(f) => {
            let a = f(x);
            let b = f(x);
            a + b
        },
        Err(_) => add_two(x) + add_two(x),
    }
}

/// The English word for each decimal digit.
pub open spec fn digit_word(d: u8) -> Seq<char> {
    if d == 0 {
        "Zero"@
    } else if d == 1 {
        "One"@
    } else if d == 2 {
        "Two"@
    } else if d == 3 {
        "Three"@
    } else if d == 4 {
        "Four"@
    } else if d == 5 {
        "Five"@
    } else if d == 6 {
        "Six"@
    } else if d == 7 {
        "Seven"@
    } else if d == 8 {
        "Eight"@
    } else {
        "Nine"@
    }
}

/// A result's text, in either case.
pub open spec fn text_of(r: Result<String, String>) -> Result<Seq<char>, Seq<char>> {
    match r {
        Ok(s) => Ok(s@),
        Err(e) => Err(e@),
    }
}

/// What `generate_output` makes of a word or an error.
pub open spec fn output_of(w: Result<Seq<char>, Seq<char>>) -> Result<Seq<char>, Seq<char>> {
    match w {
        Ok(s) => Ok("Output: "@ + s),
        Err(e) => Err(e),
    }
}

/// The word for a digit; a value over 9 is refused.
pub fn generate_string_from_digit(digit: u8) -> (r: Result<String, String>)
    ensures
        digit <= 9 ==> text_of(r) == Ok::<Seq<char>, Seq<char>>(digit_word(digit)),
        digit > 9 ==> text_of(r) == Err::<Seq<char>, Seq<char>>("Digit should be between 0 and 9"@),
{
    let word = match digit {
        0 => "Zero",
        1 => "One",
        2 => "Two",
        3 => "Three",
        4 => "Four",
        5 => "Five",
        6 => "Six",
        7 => "Seven",
        8 => "Eight",
        9 => "Nine",
        _ => {
            return Err(String::from_str("Digit should be between 0 and 9"));
        },
    };
    Ok(String::from_str(word))
}

/// "Output: " followed by the word for `digit`, taken from `mock` when it
/// is set; an error from the word passes through unchanged.
pub fn generate_output<F: Fn(u8) -> Result<String, String>>(
    digit: u8,
    mock: &mut MockDouble<u8, F>,
) -> (r: Result<String, String>)
    requires
        old(mock)@.implementation matches Some(f) ==> call_requires(f, (digit,)),
    ensures
        match old(mock)@.implementation {
            Some(f) => {
                &&& final(mock)@ == old(mock)@.record(digit)
                &&& exists|w: Result<String, String>|
                    call_ensures(f, (digit,), w) && text_of(r) == output_of(text_of(w))
            },
            None => {
                &&& final(mock)@ == old(mock)@
                &&& digit <= 9 ==> text_of(r) == output_of(Ok(digit_word(digit)))
                &&& digit > 9 ==> text_of(r) == output_of(
                    Err("Digit should be between 0 and 9"@),
                )
            },
        },
{
    let word = if mock.is_set() {
        match mock.call(digit) {
            Ok(w) => w,
            Err(_) => generate_string_from_digit(digit),
        }
    } else {
        generate_string_from_digit(digit)
    };
    match word {
        Ok(w) => {
            let mut out = String::from_str("Output: ");
            out.append(w.as_str());
            Ok(out)
        },
        Err(e) => Err(e),
    }
}

/// Looks a user up by id.
pub fn fetch_user(id: u32) -> (r: Result<String, String>)
    ensures
        r matches Ok(s) && s@ == "User_"@ + decimal(id as nat),
{
    let mut s = String::from_str("User_");
    push_decimal(&mut s, id);
    Ok(s)
}

/// Fetches the user, from `fetch` when it is set; fails with the fetch's
/// error.
pub fn notify_user<F: Fn(u32) -> Result<String, String>>(
    user_id: u32,
    subject: String,
    fetch: &mut MockDouble<u32, F>,
) -> (r: Result<(), String>)
    requires
        old(fetch)@.implementation matches Some(f) ==> call_requires(f, (user_id,)),
    ensures
        match old(fetch)@.implementation {
            Some(f) => {
                &&& final(fetch)@ == old(fetch)@.record(user_id)
                &&& exists|u: Result<String, String>|
                    call_ensures(f, (user_id,), u) && match u {
                        Ok(_) => r == Ok::<(), String>(()),
                        Err(e) => r == Err::<(), String>(e),
                    }
            },
            None => final(fetch)@ == old(fetch)@ && r == Ok::<(), String>(()),
        },
{
    let user = if fetch.is_set() {
        match fetch.call(user_id) {
            Ok(u) => u,
            Err(_) => fetch_user(user_id),
        }
    } else {
        fetch_user(user_id)
    };
    match user {
        Ok(_) => Ok(()),
        Err(e) => Err(e),
    }
}

} // verus!
