//! Conversion of snake_case function names to PascalCase.
use vstd::prelude::*;
use vstd::string::StrSliceExecFns;

use crate::text::{push_char, upper_of, uppercase};

verus! {

/// Position `i` of `s` begins a word: it is first, or follows an underscore.
pub open spec fn starts_word(s: Seq<char>, i: int) -> bool {
    i == 0 || s[i - 1] == '_'
}

/// What the character at `i` becomes, where `uppers[i]` is its upper case:
/// nothing for an underscore, its upper case at the start of a word, itself
/// elsewhere.
pub open spec fn pascal_piece(s: Seq<char>, uppers: Seq<Seq<char>>, i: int) -> Seq<char> {
    if s[i] == '_' {
        Seq::empty()
    } else if starts_word(s, i) {
        uppers[i]
    } else {
        seq![s[i]]
    }
}

/// The conversion of the first `n` characters of `s`.
pub open spec fn pascal_prefix(s: Seq<char>, uppers: Seq<Seq<char>>, n: nat) -> Seq<char>
    decreases n,
{
    if n == 0 {
        Seq::empty()
    } else {
        pascal_prefix(s, uppers, (n - 1) as nat) + pascal_piece(s, uppers, n - 1)
    }
}

/// `s` split at underscores, empty words dropped, each word's first
/// character replaced by its upper case from `uppers`, the words joined.
pub open spec fn pascal_case_with(s: Seq<char>, uppers: Seq<Seq<char>>) -> Seq<char> {
    pascal_prefix(s, uppers, s.len())
}

/// The upper case of each character of `s`.
pub open spec fn uppers_of(s: Seq<char>) -> Seq<Seq<char>> {
    Seq::new(s.len(), |i: int| upper_of(s[i]))
}

/// `s` in PascalCase.
pub open spec fn pascal_case(s: Seq<char>) -> Seq<char> {
    pascal_case_with(s, uppers_of(s))
}

/// Joins the words of `s` in PascalCase, where `uppers[i]` is the upper case
/// of the `i`th character of `s`.
pub fn join_pascal(s: &str, uppers: &Vec<String>) -> (r: String)
    requires
        uppers.len() == s@.len(),
    ensures
        r@ == pascal_case_with(s@, uppers@.map_values(|u: String| u@)),
{
    let ghost ups = uppers@.map_values(|u: String| u@);
    let n = s.unicode_len();
    let mut out = String::new();
    let mut at_start = true;
    let mut i: usize = 0;
    while i < n
        invariant
            n == s@.len(),
            n == uppers.len(),
            ups == uppers@.map_values(|u: String| u@),
            i <= n,
            out@ == pascal_prefix(s@, ups, i as nat),
            at_start == starts_word(s@, i as int),
        decreases n - i,
    {
        let c = s.get_char(i);
        if c == '_' {
            assert(pascal_piece(s@, ups, i as int) =~= Seq::<char>::empty());
        } else if at_start {
            out.append(uppers[i].as_str());
        } else {
            push_char(&mut out, c);
            assert(out@ =~= pascal_prefix(s@, ups, i as nat) + pascal_piece(s@, ups, i as int));
        }
        at_start = c == '_';
        i = i + 1;
    }
    out
}

/// Converts a snake_case name to PascalCase: `get_user_name` becomes
/// `GetUserName`.
pub fn to_pascal_case(s: &str) -> (r: String)
    ensures
        r@ == pascal_case(s@),
{
    let n = s.unicode_len();
    let mut uppers: Vec<String> = Vec::new();
    let mut i: usize = 0;
    while i < n
        invariant
            n == s@.len(),
            i <= n,
            uppers.len() == i,
            forall|j: int| 0 <= j < i ==> (#[trigger] uppers@[j])@ == upper_of(s@[j]),
        decreases n - i,
    {
        let u = uppercase(s.get_char(i));
        uppers.push(u);
        i = i + 1;
    }
    assert(uppers@.map_values(|u: String| u@) =~= uppers_of(s@));
    join_pascal(s, &uppers)
}

} // verus!
