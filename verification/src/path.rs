//! How the key of a property is built from the path that leads to it.
//!
//! A mapping's entry is reached through `/`, an element of a sequence through
//! a bracketed index that follows the sequence's own key with no separator:
//! `a/b` for the entry `b` of `a`, `a/b[0]` for the first element of `a/b`.

use vstd::prelude::*;
use vstd::string::StringExecFns;

verus! {

/// The character that writes the digit `d`.
pub open spec fn digit(d: nat) -> char
    recommends
        d < 10,
{
    if d == 0 {
        '0'
    } else if d == 1 {
        '1'
    } else if d == 2 {
        '2'
    } else if d == 3 {
        '3'
    } else if d == 4 {
        '4'
    } else if d == 5 {
        '5'
    } else if d == 6 {
        '6'
    } else if d == 7 {
        '7'
    } else if d == 8 {
        '8'
    } else {
        '9'
    }
}

/// The decimal numeral of `n`: no sign, no leading zero but for zero itself.
pub open spec fn decimal(n: nat) -> Seq<char>
    decreases n,
{
    if n < 10 {
        seq![digit(n)]
    } else {
        decimal(n / 10).push(digit(n % 10))
    }
}

/// The key of the entry named `name` in the mapping whose own key is `prefix`.
pub open spec fn entry_key(prefix: Seq<char>, name: Seq<char>) -> Seq<char> {
    if prefix.len() == 0 {
        name
    } else {
        prefix + seq!['/'] + name
    }
}

/// The key of the element at `index` of the sequence whose own key is `prefix`.
pub open spec fn element_key(prefix: Seq<char>, index: nat) -> Seq<char> {
    prefix + seq!['['] + decimal(index) + seq![']']
}

fn digit_text(d: usize) -> (text: &'static str)
    requires
        d < 10,
    ensures
        text@ == seq![digit(d as nat)],
{
    proof {
        reveal_strlit("0");
        reveal_strlit("1");
        reveal_strlit("2");
        reveal_strlit("3");
        reveal_strlit("4");
        reveal_strlit("5");
        reveal_strlit("6");
        reveal_strlit("7");
        reveal_strlit("8");
        reveal_strlit("9");
    }
    let text = if d == 0 {
        "0"
    } else if d == 1 {
        "1"
    } else if d == 2 {
        "2"
    } else if d == 3 {
        "3"
    } else if d == 4 {
        "4"
    } else if d == 5 {
        "5"
    } else if d == 6 {
        "6"
    } else if d == 7 {
        "7"
    } else if d == 8 {
        "8"
    } else {
        "9"
    };
    assert(text@ =~= seq![digit(d as nat)]);
    text
}

/// Writes `n` as a decimal numeral.
pub fn decimal_text(n: usize) -> (text: String)
    ensures
        text@ == decimal(n as nat),
    decreases n,
{
    if n < 10 {
        String::from_str(digit_text(n))
    } else {
        let mut text = decimal_text(n / 10);
        text.append(digit_text(n % 10));
        assert(text@ =~= decimal(n as nat));
        text
    }
}

/// Joins the key of a mapping with the name of one of its entries.
pub fn join_entry(prefix: &str, name: &str) -> (key: String)
    ensures
        key@ == entry_key(prefix@, name@),
{
    if prefix.is_empty() {
        String::from_str(name)
    } else {
        let mut key = String::from_str(prefix);
        key.append("/");
        key.append(name);
        proof {
            reveal_strlit("/");
            assert("/"@ =~= seq!['/']);
        }
        key
    }
}

/// Joins the key of a sequence with the position of one of its elements.
pub fn join_element(prefix: &str, index: usize) -> (key: String)
    ensures
        key@ == element_key(prefix@, index as nat),
{
    let mut key = String::from_str(prefix);
    key.append("[");
    let numeral = decimal_text(index);
    key.append(numeral.as_str());
    key.append("]");
    proof {
        reveal_strlit("[");
        reveal_strlit("]");
        assert("["@ =~= seq!['[']);
        assert("]"@ =~= seq![']']);
    }
    key
}

} // verus!
