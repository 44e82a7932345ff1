//! The greeting text that both services answer with.

use vstd::prelude::*;

verus! {

/// `"Hello, "`
pub open spec fn hello_prefix() -> Seq<char> {
    seq!['H', 'e', 'l', 'l', 'o', ',', ' ']
}

/// `"!"`
pub open spec fn hello_suffix() -> Seq<char> {
    seq!['!']
}

/// `"unknown stranger"`, the name used when a caller gives none.
pub open spec fn stranger() -> Seq<char> {
    seq!['u', 'n', 'k', 'n', 'o', 'w', 'n', ' ', 's', 't', 'r', 'a', 'n', 'g', 'e', 'r']
}

/// The greeting for `name`: `Hello, {name}!`.
pub open spec fn greeting(name: Seq<char>) -> Seq<char> {
    hello_prefix() + name + hello_suffix()
}

/// The name `"unknown stranger"` as a `String`.
pub fn unknown_stranger() -> (s: String)
    ensures
        s@ == stranger(),
{
    let s = String::from_str("unknown stranger");
    proof {
        reveal_strlit("unknown stranger");
    }
    assert(s@ =~= stranger());
    s
}

/// Builds the greeting `Hello, {name}!`.
pub fn local_reponse(name: &str) -> (res: String)
    ensures
        res@ == greeting(name@),
{
    let mut res = String::from_str("Hello, ");
    res.append(name);
    res.append("!");
    proof {
        reveal_strlit("Hello, ");
        reveal_strlit("!");
    }
    assert(res@ =~= greeting(name@));
    res
}

} // verus!
