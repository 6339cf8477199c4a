//! Strings as sequences of characters.

use vstd::prelude::*;

verus! {

/// Whether the executable result `r` is the result `expected` of a contract:
/// the same error, or a string with the expected characters.
pub open spec fn is_text<E>(r: Result<String, E>, expected: Result<Seq<char>, E>) -> bool {
    match r {
        Ok(s) => expected == Ok::<Seq<char>, E>(s@),
        Err(e) => expected == Err::<Seq<char>, E>(e),
    }
}

/// The characters of `s`, in order.
pub fn chars_of(s: &str) -> (r: Vec<char>)
    ensures
        r@ == s@,
{
    let mut out: Vec<char> = Vec::new();
    for c in it: s.chars()
        invariant
            out@ == it.seq().take(it.index() as int),
            it.seq() == s@,
    {
        out.push(c);
    }
    out
}

} // verus!
