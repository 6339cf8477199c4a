//! Positional templates: a template is a string in which each `{}` stands for
//! the next value of an ordered list.
//!
//! The grammar is that of `dyn_fmt`, which does the rendering. Read from left to
//! right, a template is a sequence of tokens:
//!
//! * a character other than `{` and `}` stands for itself;
//! * `{}` is a placeholder;
//! * any other brace followed by a character stands for that character (so
//!   `{{` is a literal `{` and `}}` a literal `}`);
//! * a brace that ends the template stands for nothing.

use crate::error::FormatError;
use crate::text::{chars_of, is_text};
use dyn_fmt::AsStrFormatExt;
use vstd::prelude::*;

verus! {

/// Whether `c` is one of the two characters that the grammar treats specially.
pub open spec fn is_brace(c: char) -> bool {
    c == '{' || c == '}'
}

/// The number of placeholders in the template `t`.
pub open spec fn placeholder_count(t: Seq<char>) -> nat
    decreases t.len(),
{
    if t.len() == 0 {
        0
    } else if !is_brace(t[0]) {
        placeholder_count(t.skip(1))
    } else if t.len() == 1 {
        0
    } else if t[0] == '{' && t[1] == '}' {
        1 + placeholder_count(t.skip(2))
    } else {
        placeholder_count(t.skip(2))
    }
}

/// The template `t` with its placeholders replaced, from left to right, by the
/// values of `args` in their order. A placeholder for which no value is left
/// is replaced by nothing; values for which no placeholder is left are not used.
pub open spec fn rendered(t: Seq<char>, args: Seq<Seq<char>>) -> Seq<char>
    decreases t.len(),
{
    if t.len() == 0 {
        Seq::empty()
    } else if !is_brace(t[0]) {
        seq![t[0]] + rendered(t.skip(1), args)
    } else if t.len() == 1 {
        Seq::empty()
    } else if t[0] == '{' && t[1] == '}' {
        if args.len() > 0 {
            args[0] + rendered(t.skip(2), args.skip(1))
        } else {
            rendered(t.skip(2), args)
        }
    } else {
        seq![t[1]] + rendered(t.skip(2), args)
    }
}

/// What rendering `t` with `args` gives: the rendered text when there is a value
/// for every placeholder, an arity error when there are fewer values than
/// placeholders.
pub open spec fn render_result(t: Seq<char>, args: Seq<Seq<char>>) -> Result<
    Seq<char>,
    FormatError,
> {
    if placeholder_count(t) <= args.len() {
        Ok(rendered(t, args))
    } else {
        Err(FormatError::ArityMismatch)
    }
}

/// A template has at most half as many placeholders as characters.
pub proof fn lemma_placeholder_count_bound(t: Seq<char>)
    ensures
        2 * placeholder_count(t) <= t.len(),
    decreases t.len(),
{
    if t.len() == 0 {
    } else if !is_brace(t[0]) {
        lemma_placeholder_count_bound(t.skip(1));
    } else if t.len() == 1 {
    } else {
        lemma_placeholder_count_bound(t.skip(2));
    }
}

/// Values beyond the number of placeholders are ignored: rendering with more
/// values than the template has placeholders gives what rendering with just
/// the first of them gives.
pub proof fn lemma_extra_values_ignored(t: Seq<char>, args: Seq<Seq<char>>)
    requires
        placeholder_count(t) <= args.len(),
    ensures
        rendered(t, args) == rendered(t, args.take(placeholder_count(t) as int)),
    decreases t.len(),
{
    let n = placeholder_count(t) as int;
    if t.len() == 0 {
    } else if !is_brace(t[0]) {
        lemma_extra_values_ignored(t.skip(1), args);
    } else if t.len() == 1 {
    } else if t[0] == '{' && t[1] == '}' {
        lemma_extra_values_ignored(t.skip(2), args.skip(1));
        assert(args.take(n).skip(1) == args.skip(1).take(n - 1));
    } else {
        lemma_extra_values_ignored(t.skip(2), args);
    }
}

/// A template without braces has no placeholder and renders as itself,
/// whatever the values are.
pub proof fn lemma_plain_template(t: Seq<char>, args: Seq<Seq<char>>)
    requires
        forall|i: int| 0 <= i < t.len() ==> !is_brace(#[trigger] t[i]),
    ensures
        placeholder_count(t) == 0,
        rendered(t, args) == t,
    decreases t.len(),
{
    if t.len() > 0 {
        let rest = t.skip(1);
        assert forall|i: int| 0 <= i < rest.len() implies !is_brace(#[trigger] rest[i]) by {
            assert(rest[i] == t[i + 1]);
        }
        lemma_plain_template(rest, args);
        assert(seq![t[0]] + rest == t);
    }
}

/// Counts the placeholders of `template`.
pub fn count_placeholders(template: &str) -> (n: usize)
    ensures
        n == placeholder_count(template@),
{
    let chars = chars_of(template);
    let len = chars.len();
    let mut i: usize = 0;
    let mut n: usize = 0;
    proof {
        assert(chars@.skip(0) == chars@);
        lemma_placeholder_count_bound(chars@);
    }
    while i < len
        invariant
            len == chars@.len(),
            i <= len,
            n + placeholder_count(chars@.skip(i as int)) == placeholder_count(chars@),
            2 * placeholder_count(chars@) <= len,
        decreases len - i,
    {
        let ghost rest = chars@.skip(i as int);
        let c = chars[i];
        assert(rest[0] == c);
        if c != '{' && c != '}' {
            assert(rest.skip(1) == chars@.skip(i + 1));
            i = i + 1;
        } else if len - i == 1 {
            i = len;
            assert(chars@.skip(len as int).len() == 0);
        } else {
            let d = chars[i + 1];
            assert(rest[1] == d);
            assert(rest.skip(2) == chars@.skip(i + 2));
            if c == '{' && d == '}' {
                n = n + 1;
            }
            i = i + 2;
        }
    }
    n
}

/// Calls `dyn_fmt`'s `AsStrFormatExt::format` on a template and a list of
/// strings. The contract says that it renders by the grammar of this module:
/// ordinary characters are copied, each `{}` takes the next string (nothing,
/// once they are used up), a brace before another character yields that
/// character, and a brace at the very end is dropped.
#[verifier::external_body]
fn format_with(template: &str, args: &Vec<String>) -> (r: String)
    ensures
        r@ == rendered(template@, args.deep_view()),
{
    template.format(args)
}

/// Renders `template` with `values`, refusing a template that has more
/// placeholders than there are values.
pub fn render(template: &str, values: &Vec<String>) -> (r: Result<String, FormatError>)
    ensures
        is_text(r, render_result(template@, values.deep_view())),
{
    if count_placeholders(template) > values.len() {
        Err(FormatError::ArityMismatch)
    } else {
        Ok(format_with(template, values))
    }
}

} // verus!
