//! The placeholder resolver: literal substitution of the one recognised token.

use vstd::prelude::*;
use vstd::string::*;
use crate::text::{chars_of, push_char};

verus! {

/// The token that stands for the operator's home directory.
pub const HOME_TOKEN: &'static str = "{{ user.home }}";

/// `text` with every occurrence of `token` replaced by `value`, scanning from
/// the left and never looking again at what was already replaced.
pub open spec fn substitute(text: Seq<char>, token: Seq<char>, value: Seq<char>) -> Seq<char>
    decreases text.len(),
{
    if token.len() == 0 || text.len() < token.len() {
        text
    } else if text.take(token.len() as int) == token {
        value + substitute(text.skip(token.len() as int), token, value)
    } else {
        text.take(1) + substitute(text.skip(1), token, value)
    }
}

/// `text` with the home-directory token replaced by `home`.
pub open spec fn resolved(text: Seq<char>, home: Seq<char>) -> Seq<char> {
    substitute(text, HOME_TOKEN@, home)
}

/// Whether `token` stands in `text` at position `at`.
pub open spec fn occurs_at(text: Seq<char>, token: Seq<char>, at: int) -> bool {
    0 <= at && at + token.len() <= text.len() && text.subrange(at, at + token.len()) == token
}

/// A text in which the token does not occur is left as it is.
pub proof fn lemma_text_without_token_is_unchanged(
    text: Seq<char>,
    token: Seq<char>,
    value: Seq<char>,
)
    requires
        forall|at: int| !occurs_at(text, token, at),
    ensures
        substitute(text, token, value) == text,
    decreases text.len(),
{
    if token.len() == 0 || text.len() < token.len() {
    } else {
        assert(text.take(token.len() as int) != token) by {
            assert(text.take(token.len() as int) == text.subrange(0, 0 + token.len() as int));
            assert(!occurs_at(text, token, 0));
        }
        let rest = text.skip(1);
        assert forall|at: int| !occurs_at(rest, token, at) by {
            if occurs_at(rest, token, at) {
                assert(rest.subrange(at, at + token.len()) == text.subrange(
                    at + 1,
                    at + 1 + token.len(),
                ));
                assert(occurs_at(text, token, at + 1));
            }
        }
        lemma_text_without_token_is_unchanged(rest, token, value);
        assert(text.take(1) + rest == text);
    }
}

/// The token alone becomes the value, and a token at the start of a text is
/// replaced before anything after it is looked at.
pub proof fn lemma_leading_token_is_replaced(
    rest: Seq<char>,
    token: Seq<char>,
    value: Seq<char>,
)
    requires
        token.len() > 0,
    ensures
        substitute(token + rest, token, value) == value + substitute(rest, token, value),
        substitute(token, token, value) == value,
{
    let text = token + rest;
    assert(text.take(token.len() as int) == token);
    assert(text.skip(token.len() as int) == rest);
    assert(token.take(token.len() as int) == token);
    assert(token.skip(token.len() as int) == Seq::<char>::empty());
    assert(substitute(Seq::<char>::empty(), token, value) == Seq::<char>::empty());
    assert(value + Seq::<char>::empty() == value);
}

fn matches_at(text: &Vec<char>, token: &Vec<char>, at: usize) -> (found: bool)
    requires
        at <= text.len(),
    ensures
        found == occurs_at(text@, token@, at as int),
{
    if token.len() > text.len() - at {
        return false;
    }
    let mut k: usize = 0;
    while k < token.len()
        invariant
            k <= token.len(),
            at + token.len() <= text.len(),
            forall|j: int| 0 <= j < k ==> text@[at + j] == token@[j],
        decreases token.len() - k,
    {
        if text[at + k] != token[k] {
            assert(text@.subrange(at as int, at + token.len())[k as int] != token@[k as int]);
            return false;
        }
        k += 1;
    }
    assert(text@.subrange(at as int, at + token.len()) =~= token@);
    true
}

/// Replaces every occurrence of the home-directory token in `text` by `home`.
/// Nothing else is interpreted: any other text, braces included, stays as it is.
pub fn evaluate_vars(text: &str, home: &str) -> (out: String)
    ensures
        out@ == resolved(text@, home@),
{
    let chars = chars_of(text);
    let token = chars_of(HOME_TOKEN);
    proof {
        reveal_strlit("{{ user.home }}");
    }
    let mut out = String::new();
    let mut i: usize = 0;
    assert(chars@.skip(0) == chars@);
    while i < chars.len()
        invariant
            i <= chars.len(),
            token@.len() > 0,
            out@ + substitute(chars@.skip(i as int), token@, home@) == substitute(
                chars@,
                token@,
                home@,
            ),
        decreases chars.len() - i,
    {
        let ghost rest = chars@.skip(i as int);
        if matches_at(&chars, &token, i) {
            assert(rest.take(token@.len() as int) == chars@.subrange(
                i as int,
                i + token@.len(),
            ));
            assert(rest.skip(token@.len() as int) == chars@.skip(i + token@.len()));
            out.append(home);
            i += token.len();
        } else {
            assert(rest.len() >= token@.len() ==> rest.take(token@.len() as int)
                == chars@.subrange(i as int, i + token@.len()));
            assert(rest.take(1) == seq![chars@[i as int]]);
            assert(rest.skip(1) == chars@.skip(i + 1));
            assert(rest.len() < token@.len() ==> rest == rest.take(1) + rest.skip(1));
            push_char(&mut out, chars[i]);
            i += 1;
        }
    }
    assert(chars@.skip(i as int) == Seq::<char>::empty());
    assert(out@ + Seq::<char>::empty() == out@);
    out
}

} // verus!
