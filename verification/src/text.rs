//! Strings as sequences of characters: the few operations that the rest of the
//! library builds its texts with.

use vstd::prelude::*;
use vstd::string::*;

verus! {

/// `String::push`: the character is appended at the end.
#[verifier::external_body]
pub(crate) fn push_char(s: &mut String, c: char)
    ensures
        final(s)@ == old(s)@.push(c),
{
    s.push(c);
}

/// The characters of `text`, in order.
pub fn chars_of(text: &str) -> (out: Vec<char>)
    ensures
        out@ == text@,
{
    broadcast use vstd::string::group_string_axioms;

    let mut out: Vec<char> = Vec::new();
    for c in it: text.chars()
        invariant
            it.seq() == text@,
            out@ == text@.take(it.index()),
    {
        out.push(c);
    }
    assert(text@.take(text@.len() as int) == text@);
    out
}

/// The text that `chars` holds from position `from` up to, not including, `to`.
pub fn string_of(chars: &Vec<char>, from: usize, to: usize) -> (out: String)
    requires
        from <= to <= chars.len(),
    ensures
        out@ == chars@.subrange(from as int, to as int),
{
    let mut out = String::new();
    let mut i: usize = from;
    while i < to
        invariant
            from <= i <= to <= chars.len(),
            out@ == chars@.subrange(from as int, i as int),
        decreases to - i,
    {
        push_char(&mut out, chars[i]);
        i += 1;
        assert(chars@.subrange(from as int, i as int) == chars@.subrange(from as int, i - 1).push(
            chars@[i - 1],
        ));
    }
    out
}

/// The part of `text` after its last `/`: all of it where it holds none.
pub open spec fn last_segment(text: Seq<char>) -> Seq<char>
    decreases text.len(),
{
    if text.len() == 0 {
        text
    } else if text.last() == '/' {
        Seq::empty()
    } else {
        last_segment(text.drop_last()).push(text.last())
    }
}

/// The last segment of a text is the end of that text, holds no `/`, and is
/// preceded by one unless it is the whole text.
pub proof fn lemma_last_segment(text: Seq<char>)
    ensures
        last_segment(text).len() <= text.len(),
        text.skip(text.len() - last_segment(text).len()) == last_segment(text),
        !last_segment(text).contains('/'),
        last_segment(text).len() < text.len() ==> text[text.len() - last_segment(text).len() - 1]
            == '/',
    decreases text.len(),
{
    if text.len() == 0 {
        assert(text.skip(0) == text);
    } else if text.last() == '/' {
        assert(text.skip(text.len() as int) == Seq::<char>::empty());
    } else {
        let shorter = text.drop_last();
        lemma_last_segment(shorter);
        let inner = last_segment(shorter);
        let whole = last_segment(text);
        assert(whole == inner.push(text.last()));
        assert(text.skip(text.len() - whole.len()) =~= whole) by {
            assert(shorter.skip(shorter.len() - inner.len()) == inner);
            assert forall|k: int| 0 <= k < whole.len() implies text.skip(text.len() - whole.len())[k]
                == whole[k] by {
                if k < inner.len() {
                    assert(shorter.skip(shorter.len() - inner.len())[k] == inner[k]);
                }
            }
        }
        assert(!whole.contains('/')) by {
            if whole.contains('/') {
                let k = choose|k: int| 0 <= k < whole.len() && whole[k] == '/';
                assert(inner[k] == '/');
                assert(inner.contains('/'));
            }
        }
    }
}

/// The part of `text` after its last `/`.
pub fn last_segment_of(text: &str) -> (segment: String)
    ensures
        segment@ == last_segment(text@),
{
    let chars = chars_of(text);
    let mut start: usize = 0;
    let mut i: usize = 0;
    assert(chars@.take(0) == Seq::<char>::empty());
    assert(chars@.subrange(0, 0) == Seq::<char>::empty());
    while i < chars.len()
        invariant
            start <= i <= chars.len(),
            last_segment(chars@.take(i as int)) == chars@.subrange(start as int, i as int),
        decreases chars.len() - i,
    {
        let ghost longer = chars@.take(i + 1);
        assert(longer.drop_last() == chars@.take(i as int));
        assert(longer.last() == chars@[i as int]);
        if chars[i] == '/' {
            start = i + 1;
            assert(chars@.subrange(start as int, start as int) == Seq::<char>::empty());
        } else {
            assert(chars@.subrange(start as int, i + 1) == chars@.subrange(
                start as int,
                i as int,
            ).push(chars@[i as int]));
        }
        i += 1;
    }
    assert(chars@.take(chars.len() as int) == chars@);
    string_of(&chars, start, chars.len())
}

} // verus!
