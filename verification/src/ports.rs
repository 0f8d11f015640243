//! The names of the serial ports of the machine, as one line to pick from.

use crate::text::{push_text, texts};
use vstd::prelude::*;
use vstd::utf8::encode_utf8;

verus! {

/// Whether the bytes `a` come before the bytes `b` or are the same, byte by byte from
/// the front, a shorter run before every longer one that starts with it.
pub open spec fn precedes(a: Seq<u8>, b: Seq<u8>) -> bool
    decreases a.len(),
{
    if a.len() == 0 {
        true
    } else if b.len() == 0 {
        false
    } else if a[0] != b[0] {
        a[0] < b[0]
    } else {
        precedes(a.drop_first(), b.drop_first())
    }
}

/// Whether each of `names` comes before those after it, by its bytes of UTF-8.
pub open spec fn ascending(names: Seq<Seq<char>>) -> bool {
    forall|i: int, j: int|
        0 <= i < j < names.len() ==> precedes(
            encode_utf8(#[trigger] names[i]),
            encode_utf8(#[trigger] names[j]),
        )
}

/// `names` in one line, a space between one and the next.
pub open spec fn spaced_out(names: Seq<Seq<char>>) -> Seq<char>
    decreases names.len(),
{
    if names.len() == 0 {
        seq![]
    } else if names.len() == 1 {
        names[0]
    } else {
        spaced_out(names.drop_last()).push(' ') + names.last()
    }
}

/// `<[String]>::sort`: puts the strings in the order of their bytes, and loses and
/// gains none.
#[verifier::external_body]
fn sort_names(names: &mut Vec<String>)
    ensures
        ascending(texts(final(names)@)),
        texts(final(names)@).to_multiset() == texts(old(names)@).to_multiset(),
{
    names.sort()
}

/// The names in order, in one line, a space between one and the next.
pub fn port_list(names: Vec<String>) -> (line: String)
    ensures
        exists|sorted: Seq<Seq<char>>|
            {
                &&& ascending(sorted)
                &&& sorted.to_multiset() == texts(names@).to_multiset()
                &&& line@ == #[trigger] spaced_out(sorted)
            },
{
    let mut names = names;
    sort_names(&mut names);
    let mut line = String::new();
    let mut i: usize = 0;
    while i < names.len()
        invariant
            i <= names.len(),
            line@ == spaced_out(texts(names@).take(i as int)),
        decreases names.len() - i,
    {
        proof {
            let grown = texts(names@).take(i + 1);
            assert(grown.drop_last() == texts(names@).take(i as int));
            assert(grown.last() == names@[i as int]@);
        }
        if i > 0 {
            line.push(' ');
        }
        push_text(&mut line, names[i].as_str());
        i += 1;
    }
    proof {
        assert(texts(names@).take(names@.len() as int) == texts(names@));
    }
    line
}

} // verus!
