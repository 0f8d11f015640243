//! Text as characters: the small steps that the transcript is written with.

use vstd::prelude::*;

verus! {

/// `String::push`: appends one character.
pub assume_specification[ String::push ](text: &mut String, ch: char)
    ensures
        final(text)@ == old(text)@.push(ch),
;

/// The characters of `text`, in order.
pub fn chars_of(text: &str) -> (chars: Vec<char>)
    ensures
        chars@ == text@,
{
    let mut chars: Vec<char> = Vec::new();
    for c in it: text.chars()
        invariant
            it.seq() == text@,
            chars@ == text@.take(it.index() as int),
    {
        chars.push(c);
        assert(text@.take(it.index() + 1) == text@.take(it.index() as int).push(c));
    }
    assert(text@.take(text@.len() as int) == text@);
    chars
}

/// Whether `c` is white space of ASCII: a space, a tab, a line feed, a form feed or a
/// carriage return.
pub open spec fn is_blank(c: char) -> bool {
    c == ' ' || c == '\t' || c == '\n' || c == '\x0C' || c == '\r'
}

/// `text` without its white space of ASCII.
pub open spec fn squeezed(text: Seq<char>) -> Seq<char>
    decreases text.len(),
{
    if text.len() == 0 {
        seq![]
    } else if is_blank(text.last()) {
        squeezed(text.drop_last())
    } else {
        squeezed(text.drop_last()).push(text.last())
    }
}

/// `digits` in pairs, with one space between a pair and the next.
pub open spec fn paired(digits: Seq<char>) -> Seq<char>
    decreases digits.len(),
{
    if digits.len() == 0 {
        seq![]
    } else if digits.len() > 1 && (digits.len() - 1) % 2 == 0 {
        paired(digits.drop_last()).push(' ').push(digits.last())
    } else {
        paired(digits.drop_last()).push(digits.last())
    }
}

/// Whether a line that follows `text` starts on a line of its own: `text` is empty or
/// ends in a line feed.
pub open spec fn at_line_start(text: Seq<char>) -> bool {
    text.len() == 0 || text.last() == '\n'
}

/// The place of the first line feed of `text`, or its length where it has none.
pub open spec fn line_end(text: Seq<char>) -> int
    decreases text.len(),
{
    if text.len() == 0 || text[0] == '\n' {
        0
    } else {
        1 + line_end(text.drop_first())
    }
}

/// `line` without the carriage return that it may end in.
pub open spec fn without_return(line: Seq<char>) -> Seq<char> {
    if line.len() > 0 && line.last() == '\r' {
        line.drop_last()
    } else {
        line
    }
}

/// The lines of `text`. A line ends with a line feed, or with a carriage return and a
/// line feed, neither of which belongs to the line; the last line may end with the
/// text, and then keeps a carriage return that it ends in. Empty text has no lines.
pub open spec fn lines_of(text: Seq<char>) -> Seq<Seq<char>>
    decreases text.len(),
{
    if text.len() == 0 {
        seq![]
    } else {
        let end = line_end(text);
        if end >= text.len() {
            seq![text]
        } else {
            proof {
                line_end_in_range(text);
            }
            seq![without_return(text.take(end))] + lines_of(text.skip(end + 1))
        }
    }
}

/// The first `count` of `lines` put together again, a line feed between one and the
/// next, except that whatever comes before a line is dropped while it is empty.
pub open spec fn rejoined(lines: Seq<Seq<char>>, count: int) -> Seq<char>
    decreases count,
{
    if count <= 0 {
        seq![]
    } else {
        follow(rejoined(lines, count - 1), lines[count - 1])
    }
}

/// `line` after `text`, on a line of its own unless `text` is empty.
pub open spec fn follow(text: Seq<char>, line: Seq<char>) -> Seq<char> {
    if text.len() == 0 {
        line
    } else {
        text.push('\n') + line
    }
}

pub proof fn line_end_in_range(text: Seq<char>)
    ensures
        0 <= line_end(text) <= text.len(),
        line_end(text) < text.len() ==> text[line_end(text)] == '\n',
        forall|i: int| 0 <= i < line_end(text) ==> text[i] != '\n',
    decreases text.len(),
{
    if text.len() > 0 && text[0] != '\n' {
        let rest = text.drop_first();
        line_end_in_range(rest);
        assert forall|i: int| 0 <= i < line_end(text) implies text[i] != '\n' by {
            if i > 0 {
                assert(text[i] == rest[i - 1]);
            }
        }
    }
}

/// Whether `text` is empty or ends in a line feed.
pub fn starts_line(text: &str) -> (fresh: bool)
    ensures
        fresh == at_line_start(text@),
{
    let chars = chars_of(text);
    chars.len() == 0 || chars[chars.len() - 1] == '\n'
}

/// Appends the characters `chars[from..to]` to `text`.
fn push_chars(text: &mut String, chars: &Vec<char>, from: usize, to: usize)
    requires
        from <= to <= chars.len(),
    ensures
        final(text)@ == old(text)@ + chars@.subrange(from as int, to as int),
{
    let mut i = from;
    while i < to
        invariant
            from <= i <= to <= chars.len(),
            text@ == old(text)@ + chars@.subrange(from as int, i as int),
        decreases to - i,
    {
        text.push(chars[i]);
        assert(chars@.subrange(from as int, i + 1) == chars@.subrange(from as int, i as int).push(
            chars@[i as int],
        ));
        i += 1;
    }
}

/// Appends `more` to `text`.
pub fn push_text(text: &mut String, more: &str)
    ensures
        final(text)@ == old(text)@ + more@,
{
    let chars = chars_of(more);
    push_chars(text, &chars, 0, chars.len());
    assert(chars@.subrange(0, chars@.len() as int) == chars@);
}

/// `text` without its white space of ASCII.
pub fn squeeze(text: &str) -> (out: String)
    ensures
        out@ == squeezed(text@),
{
    let chars = chars_of(text);
    let mut out = String::new();
    let mut i: usize = 0;
    while i < chars.len()
        invariant
            i <= chars.len(),
            out@ == squeezed(chars@.take(i as int)),
        decreases chars.len() - i,
    {
        let c = chars[i];
        proof {
            let grown = chars@.take(i + 1);
            assert(grown.drop_last() == chars@.take(i as int));
            assert(grown.last() == c);
        }
        if !(c == ' ' || c == '\t' || c == '\n' || c == '\x0C' || c == '\r') {
            out.push(c);
        }
        i += 1;
    }
    assert(chars@.take(chars@.len() as int) == chars@);
    out
}

/// `digits` in pairs, with one space between a pair and the next.
pub fn pair_up(digits: &str) -> (out: String)
    ensures
        out@ == paired(digits@),
{
    let chars = chars_of(digits);
    let mut out = String::new();
    let mut i: usize = 0;
    while i < chars.len()
        invariant
            i <= chars.len(),
            out@ == paired(chars@.take(i as int)),
        decreases chars.len() - i,
    {
        let c = chars[i];
        proof {
            let grown = chars@.take(i + 1);
            assert(grown.drop_last() == chars@.take(i as int));
            assert(grown.last() == c);
        }
        if i != 0 && i % 2 == 0 {
            out.push(' ');
        }
        out.push(c);
        i += 1;
    }
    assert(chars@.take(chars@.len() as int) == chars@);
    out
}

/// The texts of `strings`, one by one.
pub open spec fn texts(strings: Seq<String>) -> Seq<Seq<char>> {
    strings.map_values(|string: String| string@)
}

proof fn line_end_found(text: Seq<char>, end: int)
    requires
        0 <= end <= text.len(),
        forall|i: int| 0 <= i < end ==> text[i] != '\n',
        end < text.len() ==> text[end] == '\n',
    ensures
        line_end(text) == end,
    decreases text.len(),
{
    if end > 0 {
        let rest = text.drop_first();
        assert forall|i: int| 0 <= i < end - 1 implies rest[i] != '\n' by {
            assert(rest[i] == text[i + 1]);
        }
        line_end_found(rest, end - 1);
    }
}

/// The lines of `text`.
pub fn lines(text: &str) -> (out: Vec<String>)
    ensures
        texts(out@) == lines_of(text@),
{
    let chars = chars_of(text);
    let mut out: Vec<String> = Vec::new();
    let mut start: usize = 0;
    proof {
        assert(chars@.skip(0) == chars@);
        assert(texts(out@) == Seq::<Seq<char>>::empty());
    }
    while start < chars.len()
        invariant
            start <= chars.len(),
            lines_of(chars@) == texts(out@) + lines_of(chars@.skip(start as int)),
        decreases chars.len() - start,
    {
        let mut end = start;
        while end < chars.len() && chars[end] != '\n'
            invariant
                start <= end <= chars.len(),
                forall|i: int| start <= i < end ==> chars@[i] != '\n',
            decreases chars.len() - end,
        {
            end += 1;
        }
        let ghost rest = chars@.skip(start as int);
        let ghost before = texts(out@);
        proof {
            line_end_found(rest, end - start);
        }
        let mut line = String::new();
        if end == chars.len() {
            push_chars(&mut line, &chars, start, end);
            out.push(line);
            proof {
                assert(chars@.subrange(start as int, end as int) == rest);
                assert(texts(out@) == before.push(rest));
                assert(lines_of(chars@.skip(end as int)) == Seq::<Seq<char>>::empty());
            }
            start = end;
        } else {
            let stop = if end > start && chars[end - 1] == '\r' {
                end - 1
            } else {
                end
            };
            push_chars(&mut line, &chars, start, stop);
            out.push(line);
            proof {
                let whole = rest.take(end - start);
                assert(whole == chars@.subrange(start as int, end as int));
                assert(chars@.subrange(start as int, stop as int) == without_return(whole));
                assert(texts(out@) == before.push(without_return(whole)));
                assert(rest.skip(end - start + 1) == chars@.skip(end + 1));
            }
            start = end + 1;
        }
    }
    proof {
        assert(lines_of(chars@.skip(start as int)) == Seq::<Seq<char>>::empty());
    }
    out
}

/// The first `count` of `lines` put together again: see [`rejoined`].
pub fn rejoin(lines: &Vec<String>, count: usize) -> (out: String)
    requires
        count <= lines.len(),
    ensures
        out@ == rejoined(texts(lines@), count as int),
{
    let mut out = String::new();
    let mut i: usize = 0;
    while i < count
        invariant
            i <= count <= lines.len(),
            out@ == rejoined(texts(lines@), i as int),
        decreases count - i,
    {
        out = follow_with(out, lines[i].as_str());
        i += 1;
    }
    out
}

/// `line` after `text`, on a line of its own unless `text` is empty.
pub fn follow_with(text: String, line: &str) -> (out: String)
    ensures
        out@ == follow(text@, line@),
{
    let mut out = text;
    if out.as_str().is_empty() {
        push_text(&mut out, line);
    } else {
        out.push('\n');
        push_text(&mut out, line);
    }
    out
}

/// The decimal digit of a value below ten.
pub open spec fn digit(value: int) -> char {
    seq!['0', '1', '2', '3', '4', '5', '6', '7', '8', '9'][value]
}

/// `value` in decimal digits, without leading zeros.
pub open spec fn decimal(value: nat) -> Seq<char>
    decreases value,
{
    if value < 10 {
        seq![digit(value as int)]
    } else {
        decimal(value / 10).push(digit((value % 10) as int))
    }
}

fn digit_of(value: u32) -> (c: char)
    requires
        value < 10,
    ensures
        c == digit(value as int),
{
    match value {
        0 => '0',
        1 => '1',
        2 => '2',
        3 => '3',
        4 => '4',
        5 => '5',
        6 => '6',
        7 => '7',
        8 => '8',
        _ => '9',
    }
}

/// `value` in decimal digits, without leading zeros.
pub fn to_decimal(value: u32) -> (out: String)
    ensures
        out@ == decimal(value as nat),
{
    let mut low_first: Vec<char> = Vec::new();
    let mut rest = value;
    low_first.push(digit_of(rest % 10));
    rest = rest / 10;
    while rest > 0
        invariant
            low_first@.len() > 0,
            decimal(value as nat) == if rest > 0 {
                decimal(rest as nat) + low_first@.reverse()
            } else {
                low_first@.reverse()
            },
        decreases rest,
    {
        let ghost seen = low_first@;
        low_first.push(digit_of(rest % 10));
        proof {
            assert(low_first@.reverse() == seq![digit((rest % 10) as int)] + seen.reverse());
            if rest >= 10 {
                assert(decimal(rest as nat) == decimal((rest / 10) as nat).push(
                    digit((rest % 10) as int),
                ));
                assert(decimal((rest / 10) as nat).push(digit((rest % 10) as int)) + seen.reverse()
                    == decimal((rest / 10) as nat) + low_first@.reverse());
            }
        }
        rest = rest / 10;
    }
    let mut out = String::new();
    let mut left = low_first.len();
    while left > 0
        invariant
            left <= low_first.len(),
            out@ == low_first@.reverse().take(low_first.len() - left),
        decreases left,
    {
        left -= 1;
        out.push(low_first[left]);
        proof {
            let turned = low_first@.reverse();
            let at = low_first.len() - left - 1;
            assert(turned[at] == low_first@[left as int]);
            assert(turned.take(at + 1) == turned.take(at).push(turned[at]));
        }
    }
    assert(low_first@.reverse().take(low_first.len() as int) == low_first@.reverse());
    out
}

/// Whether no character of `text` is white space of ASCII.
pub open spec fn blank_free(text: Seq<char>) -> bool {
    forall|i: int| 0 <= i < text.len() ==> !is_blank(#[trigger] text[i])
}

/// Squeezing leaves alone a text without white space.
pub proof fn squeezed_blank_free(text: Seq<char>)
    requires
        blank_free(text),
    ensures
        squeezed(text) == text,
    decreases text.len(),
{
    if text.len() > 0 {
        let before = text.drop_last();
        assert forall|i: int| 0 <= i < before.len() implies !is_blank(#[trigger] before[i]) by {
            assert(before[i] == text[i]);
        }
        squeezed_blank_free(before);
        assert(!is_blank(text[text.len() - 1]));
        assert(before.push(text.last()) == text);
    }
}

/// Pairing up and squeezing again gives the digits back: the spaces between the pairs
/// are all that pairing adds.
pub proof fn squeezed_paired(digits: Seq<char>)
    requires
        blank_free(digits),
    ensures
        squeezed(paired(digits)) == digits,
        forall|i: int| 0 <= i < paired(digits).len() ==> (#[trigger] paired(digits)[i]) != '\n',
        digits.len() > 0 ==> paired(digits).len() > 0,
    decreases digits.len(),
{
    if digits.len() > 0 {
        let before = digits.drop_last();
        let last = digits.last();
        assert forall|i: int| 0 <= i < before.len() implies !is_blank(#[trigger] before[i]) by {
            assert(before[i] == digits[i]);
        }
        squeezed_paired(before);
        assert(!is_blank(digits[digits.len() - 1]));
        assert(before.push(last) == digits);
        if digits.len() > 1 && (digits.len() - 1) % 2 == 0 {
            let spaced = paired(before).push(' ');
            let all = spaced.push(last);
            assert(paired(digits) == all);
            assert(spaced.drop_last() == paired(before));
            assert(spaced.last() == ' ');
            assert(squeezed(spaced) == before);
            assert(all.drop_last() == spaced);
            assert(all.last() == last);
            assert(squeezed(all) == squeezed(spaced).push(last));
        } else {
            let all = paired(before).push(last);
            assert(paired(digits) == all);
            assert(all.drop_last() == paired(before));
            assert(all.last() == last);
            assert(squeezed(all) == squeezed(paired(before)).push(last));
        }
    }
}

/// A text without a line feed, unless it is empty, is one line: itself.
pub proof fn one_line(text: Seq<char>)
    requires
        text.len() > 0,
        forall|i: int| 0 <= i < text.len() ==> (#[trigger] text[i]) != '\n',
    ensures
        lines_of(text) == seq![text],
{
    line_end_found(text, text.len() as int);
}

} // verus!
