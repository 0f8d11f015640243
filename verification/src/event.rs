//! The transcript: how bytes that went in or out are written into the text on show, and
//! which stretch of the text belongs to which side.

use crate::data::{OpenMessage, OpenMessageView, OutputTag, Protocol};
use crate::hexcode::{decodable, decode, decoded, encode_upper, hex_upper};
use crate::serial::{ByteDirection, GuiMessage, GuiMessageView};
use crate::text::{
    at_line_start, decimal, follow, follow_with, lines, lines_of, pair_up, paired, push_text,
    rejoin, rejoined, squeeze, squeezed, starts_line, texts, to_decimal,
};
use std::collections::VecDeque;
use std::ops::Range;
use vstd::prelude::*;
use vstd::utf8::{decode_utf8, encode_utf8, is_char_boundary, valid_utf8};

verus! {

/// The most that the text on show may hold, in bytes.
pub const MAX_VIEW_SIZE: usize = 1024 * 180;

/// The colour of a stretch of the transcript: red, green and blue.
pub fn get_tag_color(tag: OutputTag) -> (rgb: (u8, u8, u8))
    ensures
        rgb == match tag {
            OutputTag::TextIn => (128u8, 0u8, 255u8),
            OutputTag::TextOut => (50u8, 190u8, 220u8),
            OutputTag::RawIn => (25u8, 155u8, 35u8),
            OutputTag::RawOut => (240u8, 160u8, 25u8),
        },
{
    match tag {
        OutputTag::TextIn => (128, 0, 255),
        OutputTag::TextOut => (50, 190, 220),
        OutputTag::RawIn => (25, 155, 35),
        OutputTag::RawOut => (240, 160, 25),
    }
}

/// The length of `text` in bytes of UTF-8.
pub open spec fn byte_len(text: Seq<char>) -> nat {
    encode_utf8(text).len()
}

/// The tag of the stretch written last, where one was written.
pub open spec fn last_tag(stretches: Seq<(Range<usize>, OutputTag)>) -> Option<OutputTag> {
    if stretches.len() == 0 {
        None
    } else {
        Some(stretches.last().1)
    }
}

/// The stretch that a text grown from `before` to `after` has gained.
pub open spec fn gained(before: Seq<char>, after: Seq<char>) -> Range<usize> {
    Range { start: byte_len(before) as usize, end: byte_len(after) as usize }
}

/// `output` with a line `line` of its own after it: what was sent is never written
/// into a line that is under way, and always ends its own line.
pub open spec fn with_line(output: Seq<char>, line: Seq<char>) -> Seq<char> {
    if at_line_start(output) {
        output + line.push('\n')
    } else {
        output.push('\n') + line.push('\n')
    }
}

/// `output` after bytes shown as the hexadecimal digits `digits`. What was sent gets a
/// line of its own. What was received goes on in the last line where that line was
/// received as digits too, and is paired up again with the digits that stand there; it
/// starts a new line after received text, and else follows where the output ends.
pub open spec fn raw_shown(
    direction: ByteDirection,
    digits: Seq<char>,
    output: Seq<char>,
    last: Option<OutputTag>,
) -> Seq<char> {
    match direction {
        ByteDirection::Out => with_line(output, paired(digits)),
        ByteDirection::In => match last {
            Some(OutputTag::RawIn) => {
                let lines = lines_of(output);
                if lines.len() == 0 {
                    output
                } else {
                    follow(
                        rejoined(lines, lines.len() - 1),
                        paired(squeezed(lines.last()) + digits),
                    )
                }
            },
            Some(OutputTag::TextIn) => output.push('\n') + paired(digits),
            _ => output + paired(digits),
        },
    }
}

/// `output` after bytes shown as the text `text`. What was sent gets a line of its
/// own. What was received starts a new line after received digits, and else follows
/// where the output ends.
pub open spec fn text_shown(
    direction: ByteDirection,
    text: Seq<char>,
    output: Seq<char>,
    last: Option<OutputTag>,
) -> Seq<char> {
    match direction {
        ByteDirection::Out => with_line(output, text),
        ByteDirection::In => match last {
            Some(OutputTag::RawIn) => output.push('\n') + text,
            _ => output + text,
        },
    }
}

fn byte_length(text: &str) -> (len: usize)
    ensures
        len == byte_len(text@),
{
    text.as_bytes().len()
}

fn add_line(output: &mut String, line: &str)
    ensures
        final(output)@ == with_line(old(output)@, line@),
{
    if !starts_line(output.as_str()) {
        output.push('\n');
    }
    push_text(output, line);
    output.push('\n');
    assert(final(output)@ == with_line(old(output)@, line@));
}

fn tag_at_end(output_attr: &VecDeque<(Range<usize>, OutputTag)>) -> (tag: Option<OutputTag>)
    ensures
        tag == last_tag(output_attr@),
{
    if output_attr.len() == 0 {
        None
    } else {
        Some(output_attr[output_attr.len() - 1].1)
    }
}

/// Writes bytes into the output as hexadecimal digits, in pairs, and notes as a new
/// stretch what the output gained.
pub fn display_raw(
    io_data: &(ByteDirection, Vec<u8>),
    output: &mut String,
    output_attr: &mut VecDeque<(Range<usize>, OutputTag)>,
)
    ensures
        final(output)@ == raw_shown(
            io_data.0,
            hex_upper(io_data.1@),
            old(output)@,
            last_tag(old(output_attr)@),
        ),
        final(output_attr)@ == old(output_attr)@.push(
            (
                gained(old(output)@, final(output)@),
                match io_data.0 {
                    ByteDirection::Out => OutputTag::RawOut,
                    ByteDirection::In => OutputTag::RawIn,
                },
            ),
        ),
{
    let before_insert_len = byte_length(output.as_str());
    let digits = encode_upper(io_data.1.as_slice());
    match io_data.0 {
        ByteDirection::Out => {
            let line = pair_up(digits.as_str());
            add_line(output, line.as_str());
            output_attr.push_back(
                (Range { start: before_insert_len, end: byte_length(output.as_str()) }, OutputTag::RawOut),
            );
        },
        ByteDirection::In => {
            match tag_at_end(output_attr) {
                Some(OutputTag::RawIn) => {
                    let shown = lines(output.as_str());
                    if shown.len() > 0 {
                        let mut all = squeeze(shown[shown.len() - 1].as_str());
                        push_text(&mut all, digits.as_str());
                        let line = pair_up(all.as_str());
                        let head = rejoin(&shown, shown.len() - 1);
                        proof {
                            assert(texts(shown@).last() == shown@.last()@);
                        }
                        *output = follow_with(head, line.as_str());
                    }
                },
                Some(OutputTag::TextIn) => {
                    let line = pair_up(digits.as_str());
                    output.push('\n');
                    push_text(output, line.as_str());
                },
                _ => {
                    let line = pair_up(digits.as_str());
                    push_text(output, line.as_str());
                },
            }
            output_attr.push_back(
                (Range { start: before_insert_len, end: byte_length(output.as_str()) }, OutputTag::RawIn),
            );
        },
    }
}

/// Writes `text` into the output, and notes as a new stretch what the output gained.
pub fn append_text(
    direction: ByteDirection,
    text: &str,
    output: &mut String,
    output_attr: &mut VecDeque<(Range<usize>, OutputTag)>,
)
    ensures
        final(output)@ == text_shown(direction, text@, old(output)@, last_tag(old(output_attr)@)),
        final(output_attr)@ == old(output_attr)@.push(
            (
                gained(old(output)@, final(output)@),
                match direction {
                    ByteDirection::Out => OutputTag::TextOut,
                    ByteDirection::In => OutputTag::TextIn,
                },
            ),
        ),
{
    let before_insert_len = byte_length(output.as_str());
    match direction {
        ByteDirection::Out => {
            add_line(output, text);
            output_attr.push_back(
                (Range { start: before_insert_len, end: byte_length(output.as_str()) }, OutputTag::TextOut),
            );
        },
        ByteDirection::In => {
            match tag_at_end(output_attr) {
                Some(OutputTag::RawIn) => {
                    output.push('\n');
                    push_text(output, text);
                },
                _ => {
                    push_text(output, text);
                },
            }
            output_attr.push_back(
                (Range { start: before_insert_len, end: byte_length(output.as_str()) }, OutputTag::TextIn),
            );
        },
    }
}

/// The text that bytes are shown as: the text that they encode in UTF-8, and where they
/// encode none, that text with a replacement character for whatever is no character.
pub uninterp spec fn lossy_text(bytes: Seq<u8>) -> Seq<char>;

/// `String::from_utf8_lossy`: the text of `bytes`, which is the text that they encode
/// where they are UTF-8.
#[verifier::external_body]
fn utf8_lossy(bytes: &[u8]) -> (text: String)
    ensures
        text@ == lossy_text(bytes@),
        valid_utf8(bytes@) ==> text@ == decode_utf8(bytes@),
{
    String::from_utf8_lossy(bytes).into_owned()
}

/// Writes bytes into the output as the text that they are, and notes as a new stretch
/// what the output gained.
pub fn display_text(
    io_data: &(ByteDirection, Vec<u8>),
    output: &mut String,
    output_attr: &mut VecDeque<(Range<usize>, OutputTag)>,
)
    ensures
        final(output)@ == text_shown(
            io_data.0,
            lossy_text(io_data.1@),
            old(output)@,
            last_tag(old(output_attr)@),
        ),
        valid_utf8(io_data.1@) ==> lossy_text(io_data.1@) == decode_utf8(io_data.1@),
        final(output_attr)@ == old(output_attr)@.push(
            (
                gained(old(output)@, final(output)@),
                match io_data.0 {
                    ByteDirection::Out => OutputTag::TextOut,
                    ByteDirection::In => OutputTag::TextIn,
                },
            ),
        ),
{
    let text = utf8_lossy(io_data.1.as_slice());
    append_text(io_data.0, text.as_str(), output, output_attr);
}

/// `stretch` in a text that lost its first `cut` bytes: both ends move down by `cut`,
/// and stop at the start of the text.
pub open spec fn shifted(stretch: (Range<usize>, OutputTag), cut: int) -> (
    Range<usize>,
    OutputTag,
) {
    (
        Range {
            start: if stretch.0.start >= cut {
                (stretch.0.start - cut) as usize
            } else {
                0
            },
            end: if stretch.0.end >= cut {
                (stretch.0.end - cut) as usize
            } else {
                0
            },
        },
        stretch.1,
    )
}

/// Every stretch of `stretches` in a text that lost its first `cut` bytes.
pub open spec fn all_shifted(stretches: Seq<(Range<usize>, OutputTag)>, cut: int) -> Seq<
    (Range<usize>, OutputTag),
> {
    stretches.map_values(|stretch: (Range<usize>, OutputTag)| shifted(stretch, cut))
}

/// How many stretches stand before the first one that begins at the start of the text:
/// all of them where none does.
pub open spec fn before_start(stretches: Seq<(Range<usize>, OutputTag)>) -> int
    decreases stretches.len(),
{
    if stretches.len() == 0 || stretches[0].0.start == 0 {
        0
    } else {
        1 + before_start(stretches.drop_first())
    }
}

/// How many bytes the text `output` is over the most that may be on show.
pub open spec fn excess(output: Seq<char>) -> int {
    byte_len(output) - MAX_VIEW_SIZE
}

/// Whether a text over the limit can be cut down to it: the cut falls between two
/// characters, and a stretch is left that begins at the start of what stays.
pub open spec fn can_cut(output: Seq<char>, stretches: Seq<(Range<usize>, OutputTag)>) -> bool {
    &&& is_char_boundary(encode_utf8(output), excess(output))
    &&& before_start(all_shifted(stretches, excess(output))) < stretches.len()
}

proof fn before_start_found(stretches: Seq<(Range<usize>, OutputTag)>, count: int)
    requires
        0 <= count <= stretches.len(),
        forall|i: int| 0 <= i < count ==> stretches[i].0.start != 0,
        count < stretches.len() ==> stretches[count].0.start == 0,
    ensures
        before_start(stretches) == count,
    decreases stretches.len(),
{
    if count > 0 {
        let rest = stretches.drop_first();
        assert forall|i: int| 0 <= i < count - 1 implies rest[i].0.start != 0 by {
            assert(rest[i] == stretches[i + 1]);
        }
        before_start_found(rest, count - 1);
    }
}

fn shift(stretch: (Range<usize>, OutputTag), cut: usize) -> (moved: (Range<usize>, OutputTag))
    ensures
        moved == shifted(stretch, cut as int),
{
    let start = if stretch.0.start >= cut {
        stretch.0.start - cut
    } else {
        0
    };
    let end = if stretch.0.end >= cut {
        stretch.0.end - cut
    } else {
        0
    };
    (Range { start, end }, stretch.1)
}

/// How many of the stretches, each moved down by `cut`, stand before the first that
/// then begins at the start of the text.
fn count_before_start(output_attr: &VecDeque<(Range<usize>, OutputTag)>, cut: usize) -> (count:
    usize)
    ensures
        count == before_start(all_shifted(output_attr@, cut as int)),
        count <= output_attr@.len(),
{
    let mut count: usize = 0;
    while count < output_attr.len() && output_attr[count].0.start > cut
        invariant
            count <= output_attr@.len(),
            forall|i: int|
                0 <= i < count ==> all_shifted(output_attr@, cut as int)[i].0.start != 0,
        decreases output_attr@.len() - count,
    {
        count += 1;
    }
    proof {
        before_start_found(all_shifted(output_attr@, cut as int), count as int);
    }
    count
}

/// Cuts a text that is over the limit down to it, from the front, and moves the
/// stretches with it; leaves a text within the limit alone. The stretches that come
/// before the first one at the start of what stays are dropped.
pub fn trim_view(output: &mut String, output_attr: &mut VecDeque<(Range<usize>, OutputTag)>)
    requires
        excess(old(output)@) > 0 ==> can_cut(old(output)@, old(output_attr)@),
    ensures
        excess(old(output)@) <= 0 ==> {
            &&& final(output)@ == old(output)@
            &&& final(output_attr)@ == old(output_attr)@
        },
        excess(old(output)@) > 0 ==> {
            &&& encode_utf8(final(output)@) == encode_utf8(old(output)@).skip(excess(old(output)@))
            &&& byte_len(final(output)@) == MAX_VIEW_SIZE
            &&& final(output_attr)@ == all_shifted(old(output_attr)@, excess(old(output)@)).skip(
                before_start(all_shifted(old(output_attr)@, excess(old(output)@))),
            )
        },
{
    let output_len = byte_length(output.as_str());
    if output_len > MAX_VIEW_SIZE {
        let cut = output_len - MAX_VIEW_SIZE;
        let kept = output.as_str().split_at(cut).1.to_owned();
        *output = kept;
        let skip = count_before_start(output_attr, cut);
        let ghost all = all_shifted(old(output_attr)@, cut as int);
        let mut moved: VecDeque<(Range<usize>, OutputTag)> = VecDeque::new();
        let total = output_attr.len();
        let mut i: usize = 0;
        while output_attr.len() > 0
            invariant
                i + output_attr@.len() == total,
                total == old(output_attr)@.len(),
                output_attr@ == old(output_attr)@.skip(i as int),
                all == all_shifted(old(output_attr)@, cut as int),
                skip == before_start(all),
                skip <= all.len(),
                moved@ == if i <= skip {
                    Seq::<(Range<usize>, OutputTag)>::empty()
                } else {
                    all.subrange(skip as int, i as int)
                },
            decreases output_attr@.len(),
        {
            let stretch = output_attr.pop_front().unwrap();
            if i >= skip {
                moved.push_back(shift(stretch, cut));
                proof {
                    assert(all.subrange(skip as int, i + 1) == all.subrange(
                        skip as int,
                        i as int,
                    ).push(all[i as int]));
                }
            }
            i += 1;
        }
        proof {
            assert(all.subrange(skip as int, all.len() as int) == all.skip(skip as int));
        }
        *output_attr = moved;
    }
}

/// Cuts the text down as [`trim_view`] does where that can be done, and says whether it
/// could; changes nothing where it cannot.
pub fn try_trim_view(
    output: &mut String,
    output_attr: &mut VecDeque<(Range<usize>, OutputTag)>,
) -> (done: bool)
    ensures
        done == (excess(old(output)@) > 0 ==> can_cut(old(output)@, old(output_attr)@)),
        !done ==> final(output)@ == old(output)@ && final(output_attr)@ == old(output_attr)@,
        done && excess(old(output)@) <= 0 ==> {
            &&& final(output)@ == old(output)@
            &&& final(output_attr)@ == old(output_attr)@
        },
        done && excess(old(output)@) > 0 ==> {
            &&& encode_utf8(final(output)@) == encode_utf8(old(output)@).skip(excess(old(output)@))
            &&& byte_len(final(output)@) == MAX_VIEW_SIZE
            &&& final(output_attr)@ == all_shifted(old(output_attr)@, excess(old(output)@)).skip(
                before_start(all_shifted(old(output_attr)@, excess(old(output)@))),
            )
        },
{
    let output_len = byte_length(output.as_str());
    if output_len > MAX_VIEW_SIZE {
        let cut = output_len - MAX_VIEW_SIZE;
        if !output.as_str().is_char_boundary(cut) {
            return false;
        }
        if count_before_start(output_attr, cut) >= output_attr.len() {
            return false;
        }
    }
    trim_view(output, output_attr);
    true
}

/// The bytes that the text `to_write` asks to send. Under the raw protocol it is read
/// as hexadecimal digits, two for each byte, with white space wherever one likes, and
/// stands for no bytes where it is anything else; under the text protocol it stands for
/// its own bytes.
pub open spec fn payload(protocol: Protocol, to_write: Seq<char>) -> Option<Seq<u8>> {
    match protocol {
        Protocol::Raw => {
            let digits = encode_utf8(squeezed(to_write));
            if decodable(digits) {
                Some(decoded(digits))
            } else {
                None
            }
        },
        Protocol::Text => Some(encode_utf8(to_write)),
    }
}

/// The status line after a request to open: the port, the baud rate, and the words for
/// flow control, parity and stop bits, with a comma and a space between them.
pub open spec fn open_status_of(message: OpenMessageView) -> Seq<char> {
    message.port_name + ", "@ + decimal(message.baud_rate as nat) + ", "@
        + message.flow_control.label() + ", "@ + message.parity.label() + ", "@
        + message.stop_bits.label()
}

/// The decisions of the user interface's event handler.
#[derive(Debug, Clone, Copy, PartialEq, Eq, Structural)]
pub struct EventHandler;

impl EventHandler {
    pub fn new() -> (handler: Self)
        ensures
            handler == EventHandler,
    {
        EventHandler {  }
    }

    /// Writes bytes that went in or out into the output, as the protocol on show has
    /// it: as digits under the raw protocol, as text under the text protocol.
    pub fn show(
        &self,
        protocol: Protocol,
        io_data: &(ByteDirection, Vec<u8>),
        output: &mut String,
        output_attr: &mut VecDeque<(Range<usize>, OutputTag)>,
    )
        ensures
            final(output)@ == match protocol {
                Protocol::Raw => raw_shown(
                    io_data.0,
                    hex_upper(io_data.1@),
                    old(output)@,
                    last_tag(old(output_attr)@),
                ),
                Protocol::Text => text_shown(
                    io_data.0,
                    lossy_text(io_data.1@),
                    old(output)@,
                    last_tag(old(output_attr)@),
                ),
            },
            final(output_attr)@ == old(output_attr)@.push(
                (
                    gained(old(output)@, final(output)@),
                    match (protocol, io_data.0) {
                        (Protocol::Raw, ByteDirection::Out) => OutputTag::RawOut,
                        (Protocol::Raw, ByteDirection::In) => OutputTag::RawIn,
                        (Protocol::Text, ByteDirection::Out) => OutputTag::TextOut,
                        (Protocol::Text, ByteDirection::In) => OutputTag::TextIn,
                    },
                ),
            ),
    {
        match protocol {
            Protocol::Raw => display_raw(io_data, output, output_attr),
            Protocol::Text => display_text(io_data, output, output_attr),
        }
    }

    /// The request to write that the text `to_write` stands for, or the status line
    /// that says that it stands for none.
    pub fn write_message(&self, protocol: Protocol, to_write: &str) -> (message: Result<
        GuiMessage,
        String,
    >)
        ensures
            match payload(protocol, to_write@) {
                Some(bytes) => message is Ok && message.unwrap()@ == GuiMessageView::Write(bytes),
                None => message is Err && message.unwrap_err()@
                    == "Incorrect data doesn't respect protocol format"@,
            },
    {
        match protocol {
            Protocol::Raw => {
                let digits = squeeze(to_write);
                match decode(digits.as_str().as_bytes()) {
                    Some(bytes) => Ok(GuiMessage::Write(bytes)),
                    None => Err("Incorrect data doesn't respect protocol format".to_owned()),
                }
            },
            Protocol::Text => Ok(GuiMessage::Write(vstd::slice::slice_to_vec(to_write.as_bytes()))),
        }
    }

    /// The status line after a request to open with `message`.
    pub fn open_status(&self, message: &OpenMessage) -> (status: String)
        ensures
            status@ == open_status_of(message@),
    {
        let mut status = message.port_name.clone();
        push_text(&mut status, ", ");
        push_text(&mut status, to_decimal(message.baud_rate).as_str());
        push_text(&mut status, ", ");
        push_text(&mut status, message.flow_control.to_string().as_str());
        push_text(&mut status, ", ");
        push_text(&mut status, message.parity.to_string().as_str());
        push_text(&mut status, ", ");
        push_text(&mut status, message.stop_bits.to_string().as_str());
        status
    }
}

/// Bytes received right after bytes received, both shown as digits, stand in one line
/// as if they had been received at once: the digits of all of them, in pairs.
pub proof fn received_digits_join(first: Seq<u8>, second: Seq<u8>)
    requires
        first.len() > 0,
    ensures
        raw_shown(
            ByteDirection::In,
            hex_upper(first),
            Seq::<char>::empty(),
            None::<OutputTag>,
        ) == paired(hex_upper(first)),
        raw_shown(
            ByteDirection::In,
            hex_upper(second),
            paired(hex_upper(first)),
            Some(OutputTag::RawIn),
        ) == paired(hex_upper(first + second)),
{
    let digits = hex_upper(first);
    let line = paired(digits);
    crate::hexcode::hex_upper_reads_back(first);
    crate::text::squeezed_paired(digits);
    crate::text::one_line(line);
    crate::hexcode::hex_upper_joins(first, second);
    assert(Seq::<char>::empty() + line == line);
    assert(lines_of(line).last() == line);
    assert(rejoined(lines_of(line), 0) == Seq::<char>::empty());
}

/// What the transcript shows for bytes sent as digits, typed in again under the raw
/// protocol, asks to send those bytes.
pub proof fn shown_digits_send_the_bytes(bytes: Seq<u8>)
    ensures
        payload(Protocol::Raw, paired(hex_upper(bytes))) == Some(bytes),
        payload(Protocol::Raw, hex_upper(bytes)) == Some(bytes),
{
    crate::hexcode::hex_upper_reads_back(bytes);
    crate::text::squeezed_paired(hex_upper(bytes));
    crate::text::squeezed_blank_free(hex_upper(bytes));
}

} // verus!
