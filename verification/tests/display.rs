use std::collections::VecDeque;
use std::ops::Range;
use stool::data::{
    DruidDataBits, DruidFlowControl, DruidParity, DruidStopBits, OpenMessage, OutputTag, Protocol,
};
use stool::event::{
    append_text, display_raw, display_text, get_tag_color, trim_view, try_trim_view, EventHandler,
    MAX_VIEW_SIZE,
};
use stool::serial::{ByteDirection, GuiMessage};

fn stretches(items: &[(Range<usize>, OutputTag)]) -> VecDeque<(Range<usize>, OutputTag)> {
    items.iter().cloned().collect()
}

#[test]
fn tag_colors() {
    assert_eq!(get_tag_color(OutputTag::TextIn), (128, 0, 255));
    assert_eq!(get_tag_color(OutputTag::TextOut), (50, 190, 220));
    assert_eq!(get_tag_color(OutputTag::RawIn), (25, 155, 35));
    assert_eq!(get_tag_color(OutputTag::RawOut), (240, 160, 25));
}

#[test]
fn view_limit_is_180_kibibytes() {
    assert_eq!(MAX_VIEW_SIZE, 184_320);
}

#[test]
fn raw_out_on_empty_output() {
    let mut output = String::new();
    let mut attr = VecDeque::new();
    display_raw(&(ByteDirection::Out, vec![0xde, 0xad]), &mut output, &mut attr);
    assert_eq!(output, "DE AD\n");
    assert_eq!(attr, stretches(&[(0..6, OutputTag::RawOut)]));
}

#[test]
fn raw_digits_are_upper_case_and_zero_padded() {
    let mut output = String::new();
    let mut attr = VecDeque::new();
    display_raw(&(ByteDirection::Out, vec![0x00, 0x0a, 0xa0, 0xff, 0x7f]), &mut output, &mut attr);
    assert_eq!(output, "00 0A A0 FF 7F\n");
}

#[test]
fn raw_conversation() {
    let mut output = String::new();
    let mut attr = VecDeque::new();
    display_raw(&(ByteDirection::Out, vec![0xde, 0xad]), &mut output, &mut attr);
    display_raw(&(ByteDirection::In, vec![0x01]), &mut output, &mut attr);
    assert_eq!(output, "DE AD\n01");
    display_raw(&(ByteDirection::In, vec![0x02, 0x03]), &mut output, &mut attr);
    assert_eq!(output, "DE AD\n01 02 03");
    display_raw(&(ByteDirection::Out, vec![0xff]), &mut output, &mut attr);
    assert_eq!(output, "DE AD\n01 02 03\nFF\n");
    assert_eq!(
        attr,
        stretches(&[
            (0..6, OutputTag::RawOut),
            (6..8, OutputTag::RawIn),
            (8..14, OutputTag::RawIn),
            (14..18, OutputTag::RawOut),
        ])
    );
}

#[test]
fn raw_in_on_empty_output() {
    let mut output = String::new();
    let mut attr = VecDeque::new();
    display_raw(&(ByteDirection::In, vec![0x01, 0x02]), &mut output, &mut attr);
    assert_eq!(output, "01 02");
    assert_eq!(attr, stretches(&[(0..5, OutputTag::RawIn)]));
    display_raw(&(ByteDirection::In, vec![0x03]), &mut output, &mut attr);
    assert_eq!(output, "01 02 03");
    assert_eq!(attr, stretches(&[(0..5, OutputTag::RawIn), (5..8, OutputTag::RawIn)]));
}

#[test]
fn raw_in_goes_on_in_the_last_line_only() {
    let mut output = "first\n\nAB C".to_string();
    let mut attr = stretches(&[(0..11, OutputTag::RawIn)]);
    display_raw(&(ByteDirection::In, vec![0xde]), &mut output, &mut attr);
    assert_eq!(output, "first\n\nAB CD E");
    assert_eq!(attr, stretches(&[(0..11, OutputTag::RawIn), (11..14, OutputTag::RawIn)]));
}

#[test]
fn raw_in_after_raw_in_drops_a_final_line_end() {
    let mut output = "01\n".to_string();
    let mut attr = stretches(&[(0..3, OutputTag::RawIn)]);
    display_raw(&(ByteDirection::In, vec![0x02]), &mut output, &mut attr);
    assert_eq!(output, "01 02");
    assert_eq!(attr, stretches(&[(0..3, OutputTag::RawIn), (3..5, OutputTag::RawIn)]));
}

#[test]
fn raw_in_after_raw_in_on_empty_output_shows_nothing() {
    let mut output = String::new();
    let mut attr = VecDeque::new();
    display_raw(&(ByteDirection::In, vec![]), &mut output, &mut attr);
    assert_eq!(output, "");
    display_raw(&(ByteDirection::In, vec![0xaa]), &mut output, &mut attr);
    assert_eq!(output, "");
    assert_eq!(attr, stretches(&[(0..0, OutputTag::RawIn), (0..0, OutputTag::RawIn)]));
}

#[test]
fn raw_in_after_text_in_starts_a_line() {
    let mut output = "abc".to_string();
    let mut attr = stretches(&[(0..3, OutputTag::TextIn)]);
    display_raw(&(ByteDirection::In, vec![0x41, 0x42]), &mut output, &mut attr);
    assert_eq!(output, "abc\n41 42");
    assert_eq!(attr, stretches(&[(0..3, OutputTag::TextIn), (3..9, OutputTag::RawIn)]));
}

#[test]
fn raw_in_after_text_out_follows_directly() {
    let mut output = "abc\n".to_string();
    let mut attr = stretches(&[(0..4, OutputTag::TextOut)]);
    display_raw(&(ByteDirection::In, vec![0x41]), &mut output, &mut attr);
    assert_eq!(output, "abc\n41");
}

#[test]
fn raw_out_inside_a_line_starts_a_new_one() {
    let mut output = "01 02".to_string();
    let mut attr = stretches(&[(0..5, OutputTag::RawIn)]);
    display_raw(&(ByteDirection::Out, vec![0x10]), &mut output, &mut attr);
    assert_eq!(output, "01 02\n10\n");
    assert_eq!(attr, stretches(&[(0..5, OutputTag::RawIn), (5..9, OutputTag::RawOut)]));
}

#[test]
fn raw_out_of_nothing_is_an_empty_line() {
    let mut output = String::new();
    let mut attr = VecDeque::new();
    display_raw(&(ByteDirection::Out, vec![]), &mut output, &mut attr);
    assert_eq!(output, "\n");
    assert_eq!(attr, stretches(&[(0..1, OutputTag::RawOut)]));
}

#[test]
fn text_conversation() {
    let mut output = String::new();
    let mut attr = VecDeque::new();
    display_text(&(ByteDirection::Out, b"hi".to_vec()), &mut output, &mut attr);
    assert_eq!(output, "hi\n");
    display_text(&(ByteDirection::In, b"yo".to_vec()), &mut output, &mut attr);
    assert_eq!(output, "hi\nyo");
    display_text(&(ByteDirection::In, b"!".to_vec()), &mut output, &mut attr);
    assert_eq!(output, "hi\nyo!");
    display_text(&(ByteDirection::Out, b"x".to_vec()), &mut output, &mut attr);
    assert_eq!(output, "hi\nyo!\nx\n");
    assert_eq!(
        attr,
        stretches(&[
            (0..3, OutputTag::TextOut),
            (3..5, OutputTag::TextIn),
            (5..6, OutputTag::TextIn),
            (6..9, OutputTag::TextOut),
        ])
    );
}

#[test]
fn text_in_on_empty_output() {
    let mut output = String::new();
    let mut attr = VecDeque::new();
    display_text(&(ByteDirection::In, b"abc".to_vec()), &mut output, &mut attr);
    assert_eq!(output, "abc");
    assert_eq!(attr, stretches(&[(0..3, OutputTag::TextIn)]));
}

#[test]
fn text_in_after_raw_in_starts_a_line() {
    let mut output = "01 02".to_string();
    let mut attr = stretches(&[(0..5, OutputTag::RawIn)]);
    display_text(&(ByteDirection::In, b"ok".to_vec()), &mut output, &mut attr);
    assert_eq!(output, "01 02\nok");
    assert_eq!(attr, stretches(&[(0..5, OutputTag::RawIn), (5..8, OutputTag::TextIn)]));
}

#[test]
fn text_stretches_count_bytes_not_characters() {
    let mut output = String::new();
    let mut attr = VecDeque::new();
    display_text(&(ByteDirection::In, "h\u{e9}\u{20ac}".as_bytes().to_vec()), &mut output, &mut attr);
    assert_eq!(output, "h\u{e9}\u{20ac}");
    assert_eq!(attr, stretches(&[(0..6, OutputTag::TextIn)]));
    display_text(&(ByteDirection::In, b"!".to_vec()), &mut output, &mut attr);
    assert_eq!(attr, stretches(&[(0..6, OutputTag::TextIn), (6..7, OutputTag::TextIn)]));
}

#[test]
fn text_that_is_no_utf8_is_shown_with_replacement_characters() {
    let mut output = String::new();
    let mut attr = VecDeque::new();
    display_text(&(ByteDirection::In, vec![0xff, 0x41]), &mut output, &mut attr);
    assert_eq!(output, "\u{fffd}A");
    assert_eq!(attr, stretches(&[(0..4, OutputTag::TextIn)]));
}

#[test]
fn append_text_writes_the_text_given() {
    let mut output = "a".to_string();
    let mut attr = stretches(&[(0..1, OutputTag::RawOut)]);
    append_text(ByteDirection::Out, "b", &mut output, &mut attr);
    assert_eq!(output, "a\nb\n");
    assert_eq!(attr, stretches(&[(0..1, OutputTag::RawOut), (1..4, OutputTag::TextOut)]));
    append_text(ByteDirection::In, "", &mut output, &mut attr);
    assert_eq!(output, "a\nb\n");
    assert_eq!(attr.len(), 3);
    assert_eq!(attr[2], (4..4, OutputTag::TextIn));
}

#[test]
fn show_follows_the_protocol() {
    let handler = EventHandler::new();
    let mut output = String::new();
    let mut attr = VecDeque::new();
    handler.show(Protocol::Raw, &(ByteDirection::In, b"AB".to_vec()), &mut output, &mut attr);
    assert_eq!(output, "41 42");
    handler.show(Protocol::Text, &(ByteDirection::In, b"AB".to_vec()), &mut output, &mut attr);
    assert_eq!(output, "41 42\nAB");
    handler.show(Protocol::Text, &(ByteDirection::Out, b"C".to_vec()), &mut output, &mut attr);
    assert_eq!(output, "41 42\nAB\nC\n");
    handler.show(Protocol::Raw, &(ByteDirection::Out, b"C".to_vec()), &mut output, &mut attr);
    assert_eq!(output, "41 42\nAB\nC\n43\n");
    assert_eq!(
        attr,
        stretches(&[
            (0..5, OutputTag::RawIn),
            (5..8, OutputTag::TextIn),
            (8..11, OutputTag::TextOut),
            (11..14, OutputTag::RawOut),
        ])
    );
}

#[test]
fn trim_leaves_a_short_text_alone() {
    let mut output = "a".repeat(MAX_VIEW_SIZE);
    let mut attr = stretches(&[(0..MAX_VIEW_SIZE, OutputTag::TextIn)]);
    trim_view(&mut output, &mut attr);
    assert_eq!(output.len(), MAX_VIEW_SIZE);
    assert_eq!(attr, stretches(&[(0..MAX_VIEW_SIZE, OutputTag::TextIn)]));
    let mut empty = String::new();
    let mut none = VecDeque::new();
    trim_view(&mut empty, &mut none);
    assert_eq!(empty, "");
    assert!(none.is_empty());
}

#[test]
fn trim_cuts_from_the_front_and_moves_the_stretches() {
    let mut output = "0123456789".to_string();
    output.push_str(&"a".repeat(MAX_VIEW_SIZE - 1));
    output.push('z');
    let full = MAX_VIEW_SIZE + 10;
    let mut attr = stretches(&[(0..100, OutputTag::RawIn), (100..full, OutputTag::RawOut)]);
    trim_view(&mut output, &mut attr);
    assert_eq!(output.len(), MAX_VIEW_SIZE);
    assert!(output.starts_with("aaaa"));
    assert!(output.ends_with("az"));
    assert_eq!(
        attr,
        stretches(&[(0..90, OutputTag::RawIn), (90..MAX_VIEW_SIZE, OutputTag::RawOut)])
    );
}

#[test]
fn trim_keeps_stretches_that_were_cut_away_as_empty_ones() {
    let mut output = "a".repeat(MAX_VIEW_SIZE + 10);
    let full = MAX_VIEW_SIZE + 10;
    let mut attr = stretches(&[(0..5, OutputTag::TextOut), (5..full, OutputTag::TextIn)]);
    trim_view(&mut output, &mut attr);
    assert_eq!(
        attr,
        stretches(&[(0..0, OutputTag::TextOut), (0..MAX_VIEW_SIZE, OutputTag::TextIn)])
    );
}

#[test]
fn trim_drops_stretches_before_the_first_at_the_start() {
    let mut output = "a".repeat(MAX_VIEW_SIZE + 10);
    let mut attr = stretches(&[
        (20..30, OutputTag::TextOut),
        (11..12, OutputTag::RawOut),
        (10..20, OutputTag::RawIn),
        (40..50, OutputTag::TextIn),
    ]);
    trim_view(&mut output, &mut attr);
    assert_eq!(attr, stretches(&[(0..10, OutputTag::RawIn), (30..40, OutputTag::TextIn)]));
}

#[test]
fn try_trim_does_what_trim_does() {
    let mut output = "b".repeat(MAX_VIEW_SIZE + 3);
    let full = MAX_VIEW_SIZE + 3;
    let mut attr = stretches(&[(0..full, OutputTag::TextIn)]);
    assert!(try_trim_view(&mut output, &mut attr));
    assert_eq!(output.len(), MAX_VIEW_SIZE);
    assert_eq!(attr, stretches(&[(0..MAX_VIEW_SIZE, OutputTag::TextIn)]));
    let mut short = "abc".to_string();
    let mut one = stretches(&[(0..3, OutputTag::TextIn)]);
    assert!(try_trim_view(&mut short, &mut one));
    assert_eq!(short, "abc");
}

#[test]
fn try_trim_refuses_a_cut_inside_a_character() {
    let mut output = "\u{e9}".to_string();
    output.push_str(&"a".repeat(MAX_VIEW_SIZE - 1));
    assert_eq!(output.len(), MAX_VIEW_SIZE + 1);
    let before = output.clone();
    let mut attr = stretches(&[(0..before.len(), OutputTag::TextIn)]);
    assert!(!try_trim_view(&mut output, &mut attr));
    assert_eq!(output, before);
    assert_eq!(attr, stretches(&[(0..before.len(), OutputTag::TextIn)]));
}

#[test]
fn try_trim_refuses_when_no_stretch_would_be_left() {
    let mut output = "a".repeat(MAX_VIEW_SIZE + 10);
    let mut attr = stretches(&[(20..30, OutputTag::TextIn)]);
    assert!(!try_trim_view(&mut output, &mut attr));
    assert_eq!(output.len(), MAX_VIEW_SIZE + 10);
    assert_eq!(attr, stretches(&[(20..30, OutputTag::TextIn)]));
    let mut none = VecDeque::new();
    assert!(!try_trim_view(&mut output, &mut none));
    assert_eq!(output.len(), MAX_VIEW_SIZE + 10);
}

#[test]
fn raw_write_message_reads_hexadecimal_digits() {
    let handler = EventHandler::new();
    assert_eq!(
        handler.write_message(Protocol::Raw, "DE AD be ef"),
        Ok(GuiMessage::Write(vec![0xde, 0xad, 0xbe, 0xef]))
    );
    assert_eq!(
        handler.write_message(Protocol::Raw, " 0\t1\n0 2 "),
        Ok(GuiMessage::Write(vec![0x01, 0x02]))
    );
    assert_eq!(handler.write_message(Protocol::Raw, ""), Ok(GuiMessage::Write(vec![])));
    assert_eq!(
        handler.write_message(Protocol::Raw, "00fF7f80"),
        Ok(GuiMessage::Write(vec![0x00, 0xff, 0x7f, 0x80]))
    );
}

#[test]
fn raw_write_message_refuses_what_is_no_hexadecimal() {
    let handler = EventHandler::new();
    let refused = Err("Incorrect data doesn't respect protocol format".to_string());
    assert_eq!(handler.write_message(Protocol::Raw, "DEA"), refused);
    assert_eq!(handler.write_message(Protocol::Raw, "zz"), refused);
    assert_eq!(handler.write_message(Protocol::Raw, "0x10"), refused);
    assert_eq!(handler.write_message(Protocol::Raw, "1g"), refused);
    assert_eq!(handler.write_message(Protocol::Raw, "\u{e9}"), refused);
    assert_eq!(handler.write_message(Protocol::Raw, "12\u{a0}34"), refused);
}

#[test]
fn text_write_message_is_the_bytes_of_the_text() {
    let handler = EventHandler::new();
    assert_eq!(
        handler.write_message(Protocol::Text, "h\u{e9} \n"),
        Ok(GuiMessage::Write(vec![0x68, 0xc3, 0xa9, 0x20, 0x0a]))
    );
    assert_eq!(handler.write_message(Protocol::Text, ""), Ok(GuiMessage::Write(vec![])));
    assert_eq!(
        handler.write_message(Protocol::Text, "zz"),
        Ok(GuiMessage::Write(vec![0x7a, 0x7a]))
    );
}

#[test]
fn open_status_lists_the_settings() {
    let handler = EventHandler::new();
    let message = OpenMessage {
        port_name: "COM3".to_string(),
        baud_rate: 9600,
        data_bits: DruidDataBits::Eight,
        flow_control: DruidFlowControl::Off,
        parity: DruidParity::Off,
        stop_bits: DruidStopBits::One,
        protocol: Protocol::Raw,
    };
    assert_eq!(handler.open_status(&message), "COM3, 9600, None, None, One");
    let other = OpenMessage {
        port_name: "/dev/ttyUSB0".to_string(),
        baud_rate: 115_200,
        data_bits: DruidDataBits::Seven,
        flow_control: DruidFlowControl::Hardware,
        parity: DruidParity::Even,
        stop_bits: DruidStopBits::Two,
        protocol: Protocol::Text,
    };
    assert_eq!(handler.open_status(&other), "/dev/ttyUSB0, 115200, Hardware, Even, Two");
}

#[test]
fn shown_digits_typed_in_again_send_the_same_bytes() {
    let handler = EventHandler::new();
    for bytes in [vec![], vec![0x00], vec![0xde, 0xad, 0xbe, 0xef], (0..=255u8).collect::<Vec<u8>>()] {
        let mut output = String::new();
        let mut attr = VecDeque::new();
        display_raw(&(ByteDirection::Out, bytes.clone()), &mut output, &mut attr);
        assert_eq!(handler.write_message(Protocol::Raw, &output), Ok(GuiMessage::Write(bytes)));
    }
}

#[test]
fn digits_received_in_parts_read_as_received_at_once() {
    let mut in_parts = String::new();
    let mut attr = VecDeque::new();
    display_raw(&(ByteDirection::In, vec![0x01, 0x02, 0x03]), &mut in_parts, &mut attr);
    display_raw(&(ByteDirection::In, vec![0x04]), &mut in_parts, &mut attr);
    display_raw(&(ByteDirection::In, vec![0x05, 0x06]), &mut in_parts, &mut attr);
    let mut at_once = String::new();
    let mut other = VecDeque::new();
    display_raw(&(ByteDirection::In, vec![1, 2, 3, 4, 5, 6]), &mut at_once, &mut other);
    assert_eq!(in_parts, at_once);
    assert_eq!(at_once, "01 02 03 04 05 06");
}
