//! Connection parameters as the user chooses them.

use vstd::prelude::*;

verus! {

/// How the bytes of the line are shown and typed.
#[derive(Debug, Clone, Copy, PartialEq, Eq, Structural)]
pub enum Protocol {
    Text,
    Raw,
}

/// Number of data bits per character.
#[derive(Debug, Clone, Copy, PartialEq, Eq, Structural)]
pub enum DruidDataBits {
    Eight,
    Seven,
    Six,
    Five,
}

/// Flow control of the line.
#[derive(Debug, Clone, Copy, PartialEq, Eq, Structural)]
pub enum DruidFlowControl {
    Hardware,
    Software,
    Off,
}

/// Parity bit of each character.
#[derive(Debug, Clone, Copy, PartialEq, Eq, Structural)]
pub enum DruidParity {
    Even,
    Odd,
    Off,
}

/// Number of stop bits after each character.
#[derive(Debug, Clone, Copy, PartialEq, Eq, Structural)]
pub enum DruidStopBits {
    One,
    Two,
}

/// Which side produced a run of the transcript, and under which protocol.
#[derive(Debug, Clone, Copy, PartialEq, Eq, Structural)]
pub enum OutputTag {
    TextIn,
    TextOut,
    RawIn,
    RawOut,
}

/// Everything needed to open a device: made anew for every request to open,
/// and never changed afterwards.
#[derive(Debug, Clone, PartialEq, Eq)]
pub struct OpenMessage {
    pub port_name: String,
    pub baud_rate: u32,
    pub data_bits: DruidDataBits,
    pub flow_control: DruidFlowControl,
    pub parity: DruidParity,
    pub stop_bits: DruidStopBits,
    pub protocol: Protocol,
}

/// The mathematical value of an [`OpenMessage`].
pub struct OpenMessageView {
    pub port_name: Seq<char>,
    pub baud_rate: u32,
    pub data_bits: DruidDataBits,
    pub flow_control: DruidFlowControl,
    pub parity: DruidParity,
    pub stop_bits: DruidStopBits,
    pub protocol: Protocol,
}

impl View for OpenMessage {
    type V = OpenMessageView;

    open spec fn view(&self) -> OpenMessageView {
        OpenMessageView {
            port_name: self.port_name@,
            baud_rate: self.baud_rate,
            data_bits: self.data_bits,
            flow_control: self.flow_control,
            parity: self.parity,
            stop_bits: self.stop_bits,
            protocol: self.protocol,
        }
    }
}

impl DruidDataBits {
    /// The digits shown for this choice.
    pub open spec fn label(self) -> Seq<char> {
        match self {
            DruidDataBits::Eight => "8"@,
            DruidDataBits::Seven => "7"@,
            DruidDataBits::Six => "6"@,
            DruidDataBits::Five => "5"@,
        }
    }

    /// The text shown for this choice: the number of bits in digits.
    pub fn to_string(&self) -> (s: String)
        ensures
            s@ == self.label(),
    {
        match self {
            DruidDataBits::Eight => "8".to_owned(),
            DruidDataBits::Seven => "7".to_owned(),
            DruidDataBits::Six => "6".to_owned(),
            DruidDataBits::Five => "5".to_owned(),
        }
    }
}

impl DruidFlowControl {
    /// The word shown for this choice.
    pub open spec fn label(self) -> Seq<char> {
        match self {
            DruidFlowControl::Hardware => "Hardware"@,
            DruidFlowControl::Software => "Software"@,
            DruidFlowControl::Off => "None"@,
        }
    }

    /// The text shown for this choice.
    pub fn to_string(&self) -> (s: String)
        ensures
            s@ == self.label(),
    {
        match self {
            DruidFlowControl::Hardware => "Hardware".to_owned(),
            DruidFlowControl::Software => "Software".to_owned(),
            DruidFlowControl::Off => "None".to_owned(),
        }
    }
}

impl DruidParity {
    /// The word shown for this choice.
    pub open spec fn label(self) -> Seq<char> {
        match self {
            DruidParity::Even => "Even"@,
            DruidParity::Odd => "Odd"@,
            DruidParity::Off => "None"@,
        }
    }

    /// The text shown for this choice.
    pub fn to_string(&self) -> (s: String)
        ensures
            s@ == self.label(),
    {
        match self {
            DruidParity::Even => "Even".to_owned(),
            DruidParity::Odd => "Odd".to_owned(),
            DruidParity::Off => "None".to_owned(),
        }
    }
}

impl DruidStopBits {
    /// The word shown for this choice.
    pub open spec fn label(self) -> Seq<char> {
        match self {
            DruidStopBits::One => "One"@,
            DruidStopBits::Two => "Two"@,
        }
    }

    /// The text shown for this choice.
    pub fn to_string(&self) -> (s: String)
        ensures
            s@ == self.label(),
    {
        match self {
            DruidStopBits::One => "One".to_owned(),
            DruidStopBits::Two => "Two".to_owned(),
        }
    }
}

} // verus!
