//! From the user's choices to the parameters with which the transport opens a device.

use crate::data::{DruidDataBits, DruidFlowControl, DruidParity, DruidStopBits, OpenMessage};
use vstd::prelude::*;
use vstd::std_specs::convert::FromSpecImpl;

verus! {

/// The transport's number of data bits, `tokio_serial::DataBits`: its four variants.
#[verifier::external_type_specification]
pub struct ExDataBits(tokio_serial::DataBits);

/// The transport's flow control, `tokio_serial::FlowControl`: its three variants.
#[verifier::external_type_specification]
pub struct ExFlowControl(tokio_serial::FlowControl);

/// The transport's parity, `tokio_serial::Parity`: its three variants.
#[verifier::external_type_specification]
pub struct ExParity(tokio_serial::Parity);

/// The transport's stop bits, `tokio_serial::StopBits`: its two variants.
#[verifier::external_type_specification]
pub struct ExStopBits(tokio_serial::StopBits);

impl From<DruidDataBits> for tokio_serial::DataBits {
    fn from(data_bits: DruidDataBits) -> (r: Self) {
        match data_bits {
            DruidDataBits::Eight => tokio_serial::DataBits::Eight,
            DruidDataBits::Seven => tokio_serial::DataBits::Seven,
            DruidDataBits::Six => tokio_serial::DataBits::Six,
            DruidDataBits::Five => tokio_serial::DataBits::Five,
        }
    }
}

/// The transport's variant for each number of data bits.
pub open spec fn transport_data_bits(data_bits: DruidDataBits) -> tokio_serial::DataBits {
    match data_bits {
        DruidDataBits::Eight => tokio_serial::DataBits::Eight,
        DruidDataBits::Seven => tokio_serial::DataBits::Seven,
        DruidDataBits::Six => tokio_serial::DataBits::Six,
        DruidDataBits::Five => tokio_serial::DataBits::Five,
    }
}

impl FromSpecImpl<DruidDataBits> for tokio_serial::DataBits {
    open spec fn obeys_from_spec() -> bool {
        true
    }

    open spec fn from_spec(data_bits: DruidDataBits) -> Self {
        transport_data_bits(data_bits)
    }
}

impl From<DruidFlowControl> for tokio_serial::FlowControl {
    fn from(flow_control: DruidFlowControl) -> (r: Self) {
        match flow_control {
            DruidFlowControl::Hardware => tokio_serial::FlowControl::Hardware,
            DruidFlowControl::Software => tokio_serial::FlowControl::Software,
            DruidFlowControl::Off => tokio_serial::FlowControl::None,
        }
    }
}

/// The transport's variant for each flow control.
pub open spec fn transport_flow_control(flow_control: DruidFlowControl) -> tokio_serial::FlowControl {
    match flow_control {
        DruidFlowControl::Hardware => tokio_serial::FlowControl::Hardware,
        DruidFlowControl::Software => tokio_serial::FlowControl::Software,
        DruidFlowControl::Off => tokio_serial::FlowControl::None,
    }
}

impl FromSpecImpl<DruidFlowControl> for tokio_serial::FlowControl {
    open spec fn obeys_from_spec() -> bool {
        true
    }

    open spec fn from_spec(flow_control: DruidFlowControl) -> Self {
        transport_flow_control(flow_control)
    }
}

impl From<DruidParity> for tokio_serial::Parity {
    fn from(parity: DruidParity) -> (r: Self) {
        match parity {
            DruidParity::Even => tokio_serial::Parity::Even,
            DruidParity::Odd => tokio_serial::Parity::Odd,
            DruidParity::Off => tokio_serial::Parity::None,
        }
    }
}

/// The transport's variant for each parity.
pub open spec fn transport_parity(parity: DruidParity) -> tokio_serial::Parity {
    match parity {
        DruidParity::Even => tokio_serial::Parity::Even,
        DruidParity::Odd => tokio_serial::Parity::Odd,
        DruidParity::Off => tokio_serial::Parity::None,
    }
}

impl FromSpecImpl<DruidParity> for tokio_serial::Parity {
    open spec fn obeys_from_spec() -> bool {
        true
    }

    open spec fn from_spec(parity: DruidParity) -> Self {
        transport_parity(parity)
    }
}

impl From<DruidStopBits> for tokio_serial::StopBits {
    fn from(stop_bits: DruidStopBits) -> (r: Self) {
        match stop_bits {
            DruidStopBits::One => tokio_serial::StopBits::One,
            DruidStopBits::Two => tokio_serial::StopBits::Two,
        }
    }
}

/// The transport's variant for each number of stop bits.
pub open spec fn transport_stop_bits(stop_bits: DruidStopBits) -> tokio_serial::StopBits {
    match stop_bits {
        DruidStopBits::One => tokio_serial::StopBits::One,
        DruidStopBits::Two => tokio_serial::StopBits::Two,
    }
}

impl FromSpecImpl<DruidStopBits> for tokio_serial::StopBits {
    open spec fn obeys_from_spec() -> bool {
        true
    }

    open spec fn from_spec(stop_bits: DruidStopBits) -> Self {
        transport_stop_bits(stop_bits)
    }
}

/// What the transport needs to open a device.
#[derive(Debug, PartialEq, Eq)]
pub struct PortSettings {
    pub path: String,
    pub baud_rate: u32,
    pub data_bits: tokio_serial::DataBits,
    pub flow_control: tokio_serial::FlowControl,
    pub parity: tokio_serial::Parity,
    pub stop_bits: tokio_serial::StopBits,
}

/// The mathematical value of [`PortSettings`].
pub struct PortSettingsView {
    pub path: Seq<char>,
    pub baud_rate: u32,
    pub data_bits: tokio_serial::DataBits,
    pub flow_control: tokio_serial::FlowControl,
    pub parity: tokio_serial::Parity,
    pub stop_bits: tokio_serial::StopBits,
}

impl View for PortSettings {
    type V = PortSettingsView;

    open spec fn view(&self) -> PortSettingsView {
        PortSettingsView {
            path: self.path@,
            baud_rate: self.baud_rate,
            data_bits: self.data_bits,
            flow_control: self.flow_control,
            parity: self.parity,
            stop_bits: self.stop_bits,
        }
    }
}

/// The transport parameters that a configuration stands for: the device path and the
/// baud rate as given, and each line setting in the transport's own terms. The display
/// protocol plays no part.
pub open spec fn resolved(config: crate::data::OpenMessageView) -> PortSettingsView {
    PortSettingsView {
        path: config.port_name,
        baud_rate: config.baud_rate,
        data_bits: transport_data_bits(config.data_bits),
        flow_control: transport_flow_control(config.flow_control),
        parity: transport_parity(config.parity),
        stop_bits: transport_stop_bits(config.stop_bits),
    }
}

/// Resolves a configuration into the parameters for opening the device.
pub fn port_from_config(config: &OpenMessage) -> (settings: PortSettings)
    ensures
        settings@ == resolved(config@),
{
    PortSettings {
        path: config.port_name.clone(),
        baud_rate: config.baud_rate,
        data_bits: tokio_serial::DataBits::from(config.data_bits),
        flow_control: tokio_serial::FlowControl::from(config.flow_control),
        parity: tokio_serial::Parity::from(config.parity),
        stop_bits: tokio_serial::StopBits::from(config.stop_bits),
    }
}

} // verus!
