use stool::data::{
    DruidDataBits, DruidFlowControl, DruidParity, DruidStopBits, OpenMessage, Protocol,
};
use stool::port::{port_from_config, PortSettings};
use tokio_serial::{DataBits, FlowControl, Parity, StopBits};

#[test]
fn data_bits_map_to_the_transport() {
    assert_eq!(DataBits::from(DruidDataBits::Eight), DataBits::Eight);
    assert_eq!(DataBits::from(DruidDataBits::Seven), DataBits::Seven);
    assert_eq!(DataBits::from(DruidDataBits::Six), DataBits::Six);
    assert_eq!(DataBits::from(DruidDataBits::Five), DataBits::Five);
}

#[test]
fn flow_control_maps_to_the_transport() {
    assert_eq!(FlowControl::from(DruidFlowControl::Hardware), FlowControl::Hardware);
    assert_eq!(FlowControl::from(DruidFlowControl::Software), FlowControl::Software);
    assert_eq!(FlowControl::from(DruidFlowControl::Off), FlowControl::None);
}

#[test]
fn parity_maps_to_the_transport() {
    assert_eq!(Parity::from(DruidParity::Even), Parity::Even);
    assert_eq!(Parity::from(DruidParity::Odd), Parity::Odd);
    assert_eq!(Parity::from(DruidParity::Off), Parity::None);
}

#[test]
fn stop_bits_map_to_the_transport() {
    assert_eq!(StopBits::from(DruidStopBits::One), StopBits::One);
    assert_eq!(StopBits::from(DruidStopBits::Two), StopBits::Two);
}

#[test]
fn resolver_keeps_path_and_baud_and_maps_the_rest() {
    let config = OpenMessage {
        port_name: "/dev/ttyUSB0".to_string(),
        baud_rate: 115_200,
        data_bits: DruidDataBits::Seven,
        flow_control: DruidFlowControl::Hardware,
        parity: DruidParity::Odd,
        stop_bits: DruidStopBits::Two,
        protocol: Protocol::Text,
    };
    assert_eq!(
        port_from_config(&config),
        PortSettings {
            path: "/dev/ttyUSB0".to_string(),
            baud_rate: 115_200,
            data_bits: DataBits::Seven,
            flow_control: FlowControl::Hardware,
            parity: Parity::Odd,
            stop_bits: StopBits::Two,
        }
    );
}

#[test]
fn resolver_ignores_the_protocol() {
    let text = OpenMessage {
        port_name: "COM3".to_string(),
        baud_rate: 9600,
        data_bits: DruidDataBits::Eight,
        flow_control: DruidFlowControl::Off,
        parity: DruidParity::Off,
        stop_bits: DruidStopBits::One,
        protocol: Protocol::Text,
    };
    let raw = OpenMessage { protocol: Protocol::Raw, ..text.clone() };
    assert_eq!(port_from_config(&text), port_from_config(&raw));
    assert_eq!(
        port_from_config(&raw),
        PortSettings {
            path: "COM3".to_string(),
            baud_rate: 9600,
            data_bits: DataBits::Eight,
            flow_control: FlowControl::None,
            parity: Parity::None,
            stop_bits: StopBits::One,
        }
    );
}

#[test]
fn resolver_takes_an_empty_path_and_extreme_bauds() {
    let config = OpenMessage {
        port_name: String::new(),
        baud_rate: u32::MAX,
        data_bits: DruidDataBits::Five,
        flow_control: DruidFlowControl::Software,
        parity: DruidParity::Even,
        stop_bits: DruidStopBits::One,
        protocol: Protocol::Raw,
    };
    let settings = port_from_config(&config);
    assert_eq!(settings.path, "");
    assert_eq!(settings.baud_rate, u32::MAX);
    assert_eq!(settings.data_bits, DataBits::Five);
    assert_eq!(settings.flow_control, FlowControl::Software);
    assert_eq!(settings.parity, Parity::Even);
}

#[test]
fn choices_are_shown_in_their_words() {
    assert_eq!(DruidDataBits::Eight.to_string(), "8");
    assert_eq!(DruidDataBits::Seven.to_string(), "7");
    assert_eq!(DruidDataBits::Six.to_string(), "6");
    assert_eq!(DruidDataBits::Five.to_string(), "5");
    assert_eq!(DruidFlowControl::Hardware.to_string(), "Hardware");
    assert_eq!(DruidFlowControl::Software.to_string(), "Software");
    assert_eq!(DruidFlowControl::Off.to_string(), "None");
    assert_eq!(DruidParity::Even.to_string(), "Even");
    assert_eq!(DruidParity::Odd.to_string(), "Odd");
    assert_eq!(DruidParity::Off.to_string(), "None");
    assert_eq!(DruidStopBits::One.to_string(), "One");
    assert_eq!(DruidStopBits::Two.to_string(), "Two");
}
