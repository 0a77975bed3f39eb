use magic_markers::bulb::{pause_after, request_url, DeliveryOutcome, TasmotaCommand};
use magic_markers::constants::{COMMAND_DELAY_MS, REQUEST_RETRY_DELAY_MS};

#[test]
fn hsb_command_text() {
    assert_eq!(
        TasmotaCommand::HSBColor(240, 100, 100).to_text(),
        "hsbcolor%20240,100,100"
    );
    assert_eq!(TasmotaCommand::HSBColor(0, 0, 1).to_text(), "hsbcolor%200,0,1");
    assert_eq!(
        TasmotaCommand::HSBColor(30, 100, 30).to_text(),
        "hsbcolor%2030,100,30"
    );
}

#[test]
fn white_command_text() {
    assert_eq!(TasmotaCommand::White(100).to_text(), "white%20100");
    assert_eq!(TasmotaCommand::White(0).to_text(), "white%200");
}

#[test]
fn dimmer_command_text() {
    assert_eq!(TasmotaCommand::Dimmer(0).to_text(), "dimmer%200");
    assert_eq!(TasmotaCommand::Dimmer(100).to_text(), "dimmer%20100");
    assert_eq!(TasmotaCommand::Dimmer(7).to_text(), "dimmer%207");
}

#[test]
fn numbers_are_written_in_decimal_without_padding() {
    assert_eq!(TasmotaCommand::White(9).to_text(), "white%209");
    assert_eq!(TasmotaCommand::White(10).to_text(), "white%2010");
    assert_eq!(TasmotaCommand::White(1000).to_text(), "white%201000");
    assert_eq!(TasmotaCommand::White(65535).to_text(), "white%2065535");
    assert_eq!(TasmotaCommand::Dimmer(255).to_text(), "dimmer%20255");
    assert_eq!(
        TasmotaCommand::HSBColor(65535, 255, 255).to_text(),
        "hsbcolor%2065535,255,255"
    );
}

#[test]
fn command_text_agrees_with_std_formatting() {
    let mut value: u16 = 0;
    loop {
        assert_eq!(
            TasmotaCommand::White(value).to_text(),
            format!("white%20{}", value)
        );
        if value == u16::MAX {
            break;
        }
        value += 1;
    }
}

#[test]
fn request_url_names_bulb_and_command() {
    assert_eq!(
        request_url("192.168.2.2", &TasmotaCommand::HSBColor(240, 100, 100)),
        "http://192.168.2.2/cm?cmnd=hsbcolor%20240,100,100"
    );
    assert_eq!(
        request_url("192.168.2.2", &TasmotaCommand::White(100)),
        "http://192.168.2.2/cm?cmnd=white%20100"
    );
    assert_eq!(
        request_url("bulb.local", &TasmotaCommand::Dimmer(0)),
        "http://bulb.local/cm?cmnd=dimmer%200"
    );
}

#[test]
fn request_url_with_empty_address() {
    assert_eq!(
        request_url("", &TasmotaCommand::Dimmer(100)),
        "http:///cm?cmnd=dimmer%20100"
    );
}

#[test]
fn equal_commands_compare_equal() {
    assert_eq!(
        TasmotaCommand::HSBColor(30, 100, 100),
        TasmotaCommand::HSBColor(30, 100, 100)
    );
    assert_ne!(
        TasmotaCommand::HSBColor(30, 100, 100),
        TasmotaCommand::HSBColor(30, 100, 30)
    );
    assert_ne!(TasmotaCommand::White(100), TasmotaCommand::Dimmer(100));
}

#[test]
fn dispatcher_settles_after_a_delivered_command() {
    assert_eq!(pause_after(DeliveryOutcome::Delivered), 500);
    assert_eq!(pause_after(DeliveryOutcome::Delivered), COMMAND_DELAY_MS);
}

#[test]
fn dispatcher_waits_when_the_bulb_is_out_of_reach() {
    assert_eq!(pause_after(DeliveryOutcome::RequestFailed), 2000);
    assert_eq!(
        pause_after(DeliveryOutcome::RequestFailed),
        REQUEST_RETRY_DELAY_MS
    );
}

#[test]
fn dispatcher_moves_on_after_a_failed_send() {
    assert_eq!(pause_after(DeliveryOutcome::SendFailed), 0);
}

#[test]
fn command_text_holds_no_blank() {
    let commands = [
        TasmotaCommand::HSBColor(340, 100, 100),
        TasmotaCommand::HSBColor(0, 0, 1),
        TasmotaCommand::White(100),
        TasmotaCommand::Dimmer(0),
        TasmotaCommand::Dimmer(100),
    ];
    for command in commands.iter() {
        let text = command.to_text();
        assert!(text
            .chars()
            .all(|c| c.is_ascii_lowercase() || c.is_ascii_digit() || c == '%' || c == ','));
    }
}
