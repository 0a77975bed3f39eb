//! Commands for the bulb, their text on the wire, and the pacing of the
//! dispatcher that delivers them.

use crate::constants::{COMMAND_DELAY_MS, REQUEST_RETRY_DELAY_MS};
use vstd::prelude::*;
use vstd::string::StringExecFns;

verus! {

/// A command for the bulb.
#[derive(Debug, Clone, Copy, PartialEq, Eq, Structural)]
pub enum TasmotaCommand {
    /// Hue (0-360), saturation (0-100) and brightness (0-100).
    HSBColor(u16, u8, u8),
    /// Plain white at the given level.
    White(u16),
    /// Dimmer level in percent.
    Dimmer(u8),
}

/// The character of a decimal digit.
pub open spec fn digit_char(d: nat) -> char
    recommends
        d < 10,
{
    if d == 0 {
        '0'
    } else if d == 1 {
        '1'
    } else if d == 2 {
        '2'
    } else if d == 3 {
        '3'
    } else if d == 4 {
        '4'
    } else if d == 5 {
        '5'
    } else if d == 6 {
        '6'
    } else if d == 7 {
        '7'
    } else if d == 8 {
        '8'
    } else {
        '9'
    }
}

/// The decimal numeral of `n`, without leading zeros.
pub open spec fn decimal(n: nat) -> Seq<char>
    decreases n,
{
    if n < 10 {
        seq![digit_char(n)]
    } else {
        decimal(n / 10).push(digit_char(n % 10))
    }
}

/// The one-character string of a decimal digit.
fn digit_str(d: u16) -> (r: &'static str)
    requires
        d < 10,
    ensures
        r@ == seq![digit_char(d as nat)],
{
    proof {
        reveal_strlit("0");
        reveal_strlit("1");
        reveal_strlit("2");
        reveal_strlit("3");
        reveal_strlit("4");
        reveal_strlit("5");
        reveal_strlit("6");
        reveal_strlit("7");
        reveal_strlit("8");
        reveal_strlit("9");
    }
    let r = match d {
        0 => "0",
        1 => "1",
        2 => "2",
        3 => "3",
        4 => "4",
        5 => "5",
        6 => "6",
        7 => "7",
        8 => "8",
        _ => "9",
    };
    assert(r@ =~= seq![digit_char(d as nat)]);
    r
}

/// Appends the decimal numeral of `n` to `text`.
fn append_decimal(text: &mut String, n: u16)
    ensures
        final(text)@ == old(text)@ + decimal(n as nat),
    decreases n,
{
    if n < 10 {
        text.append(digit_str(n));
        assert(text@ =~= old(text)@ + decimal(n as nat));
    } else {
        append_decimal(text, n / 10);
        text.append(digit_str(n % 10));
        assert(text@ =~= old(text)@ + decimal(n as nat));
    }
}

impl TasmotaCommand {
    /// The command as it stands in a request to the bulb: the command word,
    /// an escaped blank, and the arguments in decimal, separated by commas.
    pub open spec fn spec_text(self) -> Seq<char> {
        match self {
            TasmotaCommand::HSBColor(h, s, b) => "hsbcolor%20"@ + decimal(h as nat) + ","@
                + decimal(s as nat) + ","@ + decimal(b as nat),
            TasmotaCommand::White(value) => "white%20"@ + decimal(value as nat),
            TasmotaCommand::Dimmer(level) => "dimmer%20"@ + decimal(level as nat),
        }
    }

    /// Writes the command as it stands in a request to the bulb.
    pub fn to_text(&self) -> (text: String)
        ensures
            text@ == self.spec_text(),
    {
        match *self {
            TasmotaCommand::HSBColor(h, s, b) => {
                let mut text = String::from_str("hsbcolor%20");
                append_decimal(&mut text, h);
                text.append(",");
                append_decimal(&mut text, s as u16);
                text.append(",");
                append_decimal(&mut text, b as u16);
                text
            },
            TasmotaCommand::White(value) => {
                let mut text = String::from_str("white%20");
                append_decimal(&mut text, value);
                text
            },
            TasmotaCommand::Dimmer(level) => {
                let mut text = String::from_str("dimmer%20");
                append_decimal(&mut text, level as u16);
                text
            },
        }
    }
}

/// The characters that a command text is made of: lower-case letters,
/// decimal digits, the percent sign and the comma.
pub open spec fn is_command_char(c: char) -> bool {
    ||| 'a' <= c <= 'z'
    ||| '0' <= c <= '9'
    ||| c == '%'
    ||| c == ','
}

/// A decimal numeral is made of decimal digits.
pub proof fn lemma_decimal_is_digits(n: nat)
    ensures
        decimal(n).len() >= 1,
        forall|i: int| 0 <= i < decimal(n).len() ==> '0' <= #[trigger] decimal(n)[i] <= '9',
    decreases n,
{
    if n >= 10 {
        lemma_decimal_is_digits(n / 10);
    }
}

/// A command text needs no further escaping where it stands in an address:
/// it holds command characters only, and so no blank.
pub proof fn lemma_text_needs_no_escaping(command: TasmotaCommand)
    ensures
        forall|i: int|
            0 <= i < command.spec_text().len() ==> is_command_char(
                #[trigger] command.spec_text()[i],
            ),
{
    reveal_strlit("hsbcolor%20");
    reveal_strlit("white%20");
    reveal_strlit("dimmer%20");
    reveal_strlit(",");
    match command {
        TasmotaCommand::HSBColor(h, s, b) => {
            lemma_decimal_is_digits(h as nat);
            lemma_decimal_is_digits(s as nat);
            lemma_decimal_is_digits(b as nat);
        },
        TasmotaCommand::White(value) => {
            lemma_decimal_is_digits(value as nat);
        },
        TasmotaCommand::Dimmer(level) => {
            lemma_decimal_is_digits(level as nat);
        },
    }
}

/// The address to which `command` is posted on the bulb at `bulb_ip_addr`.
pub open spec fn spec_request_url(bulb_ip_addr: Seq<char>, command: TasmotaCommand) -> Seq<char> {
    "http://"@ + bulb_ip_addr + "/cm?cmnd="@ + command.spec_text()
}

/// Builds the address to which `command` is posted on the bulb at
/// `bulb_ip_addr`.
pub fn request_url(bulb_ip_addr: &str, command: &TasmotaCommand) -> (url: String)
    ensures
        url@ == spec_request_url(bulb_ip_addr@, *command),
{
    let mut url = String::from_str("http://");
    url.append(bulb_ip_addr);
    url.append("/cm?cmnd=");
    let text = command.to_text();
    url.append(text.as_str());
    url
}

/// How an attempt to deliver one command to the bulb ended.
#[derive(Debug, Clone, Copy, PartialEq, Eq, Structural)]
pub enum DeliveryOutcome {
    /// The request could not be set up: no connection to the bulb.
    RequestFailed,
    /// The request was set up, but sending it failed or timed out.
    SendFailed,
    /// The request was sent and the bulb answered.
    Delivered,
}

/// Milliseconds for which the dispatcher rests after an attempt.
pub open spec fn spec_pause_after(outcome: DeliveryOutcome) -> u64 {
    match outcome {
        DeliveryOutcome::RequestFailed => REQUEST_RETRY_DELAY_MS,
        DeliveryOutcome::SendFailed => 0,
        DeliveryOutcome::Delivered => COMMAND_DELAY_MS,
    }
}

/// Tells how long the dispatcher rests before it takes the next command from
/// the queue: the settle delay after a delivered command, a longer pause when
/// the bulb could not be reached at all, none after a failed send.
pub fn pause_after(outcome: DeliveryOutcome) -> (ms: u64)
    ensures
        ms == spec_pause_after(outcome),
{
    match outcome {
        DeliveryOutcome::RequestFailed => REQUEST_RETRY_DELAY_MS,
        DeliveryOutcome::SendFailed => 0,
        DeliveryOutcome::Delivered => COMMAND_DELAY_MS,
    }
}

} // verus!
