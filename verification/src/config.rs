//! The settings that are read once at startup. A setting that is missing or
//! cannot be used falls back to its default.

use vstd::prelude::*;
use vstd::string::StringExecFns;

use crate::text::same_text;

verus! {

/// The port that the service binds where none is configured.
pub const DEFAULT_PORT: u16 = 8082;

/// The byte that writes `+`.
const ASCII_PLUS: u8 = 43;

/// The byte that writes `0`.
const ASCII_ZERO: u8 = 48;

/// The byte that writes `9`.
const ASCII_NINE: u8 = 57;

/// The host that the service binds where none is configured.
pub open spec fn default_host() -> Seq<char> {
    "localhost"@
}

/// Whether a character is one of `0` to `9`.
pub open spec fn is_digit(c: char) -> bool {
    '0' <= c <= '9'
}

/// The number that a run of decimal digits writes.
pub open spec fn decimal_value(digits: Seq<char>) -> int
    decreases digits.len(),
{
    if digits.len() == 0 {
        0
    } else {
        decimal_value(digits.drop_last()) * 10 + (digits.last() as int - '0' as int)
    }
}

/// A port number's text without the `+` that may stand in front.
pub open spec fn unsigned_part(text: Seq<char>) -> Seq<char> {
    if text.len() > 0 && text[0] == '+' {
        text.skip(1)
    } else {
        text
    }
}

/// The port that a text writes: one or more decimal digits, with or without
/// a `+` in front and with nothing else around, whose value is at most
/// 65535.
pub open spec fn parsed_port(text: Seq<char>) -> Option<u16> {
    let digits = unsigned_part(text);
    if digits.len() > 0 && (forall|i: int| 0 <= i < digits.len() ==> is_digit(#[trigger] digits[i]))
        && decimal_value(digits) <= u16::MAX {
        Some(decimal_value(digits) as u16)
    } else {
        None
    }
}

/// The value of a run of digits is never below the value of a shorter run
/// it starts with, and never negative.
pub proof fn lemma_decimal_value_grows(digits: Seq<char>, k: int)
    requires
        0 <= k <= digits.len(),
        forall|i: int| 0 <= i < digits.len() ==> is_digit(#[trigger] digits[i]),
    ensures
        0 <= decimal_value(digits.take(k)) <= decimal_value(digits),
    decreases digits.len() - k,
{
    if k == digits.len() {
        assert(digits.take(k) =~= digits);
        lemma_decimal_value_not_negative(digits);
    } else {
        lemma_decimal_value_grows(digits, k + 1);
        let longer = digits.take(k + 1);
        assert(longer.drop_last() =~= digits.take(k));
        assert(is_digit(longer.last()));
        lemma_decimal_value_not_negative(digits.take(k));
    }
}

/// The value of a run of digits is not negative.
proof fn lemma_decimal_value_not_negative(digits: Seq<char>)
    requires
        forall|i: int| 0 <= i < digits.len() ==> is_digit(#[trigger] digits[i]),
    ensures
        0 <= decimal_value(digits),
    decreases digits.len(),
{
    if digits.len() > 0 {
        lemma_decimal_value_not_negative(digits.drop_last());
        assert(is_digit(digits.last()));
    }
}

/// Reads a port number.
pub fn parse_port(text: &str) -> (port: Option<u16>)
    ensures
        port == parsed_port(text@),
{
    broadcast use vstd::string::is_ascii_spec_bytes;

    let ghost digits = unsigned_part(text@);
    if !text.is_ascii() {
        proof {
            let i = choose|i: int|
                0 <= i < text@.len() && !('\0' <= #[trigger] text@[i] <= '\u{7f}');
            if text@[0] == '+' {
                assert(digits[i - 1] == text@[i]);
            } else {
                assert(digits[i] == text@[i]);
            }
        }
        return None;
    }
    let bytes = text.as_bytes();
    let n = bytes.len();
    assert(forall|i: int| 0 <= i < n ==> bytes@[i] == text@[i] as u8);
    let start: usize = if n > 0 && bytes[0] == ASCII_PLUS {
        1
    } else {
        0
    };
    assert(digits =~= text@.skip(start as int));
    if start == n {
        return None;
    }
    let mut value: u32 = 0;
    let mut i: usize = start;
    assert(digits.take(0) =~= Seq::<char>::empty());
    while i < n
        invariant
            n == bytes@.len(),
            n == text@.len(),
            start <= i <= n,
            digits == text@.skip(start as int),
            digits == unsigned_part(text@),
            forall|k: int| 0 <= k < n ==> bytes@[k] == text@[k] as u8,
            forall|k: int| 0 <= k < n ==> '\0' <= #[trigger] text@[k] <= '\u{7f}',
            forall|k: int| 0 <= k < i - start ==> is_digit(#[trigger] digits[k]),
            value == decimal_value(digits.take(i - start)),
            value <= u16::MAX,
        decreases n - i,
    {
        let byte = bytes[i];
        let ghost c = text@[i as int];
        assert(digits[i - start] == c);
        if byte < ASCII_ZERO || byte > ASCII_NINE {
            return None;
        }
        let next: u32 = value * 10 + (byte - ASCII_ZERO) as u32;
        proof {
            let longer = digits.take(i - start + 1);
            assert(longer.drop_last() =~= digits.take(i - start));
            assert(longer.last() == c);
            assert(next == decimal_value(longer));
        }
        if next > 65535 {
            proof {
                if forall|k: int| 0 <= k < digits.len() ==> is_digit(#[trigger] digits[k]) {
                    lemma_decimal_value_grows(digits, i - start + 1);
                }
            }
            return None;
        }
        value = next;
        i += 1;
    }
    assert(digits.take(n - start) =~= digits);
    Some(value as u16)
}

/// The port to bind: the configured one where it reads as a port, else the
/// default.
pub fn port_from(value: Option<&str>) -> (port: u16)
    ensures
        port == match value {
            Some(text) => match parsed_port(text@) {
                Some(configured) => configured,
                None => DEFAULT_PORT,
            },
            None => DEFAULT_PORT,
        },
{
    match value {
        Some(text) => match parse_port(text) {
            Some(configured) => configured,
            None => DEFAULT_PORT,
        },
        None => DEFAULT_PORT,
    }
}

/// The host to bind: the configured one, else the default.
pub fn host_from(value: Option<String>) -> (host: String)
    ensures
        host@ == match value {
            Some(configured) => configured@,
            None => default_host(),
        },
{
    match value {
        Some(configured) => configured,
        None => "localhost".to_owned(),
    }
}

/// Whether a browser is opened after startup: always, unless the setting is
/// exactly `false` or `0`.
pub fn should_open_browser(value: Option<&str>) -> (open: bool)
    ensures
        open == match value {
            Some(text) => text@ != "false"@ && text@ != "0"@,
            None => true,
        },
{
    match value {
        Some(text) => !same_text(text, "false") && !same_text(text, "0"),
        None => true,
    }
}

/// The host in the address that a browser is sent to: an address that
/// stands for this machine is written `localhost`.
pub open spec fn browser_host_of(host: Seq<char>) -> Seq<char> {
    if host == "0.0.0.0"@ || host == "127.0.0.1"@ {
        "localhost"@
    } else {
        host
    }
}

/// The host in the address that a browser is sent to.
pub fn browser_host(host: &str) -> (shown: &str)
    ensures
        shown@ == browser_host_of(host@),
{
    if same_text(host, "0.0.0.0") || same_text(host, "127.0.0.1") {
        "localhost"
    } else {
        host
    }
}

/// The character that writes a digit.
pub open spec fn digit_char(digit: nat) -> char {
    if digit == 0 {
        '0'
    } else if digit == 1 {
        '1'
    } else if digit == 2 {
        '2'
    } else if digit == 3 {
        '3'
    } else if digit == 4 {
        '4'
    } else if digit == 5 {
        '5'
    } else if digit == 6 {
        '6'
    } else if digit == 7 {
        '7'
    } else if digit == 8 {
        '8'
    } else {
        '9'
    }
}

/// A number in decimal digits, without leading zeros.
pub open spec fn decimal_text(n: nat) -> Seq<char>
    decreases n,
{
    if n < 10 {
        seq![digit_char(n)]
    } else {
        decimal_text(n / 10).push(digit_char(n % 10))
    }
}

/// The text of one digit.
fn digit_text(digit: u16) -> (text: &'static str)
    requires
        digit < 10,
    ensures
        text@ == seq![digit_char(digit as nat)],
{
    proof {
        reveal_strlit("0");
        reveal_strlit("1");
        reveal_strlit("2");
        reveal_strlit("3");
        reveal_strlit("4");
        reveal_strlit("5");
        reveal_strlit("6");
        reveal_strlit("7");
        reveal_strlit("8");
        reveal_strlit("9");
    }
    let text = match digit {
        0 => "0",
        1 => "1",
        2 => "2",
        3 => "3",
        4 => "4",
        5 => "5",
        6 => "6",
        7 => "7",
        8 => "8",
        _ => "9",
    };
    assert(text@ =~= seq![digit_char(digit as nat)]);
    text
}

/// Writes a number in decimal digits at the end of `out`.
fn push_decimal(out: &mut String, n: u16)
    ensures
        final(out)@ == old(out)@ + decimal_text(n as nat),
    decreases n,
{
    if n >= 10 {
        push_decimal(out, n / 10);
    }
    out.append(digit_text(n % 10));
    assert(out@ =~= old(out)@ + decimal_text(n as nat));
}

/// The address that a browser is sent to after startup.
pub open spec fn browser_url_of(host: Seq<char>, port: u16) -> Seq<char> {
    "http://"@ + browser_host_of(host) + ":"@ + decimal_text(port as nat) + "/"@
}

/// The address that a browser is sent to after startup.
pub fn browser_url(host: &str, port: u16) -> (url: String)
    ensures
        url@ == browser_url_of(host@, port),
{
    let mut url = "http://".to_owned();
    url.append(browser_host(host));
    url.append(":");
    push_decimal(&mut url, port);
    url.append("/");
    url
}

/// The settings of one run of the service.
#[derive(Debug)]
pub struct Config {
    /// The address to bind.
    pub host: String,
    /// The port to bind.
    pub port: u16,
    /// The directory of frontend files, where one is configured. Where none
    /// is, the caller looks beside the program.
    pub frontend_dir: Option<String>,
    /// Whether to open a browser after startup.
    pub open_browser: bool,
}

impl Config {
    /// The settings that four values of the environment give. Each value is
    /// `None` where the environment does not hold it.
    pub fn from_values(
        host: Option<String>,
        port: Option<String>,
        frontend_dir: Option<String>,
        open_browser: Option<String>,
    ) -> (config: Config)
        ensures
            config.host@ == match host {
                Some(configured) => configured@,
                None => default_host(),
            },
            config.port == match port {
                Some(text) => match parsed_port(text@) {
                    Some(configured) => configured,
                    None => DEFAULT_PORT,
                },
                None => DEFAULT_PORT,
            },
            config.frontend_dir == frontend_dir,
            config.open_browser == match open_browser {
                Some(text) => text@ != "false"@ && text@ != "0"@,
                None => true,
            },
    {
        let port = match &port {
            Some(text) => port_from(Some(text.as_str())),
            None => port_from(None),
        };
        let open_browser = match &open_browser {
            Some(text) => should_open_browser(Some(text.as_str())),
            None => should_open_browser(None),
        };
        Config { host: host_from(host), port, frontend_dir, open_browser }
    }

    /// The address that a browser is sent to after startup.
    pub fn browser_url(&self) -> (url: String)
        ensures
            url@ == browser_url_of(self.host@, self.port),
    {
        browser_url(self.host.as_str(), self.port)
    }
}

} // verus!
