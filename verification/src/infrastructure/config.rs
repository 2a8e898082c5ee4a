//! The settings of a server that offers the ledger.

use vstd::prelude::*;

verus! {

/// Where the database is, and where the server listens.
#[derive(Debug, PartialEq, Eq)]
pub struct Config {
    pub database_url: String,
    pub server_host: String,
    pub server_port: u16,
}

/// The port that a text spells for `str::parse`, or `None` where the text is
/// no number that a port can be.
pub uninterp spec fn parsed_port(text: Seq<char>) -> Option<u16>;

/// The host to listen on where no other is set.
pub open spec fn default_host() -> Seq<char> {
    "127.0.0.1"@
}

/// The port to listen on where no other is set, or the one set is no port.
pub open spec fn default_port() -> u16 {
    3000
}

/// The character that stands for a digit.
pub open spec fn digit(value: nat) -> char {
    if value == 0 {
        '0'
    } else if value == 1 {
        '1'
    } else if value == 2 {
        '2'
    } else if value == 3 {
        '3'
    } else if value == 4 {
        '4'
    } else if value == 5 {
        '5'
    } else if value == 6 {
        '6'
    } else if value == 7 {
        '7'
    } else if value == 8 {
        '8'
    } else {
        '9'
    }
}

/// A number as it is written in decimal, without leading zeros.
pub open spec fn decimal(number: nat) -> Seq<char>
    decreases number,
{
    if number < 10 {
        seq![digit(number)]
    } else {
        decimal(number / 10).push(digit(number % 10))
    }
}

/// Reads a port with `str::parse`; the result is named `parsed_port`, and
/// the parser's error is dropped.
#[verifier::external_body]
fn parse_port(text: &str) -> (port: Option<u16>)
    ensures
        port == parsed_port(text@),
{
    text.parse::<u16>().ok()
}

/// One digit as a text.
fn digit_text(value: u16) -> (text: &'static str)
    requires
        value < 10,
    ensures
        text@ == seq![digit(value as nat)],
{
    proof {
        reveal_strlit("0");
        reveal_strlit("1");
        reveal_strlit("2");
        reveal_strlit("3");
        reveal_strlit("4");
        reveal_strlit("5");
        reveal_strlit("6");
        reveal_strlit("7");
        reveal_strlit("8");
        reveal_strlit("9");
    }
    let text = if value == 0 {
        "0"
    } else if value == 1 {
        "1"
    } else if value == 2 {
        "2"
    } else if value == 3 {
        "3"
    } else if value == 4 {
        "4"
    } else if value == 5 {
        "5"
    } else if value == 6 {
        "6"
    } else if value == 7 {
        "7"
    } else if value == 8 {
        "8"
    } else {
        "9"
    };
    assert(text@ =~= seq![digit(value as nat)]);
    text
}

/// A port number as a text.
fn decimal_text(number: u16) -> (text: String)
    ensures
        text@ == decimal(number as nat),
    decreases number,
{
    if number < 10 {
        digit_text(number).to_owned()
    } else {
        let mut text = decimal_text(number / 10);
        text.append(digit_text(number % 10));
        assert(text@ =~= decimal(number as nat));
        text
    }
}

impl Config {
    /// The settings that the given values make: the host and the port fall
    /// back on their defaults where none is given, the port also where the
    /// text given is no port.
    pub fn from_settings(
        database_url: String,
        server_host: Option<String>,
        server_port: Option<String>,
    ) -> (config: Config)
        ensures
            config.database_url == database_url,
            config.server_host@ == (match server_host {
                Some(host) => host@,
                None => default_host(),
            }),
            config.server_port == (match server_port {
                Some(text) => match parsed_port(text@) {
                    Some(port) => port,
                    None => default_port(),
                },
                None => default_port(),
            }),
    {
        let host = match server_host {
            Some(host) => host,
            None => "127.0.0.1".to_owned(),
        };
        let port = match server_port {
            Some(text) => match parse_port(text.as_str()) {
                Some(port) => port,
                None => 3000,
            },
            None => 3000,
        };
        Config { database_url, server_host: host, server_port: port }
    }

    /// The address to listen on: the host, a colon, and the port in decimal.
    pub fn server_addr(&self) -> (address: String)
        ensures
            address@ == self.server_host@ + seq![':'] + decimal(self.server_port as nat),
    {
        proof {
            reveal_strlit(":");
        }
        let mut address = self.server_host.clone();
        address.append(":");
        let port = decimal_text(self.server_port);
        address.append(port.as_str());
        assert(":"@ =~= seq![':']);
        address
    }
}

} // verus!
