//! The options of the service.

use crate::text::{chars_of, parse_u64, push_char, push_decimal, spec_decimal_text, spec_parse_u64};
use vstd::prelude::*;

verus! {

/// The options as a mathematical value.
pub struct ConfigView {
    pub config: Seq<char>,
    pub ip: Seq<char>,
    pub port: u16,
}

/// The options of the service.
#[derive(Debug, PartialEq, Eq)]
pub struct Config {
    /// Path of an additional configuration file. Reserved.
    pub config: String,
    /// Address to listen on.
    pub ip: String,
    /// Port to listen on.
    pub port: u16,
}

impl View for Config {
    type V = ConfigView;

    open spec fn view(&self) -> ConfigView {
        ConfigView { config: self.config@, ip: self.ip@, port: self.port }
    }
}

/// The port that `text` writes: an optional `+` and then digits, with a
/// value of at most 65535. `None` otherwise.
pub open spec fn spec_parse_port(text: Seq<char>) -> Option<u16> {
    match spec_parse_u64(text) {
        Some(n) => if n <= u16::MAX {
            Some(n as u16)
        } else {
            None
        },
        None => None,
    }
}

/// The address that the options make the service listen on: the address
/// and the port in decimal, with a colon between them.
pub open spec fn spec_address(config: ConfigView) -> Seq<char> {
    config.ip.push(':') + spec_decimal_text(config.port as nat)
}

impl Config {
    /// The configuration file that is named where no option names one.
    pub const DEFAULT_CONFIG: &'static str = "/etc/xxx";

    /// The address that is listened on where no option gives one.
    pub const DEFAULT_IP: &'static str = "[::1]";

    /// The port that is listened on where no option gives one.
    pub const DEFAULT_PORT: u16 = 50051;

    /// The options from the texts that were given for them. `None` where
    /// `port` is no port.
    pub fn new(config: &str, ip: &str, port: &str) -> (options: Option<Self>)
        ensures
            match spec_parse_port(port@) {
                Some(number) => options matches Some(o) && o@ == (ConfigView { config: config@, ip: ip@, port: number }),
                None => options is None,
            },
    {
        match Self::parse_port(port) {
            Some(number) => Some(Config { config: config.to_owned(), ip: ip.to_owned(), port: number }),
            None => None,
        }
    }

    /// The port that `text` writes, if it writes one.
    pub fn parse_port(text: &str) -> (port: Option<u16>)
        ensures
            port == spec_parse_port(text@),
    {
        let chars = chars_of(text);
        proof {
            assert(chars@.subrange(0, chars@.len() as int) =~= chars@);
        }
        match parse_u64(&chars, 0, chars.len()) {
            Some(n) => if n <= 65535 {
                Some(n as u16)
            } else {
                None
            },
            None => None,
        }
    }

    /// The address to listen on, as `ip:port`.
    pub fn address(&self) -> (address: String)
        ensures
            address@ == spec_address(self@),
    {
        let mut address = self.ip.clone();
        push_char(&mut address, ':');
        push_decimal(&mut address, self.port as u64);
        address
    }
}

impl Default for Config {
    /// The options of a service that was started without any.
    fn default() -> (options: Self)
        ensures
            options@ == (ConfigView { config: Config::DEFAULT_CONFIG@, ip: Config::DEFAULT_IP@, port: Config::DEFAULT_PORT }),
    {
        Config {
            config: Config::DEFAULT_CONFIG.to_owned(),
            ip: Config::DEFAULT_IP.to_owned(),
            port: Config::DEFAULT_PORT,
        }
    }
}

} // verus!
