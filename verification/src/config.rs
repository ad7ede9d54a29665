//! Configuration for the RPC router.
use crate::defaults;
use vstd::prelude::*;

verus! {

/// Configuration for the RPC router.
#[derive(Clone)]
pub struct Config {
    pub zebra_url: String,
    pub zallet_url: String,
    pub _zaino_url: String,
    pub rpc_user: String,
    pub rpc_password: String,
    pub cors_origin: String,
    pub listen_port: u16,
}

/// The environment variables that configure the router, each where it is set to a text.
pub struct Environment {
    /// `ZEBRA_URL`
    pub zebra_url: Option<String>,
    /// `ZALLET_URL`
    pub zallet_url: Option<String>,
    /// `ZAINO_URL`
    pub zaino_url: Option<String>,
    /// `RPC_USER`
    pub rpc_user: Option<String>,
    /// `RPC_PASSWORD`
    pub rpc_password: Option<String>,
    /// `CORS_ORIGIN`
    pub cors_origin: Option<String>,
    /// `LISTEN_PORT`
    pub listen_port: Option<String>,
}

/// The number that decimal digits stand for.
pub open spec fn decimal(digits: Seq<char>) -> nat
    decreases digits.len(),
{
    if digits.len() == 0 {
        0
    } else {
        decimal(digits.drop_last()) * 10 + (digits.last() as nat - '0' as nat) as nat
    }
}

/// `text` without the plus sign that it may begin with.
pub open spec fn without_sign(text: Seq<char>) -> Seq<char> {
    if text.len() > 0 && text[0] == '+' {
        text.skip(1)
    } else {
        text
    }
}

/// `text` holds decimal digits and nothing else.
pub open spec fn all_digits(text: Seq<char>) -> bool {
    forall|i: int| 0 <= i < text.len() ==> '0' <= #[trigger] text[i] && text[i] <= '9'
}

/// The port that a text stands for: decimal digits, behind a plus sign or not, whose number fits
/// in 16 bits.
pub open spec fn port_of(text: Seq<char>) -> Option<u16> {
    let digits = without_sign(text);
    if digits.len() > 0 && all_digits(digits) && decimal(digits) <= u16::MAX {
        Some(decimal(digits) as u16)
    } else {
        None
    }
}

/// `str::parse` to a `u16`: an optional plus sign and decimal digits alone, without overflow.
#[verifier::external_body]
fn parse_u16(text: &str) -> (number: Option<u16>)
    ensures
        number == port_of(text@),
{
    text.parse().ok()
}

/// A setting: the variable where it is set, and the default where it is not.
pub open spec fn setting(variable: Option<String>, default: Seq<char>) -> Seq<char> {
    match variable {
        Some(text) => text@,
        None => default,
    }
}

/// The port to listen on: the one that the variable stands for, and the default where it is not
/// set or stands for none.
pub open spec fn port_setting(variable: Option<String>) -> u16 {
    match variable {
        Some(text) => match port_of(text@) {
            Some(port) => port,
            None => defaults::LISTEN_PORT,
        },
        None => defaults::LISTEN_PORT,
    }
}

/// The variable where it is set, and the default where it is not.
fn set_or(variable: Option<String>, default: &str) -> (text: String)
    ensures
        text@ == setting(variable, default@),
{
    match variable {
        Some(text) => text,
        None => default.to_string(),
    }
}

impl Config {
    /// Reads the configuration from the environment, with a default for what is not set.
    pub fn from_env(env: Environment) -> (config: Self)
        ensures
            config.zebra_url@ == setting(env.zebra_url, defaults::ZEBRA_URL@),
            config.zallet_url@ == setting(env.zallet_url, defaults::ZALLET_URL@),
            config._zaino_url@ == setting(env.zaino_url, defaults::ZAINO_URL@),
            config.rpc_user@ == setting(env.rpc_user, defaults::RPC_USER@),
            config.rpc_password@ == setting(env.rpc_password, defaults::RPC_PASSWORD@),
            config.cors_origin@ == setting(env.cors_origin, defaults::CORS_ORIGIN@),
            config.listen_port == port_setting(env.listen_port),
    {
        let listen_port: u16 = match env.listen_port {
            Some(text) => match parse_u16(text.as_str()) {
                Some(port) => port,
                None => defaults::LISTEN_PORT,
            },
            None => defaults::LISTEN_PORT,
        };
        Self {
            zebra_url: set_or(env.zebra_url, defaults::ZEBRA_URL),
            zallet_url: set_or(env.zallet_url, defaults::ZALLET_URL),
            _zaino_url: set_or(env.zaino_url, defaults::ZAINO_URL),
            rpc_user: set_or(env.rpc_user, defaults::RPC_USER),
            rpc_password: set_or(env.rpc_password, defaults::RPC_PASSWORD),
            cors_origin: set_or(env.cors_origin, defaults::CORS_ORIGIN),
            listen_port,
        }
    }
}

} // verus!
