//! The configuration of a run: where the fork reads chain state from, and the
//! exchange contracts it talks to.
use crate::address::ChainAddress;
use ethers::types::H160;
use std::str::FromStr;
use vstd::prelude::*;

verus! {

/// The value of a hexadecimal digit, or -1 for any other character.
pub open spec fn hex_digit_value(c: char) -> int {
    let v = c as u32 as int;
    if 0x30 <= v <= 0x39 {
        v - 0x30
    } else if 0x61 <= v <= 0x66 {
        v - 0x61 + 10
    } else if 0x41 <= v <= 0x46 {
        v - 0x41 + 10
    } else {
        -1
    }
}

/// Blanks that may stand between the digits of an address.
pub open spec fn is_hex_blank(c: char) -> bool {
    c == ' ' || c == '\r' || c == '\n' || c == '\t'
}

/// The digits of an address in text: an optional `0x` removed, blanks dropped.
pub open spec fn address_digits(s: Seq<char>) -> Seq<char> {
    let body = if s.len() >= 2 && s[0] == '0' && s[1] == 'x' {
        s.skip(2)
    } else {
        s
    };
    body.filter(|c: char| !is_hex_blank(c))
}

/// The bytes written by `s`: exactly forty hexadecimal digits, two per byte,
/// most significant digit first.
pub open spec fn parsed_address(s: Seq<char>) -> Option<Seq<u8>> {
    let d = address_digits(s);
    if d.len() == 40 && forall|k: int| 0 <= k < 40 ==> hex_digit_value(#[trigger] d[k]) >= 0 {
        Some(
            Seq::new(
                20,
                |k: int| (hex_digit_value(d[2 * k]) * 16 + hex_digit_value(d[2 * k + 1])) as u8,
            ),
        )
    } else {
        None
    }
}

/// Relies on `H160::from_str` (fixed-hash, decoding with rustc-hex): an optional
/// `0x`, then twenty bytes as hexadecimal digits of either case, blanks skipped.
#[verifier::external_body]
fn parse_h160(s: &str) -> (r: Option<ChainAddress>)
    ensures
        match r {
            Some(a) => parsed_address(s@) == Some(a.bytes@),
            None => parsed_address(s@) is None,
        },
{
    H160::from_str(s).ok().map(|h| ChainAddress { bytes: h.0 })
}

/// The address written by `s`, or `None` when it is not forty hexadecimal
/// digits (after an optional `0x`, blanks aside).
pub fn parse_address(s: &str) -> (r: Option<ChainAddress>)
    ensures
        match r {
            Some(a) => parsed_address(s@) == Some(a.bytes@),
            None => parsed_address(s@) is None,
        },
{
    parse_h160(s)
}

#[derive(Clone, Copy, Debug, PartialEq, Eq)]
pub enum SettingsError {
    InvalidRouter,
    InvalidFactory,
    InvalidWeth,
}

/// Read once before a run and passed to it.
#[derive(Debug)]
pub struct Settings {
    pub rpc_url: String,
    pub router: ChainAddress,
    pub factory: ChainAddress,
    /// The wrapped native coin, the other side of every pair.
    pub weth: ChainAddress,
}

impl Settings {
    /// Settings from text; the first address that does not parse is reported.
    pub fn new(rpc_url: String, router: &str, factory: &str, weth: &str) -> (r: Result<
        Settings,
        SettingsError,
    >)
        ensures
            match r {
                Ok(st) => {
                    &&& st.rpc_url@ == rpc_url@
                    &&& parsed_address(router@) == Some(st.router.bytes@)
                    &&& parsed_address(factory@) == Some(st.factory.bytes@)
                    &&& parsed_address(weth@) == Some(st.weth.bytes@)
                },
                Err(SettingsError::InvalidRouter) => parsed_address(router@) is None,
                Err(SettingsError::InvalidFactory) => parsed_address(router@) is Some
                    && parsed_address(factory@) is None,
                Err(SettingsError::InvalidWeth) => parsed_address(router@) is Some
                    && parsed_address(factory@) is Some && parsed_address(weth@) is None,
            },
    {
        let router = match parse_h160(router) {
            Some(a) => a,
            None => {
                return Err(SettingsError::InvalidRouter);
            },
        };
        let factory = match parse_h160(factory) {
            Some(a) => a,
            None => {
                return Err(SettingsError::InvalidFactory);
            },
        };
        let weth = match parse_h160(weth) {
            Some(a) => a,
            None => {
                return Err(SettingsError::InvalidWeth);
            },
        };
        Ok(Settings { rpc_url, router, factory, weth })
    }
}

} // verus!
