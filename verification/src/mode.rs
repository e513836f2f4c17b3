//! The tunnel mode an agent asks for, and its one-byte wire form.

use vstd::prelude::*;

verus! {

/// The byte that selects TCP mode on the wire (ASCII `t`).
pub const TCP_MODE_BYTE: u8 = 0x74;

/// The byte an agent sends to select HTTP mode (ASCII `h`).
pub const HTTP_MODE_BYTE: u8 = 0x68;

/// What an agent exposes: a raw TCP service or an HTTP service.
#[derive(Clone, Copy, Debug, PartialEq, Eq, Structural)]
pub enum Mode {
    Http,
    Tcp,
}

/// The mode a wire byte selects: `0x74` selects TCP, every other byte HTTP.
pub open spec fn mode_of_byte(b: u8) -> Mode {
    if b == TCP_MODE_BYTE {
        Mode::Tcp
    } else {
        Mode::Http
    }
}

/// The byte an agent sends for a mode.
pub open spec fn byte_of_mode(mode: Mode) -> u8 {
    match mode {
        Mode::Tcp => TCP_MODE_BYTE,
        Mode::Http => HTTP_MODE_BYTE,
    }
}

impl Mode {
    /// Reads a mode from its wire byte.
    pub fn from_byte(b: u8) -> (mode: Mode)
        ensures
            mode == mode_of_byte(b),
    {
        if b == TCP_MODE_BYTE {
            Mode::Tcp
        } else {
            Mode::Http
        }
    }

    /// The wire byte of this mode.
    pub fn to_byte(self) -> (b: u8)
        ensures
            b == byte_of_mode(self),
    {
        match self {
            Mode::Tcp => TCP_MODE_BYTE,
            Mode::Http => HTTP_MODE_BYTE,
        }
    }
}

impl From<u8> for Mode {
    fn from(num: u8) -> (mode: Mode) {
        Mode::from_byte(num)
    }
}

impl vstd::std_specs::convert::FromSpecImpl<u8> for Mode {
    open spec fn obeys_from_spec() -> bool {
        true
    }

    open spec fn from_spec(num: u8) -> Mode {
        mode_of_byte(num)
    }
}

impl From<Mode> for [u8; 1] {
    fn from(mode: Mode) -> (bytes: [u8; 1]) {
        [mode.to_byte()]
    }
}

impl vstd::std_specs::convert::FromSpecImpl<Mode> for [u8; 1] {
    open spec fn obeys_from_spec() -> bool {
        true
    }

    open spec fn from_spec(mode: Mode) -> [u8; 1] {
        [byte_of_mode(mode)]
    }
}

/// Reading back the byte written for a mode gives that mode.
pub proof fn lemma_mode_byte_round_trip(mode: Mode)
    ensures
        mode_of_byte(byte_of_mode(mode)) == mode,
{
}

/// A byte selects TCP mode exactly when it is `0x74`.
pub proof fn lemma_tcp_only_for_its_byte(b: u8)
    ensures
        mode_of_byte(b) == Mode::Tcp <==> b == 0x74,
        mode_of_byte(b) == Mode::Http <==> b != 0x74,
{
}

} // verus!
