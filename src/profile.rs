//! The two fixed line configurations used by a DMX transmitter.

use vstd::prelude::*;

verus! {

/// Bit rate of a serial line: one of the standard rates, or any other rate.
#[derive(Debug, Clone, Copy, PartialEq, Eq, Structural)]
pub enum BaudRate {
    Baud110,
    Baud300,
    Baud600,
    Baud1200,
    Baud2400,
    Baud4800,
    Baud9600,
    Baud19200,
    Baud38400,
    Baud57600,
    Baud115200,
    BaudOther(usize),
}

impl BaudRate {
    /// The rate in bits per second.
    pub open spec fn speed(self) -> nat {
        match self {
            BaudRate::Baud110 => 110,
            BaudRate::Baud300 => 300,
            BaudRate::Baud600 => 600,
            BaudRate::Baud1200 => 1200,
            BaudRate::Baud2400 => 2400,
            BaudRate::Baud4800 => 4800,
            BaudRate::Baud9600 => 9600,
            BaudRate::Baud19200 => 19200,
            BaudRate::Baud38400 => 38400,
            BaudRate::Baud57600 => 57600,
            BaudRate::Baud115200 => 115200,
            BaudRate::BaudOther(n) => n as nat,
        }
    }

    /// Whether this is one of the enumerated standard rates.
    pub open spec fn is_standard(self) -> bool {
        !(self is BaudOther)
    }
}

/// Number of data bits per character.
#[derive(Debug, Clone, Copy, PartialEq, Eq, Structural)]
pub enum CharSize {
    Bits5,
    Bits6,
    Bits7,
    Bits8,
}

/// Parity checking mode.
#[derive(Debug, Clone, Copy, PartialEq, Eq, Structural)]
pub enum Parity {
    ParityNone,
    ParityOdd,
    ParityEven,
}

/// Number of stop bits after each character.
#[derive(Debug, Clone, Copy, PartialEq, Eq, Structural)]
pub enum StopBits {
    Stop1,
    Stop2,
}

/// Flow control mode.
#[derive(Debug, Clone, Copy, PartialEq, Eq, Structural)]
pub enum FlowControl {
    FlowNone,
    FlowSoftware,
    FlowHardware,
}

/// A complete line configuration of a serial port.
#[derive(Debug, Clone, Copy, PartialEq, Eq, Structural)]
pub struct SerialProfile {
    pub baud_rate: BaudRate,
    pub char_size: CharSize,
    pub parity: Parity,
    pub stop_bits: StopBits,
    pub flow_control: FlowControl,
}

/// Bit rate of DMX data.
pub const DMX_BAUD: usize = 250_000;

/// Time, in nanoseconds, to hold after writing the break byte: one zero byte
/// at the break rate takes about 138 microseconds low, followed by a
/// mark-after-break well above the 8 microsecond minimum.
pub const SETTLE_NANOS: u32 = 136_000;

/// The line configuration used to send a break.
///
/// The ideal break rate, 45,455 baud, is not a standard rate; 57,600 baud is
/// the nearest one that every port supports. A zero byte at this rate gives a
/// break of about 138 microseconds (the minimum is 92) and a
/// mark-after-break of about 17 microseconds (the minimum is 8).
pub open spec fn break_profile() -> SerialProfile {
    SerialProfile {
        baud_rate: BaudRate::Baud57600,
        char_size: CharSize::Bits7,
        parity: Parity::ParityNone,
        stop_bits: StopBits::Stop1,
        flow_control: FlowControl::FlowNone,
    }
}

/// The line configuration used to send the start code and the channels:
/// 250,000 baud, 8 data bits, no parity, two stop bits.
pub open spec fn data_profile() -> SerialProfile {
    SerialProfile {
        baud_rate: BaudRate::BaudOther(DMX_BAUD),
        char_size: CharSize::Bits8,
        parity: Parity::ParityNone,
        stop_bits: StopBits::Stop2,
        flow_control: FlowControl::FlowNone,
    }
}

impl SerialProfile {
    /// The configuration a break is sent with.
    pub fn dmx_break() -> (r: SerialProfile)
        ensures
            r == break_profile(),
    {
        SerialProfile {
            baud_rate: BaudRate::Baud57600,
            char_size: CharSize::Bits7,
            parity: Parity::ParityNone,
            stop_bits: StopBits::Stop1,
            flow_control: FlowControl::FlowNone,
        }
    }

    /// The configuration DMX data is sent with.
    pub fn dmx_data() -> (r: SerialProfile)
        ensures
            r == data_profile(),
    {
        SerialProfile {
            baud_rate: BaudRate::BaudOther(DMX_BAUD),
            char_size: CharSize::Bits8,
            parity: Parity::ParityNone,
            stop_bits: StopBits::Stop2,
            flow_control: FlowControl::FlowNone,
        }
    }
}

/// The break is sent at a standard rate other than the DMX data rate, and
/// DMX data goes out at 250,000 baud with 8 data bits, no parity and two
/// stop bits.
pub proof fn lemma_profiles_differ()
    ensures
        break_profile().baud_rate.is_standard(),
        break_profile().baud_rate.speed() != data_profile().baud_rate.speed(),
        data_profile().baud_rate.speed() == 250_000,
        data_profile().char_size == CharSize::Bits8,
        data_profile().parity == Parity::ParityNone,
        data_profile().stop_bits == StopBits::Stop2,
{
}

} // verus!
