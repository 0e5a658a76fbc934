//! Transmit side of the DMX512 lighting-control protocol over an
//! asynchronous serial port.
//!
//! A DMX packet is a *break* (the line held low), a *mark-after-break* (the
//! line held high), a start code byte and up to 512 channel bytes sent at
//! 250,000 baud, 8 data bits, no parity and two stop bits. A serial port that
//! can only switch bit rates and write bytes produces the break by switching
//! to a slower standard rate and writing a single zero byte.

pub mod frame;
pub mod profile;
pub mod recorder;
pub mod transmit;

pub use frame::{build_frame, MAX_CHANNELS, NULL_START_CODE};
pub use profile::{BaudRate, CharSize, FlowControl, Parity, SerialProfile, StopBits};
pub use transmit::{DmxTransmitter, PortAction, PortStep};
pub use recorder::{PortFault, PortOp, RecordingPort};
