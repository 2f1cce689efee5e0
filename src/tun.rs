//! The capability that every device backend offers.
use vstd::prelude::*;

use crate::error::TunError;

verus! {

/// A layer-3 tunnel device: administrative state and packet exchange.
pub trait Tun: Sized {
    /// The packet information that accompanies each packet.
    type PktInfo;

    /// Marks the device as up on the system.
    fn up(&self) -> Result<(), TunError>;

    /// Marks the device as down on the system.
    fn down(&self) -> Result<(), TunError>;

    /// Reads one packet into `buf`, and its packet information when
    /// packet-info mode is on. Returns the payload length and the packet
    /// information (blank when the mode is off).
    fn read_packet(&self, buf: &mut [u8]) -> Result<(usize, Self::PktInfo), TunError>;

    /// Writes the packet `buf`, preceded by `pi` when packet-info mode is on.
    /// Returns the number of bytes written, header included.
    fn write_packet(&self, buf: &[u8], pi: Self::PktInfo) -> Result<usize, TunError>;

    /// Blank packet information, for writes that carry none.
    fn blank_pktinfo(&self) -> Self::PktInfo;
}

/// A shared device is a device: every call goes to the one it shares.
impl<T: Tun> Tun for std::sync::Arc<T> {
    type PktInfo = T::PktInfo;

    fn up(&self) -> Result<(), TunError> {
        (**self).up()
    }

    fn down(&self) -> Result<(), TunError> {
        (**self).down()
    }

    fn read_packet(&self, buf: &mut [u8]) -> Result<(usize, Self::PktInfo), TunError> {
        (**self).read_packet(buf)
    }

    fn write_packet(&self, buf: &[u8], pi: Self::PktInfo) -> Result<usize, TunError> {
        (**self).write_packet(buf, pi)
    }

    fn blank_pktinfo(&self) -> Self::PktInfo {
        (**self).blank_pktinfo()
    }
}

} // verus!
