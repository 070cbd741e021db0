//! The bus-transport capability that the driver consumes.
//!
//! The driver does not care which physical bus carries its traffic; it only
//! needs a transport that can write a few bytes to a device and read a reply
//! back in one combined transaction. The contract below records every
//! transaction in a ghost history, so that a caller of the driver can see
//! exactly what traffic each accessor put on the bus.

use vstd::prelude::*;

verus! {

/// One write-then-read transaction as the transport saw it: the bus address
/// it went to, the bytes written, and what came back — the reply bytes on
/// success, the transport's own error otherwise.
pub struct Transaction<E> {
    pub address: u8,
    pub write: Seq<u8>,
    pub response: Result<Seq<u8>, E>,
}

/// A bus transport able to issue combined write-then-read transactions.
///
/// Implementations decide what a transaction returns — reply bytes of the
/// addressed device, or an error of their own — but every call must append
/// exactly one record of itself to `history`, and must fill the caller's
/// buffer without resizing it.
pub trait WriteRead: Sized {
    /// The transport's own error type (bus busy, NACK, timeout, ...).
    type Error;

    /// Every transaction issued on this transport so far, oldest first.
    ///
    /// A transport that verified code reasons about defines this for
    /// itself; the default stands only for transports that are never
    /// verified against this contract.
    open spec fn history(&self) -> Seq<Transaction<Self::Error>> {
        Seq::empty()
    }

    /// Write `bytes` to the device at `address`, then read exactly
    /// `buffer.len()` reply bytes into `buffer`, as one transaction.
    fn write_read(&mut self, address: u8, bytes: &[u8], buffer: &mut Vec<u8>) -> (r: Result<
        (),
        Self::Error,
    >)
        ensures
            final(buffer)@.len() == old(buffer)@.len(),
            final(self).history() == old(self).history().push(
                Transaction {
                    address: address,
                    write: bytes@,
                    response: match r {
                        Ok(()) => Ok(final(buffer)@),
                        Err(e) => Err(e),
                    },
                },
            ),
    ;
}

} // verus!
