use vstd::prelude::*;

verus! {

/// Failure of the USB transport itself; fatal to the current call and never
/// retried inside the driver.
#[derive(Clone, Copy, Debug, PartialEq, Eq, Structural)]
pub enum TransportError {
    /// No attached device matched the requested serial number.
    NoDevice,
    /// A bulk transfer did not complete within the per-call timeout.
    Timeout,
    /// The endpoint stalled.
    Stall,
    /// The device disappeared from the bus.
    Disconnected,
}

/// The probe answered, but with data the protocol does not allow; surfaced
/// verbatim, the driver never guesses intent on ambiguous data.
#[derive(Clone, Copy, Debug, PartialEq, Eq, Structural)]
pub enum ProtocolError {
    /// A GET_CURRENT_MODE reply outside the five known mode codes.
    UnknownMode(u16),
    /// A trace stream header whose size class is not a known value.
    MalformedTraceHeader(u8),
}

/// The error taxonomy of the driver. `Status` reports that the post-transfer
/// read/write status check failed, which must surface as the failure of the
/// preceding memory or register operation.
#[derive(Clone, Copy, Debug, PartialEq, Eq, Structural)]
pub enum Error {
    Transport(TransportError),
    Protocol(ProtocolError),
    Status,
}

} // verus!
