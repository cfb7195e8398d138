//! Error and port types shared by every layer of the driver.
use vstd::prelude::*;

verus! {

/// Number of ports one controller can expose.
pub const MAX_SUPPORTED_PORTS: usize = 2;

/// Protocol-level failures of the PD controller driver.
#[derive(Debug, Clone, Copy, PartialEq, Eq, Structural)]
pub enum PdError {
    /// An argument was out of range or a buffer had the wrong size
    InvalidParams,
    /// The port does not exist on this controller
    InvalidPort,
    /// The controller has not finished the previous command
    Busy,
    /// The operation is still in progress
    InProgress,
    /// The controller did not recognize the command code
    UnrecognizedCommand,
    /// The operation did not finish in time
    Timeout,
    /// The controller rejected the command
    Rejected,
    /// The operation failed
    Failed,
    /// The controller is not in the expected mode
    InvalidMode,
}

/// A failure of an operation that touches the bus: either the transport
/// failed, with the transport's own error carried through untouched, or the
/// protocol failed.
#[derive(Debug, Clone, Copy, PartialEq, Eq)]
pub enum Error<BE> {
    /// Transport failure
    Bus(BE),
    /// Protocol failure
    Pd(PdError),
}

/// Identifies one port of a controller.
#[derive(Debug, Clone, Copy, PartialEq, Eq, Structural)]
pub struct PortId(pub u8);

/// The bus address of `port`, for a controller with `num_ports` ports whose
/// addresses are `addr`; `None` where the port does not exist.
pub open spec fn spec_port_addr(addr: [u8; 2], num_ports: usize, port: PortId) -> Option<u8> {
    if port.0 < num_ports && port.0 < 2 {
        Some(addr[port.0 as int])
    } else {
        None
    }
}

/// Looks up the bus address of a port. A port at or beyond `num_ports` is
/// refused with `InvalidPort`.
pub fn port_addr(addr: &[u8; 2], num_ports: usize, port: PortId) -> (r: Result<u8, PdError>)
    ensures
        r == match spec_port_addr(*addr, num_ports, port) {
            Some(a) => Ok::<u8, PdError>(a),
            None => Err::<u8, PdError>(PdError::InvalidPort),
        },
{
    let index: usize = port.0 as usize;
    if index >= num_ports || index >= 2 {
        Err(PdError::InvalidPort)
    } else {
        Ok(addr[index])
    }
}

} // verus!
