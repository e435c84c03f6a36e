//! Plain-value description of a compositor input device.
use vstd::prelude::*;

verus! {

/// The kinds of input device that the compositor reports.
#[derive(Clone, Copy, Debug, PartialEq, Eq, Structural)]
pub enum DeviceKind {
    Keyboard,
    Pointer,
    Touch,
    TabletTool,
    TabletPad,
    Switch,
}

/// Generic metadata of an input device: its address in the compositor and its
/// kind. The address is an identity only; this library never reads through it.
#[derive(Clone, Copy, Debug, PartialEq, Eq, Structural)]
pub struct InputDevice {
    pub addr: usize,
    pub kind: DeviceKind,
}

impl InputDevice {
    /// Describes the device found at `addr`, of kind `kind`.
    pub fn from_raw(addr: usize, kind: DeviceKind) -> (r: InputDevice)
        ensures
            r.addr == addr,
            r.kind == kind,
    {
        InputDevice { addr, kind }
    }

    /// The address of the device in the compositor.
    pub fn as_addr(&self) -> (r: usize)
        ensures
            r == self.addr,
    {
        self.addr
    }
}

} // verus!
