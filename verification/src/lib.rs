//! A virtual USB device for the local Linux kernel.
//!
//! The library speaks the server side of the USB/IP protocol towards the
//! kernel's vhci-hcd virtual host controller: it packs USB descriptors
//! byte-exactly, decodes the 48-byte USB/IP command frames, answers
//! standard endpoint-0 control requests from the device's descriptors,
//! acknowledges OUT transfers, and hands everything else to the caller as
//! a transfer to answer.  The sysfs port table of the controller and the
//! attach payload are parsed and formatted here too.
//!
//! Every function carries a contract, checked by Verus.  What the crate
//! does not do is input and output: sockets, sysfs reads and writes, and
//! the worker threads around them belong to the program embedding the
//! library, which feeds commands in and carries replies out as plain
//! bytes.

pub mod bytes;
pub mod cdc;
pub mod hid;
pub mod usb;
pub mod usbip;
pub mod virtual_usb;

use vstd::prelude::*;

verus! {

/// Error kinds reported by the library.
#[derive(Debug, Clone, Copy, PartialEq, Eq, Structural)]
pub enum Error {
    /// The virtual host controller node is missing.
    NoVhci,
    /// The kernel module could not be loaded.
    LoadFailed,
    /// No free port was found on the virtual hub.
    NoFreePort,
    /// The sysfs attach write failed.
    AttachFailed,
    /// A buffer was shorter than the declared fixed size.
    Malformed,
    /// A packed enum value was outside its range.
    InvalidEnum,
    /// A value was too large for its wire field.
    TooLong,
    /// An endpoint number was 16 or more.
    InvalidEndpoint,
    /// No configuration is active.
    NoConfig,
    /// A descriptor request could not be satisfied.
    UnknownDescriptor,
    /// A request could not be interpreted.
    UnknownRequest,
    /// No configuration carries the requested value.
    InvalidConfigurationValue,
    /// A standard request that is not handled.
    UnsupportedStandardRequest,
    /// The reader worker is gone.
    ReaderGone,
    /// The writer worker is gone.
    WriterGone,
    /// The device has not been started.
    NotStarted,
}

} // verus!
