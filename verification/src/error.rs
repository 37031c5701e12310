//! Errors of the device.
use vm_memory::GuestMemoryError;
use vstd::prelude::*;

verus! {

/// Why a request of the guest was refused.
#[derive(Debug)]
pub enum Error {
    /// Guest gave us bad memory addresses.
    GuestMemory(GuestMemoryError),
    /// Guest gave us a write only descriptor that protocol says to read from.
    UnexpectedWriteOnlyDescriptor,
    /// Guest gave us a read only descriptor that protocol says to write to.
    UnexpectedReadOnlyDescriptor,
    /// Guest gave us too few descriptors in a descriptor chain.
    DescriptorChainTooShort,
    /// Guest gave us a buffer that was too short to use.
    BufferLengthTooSmall,
    /// Guest sent us invalid request.
    InvalidRequest,
    /// Guest sent us invalid ATTACH request.
    InvalidAttachRequest,
    /// Guest sent us invalid DETACH request.
    InvalidDetachRequest,
    /// Guest sent us invalid MAP request.
    InvalidMapRequest,
    /// Guest sent us invalid UNMAP request.
    InvalidUnmapRequest,
    /// Guest sent us invalid PROBE request.
    InvalidProbeRequest,
    /// Failed to performing external mapping.
    ExternalMapping(std::io::Error),
    /// Failed to performing external unmapping.
    ExternalUnmapping(std::io::Error),
}

/// Why the worker of the device stopped with an error.
#[derive(Debug)]
pub enum DeviceError {
    /// Creating the epoll file descriptor failed.
    EpollCreateFd(std::io::Error),
    /// Registering an event failed.
    EpollCtl(std::io::Error),
    /// Waiting for events failed.
    EpollWait(std::io::Error),
    /// Signaling that a queue holds used descriptors failed.
    FailedSignalingUsedQueue(std::io::Error),
}

/// Why the device could not be activated.
#[derive(Clone, Copy, Debug, PartialEq, Eq, Structural)]
pub enum ActivateError {
    BadActivate,
}

/// Whether `text` is `prefix` followed by a rendering of `cause`.
pub open spec fn names_cause<E: std::fmt::Display>(
    text: Seq<char>,
    prefix: Seq<char>,
    cause: E,
) -> bool {
    exists|shown: String|
        #![trigger vstd::string::to_string_from_display_ensures(&cause, shown)]
        vstd::string::to_string_from_display_ensures(&cause, shown) && text == prefix + shown@
}

impl Error {
    /// Whether `text` describes the error.
    pub open spec fn described_by(self, text: Seq<char>) -> bool {
        match self {
            Error::BufferLengthTooSmall => text == "buffer length too small"@,
            Error::DescriptorChainTooShort => text == "descriptor chain too short"@,
            Error::GuestMemory(e) => names_cause(text, "bad guest memory address: "@, e),
            Error::InvalidRequest => text == "invalid request"@,
            Error::InvalidAttachRequest => text == "invalid attach request"@,
            Error::InvalidDetachRequest => text == "invalid detach request"@,
            Error::InvalidMapRequest => text == "invalid map request"@,
            Error::InvalidUnmapRequest => text == "invalid unmap request"@,
            Error::InvalidProbeRequest => text == "invalid probe request"@,
            Error::UnexpectedReadOnlyDescriptor => text == "unexpected read-only descriptor"@,
            Error::UnexpectedWriteOnlyDescriptor => text == "unexpected write-only descriptor"@,
            Error::ExternalMapping(e) => names_cause(
                text,
                "failed performing external mapping: "@,
                e,
            ),
            Error::ExternalUnmapping(e) => names_cause(
                text,
                "failed performing external unmapping: "@,
                e,
            ),
        }
    }

    /// Describes the error.
    pub fn message(&self) -> (text: String)
        ensures
            self.described_by(text@),
    {
        match self {
            Error::BufferLengthTooSmall => "buffer length too small".to_string(),
            Error::DescriptorChainTooShort => "descriptor chain too short".to_string(),
            Error::GuestMemory(e) => "bad guest memory address: ".to_string().concat(
                e.to_string().as_str(),
            ),
            Error::InvalidRequest => "invalid request".to_string(),
            Error::InvalidAttachRequest => "invalid attach request".to_string(),
            Error::InvalidDetachRequest => "invalid detach request".to_string(),
            Error::InvalidMapRequest => "invalid map request".to_string(),
            Error::InvalidUnmapRequest => "invalid unmap request".to_string(),
            Error::InvalidProbeRequest => "invalid probe request".to_string(),
            Error::UnexpectedReadOnlyDescriptor => "unexpected read-only descriptor".to_string(),
            Error::UnexpectedWriteOnlyDescriptor => "unexpected write-only descriptor".to_string(),
            Error::ExternalMapping(e) => "failed performing external mapping: ".to_string().concat(
                e.to_string().as_str(),
            ),
            Error::ExternalUnmapping(e) => {
                "failed performing external unmapping: ".to_string().concat(e.to_string().as_str())
            },
        }
    }
}

} // verus!
