//! The errors of the library. Each carries the offending path or value as
//! text; wording a message for a reader is left to the caller.

use vstd::prelude::*;

verus! {

/// Why a datapack could not be built.
#[derive(Debug, Clone)]
pub enum DatapackError {
    /// The archive, or an entry of it, could not be read.
    File(String),
    /// A JSON text is malformed, or does not have the shape that the manifest
    /// or an element asks for.
    Deserialize(String),
    /// A path under `data/` names a namespace with a character that is not
    /// allowed. The payload is the path.
    Namespace(String),
    /// A path lies in an overlay directory that the manifest does not declare,
    /// or an overlay declares a format range that is not allowed. The payload
    /// is the directory.
    Overlay(String),
    /// An integer is not the code of a known format. The payload is the
    /// integer in decimal.
    Format(String),
}

/// The variant of a [`DatapackError`], without its payload.
#[derive(Debug, Clone, Copy, PartialEq, Eq, Structural)]
pub enum ErrorKind {
    File,
    Deserialize,
    Namespace,
    Overlay,
    Format,
}

impl DatapackError {
    /// The variant of the error.
    pub open spec fn spec_kind(self) -> ErrorKind {
        match self {
            DatapackError::File(_) => ErrorKind::File,
            DatapackError::Deserialize(_) => ErrorKind::Deserialize,
            DatapackError::Namespace(_) => ErrorKind::Namespace,
            DatapackError::Overlay(_) => ErrorKind::Overlay,
            DatapackError::Format(_) => ErrorKind::Format,
        }
    }

    /// The text that the error carries.
    pub open spec fn spec_payload(self) -> Seq<char> {
        match self {
            DatapackError::File(m) => m@,
            DatapackError::Deserialize(m) => m@,
            DatapackError::Namespace(m) => m@,
            DatapackError::Overlay(m) => m@,
            DatapackError::Format(m) => m@,
        }
    }

    /// The variant of the error.
    pub fn kind(&self) -> (k: ErrorKind)
        ensures
            k == self.spec_kind(),
    {
        match self {
            DatapackError::File(_) => ErrorKind::File,
            DatapackError::Deserialize(_) => ErrorKind::Deserialize,
            DatapackError::Namespace(_) => ErrorKind::Namespace,
            DatapackError::Overlay(_) => ErrorKind::Overlay,
            DatapackError::Format(_) => ErrorKind::Format,
        }
    }

    /// The text that the error carries.
    pub fn payload(&self) -> (m: &String)
        ensures
            m@ == self.spec_payload(),
    {
        match self {
            DatapackError::File(m) => m,
            DatapackError::Deserialize(m) => m,
            DatapackError::Namespace(m) => m,
            DatapackError::Overlay(m) => m,
            DatapackError::Format(m) => m,
        }
    }
}

/// An error as a contract names it: its kind, and the value it carries
/// where the library fixes that value.
pub enum Fault {
    /// The archive, or an entry of it, could not be read.
    File,
    /// A JSON text is malformed or has the wrong shape.
    Deserialize,
    /// The namespace of this path is not allowed.
    Namespace(Seq<char>),
    /// The overlay directory of this name is not declared, or declares a
    /// format range that is not allowed.
    Overlay(Seq<char>),
    /// This integer is not the code of a known format.
    Format(int),
}

impl DatapackError {
    /// Whether the error is the one that `fault` names: of its kind, and
    /// carrying its value (an integer in decimal).
    pub open spec fn describes(self, fault: Fault) -> bool {
        match fault {
            Fault::File => self.spec_kind() == ErrorKind::File,
            Fault::Deserialize => self.spec_kind() == ErrorKind::Deserialize,
            Fault::Namespace(path) => self.spec_kind() == ErrorKind::Namespace
                && self.spec_payload() == path,
            Fault::Overlay(directory) => self.spec_kind() == ErrorKind::Overlay
                && self.spec_payload() == directory,
            Fault::Format(n) => self.spec_kind() == ErrorKind::Format && self.spec_payload()
                == crate::strings::decimal(n),
        }
    }
}

/// Whether a result is what a contract expects: a value with the expected
/// view, or an error that the expected fault describes.
pub open spec fn agrees<T: View>(r: Result<T, DatapackError>, expected: Result<T::V, Fault>) -> bool {
    match expected {
        Ok(v) => r matches Ok(x) && x@ == v,
        Err(fault) => r matches Err(e) && e.describes(fault),
    }
}

/// Why a text is no resource location.
#[derive(Debug, Clone)]
pub enum ResourceLocationError {
    /// The text has no `:`.
    MissingSeparator(String),
    /// Nothing stands before the first `:`.
    EmptyNamespace(String),
    /// Nothing stands after the first `:`.
    EmptyId(String),
    /// The namespace or the id holds a character that is not allowed.
    Syntax(String),
}

/// The variant of a [`ResourceLocationError`], without its payload.
#[derive(Debug, Clone, Copy, PartialEq, Eq, Structural)]
pub enum LocationFault {
    MissingSeparator,
    EmptyNamespace,
    EmptyId,
    Syntax,
}

impl ResourceLocationError {
    /// The variant of the error.
    pub open spec fn spec_fault(self) -> LocationFault {
        match self {
            ResourceLocationError::MissingSeparator(_) => LocationFault::MissingSeparator,
            ResourceLocationError::EmptyNamespace(_) => LocationFault::EmptyNamespace,
            ResourceLocationError::EmptyId(_) => LocationFault::EmptyId,
            ResourceLocationError::Syntax(_) => LocationFault::Syntax,
        }
    }

    /// The text that was rejected.
    pub open spec fn spec_text(self) -> Seq<char> {
        match self {
            ResourceLocationError::MissingSeparator(m) => m@,
            ResourceLocationError::EmptyNamespace(m) => m@,
            ResourceLocationError::EmptyId(m) => m@,
            ResourceLocationError::Syntax(m) => m@,
        }
    }

    /// The variant of the error.
    pub fn fault(&self) -> (k: LocationFault)
        ensures
            k == self.spec_fault(),
    {
        match self {
            ResourceLocationError::MissingSeparator(_) => LocationFault::MissingSeparator,
            ResourceLocationError::EmptyNamespace(_) => LocationFault::EmptyNamespace,
            ResourceLocationError::EmptyId(_) => LocationFault::EmptyId,
            ResourceLocationError::Syntax(_) => LocationFault::Syntax,
        }
    }

    /// The text that was rejected.
    pub fn text(&self) -> (m: &String)
        ensures
            m@ == self.spec_text(),
    {
        match self {
            ResourceLocationError::MissingSeparator(m) => m,
            ResourceLocationError::EmptyNamespace(m) => m,
            ResourceLocationError::EmptyId(m) => m,
            ResourceLocationError::Syntax(m) => m,
        }
    }
}

} // verus!
