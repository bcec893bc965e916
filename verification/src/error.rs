//! Typed errors of the session core. Every one of them aborts only the
//! failing request: the connection stays usable and the session's cursor
//! table and executor cache are untouched.

use vstd::prelude::*;
use vstd::string::StringExecFns;

verus! {

/// What can go wrong while a statement is dispatched.
#[derive(Debug)]
pub enum NexusError {
    /// A catalog read or write failed; carries the underlying cause.
    Catalog { message: String },
    /// Extended flow: the declared parameter type has no literal rendering.
    UnsupportedParameterValue,
    /// A peer's configuration variant has no executor construction; `kind`
    /// names the variant.
    UnsupportedPeerType { kind: String },
    /// An executor reported a declared cursor, but the statement carried no
    /// owning peer to bind the cursor to.
    CursorWithoutPeer,
}

impl NexusError {
    /// The severity reported to the client.
    pub open spec fn spec_severity(&self) -> Seq<char> {
        "ERROR"@
    }

    /// The fixed code reported for this error kind.
    pub open spec fn spec_code(&self) -> Seq<char> {
        match self {
            NexusError::Catalog { .. } => "internal_error"@,
            NexusError::UnsupportedParameterValue => "22023"@,
            NexusError::UnsupportedPeerType { .. } => "0A000"@,
            NexusError::CursorWithoutPeer => "internal_error"@,
        }
    }

    /// The human-readable message reported for this error.
    pub open spec fn spec_message(&self) -> Seq<char> {
        match self {
            NexusError::Catalog { message } => message@,
            NexusError::UnsupportedParameterValue => "unsupported_parameter_value"@,
            NexusError::UnsupportedPeerType { kind } => "peer type not supported: "@ + kind@,
            NexusError::CursorWithoutPeer => "cursor modification without an owning peer"@,
        }
    }

    pub fn severity(&self) -> (r: &'static str)
        ensures
            r@ == self.spec_severity(),
    {
        "ERROR"
    }

    pub fn code(&self) -> (r: &'static str)
        ensures
            r@ == self.spec_code(),
    {
        match self {
            NexusError::Catalog { .. } => "internal_error",
            NexusError::UnsupportedParameterValue => "22023",
            NexusError::UnsupportedPeerType { .. } => "0A000",
            NexusError::CursorWithoutPeer => "internal_error",
        }
    }

    pub fn message(&self) -> (r: String)
        ensures
            r@ == self.spec_message(),
    {
        match self {
            NexusError::Catalog { message } => message.clone(),
            NexusError::UnsupportedParameterValue => "unsupported_parameter_value".to_owned(),
            NexusError::UnsupportedPeerType { kind } => {
                let mut m = "peer type not supported: ".to_owned();
                m.append(kind.as_str());
                m
            },
            NexusError::CursorWithoutPeer => {
                "cursor modification without an owning peer".to_owned()
            },
        }
    }
}

} // verus!
