//! The capability contracts a concrete resource type opts into.
//!
//! A resource type declares a globally unique identity string, used for
//! cross-type corruption detection on every load. The Readable and
//! Writable capabilities are independent: a type may be read-only,
//! write-only, or both. The capability's actual filesystem work is
//! performed by the driver; the library receives each outcome as a
//! value and owns every decision taken on it.

use vstd::prelude::*;

use crate::error::RessourceError;
use crate::path::RessourcePath;

verus! {

/// A declared resource type.
pub trait RessourceType {
    /// The declared identity, as a specification-level value.
    spec fn spec_id() -> Seq<char>;

    /// The declared identity string, globally unique across all types.
    fn id() -> (r: &'static str)
        ensures
            r@ == Self::spec_id(),
    ;
}

/// A type whose instances can be reconstructed from a data payload. The
/// reconstruction itself runs in the driver; a load hands the library
/// either the instance or the capability's rendered error.
pub trait ReadableRessource: RessourceType {

}

/// A type whose instances can persist their state to a data payload.
/// The persisting write runs in the driver; the type declares here the
/// file extension it wants appended to its data file (possibly empty).
pub trait WritableRessource: RessourceType {
    /// The declared data-file extension, as a specification-level value.
    spec fn spec_data_extension() -> Seq<char>;

    /// The file extension appended to the data file's name.
    fn data_extension() -> (r: &'static str)
        ensures
            r@ == Self::spec_data_extension(),
    ;
}

/// A read capability failure, before it is folded into the library's
/// error taxonomy.
#[derive(Debug)]
pub enum ReadableRessourceError {
    /// The capability itself failed on the data payload.
    ReadableRessourceError {
        ressource_type: String,
        readable_error: String,
        ressource_path: RessourcePath,
        path: String,
    },
    /// A failure of the surrounding load machinery.
    RessourceError(RessourceError),
}

impl From<RessourceError> for ReadableRessourceError {
    fn from(value: RessourceError) -> (r: Self) {
        ReadableRessourceError::RessourceError(value)
    }
}

impl vstd::std_specs::convert::FromSpecImpl<RessourceError> for ReadableRessourceError {
    open spec fn obeys_from_spec() -> bool {
        true
    }

    open spec fn from_spec(value: RessourceError) -> Self {
        ReadableRessourceError::RessourceError(value)
    }
}

impl From<ReadableRessourceError> for RessourceError {
    fn from(value: ReadableRessourceError) -> (r: Self) {
        match value {
            ReadableRessourceError::ReadableRessourceError {
                ressource_type,
                readable_error,
                ressource_path,
                path,
            } => RessourceError::InvalidData {
                ressource_type,
                ressource_path,
                path,
                error: readable_error,
            },
            ReadableRessourceError::RessourceError(v) => v,
        }
    }
}

impl vstd::std_specs::convert::FromSpecImpl<ReadableRessourceError> for RessourceError {
    open spec fn obeys_from_spec() -> bool {
        true
    }

    open spec fn from_spec(value: ReadableRessourceError) -> Self {
        match value {
            ReadableRessourceError::ReadableRessourceError {
                ressource_type,
                readable_error,
                ressource_path,
                path,
            } => RessourceError::InvalidData {
                ressource_type,
                ressource_path,
                path,
                error: readable_error,
            },
            ReadableRessourceError::RessourceError(v) => v,
        }
    }
}

/// A write capability failure, before it is folded into the library's
/// error taxonomy.
#[derive(Debug)]
pub enum WritableRessourceError {
    /// The capability itself failed on the data payload.
    WriteData {
        ressource_type: String,
        ressource_path: RessourcePath,
        path: String,
        writable_error: String,
    },
    /// A failure of the surrounding create machinery.
    RessourceError(RessourceError),
}

impl From<WritableRessourceError> for RessourceError {
    fn from(value: WritableRessourceError) -> (r: Self) {
        match value {
            WritableRessourceError::WriteData {
                ressource_type,
                ressource_path,
                path,
                writable_error,
            } => RessourceError::WriteDataError(crate::error::WriteDataError {
                ressource_type,
                ressource_path,
                path,
                error: writable_error,
            }),
            WritableRessourceError::RessourceError(v) => v,
        }
    }
}

impl vstd::std_specs::convert::FromSpecImpl<WritableRessourceError> for RessourceError {
    open spec fn obeys_from_spec() -> bool {
        true
    }

    open spec fn from_spec(value: WritableRessourceError) -> Self {
        match value {
            WritableRessourceError::WriteData {
                ressource_type,
                ressource_path,
                path,
                writable_error,
            } => RessourceError::WriteDataError(crate::error::WriteDataError {
                ressource_type,
                ressource_path,
                path,
                error: writable_error,
            }),
            WritableRessourceError::RessourceError(v) => v,
        }
    }
}

} // verus!
