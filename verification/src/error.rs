//! The failure taxonomy. Every failure is returned as a typed result up
//! to the caller; no failure is silently absorbed or retried. Causes
//! coming from the filesystem or from a resource type's own capability
//! are carried as rendered message strings.

use vstd::prelude::*;

use crate::path::{spec_display_path, RessourcePath};

verus! {

/// Failure of a resource type's Writable capability while `create` was
/// persisting the payload. Carries the declared type, the logical path,
/// the resolved physical path and the underlying cause.
#[derive(Debug)]
pub struct WriteDataError {
    pub ressource_type: String,
    pub ressource_path: RessourcePath,
    pub path: String,
    pub error: String,
}

impl WriteDataError {
    /// The rendered form of this failure.
    pub open spec fn spec_message(self) -> Seq<char> {
        "Unable to write ressource data for type "@ + self.ressource_type@
            + " for ressource at: "@ + spec_display_path(self.ressource_path.ids())
            + ". OSPath: "@ + self.path@ + ". Error: "@ + self.error@
    }

    /// Renders the failure as one line of text.
    pub fn message(&self) -> (r: String)
        ensures
            r@ == self.spec_message(),
    {
        let mut res = String::from_str("Unable to write ressource data for type ");
        res.append(self.ressource_type.as_str());
        res.append(" for ressource at: ");
        let d = self.ressource_path.display_string();
        res.append(d.as_str());
        res.append(". OSPath: ");
        res.append(self.path.as_str());
        res.append(". Error: ");
        res.append(self.error.as_str());
        proof {
            assert(res@ =~= self.spec_message());
        }
        res
    }
}

/// Everything that can go wrong while loading or creating a resource.
#[derive(Debug)]
pub enum RessourceError {
    /// The metadata sidecar could not be read.
    MetadataIO { error: String, ressource_path: RessourcePath, path: String },
    /// The metadata sidecar could not be written during `create`.
    WriteMetadataIO { error: String, ressource_path: RessourcePath, path: String },
    /// The sidecar bytes do not parse as the metadata schema.
    MetadataFormat { error: String, ressource_path: RessourcePath, path: String },
    /// The metadata descriptor could not be serialized during `create`.
    MetadataSerialize { error: String, ressource_path: RessourcePath, path: String },
    /// The stored type id differs from the type the caller expected.
    TypeMismatch { ressource_path: String, ressource_type: String, expected_type: String },
    /// The resource type's own read capability failed on the data file.
    InvalidData {
        ressource_type: String,
        ressource_path: RessourcePath,
        path: String,
        error: String,
    },
    /// The resource type's own write capability failed; the compensating
    /// deletion of the metadata file succeeded.
    WriteDataError(WriteDataError),
    /// The compensating deletion of the metadata file failed after a
    /// data-write failure: both causes are surfaced, and an orphaned
    /// metadata file may now exist on disk.
    DeleteMetadataError { data_error: WriteDataError, error: String },
    /// The operation was attempted on the empty, root path.
    RessourceAtRoot { path: String, ressource_path: RessourcePath },
    /// The parent path could not be loaded as a valid folder resource.
    ParentRessource {
        path: String,
        ressource_path: RessourcePath,
        folder_error: Box<RessourceError>,
    },
}

pub type RessourceResult<T> = Result<T, RessourceError>;

} // verus!
