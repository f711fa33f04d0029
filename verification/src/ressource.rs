//! The resource unit and its two operations. `load` reconstructs a
//! resource from its descriptor and the Readable capability's outcome.
//! `create` is the transactional protocol: fabricate the descriptor,
//! gate on the parent folder, write the metadata sidecar, write the
//! payload, and on a payload failure compensate by deleting the
//! just-written sidecar. The protocol runs as a session: each step's
//! filesystem work is performed by the driver, and every decision
//! between two steps is taken here. The step order — parent check, then
//! metadata write, then data write, then compensation — defines which
//! failure windows are possible and must not be reordered.

use vstd::prelude::*;

use crate::error::{RessourceError, RessourceResult, WriteDataError};
use crate::folder_ressource::{FolderRessource, FolderRessourceError};
use crate::meta::MetaRessource;
use crate::path::{spec_data_path, spec_metadata_path, spec_resolved_path, RessourcePath};
use crate::traits::{ReadableRessource, RessourceType, WritableRessource};

verus! {

/// A path-addressed unit combining a metadata descriptor and a typed
/// payload.
pub struct Ressource<T: RessourceType> {
    pub data: T,
    pub meta: MetaRessource<T>,
}

impl<T: RessourceType> Ressource<T> {
    /// Completes a load: the descriptor has been loaded and checked, and
    /// the Readable capability has run on the declared data path. A
    /// capability failure is wrapped as an invalid-data error carrying
    /// the declared type, the logical path, the resolved physical path
    /// and the underlying cause.
    pub fn load(meta: MetaRessource<T>, data: Result<T, String>) -> (r: RessourceResult<
        Ressource<T>,
    >) where T: ReadableRessource
        ensures
            (r is Ok) == (data is Ok),
            data matches Ok(d) ==> (r matches Ok(res) && res.data == d && res.meta == meta),
            data matches Err(e) ==> (r matches Err(
                RessourceError::InvalidData { ressource_type, ressource_path, path: p, error },
            ) && ressource_type@ == T::spec_id() && ressource_path == meta.path && p@
                == spec_resolved_path(meta.path.root@, meta.path.ids()) && error == e),
    {
        match data {
            Ok(d) => Ok(Ressource { data: d, meta }),
            Err(e) => {
                let resolved = meta.path.resolve();
                Err(
                    RessourceError::InvalidData {
                        ressource_type: String::from_str(T::id()),
                        ressource_path: meta.path,
                        path: resolved,
                        error: e,
                    },
                )
            },
        }
    }
}

/// Where the create protocol stands: which outcome it is waiting for.
pub enum CreateState {
    /// Waiting for the parent folder check.
    AwaitingParent,
    /// Waiting for the metadata sidecar write.
    AwaitingMetadataWrite,
    /// Waiting for the Writable capability on the payload.
    AwaitingDataWrite,
}

/// A file write the driver is asked to perform.
pub struct FileWriteRequest {
    pub path: String,
    pub content: String,
}

/// What the driver's parent check yielded. A parent that is itself an
/// addressable resource is loaded as a full folder resource; the root
/// container (an empty parent path) has no sidecar of its own, so the
/// check there is the folder capability's read of the root location
/// itself.
pub enum ParentOutcome {
    /// The parent loaded as a valid folder resource.
    Loaded(Ressource<FolderRessource>),
    /// Loading the parent failed with the given error.
    Failed(RessourceError),
    /// The root container was checked by the folder capability alone.
    Container(Result<FolderRessource, FolderRessourceError>),
}

/// An in-flight create. Holds the fabricated descriptor and the payload
/// while the driver performs one filesystem step at a time.
pub struct CreateSession<T: WritableRessource> {
    pub meta: MetaRessource<T>,
    pub data: T,
    pub state: CreateState,
}

/// How a finished data write leaves the protocol: the resource is
/// complete, or the compensating rollback must run.
pub enum CreateOutcome<T: WritableRessource> {
    /// The payload was persisted; the resource is fully constructed.
    Created(Ressource<T>),
    /// The payload write failed; the just-written metadata sidecar must
    /// be deleted.
    Rollback(RollbackSession),
}

/// The pending compensation after a failed payload write: delete the
/// metadata sidecar, then surface the right error.
pub struct RollbackSession {
    /// The original payload-write failure.
    pub data_error: WriteDataError,
    /// The metadata sidecar file to delete.
    pub delete_path: String,
}

impl<T: WritableRessource> CreateSession<T> {
    /// The session's descriptor is sound for `T` and names a real,
    /// non-root resource.
    pub open spec fn wf(self) -> bool {
        &&& self.meta.wf()
        &&& self.meta.path.ids().len() > 0
        &&& self.meta.metadata.data_extension@ == T::spec_data_extension()
        &&& self.meta.metadata.id@ == self.meta.path.ids().last()
    }

    /// Opens a create at `path` holding `data`: fabricates the metadata
    /// descriptor and turns to the parent check. Fails with an at-root
    /// error exactly on the empty path; nothing has touched the
    /// filesystem either way.
    pub fn start(path: RessourcePath, data: T) -> (r: RessourceResult<CreateSession<T>>)
        ensures
            (r is Ok) == (path.ids().len() > 0),
            r matches Ok(s) ==> (s.wf() && s.state is AwaitingParent && s.meta.path == path
                && s.data == data && s.meta.metadata.type_id@ == T::spec_id()
                && s.meta.metadata.data_extension@ == T::spec_data_extension()
                && s.meta.metadata.id@ == path.ids().last()),
            path.ids().len() == 0 ==> (r matches Err(
                RessourceError::RessourceAtRoot { path: p, ressource_path: rp },
            ) && rp == path && p@ == spec_resolved_path(path.root@, path.ids())),
    {
        match MetaRessource::<T>::new(path) {
            Err(e) => Err(e),
            Ok(meta) => Ok(CreateSession { meta, data, state: CreateState::AwaitingParent }),
        }
    }

    /// The path whose folder resource gates this create: the parent of
    /// the resource being created.
    pub fn parent_path(&self) -> (r: RessourcePath)
        requires
            self.wf(),
        ensures
            r.root@ == self.meta.path.root@,
            r.ids() == self.meta.path.ids().drop_last(),
    {
        self.meta.path.parent()
    }

    /// Takes the parent check's outcome. A failure is wrapped as a
    /// parent-resource error carrying the inner cause: a child is never
    /// created under a missing or invalid parent. On success the session
    /// turns to the metadata write. The container-style check stands in
    /// only for the root container, so it is admitted only when the
    /// parent path is empty — a deeper parent must be loaded in full,
    /// sidecar included.
    pub fn on_parent(self, parent: ParentOutcome) -> (r: RessourceResult<CreateSession<T>>)
        requires
            self.wf(),
            self.state is AwaitingParent,
            parent matches ParentOutcome::Container(_) ==> self.meta.path.ids().len() == 1,
        ensures
            r matches Ok(s) ==> (s.wf() && s.state is AwaitingMetadataWrite && s.meta == self.meta
                && s.data == self.data),
            (r is Ok) == (parent matches ParentOutcome::Loaded(_) || parent
                matches ParentOutcome::Container(Ok(_))),
            parent matches ParentOutcome::Failed(e) ==> (r matches Err(
                RessourceError::ParentRessource { path: p, ressource_path: rp, folder_error },
            ) && rp == self.meta.path && p@ == spec_resolved_path(
                self.meta.path.root@,
                self.meta.path.ids(),
            ) && *folder_error == e),
            parent matches ParentOutcome::Container(c) ==> (c matches Err(fe) ==> (r matches Err(
                RessourceError::ParentRessource { path: p, ressource_path: rp, folder_error },
            ) && rp == self.meta.path && p@ == spec_resolved_path(
                self.meta.path.root@,
                self.meta.path.ids(),
            ) && ((*folder_error) matches RessourceError::InvalidData {
                ressource_type,
                ressource_path,
                path: ip,
                error,
            } && ressource_type@ == FolderRessource::spec_id() && ressource_path.ids()
                == self.meta.path.ids().drop_last() && ip@ == spec_resolved_path(
                self.meta.path.root@,
                self.meta.path.ids().drop_last(),
            ) && error@ == fe.spec_message()))),
    {
        match parent {
            ParentOutcome::Loaded(_folder) => Ok(
                CreateSession {
                    meta: self.meta,
                    data: self.data,
                    state: CreateState::AwaitingMetadataWrite,
                },
            ),
            ParentOutcome::Container(Ok(_folder)) => Ok(
                CreateSession {
                    meta: self.meta,
                    data: self.data,
                    state: CreateState::AwaitingMetadataWrite,
                },
            ),
            ParentOutcome::Container(Err(fe)) => {
                let parent = self.meta.path.parent();
                let parent_resolved = parent.resolve();
                let resolved = self.meta.path.resolve();
                let message = fe.message();
                Err(
                    RessourceError::ParentRessource {
                        path: resolved,
                        ressource_path: self.meta.path,
                        folder_error: Box::new(
                            RessourceError::InvalidData {
                                ressource_type: String::from_str(FolderRessource::id()),
                                ressource_path: parent,
                                path: parent_resolved,
                                error: message,
                            },
                        ),
                    },
                )
            },
            ParentOutcome::Failed(e) => {
                let resolved = self.meta.path.resolve();
                Err(
                    RessourceError::ParentRessource {
                        path: resolved,
                        ressource_path: self.meta.path,
                        folder_error: Box::new(e),
                    },
                )
            },
        }
    }

    /// The metadata write the driver must perform next: the serialized
    /// descriptor, at the sidecar path. The descriptor always
    /// serializes — its shape is fixed and its fields are strings — so
    /// the request exists; a serialization failure would be propagated,
    /// not assumed away.
    pub fn metadata_write_request(&self) -> (r: RessourceResult<FileWriteRequest>)
        requires
            self.state is AwaitingMetadataWrite,
        ensures
            r is Ok,
            r matches Ok(req) ==> (req.path@ == spec_metadata_path(
                self.meta.path.root@,
                self.meta.path.ids(),
            ) && req.content@ == crate::json::json_obj_of(self.meta.metadata.as_map())),
            r matches Err(e) ==> (e matches RessourceError::MetadataSerialize {
                error: _,
                ressource_path,
                path: p,
            } && ressource_path.ids() == self.meta.path.ids() && p@ == spec_resolved_path(
                self.meta.path.root@,
                self.meta.path.ids(),
            )),
    {
        match self.meta.metadata_json() {
            Ok(content) => Ok(
                FileWriteRequest { path: self.meta.path.metadata_path(), content },
            ),
            Err(e) => Err(
                RessourceError::MetadataSerialize {
                    error: e,
                    ressource_path: self.meta.path.resolve_into_ressource_path(),
                    path: self.meta.path.resolve(),
                },
            ),
        }
    }

    /// Takes the metadata write's outcome. A failure is a terminal
    /// write-metadata-IO error: nothing has been persisted except
    /// possibly a half-written sidecar, an accepted residual case. On
    /// success the session turns to the payload write.
    pub fn on_metadata_written(self, outcome: Result<(), String>) -> (r: RessourceResult<
        CreateSession<T>,
    >)
        requires
            self.wf(),
            self.state is AwaitingMetadataWrite,
        ensures
            (r is Ok) == (outcome is Ok),
            r matches Ok(s) ==> (s.wf() && s.state is AwaitingDataWrite && s.meta == self.meta
                && s.data == self.data),
            outcome matches Err(e) ==> (r matches Err(
                RessourceError::WriteMetadataIO { error, ressource_path, path: p },
            ) && error == e && ressource_path == self.meta.path && p@ == spec_resolved_path(
                self.meta.path.root@,
                self.meta.path.ids(),
            )),
    {
        match outcome {
            Ok(_) => Ok(
                CreateSession {
                    meta: self.meta,
                    data: self.data,
                    state: CreateState::AwaitingDataWrite,
                },
            ),
            Err(e) => {
                let resolved = self.meta.path.resolve();
                Err(
                    RessourceError::WriteMetadataIO {
                        error: e,
                        ressource_path: self.meta.path,
                        path: resolved,
                    },
                )
            },
        }
    }

    /// Where the Writable capability must persist the payload: the data
    /// path under the descriptor's declared extension.
    pub fn data_write_path(&self) -> (r: String)
        requires
            self.state is AwaitingDataWrite,
        ensures
            r@ == spec_data_path(
                self.meta.path.root@,
                self.meta.path.ids(),
                self.meta.metadata.data_extension@,
            ),
    {
        self.meta.data_path()
    }

    /// Takes the payload write's outcome. Success completes the
    /// resource. Failure opens the compensating rollback: the metadata
    /// sidecar written one step earlier must be deleted, and the
    /// original failure is kept to be surfaced once the deletion's own
    /// outcome is known.
    pub fn on_data_written(self, outcome: Result<(), String>) -> (r: CreateOutcome<T>)
        requires
            self.wf(),
            self.state is AwaitingDataWrite,
        ensures
            outcome matches Ok(_) ==> (r matches CreateOutcome::Created(res) && res.meta
                == self.meta && res.data == self.data),
            outcome matches Err(e) ==> (r matches CreateOutcome::Rollback(rb) && rb.delete_path@
                == spec_metadata_path(self.meta.path.root@, self.meta.path.ids())
                && rb.data_error.ressource_type@ == T::spec_id()
                && rb.data_error.ressource_path.ids() == self.meta.path.ids()
                && rb.data_error.path@ == spec_resolved_path(
                self.meta.path.root@,
                self.meta.path.ids(),
            ) && rb.data_error.error == e),
    {
        match outcome {
            Ok(_) => CreateOutcome::Created(Ressource { data: self.data, meta: self.meta }),
            Err(e) => {
                let delete_path = self.meta.path.metadata_path();
                let resolved = self.meta.path.resolve();
                CreateOutcome::Rollback(
                    RollbackSession {
                        data_error: WriteDataError {
                            ressource_type: String::from_str(T::id()),
                            ressource_path: self.meta.path.resolve_into_ressource_path(),
                            path: resolved,
                            error: e,
                        },
                        delete_path,
                    },
                )
            },
        }
    }
}

impl RollbackSession {
    /// Takes the compensating deletion's outcome. If the sidecar was
    /// deleted, the net observable state is "nothing persisted" and the
    /// original write-data error surfaces alone. If the deletion itself
    /// failed, both causes surface together: the caller must be told
    /// that an orphaned metadata file may now exist on disk.
    pub fn on_deleted(self, outcome: Result<(), String>) -> (r: RessourceError)
        ensures
            outcome is Ok ==> r == RessourceError::WriteDataError(self.data_error),
            outcome matches Err(e) ==> r == (RessourceError::DeleteMetadataError {
                data_error: self.data_error,
                error: e,
            }),
    {
        match outcome {
            Ok(_) => RessourceError::WriteDataError(self.data_error),
            Err(e) => RessourceError::DeleteMetadataError { data_error: self.data_error, error: e },
        }
    }
}

/// The root handle of a resource store: the filesystem location under
/// which every path is anchored. It is the only external configuration
/// the store needs.
pub struct Ressources {
    pub root: String,
}

impl Ressources {
    /// A path anchored at this store's root, one component per id.
    pub fn path(&self, ids: Vec<String>) -> (r: RessourcePath)
        ensures
            r.root@ == self.root@,
            r.ids() == ids.deep_view(),
    {
        let mut components: Vec<crate::path::RessourcePathComponent> = Vec::new();
        let mut i: usize = 0;
        while i < ids.len()
            invariant
                0 <= i <= ids@.len(),
                components@.len() == i,
                forall|j: int| 0 <= j < i ==> #[trigger] components@[j].id_view() == ids@[j]@,
            decreases ids@.len() - i,
        {
            components.push(crate::path::RessourcePathComponent::Ressource(ids[i].clone()));
            i += 1;
        }
        let r = RessourcePath { path: components, root: self.root.clone() };
        proof {
            assert(r.ids() =~= ids.deep_view());
        }
        r
    }
}

} // verus!
