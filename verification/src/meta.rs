//! The metadata descriptor: the persisted record binding a path to a
//! declared type, a creation time and the resource's own id. It is
//! serialized as a JSON object of four string fields beside the resolved
//! base name. The declared type is checked, never trusted, on every
//! load: that check is the system's sole defense against loading a
//! resource as the wrong type.

use core::marker::PhantomData;

use vstd::prelude::*;

use crate::error::{RessourceError, RessourceResult};
use crate::json::{json_obj_from_str, json_obj_of, json_obj_parse, json_obj_to_string, lookup_pair};
use crate::path::{spec_data_path, spec_resolved_path, RessourcePath, RessourcePathComponent};
use crate::time_format::{check_rfc3339_time, is_rfc3339_time, now_rfc3339};
use crate::traits::{RessourceType, WritableRessource};

verus! {

/// The persisted metadata record.
#[derive(Debug)]
pub struct RessourceMetadata {
    /// The extension of the data payload file, owned by the type.
    pub data_extension: String,
    /// The declared type's globally unique name.
    pub type_id: String,
    /// The creation time, as an RFC 3339 timestamp.
    pub time: String,
    /// The resource's terminal id.
    pub id: String,
}

/// The sidecar schema, as a map from field name to field value.
pub open spec fn spec_meta_map(
    ext: Seq<char>,
    tid: Seq<char>,
    time: Seq<char>,
    id: Seq<char>,
) -> Map<Seq<char>, Seq<char>> {
    Map::empty().insert("data_extension"@, ext).insert("id"@, id).insert("time"@, time).insert(
        "type_id"@,
        tid,
    )
}

/// The four field names of the schema are pairwise distinct.
pub proof fn lemma_meta_keys_distinct()
    ensures
        "data_extension"@ != "type_id"@,
        "data_extension"@ != "time"@,
        "data_extension"@ != "id"@,
        "type_id"@ != "time"@,
        "type_id"@ != "id"@,
        "time"@ != "id"@,
{
    reveal_strlit("data_extension");
    reveal_strlit("type_id");
    reveal_strlit("time");
    reveal_strlit("id");
    assert("data_extension"@.len() == 14);
    assert("type_id"@.len() == 7);
    assert("time"@.len() == 4);
    assert("id"@.len() == 2);
}

/// The schema keeps each field where it was put.
pub proof fn lemma_meta_map_fields(ext: Seq<char>, tid: Seq<char>, time: Seq<char>, id: Seq<char>)
    ensures
        spec_meta_map(ext, tid, time, id).dom().finite(),
        spec_meta_map(ext, tid, time, id).contains_key("data_extension"@),
        spec_meta_map(ext, tid, time, id).contains_key("type_id"@),
        spec_meta_map(ext, tid, time, id).contains_key("time"@),
        spec_meta_map(ext, tid, time, id).contains_key("id"@),
        spec_meta_map(ext, tid, time, id)["data_extension"@] == ext,
        spec_meta_map(ext, tid, time, id)["type_id"@] == tid,
        spec_meta_map(ext, tid, time, id)["time"@] == time,
        spec_meta_map(ext, tid, time, id)["id"@] == id,
{
    lemma_meta_keys_distinct();
}

impl RessourceMetadata {
    /// The record as the map its sidecar serialization carries.
    pub open spec fn as_map(self) -> Map<Seq<char>, Seq<char>> {
        spec_meta_map(self.data_extension@, self.type_id@, self.time@, self.id@)
    }
}

/// The schema-level reading of sidecar bytes: a JSON object of string
/// values carrying the four fields `(data_extension, type_id, time, id)`,
/// with a well-formed timestamp.
pub open spec fn parsed_meta(s: Seq<char>) -> Option<(Seq<char>, Seq<char>, Seq<char>, Seq<char>)> {
    match json_obj_parse(s) {
        None => None,
        Some(m) => {
            if m.contains_key("data_extension"@) && m.contains_key("type_id"@) && m.contains_key(
                "time"@,
            ) && m.contains_key("id"@) && is_rfc3339_time(m["time"@]) {
                Some((m["data_extension"@], m["type_id"@], m["time"@], m["id"@]))
            } else {
                None
            }
        },
    }
}

/// A metadata descriptor bound to the resource type it was declared
/// for. The binding carries no data; it is established by construction,
/// in `new` and in `load`.
#[derive(Debug)]
pub struct MetaRessource<T: RessourceType> {
    pub metadata: RessourceMetadata,
    pub path: RessourcePath,
    pub phantom: PhantomData<T>,
}

impl<T: RessourceType> MetaRessource<T> {
    /// The descriptor names the bound type and a well-formed time.
    pub open spec fn wf(self) -> bool {
        self.metadata.type_id@ == T::spec_id() && is_rfc3339_time(self.metadata.time@)
    }

    /// Reconstructs the descriptor at `path` from the outcome of reading
    /// the metadata sidecar file. An unreadable file is a metadata-IO
    /// error; bytes that do not carry the schema are a format error; a
    /// stored type id other than `T`'s is a type mismatch carrying both
    /// identities. Reading the serialized form of a descriptor of type
    /// `T` yields that descriptor back. The function itself touches no
    /// file: it only judges the outcome it was handed, so the files on
    /// disk are exactly as the driver's read left them.
    pub fn load(path: RessourcePath, file: Result<String, String>) -> (r: RessourceResult<Self>)
        ensures
            (r is Ok) <==> (file matches Ok(s) && parsed_meta(s@) matches Some(f) && f.1
                == T::spec_id()),
            r matches Ok(m) ==> m.wf() && m.path == path,
            file matches Err(e) ==> (r matches Err(
                RessourceError::MetadataIO { error, ressource_path, path: p },
            ) && error == e && ressource_path == path && p@ == spec_resolved_path(
                path.root@,
                path.ids(),
            )),
            file matches Ok(s) && parsed_meta(s@) is None ==> (r matches Err(
                RessourceError::MetadataFormat { error: _, ressource_path: rp, path: p },
            ) && rp == path && p@ == spec_resolved_path(path.root@, path.ids())),
            file matches Ok(s) ==> (parsed_meta(s@) matches Some(f) ==> (f.1 == T::spec_id()
                ==> (r matches Ok(m) && m.metadata.data_extension@ == f.0
                && m.metadata.type_id@ == f.1 && m.metadata.time@ == f.2
                && m.metadata.id@ == f.3))),
            file matches Ok(s) ==> (parsed_meta(s@) matches Some(f) ==> (f.1 != T::spec_id()
                ==> (r matches Err(
                RessourceError::TypeMismatch { ressource_path: p, ressource_type, expected_type },
            ) && p@ == spec_resolved_path(path.root@, path.ids()) && ressource_type@ == f.1
                && expected_type@ == T::spec_id()))),
            file matches Ok(s) ==> forall|ext: Seq<char>, tid: Seq<char>, tm: Seq<char>, id: Seq<
                char,
            >|
                (s@ == json_obj_of(#[trigger] spec_meta_map(ext, tid, tm, id)) && tid
                    == T::spec_id() && is_rfc3339_time(tm)) ==> (r matches Ok(m)
                    && m.metadata.data_extension@ == ext && m.metadata.type_id@ == tid
                    && m.metadata.time@ == tm && m.metadata.id@ == id),
            file matches Ok(s) ==> forall|ext: Seq<char>, tid: Seq<char>, tm: Seq<char>, id: Seq<
                char,
            >|
                (s@ == json_obj_of(#[trigger] spec_meta_map(ext, tid, tm, id)) && tid
                    != T::spec_id() && is_rfc3339_time(tm)) ==> (r matches Err(
                    RessourceError::TypeMismatch { ressource_path: _, ressource_type, expected_type },
                ) && ressource_type@ == tid && expected_type@ == T::spec_id()),
    {
        let resolved = path.resolve();
        let content = match file {
            Err(e) => {
                return Err(
                    RessourceError::MetadataIO { error: e, ressource_path: path, path: resolved },
                );
            },
            Ok(c) => c,
        };
        let pairs = match json_obj_from_str(content.as_str()) {
            Err(e) => {
                proof {
                    assert forall|ext: Seq<char>, tid: Seq<char>, tm: Seq<char>, id: Seq<char>|
                        content@ != json_obj_of(#[trigger] spec_meta_map(ext, tid, tm, id)) by {
                        lemma_meta_map_fields(ext, tid, tm, id);
                    }
                }
                return Err(
                    RessourceError::MetadataFormat {
                        error: e,
                        ressource_path: path,
                        path: resolved,
                    },
                );
            },
            Ok(p) => p,
        };
        let ghost m = crate::json::pairs_to_map(pairs@);
        proof {
            lemma_meta_keys_distinct();
            assert forall|ext: Seq<char>, tid: Seq<char>, tm: Seq<char>, id: Seq<char>|
                content@ == json_obj_of(#[trigger] spec_meta_map(ext, tid, tm, id)) implies m
                == spec_meta_map(ext, tid, tm, id) by {
                lemma_meta_map_fields(ext, tid, tm, id);
            }
        }
        let k_ext = String::from_str("data_extension");
        let k_tid = String::from_str("type_id");
        let k_time = String::from_str("time");
        let k_id = String::from_str("id");
        let ext = match lookup_pair(&pairs, &k_ext) {
            None => {
                proof {
                    lemma_round_trip_fields_present(content@, m);
                }
                return Err(
                    RessourceError::MetadataFormat {
                        error: String::from_str("metadata object does not carry the schema"),
                        ressource_path: path,
                        path: resolved,
                    },
                );
            },
            Some(v) => v.clone(),
        };
        let tid = match lookup_pair(&pairs, &k_tid) {
            None => {
                proof {
                    lemma_round_trip_fields_present(content@, m);
                }
                return Err(
                    RessourceError::MetadataFormat {
                        error: String::from_str("metadata object does not carry the schema"),
                        ressource_path: path,
                        path: resolved,
                    },
                );
            },
            Some(v) => v.clone(),
        };
        let time = match lookup_pair(&pairs, &k_time) {
            None => {
                proof {
                    lemma_round_trip_fields_present(content@, m);
                }
                return Err(
                    RessourceError::MetadataFormat {
                        error: String::from_str("metadata object does not carry the schema"),
                        ressource_path: path,
                        path: resolved,
                    },
                );
            },
            Some(v) => v.clone(),
        };
        let id = match lookup_pair(&pairs, &k_id) {
            None => {
                proof {
                    lemma_round_trip_fields_present(content@, m);
                }
                return Err(
                    RessourceError::MetadataFormat {
                        error: String::from_str("metadata object does not carry the schema"),
                        ressource_path: path,
                        path: resolved,
                    },
                );
            },
            Some(v) => v.clone(),
        };
        if !check_rfc3339_time(time.as_str()) {
            proof {
                lemma_round_trip_fields_present(content@, m);
            }
            return Err(
                RessourceError::MetadataFormat {
                    error: String::from_str("metadata time is not an RFC 3339 timestamp"),
                    ressource_path: path,
                    path: resolved,
                },
            );
        }
        let expected = String::from_str(T::id());
        if tid == expected {
            Ok(
                MetaRessource {
                    metadata: RessourceMetadata { data_extension: ext, type_id: tid, time, id },
                    path,
                    phantom: PhantomData,
                },
            )
        } else {
            Err(
                RessourceError::TypeMismatch {
                    ressource_path: resolved,
                    ressource_type: tid,
                    expected_type: expected,
                },
            )
        }
    }

    /// The data payload location declared by this descriptor.
    pub fn data_path(&self) -> (r: String)
        ensures
            r@ == spec_data_path(
                self.path.root@,
                self.path.ids(),
                self.metadata.data_extension@,
            ),
    {
        self.path.data_path(self.metadata.data_extension.as_str())
    }

    /// Serializes the descriptor as the sidecar's JSON object. The
    /// descriptor's shape is fixed and its fields are strings, so the
    /// serialization succeeds; a failure would be propagated, not
    /// assumed away.
    pub fn metadata_json(&self) -> (r: Result<String, String>)
        ensures
            r is Ok,
            r matches Ok(out) ==> out@ == json_obj_of(self.metadata.as_map()),
    {
        json_obj_to_string(
            "data_extension",
            self.metadata.data_extension.as_str(),
            "id",
            self.metadata.id.as_str(),
            "time",
            self.metadata.time.as_str(),
            "type_id",
            self.metadata.type_id.as_str(),
        )
    }
}

/// If the bytes are the serialization of a schema map, then the parsed
/// object carries all four fields at the serialized values.
proof fn lemma_round_trip_fields_present(s: Seq<char>, m: Map<Seq<char>, Seq<char>>)
    requires
        json_obj_parse(s) == Some(m),
        forall|ext: Seq<char>, tid: Seq<char>, tm: Seq<char>, id: Seq<char>|
            s == json_obj_of(#[trigger] spec_meta_map(ext, tid, tm, id)) ==> m == spec_meta_map(
                ext,
                tid,
                tm,
                id,
            ),
    ensures
        forall|ext: Seq<char>, tid: Seq<char>, tm: Seq<char>, id: Seq<char>|
            s == json_obj_of(#[trigger] spec_meta_map(ext, tid, tm, id)) ==> (m.contains_key(
                "data_extension"@,
            ) && m.contains_key("type_id"@) && m.contains_key("time"@) && m.contains_key("id"@)
                && m["data_extension"@] == ext && m["type_id"@] == tid && m["time"@] == tm
                && m["id"@] == id),
{
    assert forall|ext: Seq<char>, tid: Seq<char>, tm: Seq<char>, id: Seq<char>|
        s == json_obj_of(#[trigger] spec_meta_map(ext, tid, tm, id)) implies (m.contains_key(
        "data_extension"@,
    ) && m.contains_key("type_id"@) && m.contains_key("time"@) && m.contains_key("id"@)
        && m["data_extension"@] == ext && m["type_id"@] == tid && m["time"@] == tm && m["id"@]
        == id) by {
        lemma_meta_map_fields(ext, tid, tm, id);
    }
}

impl<T: WritableRessource> MetaRessource<T> {
    /// Fabricates the descriptor for a fresh resource at `path`: the id
    /// is the path's terminal id, the type and extension are `T`'s, the
    /// time is now. Pure value construction; nothing touches the
    /// filesystem. Fails with an at-root error exactly on the empty
    /// path.
    pub fn new(path: RessourcePath) -> (r: RessourceResult<Self>)
        ensures
            (r is Ok) == (path.ids().len() > 0),
            r matches Ok(m) ==> {
                &&& m.wf()
                &&& m.path == path
                &&& m.metadata.id@ == path.ids().last()
                &&& m.metadata.type_id@ == T::spec_id()
                &&& m.metadata.data_extension@ == T::spec_data_extension()
                &&& is_rfc3339_time(m.metadata.time@)
            },
            path.ids().len() == 0 ==> (r matches Err(
                RessourceError::RessourceAtRoot { path: p, ressource_path: rp },
            ) && rp == path && p@ == spec_resolved_path(path.root@, path.ids())),
    {
        let n = path.path.len();
        if n == 0 {
            let resolved = path.resolve();
            return Err(RessourceError::RessourceAtRoot { path: resolved, ressource_path: path });
        }
        let id: String = match &path.path[n - 1] {
            RessourcePathComponent::Ressource(s) => s.clone(),
        };
        proof {
            assert(path.ids().last() == path.path@.last().id_view());
        }
        let metadata = RessourceMetadata {
            data_extension: String::from_str(T::data_extension()),
            type_id: String::from_str(T::id()),
            time: now_rfc3339(),
            id,
        };
        Ok(MetaRessource { metadata, path, phantom: PhantomData })
    }
}

} // verus!
