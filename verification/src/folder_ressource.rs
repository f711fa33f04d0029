//! The built-in folder resource: a location that is a directory holding
//! children. It serves both as an ordinary resource type and as the
//! parent-existence gate for `create`. A container discovers its
//! children without an index file: the direct entries whose names end
//! in `.meta.json`, with that suffix stripped, are the child ids.

use vstd::prelude::*;

use crate::path::{meta_suffix, RessourceId};
use crate::text::str_eq_chars;
use crate::traits::{ReadableRessource, RessourceType, WritableRessource};

verus! {

/// What can go wrong reading or writing a folder resource.
#[derive(Debug)]
pub enum FolderRessourceError {
    /// The location could not be inspected.
    CheckingForFolder { path: String, error: String },
    /// The location exists but is not a directory.
    NotAFolder { path: String },
    /// Reading the next directory entry failed.
    NextEntry { path: String, error: String },
    /// The directory could not be created.
    CreatingFolder { path: String, error: String },
    /// A directory entry's name is not valid text.
    Filename { path: String, filename: String },
}

impl FolderRessourceError {
    /// The rendered form of this failure.
    pub open spec fn spec_message(self) -> Seq<char> {
        match self {
            FolderRessourceError::CheckingForFolder { path, error } =>
                "FolderRessource: IO Error checking for folder at "@ + path@ + ". Error: "@
                    + error@,
            FolderRessourceError::NotAFolder { path } => "FolderRessource: Not a folder at "@
                + path@,
            FolderRessourceError::NextEntry { path, error } =>
                "FolderRessource: Unable to read next folder entry at "@ + path@ + ". Error: "@
                    + error@,
            FolderRessourceError::CreatingFolder { path, error } =>
                "FolderRessource: Unable to create folder at: "@ + path@ + ". Error: "@ + error@,
            FolderRessourceError::Filename { path, filename } =>
                "FolderRessource: Invalid Filename in folder at: "@ + path@
                    + ". Invalid filename display: "@ + filename@,
        }
    }

    /// Renders the failure as one line of text.
    pub fn message(&self) -> (r: String)
        ensures
            r@ == self.spec_message(),
    {
        let mut res: String;
        match self {
            FolderRessourceError::CheckingForFolder { path, error } => {
                res = String::from_str("FolderRessource: IO Error checking for folder at ");
                res.append(path.as_str());
                res.append(". Error: ");
                res.append(error.as_str());
            },
            FolderRessourceError::NotAFolder { path } => {
                res = String::from_str("FolderRessource: Not a folder at ");
                res.append(path.as_str());
            },
            FolderRessourceError::NextEntry { path, error } => {
                res = String::from_str("FolderRessource: Unable to read next folder entry at ");
                res.append(path.as_str());
                res.append(". Error: ");
                res.append(error.as_str());
            },
            FolderRessourceError::CreatingFolder { path, error } => {
                res = String::from_str("FolderRessource: Unable to create folder at: ");
                res.append(path.as_str());
                res.append(". Error: ");
                res.append(error.as_str());
            },
            FolderRessourceError::Filename { path, filename } => {
                res = String::from_str("FolderRessource: Invalid Filename in folder at: ");
                res.append(path.as_str());
                res.append(". Invalid filename display: ");
                res.append(filename.as_str());
            },
        }
        proof {
            assert(res@ =~= self.spec_message());
        }
        res
    }
}

/// A directory's enumeration, as the driver saw it.
#[derive(Debug)]
pub enum FolderListing {
    /// The entry names, in the order the directory yielded them. An
    /// entry whose name is not valid text carries its rendered form as
    /// an error.
    Entries(Vec<Result<String, String>>),
    /// The directory could not be opened for enumeration.
    OpenError(String),
    /// Reading the next entry failed part-way through.
    EntryError(String),
}

/// The entry name ends with the metadata sidecar suffix.
pub open spec fn ends_with_meta(name: Seq<char>) -> bool {
    name.len() >= meta_suffix().len() && name.subrange(
        name.len() - meta_suffix().len(),
        name.len() as int,
    ) == meta_suffix()
}

/// The entry name with the metadata sidecar suffix stripped.
pub open spec fn meta_stem(name: Seq<char>) -> Seq<char> {
    name.take(name.len() - meta_suffix().len())
}

/// The child ids named by a directory's entries: exactly the stems of
/// the names that end in the sidecar suffix, in enumeration order.
pub open spec fn spec_child_ids(names: Seq<Seq<char>>) -> Seq<Seq<char>>
    decreases names.len(),
{
    if names.len() == 0 {
        Seq::empty()
    } else {
        let prefix = spec_child_ids(names.drop_last());
        if ends_with_meta(names.last()) {
            prefix.push(meta_stem(names.last()))
        } else {
            prefix
        }
    }
}

/// Enumeration is correct: an id is discovered exactly when some entry
/// is its metadata sidecar.
pub proof fn lemma_child_ids_membership(names: Seq<Seq<char>>, id: Seq<char>)
    ensures
        spec_child_ids(names).contains(id) <==> exists|i: int|
            0 <= i < names.len() && ends_with_meta(#[trigger] names[i]) && meta_stem(names[i])
                == id,
    decreases names.len(),
{
    if names.len() > 0 {
        lemma_child_ids_membership(names.drop_last(), id);
        let prefix = spec_child_ids(names.drop_last());
        if ends_with_meta(names.last()) && meta_stem(names.last()) == id {
            assert(spec_child_ids(names)[spec_child_ids(names).len() - 1] == id);
            assert(spec_child_ids(names).contains(id));
        }
        if spec_child_ids(names).contains(id) {
            if !(ends_with_meta(names.last()) && meta_stem(names.last()) == id) {
                let k = choose|k: int|
                    0 <= k < spec_child_ids(names).len() && spec_child_ids(names)[k] == id;
                if k < prefix.len() {
                    assert(prefix.contains(id));
                }
            }
        }
        if exists|i: int|
            0 <= i < names.len() && ends_with_meta(#[trigger] names[i]) && meta_stem(names[i])
                == id {
            let i = choose|i: int|
                0 <= i < names.len() && ends_with_meta(#[trigger] names[i]) && meta_stem(names[i])
                    == id;
            if i < names.len() - 1 {
                assert(names.drop_last()[i] == names[i]);
                assert(prefix.contains(id));
                let k = choose|k: int| 0 <= k < prefix.len() && prefix[k] == id;
                assert(spec_child_ids(names)[k] == id);
                assert(spec_child_ids(names).contains(id));
            }
        }
    }
}

/// Strips the sidecar suffix from an entry name, when it carries one.
fn meta_entry_stem(name: &str) -> (r: Option<String>)
    ensures
        ends_with_meta(name@) ==> (r matches Some(stem) && stem@ == meta_stem(name@)),
        !ends_with_meta(name@) ==> r is None,
{
    proof {
        reveal_strlit(".meta.json");
        assert(".meta.json"@ =~= meta_suffix());
    }
    let n = name.unicode_len();
    if n < 10 {
        return None;
    }
    let tail = name.substring_char(n - 10, n);
    if str_eq_chars(tail, ".meta.json") {
        proof {
            assert(name@.subrange(n - 10, n as int) == meta_suffix());
        }
        Some(name.substring_char(0, n - 10).to_owned())
    } else {
        None
    }
}

/// The built-in directory resource, holding the child ids its
/// enumeration discovered (empty when it was only checked, not
/// enumerated).
pub struct FolderRessource {
    pub ressources: Vec<RessourceId>,
}

impl RessourceType for FolderRessource {
    open spec fn spec_id() -> Seq<char> {
        "core/folder"@
    }

    fn id() -> (r: &'static str) {
        "core/folder"
    }
}

impl ReadableRessource for FolderRessource {

}

impl WritableRessource for FolderRessource {
    open spec fn spec_data_extension() -> Seq<char> {
        Seq::empty()
    }

    fn data_extension() -> (r: &'static str) {
        proof {
            reveal_strlit("");
            assert(""@ =~= Seq::<char>::empty());
        }
        ""
    }
}

impl FolderRessource {
    /// Reconstructs the folder from the outcome of enumerating the
    /// directory at `path`. A failed enumeration surfaces as the
    /// matching folder error; otherwise the children are exactly the
    /// sidecar stems among the entry names.
    #[verifier::loop_isolation(false)]
    pub fn read(path: &String, listing: FolderListing) -> (r: Result<
        FolderRessource,
        FolderRessourceError,
    >)
        ensures
            listing matches FolderListing::OpenError(e) ==> (r matches Err(
                FolderRessourceError::CheckingForFolder { path: p, error },
            ) && p@ == path@ && error == e),
            listing matches FolderListing::EntryError(e) ==> (r matches Err(
                FolderRessourceError::NextEntry { path: p, error },
            ) && p@ == path@ && error == e),
            listing matches FolderListing::Entries(v) ==> ((exists|i: int|
                0 <= i < v@.len() && (#[trigger] v@[i]) is Err) ==> (r matches Err(
                FolderRessourceError::Filename { path: p, filename },
            ) && p@ == path@ && exists|i: int|
                0 <= i < v@.len() && #[trigger] v@[i] == Err::<String, String>(filename)
                    && (forall|j: int| 0 <= j < i ==> (#[trigger] v@[j]) is Ok))),
            listing matches FolderListing::Entries(v) ==> ((forall|i: int|
                0 <= i < v@.len() ==> (#[trigger] v@[i]) is Ok) ==> (r matches Ok(folder)
                && folder.ressources.deep_view() == spec_child_ids(
                v@.map(|i: int, entry: Result<String, String>| entry->Ok_0@),
            ))),
    {
        let entries = match listing {
            FolderListing::OpenError(error) => {
                return Err(
                    FolderRessourceError::CheckingForFolder { path: path.clone(), error },
                );
            },
            FolderListing::EntryError(error) => {
                return Err(FolderRessourceError::NextEntry { path: path.clone(), error });
            },
            FolderListing::Entries(v) => v,
        };
        let ghost names = entries@.map(|i: int, entry: Result<String, String>| entry->Ok_0@);
        let mut ressources: Vec<RessourceId> = Vec::new();
        let mut i: usize = 0;
        while i < entries.len()
            invariant
                0 <= i <= entries@.len(),
                names == entries@.map(|k: int, entry: Result<String, String>| entry->Ok_0@),
                forall|j: int| 0 <= j < i ==> (#[trigger] entries@[j]) is Ok,
                ressources.deep_view() == spec_child_ids(names.take(i as int)),
            decreases entries@.len() - i,
        {
            let name = match &entries[i] {
                Ok(name) => name,
                Err(display) => {
                    return Err(
                        FolderRessourceError::Filename {
                            path: path.clone(),
                            filename: display.clone(),
                        },
                    );
                },
            };
            proof {
                assert(names.take(i + 1).drop_last() =~= names.take(i as int));
                assert(names.take(i + 1).last() == names[i as int]);
                assert(names[i as int] == name@);
            }
            match meta_entry_stem(name.as_str()) {
                Some(stem) => {
                    ressources.push(stem);
                    proof {
                        assert(ressources.deep_view() =~= spec_child_ids(names.take(i + 1)));
                    }
                },
                None => {
                    proof {
                        assert(ressources.deep_view() =~= spec_child_ids(names.take(i + 1)));
                    }
                },
            }
            i += 1;
        }
        proof {
            assert(names.take(entries@.len() as int) =~= names);
        }
        Ok(FolderRessource { ressources })
    }

    /// Reconstructs the folder from the outcome of checking that `path`
    /// denotes a directory, without enumerating it.
    pub fn check(path: &String, is_dir: Result<bool, String>) -> (r: Result<
        FolderRessource,
        FolderRessourceError,
    >)
        ensures
            is_dir matches Err(e) ==> (r matches Err(
                FolderRessourceError::CheckingForFolder { path: p, error },
            ) && p@ == path@ && error == e),
            is_dir matches Ok(b) ==> (b ==> (r matches Ok(folder)
                && folder.ressources@.len() == 0)),
            is_dir matches Ok(b) ==> (!b ==> (r matches Err(FolderRessourceError::NotAFolder {
                path: p,
            }) && p@ == path@)),
    {
        match is_dir {
            Err(error) => Err(FolderRessourceError::CheckingForFolder {
                path: path.clone(),
                error,
            }),
            Ok(false) => Err(FolderRessourceError::NotAFolder { path: path.clone() }),
            Ok(true) => Ok(FolderRessource { ressources: Vec::new() }),
        }
    }

    /// Folds the outcome of the driver's non-recursive directory
    /// creation into the folder's own error. Creating the directory is
    /// this type's write capability; it fails if the directory already
    /// exists or its own parent is missing.
    pub fn write(&self, path: &String, outcome: Result<(), String>) -> (r: Result<
        (),
        FolderRessourceError,
    >)
        ensures
            outcome is Ok ==> r is Ok,
            outcome matches Err(e) ==> (r matches Err(
                FolderRessourceError::CreatingFolder { path: p, error },
            ) && p@ == path@ && error == e),
    {
        match outcome {
            Ok(_) => Ok(()),
            Err(error) => Err(FolderRessourceError::CreatingFolder {
                path: path.clone(),
                error,
            }),
        }
    }
}

} // verus!
