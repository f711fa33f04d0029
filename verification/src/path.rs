//! The addressing model: a logical path is an ordered sequence of resource
//! ids anchored at a root location. Resolution maps every id except the
//! last to a container segment `<id>.data` and the last id to the
//! resource's own base name; the empty path denotes the root itself.

use vstd::prelude::*;

verus! {

/// The atomic unit of addressing: an opaque, non-empty string that is
/// unique among the children of one path level.
pub type RessourceId = String;

/// The character that joins path segments, both on disk and in the
/// display form.
pub open spec fn slash() -> Seq<char> {
    seq!['/']
}

/// The suffix of a container segment: the children of a resource live
/// inside the resource's own data directory `<id>.data`.
pub open spec fn data_suffix() -> Seq<char> {
    seq!['.', 'd', 'a', 't', 'a']
}

/// The suffix of the metadata sidecar file.
pub open spec fn meta_suffix() -> Seq<char> {
    seq!['.', 'm', 'e', 't', 'a', '.', 'j', 's', 'o', 'n']
}

/// The dot that separates a data file's base name from its extension.
pub open spec fn dot() -> Seq<char> {
    seq!['.']
}

/// The physical directory that holds the children of the path `ids`:
/// the root itself for the empty path, otherwise one `<id>.data` segment
/// per id.
pub open spec fn spec_container_path(root: Seq<char>, ids: Seq<Seq<char>>) -> Seq<char>
    decreases ids.len(),
{
    if ids.len() == 0 {
        root
    } else {
        spec_container_path(root, ids.drop_last()) + slash() + ids.last() + data_suffix()
    }
}

/// The physical base path of the resource at `ids`: every id except the
/// last becomes a container segment, the last id names the resource
/// itself. The empty path resolves to the root.
pub open spec fn spec_resolved_path(root: Seq<char>, ids: Seq<Seq<char>>) -> Seq<char> {
    if ids.len() == 0 {
        root
    } else {
        spec_container_path(root, ids.drop_last()) + slash() + ids.last()
    }
}

/// The metadata sidecar file of the resource at `ids`.
pub open spec fn spec_metadata_path(root: Seq<char>, ids: Seq<Seq<char>>) -> Seq<char> {
    spec_resolved_path(root, ids) + meta_suffix()
}

/// The data payload file of the resource at `ids`: the base path plus
/// `.data`, plus `.<ext>` when the extension is non-empty.
pub open spec fn spec_data_path(root: Seq<char>, ids: Seq<Seq<char>>, ext: Seq<char>) -> Seq<char> {
    if ext.len() == 0 {
        spec_resolved_path(root, ids) + data_suffix()
    } else {
        spec_resolved_path(root, ids) + data_suffix() + dot() + ext
    }
}

/// The display form of a path: its ids joined with `/`, independent of
/// filesystem path syntax.
pub open spec fn spec_display_path(ids: Seq<Seq<char>>) -> Seq<char>
    decreases ids.len(),
{
    if ids.len() == 0 {
        Seq::empty()
    } else if ids.len() == 1 {
        ids.last()
    } else {
        spec_display_path(ids.drop_last()) + slash() + ids.last()
    }
}

/// A non-empty path names a resource that lives in its parent's
/// container directory, and its own container directory is its data
/// path with the empty extension.
pub proof fn lemma_path_nesting(root: Seq<char>, ids: Seq<Seq<char>>)
    requires
        ids.len() > 0,
    ensures
        spec_resolved_path(root, ids) == spec_container_path(root, ids.drop_last()) + slash()
            + ids.last(),
        spec_container_path(root, ids) == spec_data_path(root, ids, Seq::empty()),
{
}

/// One step of a logical path. A component carries exactly one atomic id;
/// the path model is flat.
#[derive(Debug, Clone)]
pub enum RessourcePathComponent {
    Ressource(RessourceId),
}

impl RessourcePathComponent {
    /// The id this component stands for.
    pub open spec fn id_view(self) -> Seq<char> {
        match self {
            RessourcePathComponent::Ressource(id) => id@,
        }
    }

    /// The atomic ids of this component, in order.
    pub fn resolve(&self) -> (r: Vec<&RessourceId>)
        ensures
            r@.len() == 1,
            r@[0]@ == self.id_view(),
    {
        match self {
            RessourcePathComponent::Ressource(id) => {
                let mut v: Vec<&RessourceId> = Vec::new();
                v.push(id);
                v
            },
        }
    }
}

impl From<RessourceId> for RessourcePathComponent {
    fn from(value: RessourceId) -> (r: Self) {
        RessourcePathComponent::Ressource(value)
    }
}

impl vstd::std_specs::convert::FromSpecImpl<RessourceId> for RessourcePathComponent {
    open spec fn obeys_from_spec() -> bool {
        true
    }

    open spec fn from_spec(value: RessourceId) -> Self {
        RessourcePathComponent::Ressource(value)
    }
}

/// An ordered sequence of resource ids anchored to a root filesystem
/// location. The empty path denotes the root container, which is never
/// itself an addressable resource.
#[derive(Debug, Clone)]
pub struct RessourcePath {
    pub path: Vec<RessourcePathComponent>,
    pub root: String,
}

impl RessourcePath {
    /// The sequence of ids this path addresses.
    pub open spec fn ids(self) -> Seq<Seq<char>> {
        self.path@.map(|i: int, c: RessourcePathComponent| c.id_view())
    }

    /// Builds a path from a root and a component list.
    pub fn from_vec(root: String, path: Vec<RessourcePathComponent>) -> (r: RessourcePath)
        ensures
            r.root@ == root@,
            r.path@ == path@,
    {
        RessourcePath { path, root }
    }

    /// Appends one child id. An empty id is rejected and the path is left
    /// unchanged; the returned flag says whether the component was taken.
    pub fn push(&mut self, component: RessourcePathComponent) -> (accepted: bool)
        ensures
            accepted == (component.id_view().len() > 0),
            accepted ==> final(self).path@ == old(self).path@.push(component),
            !accepted ==> final(self).path@ == old(self).path@,
            final(self).root@ == old(self).root@,
            accepted ==> final(self).ids() == old(self).ids().push(component.id_view()),
    {
        let non_empty = match &component {
            RessourcePathComponent::Ressource(id) => id.as_str().unicode_len() > 0,
        };
        if non_empty {
            self.path.push(component);
            proof {
                assert(self.ids() =~= old(self).ids().push(component.id_view()));
            }
            true
        } else {
            false
        }
    }

    /// Appends a list of components, emptying the argument.
    pub fn append(&mut self, path: &mut Vec<RessourcePathComponent>)
        ensures
            final(self).path@ == old(self).path@ + old(path)@,
            final(self).root@ == old(self).root@,
            final(path)@.len() == 0,
    {
        self.path.append(path);
    }

    /// Appends a list of ids, emptying the argument; each id becomes one
    /// component.
    pub fn append_id(&mut self, path: &mut Vec<RessourceId>)
        ensures
            final(self).root@ == old(self).root@,
            final(self).ids() == old(self).ids() + old(path)@.map(|i: int, s: String| s@),
            final(path)@.len() == 0,
    {
        let mut components: Vec<RessourcePathComponent> = Vec::new();
        let mut i: usize = 0;
        while i < path.len()
            invariant
                0 <= i <= path@.len(),
                path@ == old(path)@,
                components@.len() == i,
                forall|j: int| 0 <= j < i ==> #[trigger] components@[j].id_view() == path@[j]@,
            decreases path@.len() - i,
        {
            components.push(RessourcePathComponent::Ressource(path[i].clone()));
            i += 1;
        }
        path.clear();
        self.path.append(&mut components);
        proof {
            assert(self.ids() =~= old(self).ids() + old(path)@.map(|k: int, s: String| s@));
        }
    }

    /// Removes and returns the terminal component, or yields none if the
    /// path is already empty (the trigger for an at-root error upstream).
    pub fn up(&mut self) -> (r: Option<RessourcePathComponent>)
        ensures
            final(self).root@ == old(self).root@,
            old(self).path@.len() == 0 ==> r is None && final(self).path@ == old(self).path@,
            old(self).path@.len() > 0 ==> r == Some(old(self).path@.last())
                && final(self).path@ == old(self).path@.drop_last(),
    {
        self.path.pop()
    }

    /// The parent path: all ids but the last. The empty path is its own
    /// parent here; callers reject it upstream as an at-root error.
    pub fn parent(&self) -> (r: RessourcePath)
        ensures
            r.root@ == self.root@,
            self.path@.len() == 0 ==> r.ids() == self.ids() && r.ids().len() == 0,
            self.path@.len() > 0 ==> r.ids() == self.ids().drop_last(),
    {
        let mut r = self.resolve_into_ressource_path();
        let ghost mid = r;
        let _ = r.up();
        proof {
            if self.path@.len() == 0 {
                assert(r.ids() =~= self.ids());
            } else {
                assert(r.ids() =~= mid.ids().drop_last());
            }
        }
        r
    }

    /// The atomic ids of the path, in order.
    pub fn resolve_components(&self) -> (r: Vec<&RessourceId>)
        ensures
            r@.len() == self.ids().len(),
            forall|i: int| 0 <= i < r@.len() ==> r@[i]@ == self.ids()[i],
    {
        let mut res: Vec<&RessourceId> = Vec::new();
        let mut i: usize = 0;
        while i < self.path.len()
            invariant
                0 <= i <= self.path@.len(),
                res@.len() == i,
                forall|j: int| 0 <= j < i ==> res@[j]@ == self.ids()[j],
            decreases self.path@.len() - i,
        {
            let c = &self.path[i];
            let mut other = c.resolve();
            res.append(&mut other);
            i += 1;
        }
        res
    }

    /// Rebuilds the path as a flat list of atomic components over the
    /// same root.
    pub fn resolve_into_ressource_path(&self) -> (r: RessourcePath)
        ensures
            r.root@ == self.root@,
            r.ids() == self.ids(),
    {
        let mut components: Vec<RessourcePathComponent> = Vec::new();
        let mut i: usize = 0;
        while i < self.path.len()
            invariant
                0 <= i <= self.path@.len(),
                components@.len() == i,
                forall|j: int| 0 <= j < i ==> #[trigger] components@[j].id_view()
                    == self.ids()[j],
            decreases self.path@.len() - i,
        {
            let c = &self.path[i];
            match c {
                RessourcePathComponent::Ressource(id) => {
                    components.push(RessourcePathComponent::Ressource(id.clone()));
                },
            }
            i += 1;
        }
        let r = RessourcePath { path: components, root: self.root.clone() };
        proof {
            assert(r.ids() =~= self.ids());
        }
        r
    }

    /// Maps the path to its physical base path, per the resolution rule.
    pub fn resolve(&self) -> (r: String)
        ensures
            r@ == spec_resolved_path(self.root@, self.ids()),
    {
        let mut res: String = self.root.clone();
        let n = self.path.len();
        proof {
            assert(self.ids().take(0) =~= Seq::<Seq<char>>::empty());
        }
        let mut i: usize = 0;
        while i < n
            invariant
                n == self.path@.len(),
                0 <= i <= n,
                i < n || n == 0 ==> res@ == spec_container_path(
                    self.root@,
                    self.ids().take(i as int),
                ),
                i == n && n > 0 ==> res@ == spec_resolved_path(self.root@, self.ids()),
            decreases n - i,
        {
            res.append("/");
            match &self.path[i] {
                RessourcePathComponent::Ressource(id) => {
                    res.append(id.as_str());
                },
            }
            proof {
                reveal_strlit("/");
                assert("/"@ =~= slash());
                assert(self.ids()[i as int] == self.path@[i as int].id_view());
            }
            if i + 1 < n {
                res.append(".data");
                proof {
                    reveal_strlit(".data");
                    assert(".data"@ =~= data_suffix());
                    assert(self.ids().take(i + 1).drop_last() =~= self.ids().take(i as int));
                    assert(self.ids().take(i + 1).last() == self.ids()[i as int]);
                }
            } else {
                proof {
                    assert(self.ids().drop_last() =~= self.ids().take(i as int));
                    assert(self.ids().last() == self.ids()[i as int]);
                }
            }
            i += 1;
        }
        res
    }

    /// The metadata sidecar location: the resolved base path with the
    /// `.meta.json` suffix.
    pub fn metadata_path(&self) -> (r: String)
        ensures
            r@ == spec_metadata_path(self.root@, self.ids()),
    {
        let mut p = self.resolve();
        p.append(".meta.json");
        proof {
            reveal_strlit(".meta.json");
            assert(".meta.json"@ =~= meta_suffix());
        }
        p
    }

    /// The data payload location: the resolved base path, `.data`, and
    /// the type's extension when one is declared.
    pub fn data_path(&self, extension: &str) -> (r: String)
        ensures
            r@ == spec_data_path(self.root@, self.ids(), extension@),
    {
        let mut p = self.resolve();
        p.append(".data");
        proof {
            reveal_strlit(".data");
            assert(".data"@ =~= data_suffix());
        }
        if !extension.is_empty() {
            p.append(".");
            p.append(extension);
            proof {
                reveal_strlit(".");
                assert("."@ =~= dot());
            }
        }
        p
    }

    /// The display form: the ids joined with `/`.
    pub fn display_string(&self) -> (r: String)
        ensures
            r@ == spec_display_path(self.ids()),
    {
        let mut res = String::new();
        let n = self.path.len();
        proof {
            assert(self.ids().take(0) =~= Seq::<Seq<char>>::empty());
        }
        let mut i: usize = 0;
        while i < n
            invariant
                n == self.path@.len(),
                0 <= i <= n,
                res@ == spec_display_path(self.ids().take(i as int)),
            decreases n - i,
        {
            if i > 0 {
                res.append("/");
            }
            match &self.path[i] {
                RessourcePathComponent::Ressource(id) => {
                    res.append(id.as_str());
                },
            }
            proof {
                reveal_strlit("/");
                assert("/"@ =~= slash());
                assert(self.ids()[i as int] == self.path@[i as int].id_view());
                assert(self.ids().take(i + 1).drop_last() =~= self.ids().take(i as int));
                assert(self.ids().take(i + 1).last() == self.ids()[i as int]);
            }
            i += 1;
        }
        proof {
            assert(self.ids().take(n as int) =~= self.ids());
        }
        res
    }
}

} // verus!
