use vstd::prelude::*;
use crate::manifest::{Manifest, ManifestView};

verus! {

/// The version string that stands for the newest version of a model.
pub const LATEST_VERSION: &'static str = "latest";

/// The versions of one model, oldest first, and which of them is deployed.
#[derive(PartialEq, Eq, Debug)]
pub struct StoredManifest {
    manifests: Vec<Manifest>,
    deployed_version: Option<String>,
}

/// A `StoredManifest` as a mathematical value.
pub struct StoredManifestView {
    /// The manifests in the order in which they were added.
    pub versions: Seq<ManifestView>,
    /// The version that is deployed, if any.
    pub deployed_version: Option<Seq<char>>,
}

impl StoredManifestView {
    /// The model without any version.
    pub open spec fn empty() -> Self {
        StoredManifestView { versions: Seq::empty(), deployed_version: None }
    }

    /// Some manifest of the model has version `v`.
    pub open spec fn has_version(self, v: Seq<char>) -> bool {
        exists|i: int| 0 <= i < self.versions.len() && (#[trigger] self.versions[i]).version == v
    }

    /// A position at which the model holds version `v`, where it has one.
    pub open spec fn index_of(self, v: Seq<char>) -> int {
        choose|i: int| 0 <= i < self.versions.len() && (#[trigger] self.versions[i]).version == v
    }

    /// No two manifests of the model have the same version.
    pub open spec fn distinct_versions(self) -> bool {
        forall|i: int, j: int|
            0 <= i < j < self.versions.len() ==> (#[trigger] self.versions[i]).version != (
            #[trigger] self.versions[j]).version
    }

    /// The deployed version, where there is one, is a version of the model.
    pub open spec fn deployed_is_present(self) -> bool {
        self.deployed_version matches Some(v) ==> self.has_version(v)
    }

    /// What holds of every stored model.
    pub open spec fn wf(self) -> bool {
        self.distinct_versions() && self.deployed_is_present()
    }

    /// The version strings, oldest first.
    pub open spec fn version_strings(self) -> Seq<Seq<char>> {
        self.versions.map_values(|m: ManifestView| m.version)
    }

    /// The manifest with version `v`.
    pub open spec fn get_version(self, v: Seq<char>) -> Option<ManifestView> {
        if self.has_version(v) {
            Some(self.versions[self.index_of(v)])
        } else {
            None
        }
    }

    /// The manifest that is deployed.
    pub open spec fn get_deployed(self) -> Option<ManifestView> {
        match self.deployed_version {
            Some(v) => self.get_version(v),
            None => None,
        }
    }

    /// The model after `m` was offered as a new version: `m` is appended
    /// unless its version is taken.
    pub open spec fn add_version(self, m: ManifestView) -> Self {
        if self.has_version(m.version) {
            self
        } else {
            StoredManifestView { versions: self.versions.push(m), ..self }
        }
    }

    /// The model after version `v` was deleted: the manifest is gone, and so
    /// is the deployed version if it was `v`.
    pub open spec fn delete_version(self, v: Seq<char>) -> Self {
        if self.has_version(v) {
            StoredManifestView {
                versions: self.versions.remove(self.index_of(v)),
                deployed_version: if self.deployed_version == Some(v) {
                    None
                } else {
                    self.deployed_version
                },
            }
        } else {
            self
        }
    }

    /// The version that a deploy request for `requested` aims at: the newest
    /// one where none, or `latest`, is asked for.
    pub open spec fn deploy_target(self, requested: Option<Seq<char>>) -> Option<Seq<char>> {
        match requested {
            Some(v) if v != LATEST_VERSION@ => Some(v),
            _ => if self.versions.len() > 0 {
                Some(self.versions.last().version)
            } else {
                None
            },
        }
    }

    /// A deploy request for `requested` can be met.
    pub open spec fn can_deploy(self, requested: Option<Seq<char>>) -> bool {
        self.deploy_target(requested) matches Some(v) && self.has_version(v)
    }

    /// The model after a deploy request for `requested`.
    pub open spec fn deploy(self, requested: Option<Seq<char>>) -> Self {
        if self.can_deploy(requested) {
            StoredManifestView { deployed_version: self.deploy_target(requested), ..self }
        } else {
            self
        }
    }

    /// The model with no version deployed.
    pub open spec fn undeploy(self) -> Self {
        StoredManifestView { deployed_version: None, ..self }
    }

    /// Every manifest of the model carries the name `name`.
    pub open spec fn named(self, name: Seq<char>) -> bool {
        forall|i: int| 0 <= i < self.versions.len() ==> (#[trigger] self.versions[i]).name == name
    }

    /// The name that the manifests of the model carry: that of the oldest
    /// one, and the empty string where the model has no version.
    pub open spec fn name(self) -> Seq<char> {
        if self.versions.len() > 0 {
            self.versions[0].name
        } else {
            Seq::empty()
        }
    }
}

impl View for StoredManifest {
    type V = StoredManifestView;

    closed spec fn view(&self) -> StoredManifestView {
        StoredManifestView {
            versions: self.manifests.deep_view(),
            deployed_version: self.deployed_version.deep_view(),
        }
    }
}

impl DeepView for StoredManifest {
    type V = StoredManifestView;

    open spec fn deep_view(&self) -> StoredManifestView {
        self@
    }
}

impl StoredManifest {
    #[verifier::type_invariant]
    spec fn inv(&self) -> bool {
        self@.wf()
    }

    /// A model without versions.
    pub fn new() -> (res: Self)
        ensures
            res@ == StoredManifestView::empty(),
            res@.wf(),
    {
        let res = StoredManifest { manifests: Vec::new(), deployed_version: None };
        assert(res@.versions =~= Seq::empty());
        res
    }

    /// The number of versions.
    pub fn count(&self) -> (n: usize)
        ensures
            n == self@.versions.len(),
    {
        self.manifests.len()
    }

    /// Whether the model has no version.
    pub fn is_empty(&self) -> (res: bool)
        ensures
            res == (self@.versions.len() == 0),
    {
        self.manifests.len() == 0
    }

    /// The position of version `version`, or the number of versions where the
    /// model has no such version.
    fn position(&self, version: &str) -> (idx: usize)
        ensures
            self@.wf(),
            idx <= self@.versions.len(),
            idx < self@.versions.len() <==> self@.has_version(version@),
            idx < self@.versions.len() ==> idx == self@.index_of(version@),
    {
        proof {
            use_type_invariant(self);
        }
        let wanted = String::from_str(version);
        let mut i: usize = 0;
        while i < self.manifests.len()
            invariant
                i <= self.manifests.len(),
                wanted@ == version@,
                self@.wf(),
                forall|k: int| 0 <= k < i ==> (#[trigger] self@.versions[k]).version != version@,
            decreases self.manifests.len() - i,
        {
            if self.manifests[i].version == wanted {
                assert(self@.versions[i as int].version == version@);
                assert(self@.index_of(version@) == i);
                return i;
            }
            i += 1;
        }
        i
    }

    /// Moves the parts out of the model, which is left empty.
    fn take_parts(&mut self) -> (parts: (Vec<Manifest>, Option<String>))
        ensures
            old(self)@.wf(),
            parts.0.deep_view() == old(self)@.versions,
            parts.1.deep_view() == old(self)@.deployed_version,
            final(self)@ == StoredManifestView::empty(),
    {
        proof {
            use_type_invariant(&*self);
        }
        let mut deployed: Option<String> = None;
        core::mem::swap(&mut self.deployed_version, &mut deployed);
        let mut manifests: Vec<Manifest> = Vec::new();
        core::mem::swap(&mut self.manifests, &mut manifests);
        assert(self@.versions =~= Seq::empty());
        (manifests, deployed)
    }

    /// Moves `manifests` and `deployed` into the model, which must be empty.
    fn put_parts(&mut self, manifests: Vec<Manifest>, deployed: Option<String>)
        requires
            old(self)@ == StoredManifestView::empty(),
            (StoredManifestView {
                versions: manifests.deep_view(),
                deployed_version: deployed.deep_view(),
            }).wf(),
        ensures
            final(self)@.versions == manifests.deep_view(),
            final(self)@.deployed_version == deployed.deep_view(),
            final(self)@.wf(),
    {
        let mut manifests = manifests;
        let mut deployed = deployed;
        core::mem::swap(&mut self.manifests, &mut manifests);
        core::mem::swap(&mut self.deployed_version, &mut deployed);
    }

    /// Appends `manifest` unless the model already has its version. Returns
    /// whether it was appended.
    pub fn add_version(&mut self, manifest: Manifest) -> (added: bool)
        ensures
            added == !old(self)@.has_version(manifest@.version),
            final(self)@ == old(self)@.add_version(manifest@),
            final(self)@.wf(),
    {
        let idx = self.position(manifest.version.as_str());
        if idx < self.manifests.len() {
            return false;
        }
        let ghost before = self@;
        let (mut manifests, deployed) = self.take_parts();
        manifests.push(manifest);
        proof {
            let after = StoredManifestView {
                versions: manifests.deep_view(),
                deployed_version: deployed.deep_view(),
            };
            assert(after.versions =~= before.versions.push(manifest@));
            assert(after.distinct_versions());
            if after.deployed_version is Some {
                let v = after.deployed_version->0;
                let i = before.index_of(v);
                assert(after.versions[i].version == v);
            }
        }
        self.put_parts(manifests, deployed);
        true
    }

    /// The manifest with version `version`.
    pub fn get_version(&self, version: &str) -> (res: Option<&Manifest>)
        ensures
            res.deep_view() == self@.get_version(version@),
    {
        let idx = self.position(version);
        if idx < self.manifests.len() {
            Some(&self.manifests[idx])
        } else {
            None
        }
    }

    /// The newest manifest.
    pub fn get_current(&self) -> (res: &Manifest)
        requires
            self@.versions.len() > 0,
        ensures
            res@ == self@.versions.last(),
    {
        &self.manifests[self.manifests.len() - 1]
    }

    /// The version of the newest manifest.
    pub fn current_version(&self) -> (res: &str)
        requires
            self@.versions.len() > 0,
        ensures
            res@ == self@.versions.last().version,
    {
        self.manifests[self.manifests.len() - 1].version.as_str()
    }

    /// The name that the manifests of the model carry: that of the oldest
    /// one, and the empty string where the model has no version.
    pub fn name(&self) -> (res: &str)
        ensures
            res@ == self@.name(),
    {
        if self.manifests.len() > 0 {
            self.manifests[0].name.as_str()
        } else {
            proof {
                reveal_strlit("");
            }
            assert(""@ =~= Seq::<char>::empty());
            ""
        }
    }

    /// The version strings, oldest first.
    pub fn all_versions(&self) -> (res: Vec<String>)
        ensures
            res.deep_view() == self@.version_strings(),
    {
        let mut out: Vec<String> = Vec::new();
        let mut i: usize = 0;
        while i < self.manifests.len()
            invariant
                i <= self.manifests.len(),
                out.len() == i,
                forall|k: int| 0 <= k < i ==> (#[trigger] out[k])@ == self@.versions[k].version,
            decreases self.manifests.len() - i,
        {
            out.push(self.manifests[i].version.clone());
            i += 1;
        }
        assert(out.deep_view() =~= self@.version_strings());
        out
    }

    /// The version that is deployed, if any.
    pub fn deployed_version(&self) -> (res: Option<&str>)
        ensures
            res.deep_view() == self@.deployed_version,
    {
        match &self.deployed_version {
            Some(v) => Some(v.as_str()),
            None => None,
        }
    }

    /// Whether `version` is the deployed version.
    pub fn is_deployed(&self, version: &str) -> (res: bool)
        ensures
            res == (self@.deployed_version == Some(version@)),
    {
        match &self.deployed_version {
            Some(v) => {
                let wanted = String::from_str(version);
                *v == wanted
            },
            None => false,
        }
    }

    /// The manifest that is deployed, if any.
    pub fn get_deployed(&self) -> (res: Option<&Manifest>)
        ensures
            res.deep_view() == self@.get_deployed(),
    {
        match &self.deployed_version {
            Some(v) => self.get_version(v.as_str()),
            None => None,
        }
    }

    /// Deletes version `version`, and with it the mark of the deployed
    /// version if that was the one. Returns whether the model had the version.
    pub fn delete_version(&mut self, version: &str) -> (deleted: bool)
        ensures
            deleted == old(self)@.has_version(version@),
            final(self)@ == old(self)@.delete_version(version@),
            final(self)@.wf(),
    {
        let idx = self.position(version);
        if idx >= self.manifests.len() {
            return false;
        }
        let was_deployed = self.is_deployed(version);
        let ghost before = self@;
        let (mut manifests, deployed) = self.take_parts();
        let _ = manifests.remove(idx);
        let deployed = if was_deployed {
            None
        } else {
            deployed
        };
        proof {
            let after = StoredManifestView {
                versions: manifests.deep_view(),
                deployed_version: deployed.deep_view(),
            };
            assert(after.versions =~= before.versions.remove(idx as int));
            assert(after == before.delete_version(version@));
            lemma_delete_version_wf(before, version@);
        }
        self.put_parts(manifests, deployed);
        true
    }

    /// The version that a deploy request for `version` aims at.
    fn deploy_target(&self, version: &Option<String>) -> (res: Option<String>)
        ensures
            res.deep_view() == self@.deploy_target(version.deep_view()),
    {
        let latest = String::from_str(LATEST_VERSION);
        match version {
            Some(v) if *v != latest => Some(v.clone()),
            _ => {
                if self.manifests.len() == 0 {
                    None
                } else {
                    Some(self.manifests[self.manifests.len() - 1].version.clone())
                }
            },
        }
    }

    /// Whether a deploy request for `version` can be met: whether the model
    /// has the version, or, where `version` is absent or `latest`, any
    /// version at all.
    pub fn can_deploy(&self, version: &Option<String>) -> (res: bool)
        ensures
            res == self@.can_deploy(version.deep_view()),
    {
        match self.deploy_target(version) {
            Some(target) => self.position(target.as_str()) < self.manifests.len(),
            None => false,
        }
    }

    /// Marks a version as deployed: `version`, or the newest one where
    /// `version` is absent or `latest`. Returns whether the model has the
    /// version; where it has not, nothing changes.
    pub fn deploy(&mut self, version: Option<String>) -> (deployed: bool)
        ensures
            deployed == old(self)@.can_deploy(version.deep_view()),
            final(self)@ == old(self)@.deploy(version.deep_view()),
            final(self)@.wf(),
    {
        proof {
            use_type_invariant(&*self);
        }
        let target = match self.deploy_target(&version) {
            Some(target) => target,
            None => {
                return false;
            },
        };
        let idx = self.position(target.as_str());
        if idx >= self.manifests.len() {
            return false;
        }
        let ghost before = self@;
        let (manifests, _) = self.take_parts();
        proof {
            let after = StoredManifestView {
                versions: manifests.deep_view(),
                deployed_version: Some(target@),
            };
            assert(after.versions[idx as int].version == target@);
            assert(after == before.deploy(version.deep_view()));
        }
        self.put_parts(manifests, Some(target));
        true
    }

    /// Clears the mark of the deployed version. Returns whether a version was
    /// deployed.
    pub fn undeploy(&mut self) -> (changed: bool)
        ensures
            changed == old(self)@.deployed_version.is_some(),
            final(self)@ == old(self)@.undeploy(),
            final(self)@.wf(),
    {
        let (manifests, deployed) = self.take_parts();
        self.put_parts(manifests, None);
        deployed.is_some()
    }

    /// A model of `manifests`, oldest first, with `deployed_version` deployed.
    /// There is none where two of the manifests share a version, or where
    /// `deployed_version` is not among their versions.
    pub fn from_parts(manifests: Vec<Manifest>, deployed_version: Option<String>) -> (res: Option<
        Self,
    >)
        ensures
            res is Some <==> (StoredManifestView {
                versions: manifests.deep_view(),
                deployed_version: deployed_version.deep_view(),
            }).wf(),
            res matches Some(model) ==> model@.versions == manifests.deep_view()
                && model@.deployed_version == deployed_version.deep_view(),
    {
        let ghost parts = StoredManifestView {
            versions: manifests.deep_view(),
            deployed_version: deployed_version.deep_view(),
        };
        let n = manifests.len();
        let mut j: usize = 0;
        while j < n
            invariant
                j <= n,
                n == manifests.len(),
                parts.versions == manifests.deep_view(),
                parts.deployed_version == deployed_version.deep_view(),
                forall|a: int, b: int|
                    0 <= a < b < j ==> (#[trigger] parts.versions[a]).version != (
                    #[trigger] parts.versions[b]).version,
            decreases n - j,
        {
            let mut i: usize = 0;
            while i < j
                invariant
                    i <= j < n,
                    n == manifests.len(),
                    parts.versions == manifests.deep_view(),
                    parts.deployed_version == deployed_version.deep_view(),
                    forall|a: int|
                        0 <= a < i ==> (#[trigger] parts.versions[a]).version
                            != parts.versions[j as int].version,
                decreases j - i,
            {
                if manifests[i].version == manifests[j].version {
                    assert(parts.versions[i as int].version == parts.versions[j as int].version);
                    assert(!parts.distinct_versions());
                    return None;
                }
                i += 1;
            }
            j += 1;
        }
        assert(parts.distinct_versions());
        match &deployed_version {
            Some(v) => {
                let mut k: usize = 0;
                let mut found = false;
                while k < n && !found
                    invariant
                        k <= n,
                        n == manifests.len(),
                        parts.versions == manifests.deep_view(),
                        parts.deployed_version == Some(v@),
                    parts.deployed_version == deployed_version.deep_view(),
                        found ==> parts.has_version(v@),
                        !found ==> forall|a: int|
                            0 <= a < k ==> (#[trigger] parts.versions[a]).version != v@,
                    decreases n - k + (if found { 0int } else { 1int }),
                {
                    if manifests[k].version == *v {
                        assert(parts.versions[k as int].version == v@);
                        found = true;
                    } else {
                        k += 1;
                    }
                }
                if !found {
                    return None;
                }
            },
            None => {},
        }
        Some(StoredManifest { manifests, deployed_version })
    }

    /// The manifests, oldest first, and the deployed version.
    pub fn into_parts(self) -> (parts: (Vec<Manifest>, Option<String>))
        ensures
            parts.0.deep_view() == self@.versions,
            parts.1.deep_view() == self@.deployed_version,
    {
        (self.manifests, self.deployed_version)
    }
}

impl Clone for StoredManifest {
    fn clone(&self) -> (res: Self)
        ensures
            res@ == self@,
    {
        proof {
            use_type_invariant(self);
        }
        let manifests = self.manifests.clone();
        let deployed_version = match &self.deployed_version {
            Some(v) => Some(v.clone()),
            None => None,
        };
        assert(manifests.deep_view() =~= self.manifests.deep_view());
        StoredManifest { manifests, deployed_version }
    }
}

impl Default for StoredManifest {
    fn default() -> (res: Self)
        ensures
            res@ == StoredManifestView::empty(),
    {
        StoredManifest::new()
    }
}

/// Deleting a version keeps a stored model well formed.
pub proof fn lemma_delete_version_wf(model: StoredManifestView, v: Seq<char>)
    requires
        model.wf(),
    ensures
        model.delete_version(v).wf(),
{
    if model.has_version(v) {
        let idx = model.index_of(v);
        let after = model.delete_version(v);
        assert forall|i: int, j: int| 0 <= i < j < after.versions.len() implies (
        #[trigger] after.versions[i]).version != (#[trigger] after.versions[j]).version by {
            let oi = if i < idx { i } else { i + 1 };
            let oj = if j < idx { j } else { j + 1 };
            assert(after.versions[i] == model.versions[oi]);
            assert(after.versions[j] == model.versions[oj]);
        }
        if after.deployed_version is Some {
            let w = after.deployed_version->0;
            let k = model.index_of(w);
            assert(k != idx);
            let nk = if k < idx { k } else { k - 1 };
            assert(after.versions[nk] == model.versions[k]);
        }
    }
}

} // verus!
