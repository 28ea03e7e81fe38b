use vstd::prelude::*;

verus! {

/// What a component of a manifest is.
#[derive(Clone, Copy, PartialEq, Eq, Structural, Debug)]
pub enum ComponentKind {
    /// A WebAssembly component.
    Component,
    /// A capability provider.
    Capability,
}

/// A key and a value from the labels or the annotations of a manifest.
#[derive(PartialEq, Eq, Debug)]
pub struct Label {
    pub key: String,
    pub value: String,
}

/// A `Label` as a mathematical value.
pub struct LabelView {
    pub key: Seq<char>,
    pub value: Seq<char>,
}

/// One component of a manifest: what validation and deploy admission read of
/// it.
#[derive(PartialEq, Eq, Debug)]
pub struct Component {
    /// The name, unique within the manifest.
    pub name: String,
    pub kind: ComponentKind,
    /// The identifier, where one was given.
    pub id: Option<String>,
    /// The image reference, of the shape `repository:version`.
    pub image: String,
    /// The targets of the component's link traits, in the order of the traits.
    pub link_targets: Vec<String>,
}

/// A `Component` as a mathematical value.
pub struct ComponentView {
    pub name: Seq<char>,
    pub kind: ComponentKind,
    pub id: Option<Seq<char>>,
    pub image: Seq<char>,
    pub link_targets: Seq<Seq<char>>,
}

/// An application manifest. The fields hold what the rules of this library
/// read; `document` carries the whole manifest as JSON text, which is what
/// the schema is applied to.
#[derive(PartialEq, Eq, Debug)]
pub struct Manifest {
    pub name: String,
    pub version: String,
    pub labels: Vec<Label>,
    pub annotations: Vec<Label>,
    pub components: Vec<Component>,
    pub document: String,
}

/// A `Manifest` as a mathematical value.
pub struct ManifestView {
    pub name: Seq<char>,
    pub version: Seq<char>,
    pub labels: Seq<LabelView>,
    pub annotations: Seq<LabelView>,
    pub components: Seq<ComponentView>,
    pub document: Seq<char>,
}

impl View for Label {
    type V = LabelView;

    open spec fn view(&self) -> LabelView {
        LabelView { key: self.key@, value: self.value@ }
    }
}

impl DeepView for Label {
    type V = LabelView;

    open spec fn deep_view(&self) -> LabelView {
        self@
    }
}

impl View for Component {
    type V = ComponentView;

    open spec fn view(&self) -> ComponentView {
        ComponentView {
            name: self.name@,
            kind: self.kind,
            id: self.id.deep_view(),
            image: self.image@,
            link_targets: self.link_targets.deep_view(),
        }
    }
}

impl DeepView for Component {
    type V = ComponentView;

    open spec fn deep_view(&self) -> ComponentView {
        self@
    }
}

impl View for Manifest {
    type V = ManifestView;

    open spec fn view(&self) -> ManifestView {
        ManifestView {
            name: self.name@,
            version: self.version@,
            labels: self.labels.deep_view(),
            annotations: self.annotations.deep_view(),
            components: self.components.deep_view(),
            document: self.document@,
        }
    }
}

impl DeepView for Manifest {
    type V = ManifestView;

    open spec fn deep_view(&self) -> ManifestView {
        self@
    }
}

impl Clone for Label {
    fn clone(&self) -> (res: Self)
        ensures
            res@ == self@,
    {
        Label { key: self.key.clone(), value: self.value.clone() }
    }
}

impl Clone for Component {
    fn clone(&self) -> (res: Self)
        ensures
            res@ == self@,
    {
        let id = match &self.id {
            Some(id) => Some(id.clone()),
            None => None,
        };
        let link_targets = self.link_targets.clone();
        assert(link_targets.deep_view() =~= self.link_targets.deep_view());
        Component {
            name: self.name.clone(),
            kind: self.kind,
            id,
            image: self.image.clone(),
            link_targets,
        }
    }
}

impl Clone for Manifest {
    fn clone(&self) -> (res: Self)
        ensures
            res@ == self@,
    {
        let labels = self.labels.clone();
        let annotations = self.annotations.clone();
        let components = self.components.clone();
        assert(labels.deep_view() =~= self.labels.deep_view());
        assert(annotations.deep_view() =~= self.annotations.deep_view());
        assert(components.deep_view() =~= self.components.deep_view());
        Manifest {
            name: self.name.clone(),
            version: self.version.clone(),
            labels,
            annotations,
            components,
            document: self.document.clone(),
        }
    }
}

} // verus!
