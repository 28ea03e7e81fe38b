use vstd::prelude::*;
use crate::codec::{debug_list, debug_list_of};
use crate::label::{oam_label_key, valid_oam_label};
use crate::manifest::{Component, ComponentView, Label, LabelView, Manifest, ManifestView};
use crate::schema::{
    findings_view, schema_findings_of, Findings, FindingsView, PathSegment, PathSegmentView,
    Schema,
};
use crate::stored::LATEST_VERSION;
use crate::text::{char_is_alphanumeric, chars_of, decimal, decimal_of, is_alphanumeric};

verus! {

/// Why a manifest is refused.
#[derive(PartialEq, Eq, Debug)]
pub struct ValidationError {
    /// Names the first rule that the manifest breaks.
    pub message: String,
}

/// What is reported where a label of a manifest breaks the grammar.
pub const INVALID_LABELS: &'static str =
    "Condition failed: `manifest.metadata.labels.iter().all(valid_oam_label)`";

/// What is reported where an annotation of a manifest breaks the grammar.
pub const INVALID_ANNOTATIONS: &'static str =
    "Condition failed: `manifest.metadata.annotations.iter().all(valid_oam_label)`";

/// A manifest name: one or more letters, digits, `-` and `_`.
pub open spec fn manifest_name(name: Seq<char>) -> bool {
    &&& name.len() >= 1
    &&& forall|i: int|
        0 <= i < name.len() ==> is_alphanumeric(#[trigger] name[i]) || name[i] == '-' || name[i]
            == '_'
}

/// What speaks against `version` as the version of a manifest: that it is
/// the word that stands for the newest version.
pub open spec fn version_faults(version: Seq<char>) -> Seq<Seq<char>> {
    if version == LATEST_VERSION@ {
        seq!["latest is not allowed in wadm"@]
    } else {
        Seq::empty()
    }
}

/// How one segment of a path is written in a report.
pub open spec fn segment_text(segment: PathSegmentView) -> Seq<char> {
    match segment {
        PathSegmentView::Property(name) => name,
        PathSegmentView::Index(index) => " at index: "@ + decimal_of(index),
        PathSegmentView::Keyword(word) => word,
    }
}

/// How a path is written in a report: its segments with `/` between them.
pub open spec fn path_text(path: Seq<PathSegmentView>) -> Seq<char>
    decreases path.len(),
{
    if path.len() == 0 {
        Seq::empty()
    } else if path.len() == 1 {
        segment_text(path[0])
    } else {
        path_text(path.drop_last()) + "/"@ + segment_text(path.last())
    }
}

/// One line of the report for each path.
pub open spec fn findings_text(paths: Seq<Seq<PathSegmentView>>) -> Seq<char>
    decreases paths.len(),
{
    if paths.len() == 0 {
        Seq::empty()
    } else {
        findings_text(paths.drop_last()) + "Should be able to parse object at: "@ + path_text(
            paths.last(),
        ) + " \n"@
    }
}

/// The report on a document that violates the schema at `paths`.
pub open spec fn msg_schema(paths: Seq<Seq<PathSegmentView>>) -> Seq<char> {
    "Validation Error: \n"@ + findings_text(paths)
        + "Please check for missing or incorrect elements"@
}

/// That two components have the name `name`.
pub open spec fn msg_duplicate_name(name: Seq<char>) -> Seq<char> {
    "Duplicate component name in manifest: "@ + name
}

/// That two components have the identifier `id`.
pub open spec fn msg_duplicate_id(id: Seq<char>) -> Seq<char> {
    "Duplicate component identifier in manifest: "@ + id
}

/// That the component `name` has two links to `target`.
pub open spec fn msg_duplicate_target(target: Seq<char>, name: Seq<char>) -> Seq<char> {
    "Duplicate target "@ + target + " for component "@ + name + " linkdef trait in manifest"@
}

/// That the manifest has no components named `missing`, which links aim at.
pub open spec fn msg_missing(missing: Seq<Seq<char>>) -> Seq<char> {
    "The following capability component(s) are missing from the manifest:  "@ + debug_list_of(
        missing,
    )
}

/// Every key among `labels` is a label key.
pub open spec fn labels_valid(labels: Seq<LabelView>) -> bool {
    forall|i: int| 0 <= i < labels.len() ==> oam_label_key((#[trigger] labels[i]).key)
}

/// One of the first `upto` components has the name `name`.
pub open spec fn has_name(components: Seq<ComponentView>, upto: int, name: Seq<char>) -> bool {
    exists|k: int|
        0 <= k < upto && k < components.len() && (#[trigger] components[k]).name == name
}

/// One of the first `upto` components has the identifier `id`.
pub open spec fn has_id(components: Seq<ComponentView>, upto: int, id: Seq<char>) -> bool {
    exists|k: int|
        0 <= k < upto && k < components.len() && (#[trigger] components[k]).id == Some(id)
}

/// One of the first `upto` of `items` is `item`.
pub open spec fn occurs(items: Seq<Seq<char>>, upto: int, item: Seq<char>) -> bool {
    exists|k: int| 0 <= k < upto && k < items.len() && #[trigger] items[k] == item
}

/// The first of `targets` from `start` on that occurred before.
pub open spec fn duplicate_target_from(targets: Seq<Seq<char>>, start: int) -> Option<Seq<char>>
    decreases targets.len() - start,
{
    if start < 0 || start >= targets.len() {
        None
    } else if occurs(targets, start, targets[start]) {
        Some(targets[start])
    } else {
        duplicate_target_from(targets, start + 1)
    }
}

/// What the component at `i` breaks: its name or its identifier is that of
/// an earlier component, or two of its links have the same target.
pub open spec fn component_error(components: Seq<ComponentView>, i: int) -> Option<Seq<char>> {
    let c = components[i];
    if has_name(components, i, c.name) {
        Some(msg_duplicate_name(c.name))
    } else if c.id is Some && has_id(components, i, c.id->0) {
        Some(msg_duplicate_id(c.id->0))
    } else {
        match duplicate_target_from(c.link_targets, 0) {
            Some(target) => Some(msg_duplicate_target(target, c.name)),
            None => None,
        }
    }
}

/// What the first component from `start` on that breaks a rule breaks.
pub open spec fn component_error_from(components: Seq<ComponentView>, start: int) -> Option<
    Seq<char>,
>
    decreases components.len() - start,
{
    if start < 0 || start >= components.len() {
        None
    } else {
        match component_error(components, start) {
            Some(message) => Some(message),
            None => component_error_from(components, start + 1),
        }
    }
}

/// The targets of all links of `components`, in their order.
pub open spec fn all_targets(components: Seq<ComponentView>) -> Seq<Seq<char>>
    decreases components.len(),
{
    if components.len() == 0 {
        Seq::empty()
    } else {
        all_targets(components.drop_last()) + components.last().link_targets
    }
}

/// Those of `targets` that are not the name of one of `components`, each
/// once, in the order in which they first occur.
pub open spec fn missing_among(targets: Seq<Seq<char>>, components: Seq<ComponentView>) -> Seq<
    Seq<char>,
>
    decreases targets.len(),
{
    if targets.len() == 0 {
        Seq::empty()
    } else {
        let before = missing_among(targets.drop_last(), components);
        let target = targets.last();
        if has_name(components, components.len() as int, target) || occurs(
            before,
            before.len() as int,
            target,
        ) {
            before
        } else {
            before.push(target)
        }
    }
}

/// The link targets of the manifest that none of its components is named
/// after.
pub open spec fn missing_targets(components: Seq<ComponentView>) -> Seq<Seq<char>> {
    missing_among(all_targets(components), components)
}

/// What the manifest `m` breaks, given what the schema finds in its
/// document; nothing where the manifest is valid. The rules, in this order:
/// the document is JSON and meets the schema; the keys of labels and of
/// annotations are label keys; no component repeats the name or the
/// identifier of an earlier one, or has two links to one target; every link
/// target is the name of a component.
pub open spec fn validation_error(m: ManifestView, findings: FindingsView) -> Option<Seq<char>> {
    match findings {
        Err(reason) => Some(reason),
        Ok(paths) => if paths.len() > 0 {
            Some(msg_schema(paths))
        } else if !labels_valid(m.labels) {
            Some(INVALID_LABELS@)
        } else if !labels_valid(m.annotations) {
            Some(INVALID_ANNOTATIONS@)
        } else {
            match component_error_from(m.components, 0) {
                Some(message) => Some(message),
                None => if missing_targets(m.components).len() > 0 {
                    Some(msg_missing(missing_targets(m.components)))
                } else {
                    None
                },
            }
        },
    }
}

/// `res` is the verdict on the manifest `m` under the schema with the text
/// `schema`: no error where the manifest is valid, and else the error that
/// names what it breaks.
pub open spec fn is_verdict(schema: Seq<char>, m: ManifestView, res: Result<(), ValidationError>) -> bool {
    match res {
        Ok(_) => validation_error(m, schema_findings_of(schema, m.document)) is None,
        Err(e) => validation_error(m, schema_findings_of(schema, m.document)) == Some(e.message@),
    }
}

/// Calls `validate_manifest_version` of `wadm_types::validation` and hands
/// out the messages of the errors it reports. The contract says what the
/// function's source shows: one error, which says that the version must not
/// be `latest`, where the version is `latest`, and none else.
#[verifier::external_body]
pub(crate) fn version_errors(version: &str) -> (res: Vec<String>)
    ensures
        res.deep_view() == version_faults(version@),
{
    let output = wadm_types::validation::validate_manifest_version(version);
    wadm_types::validation::ValidationOutput::errors(&output).into_iter().map(
        |failure| failure.msg.clone(),
    ).collect()
}

/// Tests `name` against the grammar of manifest names.
pub fn is_valid_manifest_name(name: &str) -> (ok: bool)
    ensures
        ok == manifest_name(name@),
{
    let cs = chars_of(name);
    if cs.len() == 0 {
        return false;
    }
    let mut i: usize = 0;
    while i < cs.len()
        invariant
            i <= cs.len(),
            cs@ == name@,
            cs.len() >= 1,
            forall|k: int|
                0 <= k < i ==> is_alphanumeric(#[trigger] cs@[k]) || cs@[k] == '-' || cs@[k]
                    == '_',
        decreases cs.len() - i,
    {
        let c = cs[i];
        if !(char_is_alphanumeric(c) || c == '-' || c == '_') {
            return false;
        }
        i += 1;
    }
    true
}

/// Writes `path_text`.
fn write_path(path: &Vec<PathSegment>) -> (res: String)
    ensures
        res@ == path_text(path.deep_view()),
{
    let ghost all = path.deep_view();
    let mut out = String::new();
    let mut i: usize = 0;
    assert(all.take(0) =~= Seq::empty());
    while i < path.len()
        invariant
            i <= path.len(),
            all == path.deep_view(),
            out@ == path_text(all.take(i as int)),
        decreases path.len() - i,
    {
        assert(all.take(i + 1).drop_last() =~= all.take(i as int));
        assert(all.take(i + 1).last() == path[i as int]@);
        let ghost before = out@;
        if i > 0 {
            out.append("/");
        } else {
            assert(all.take(1)[0] == path[0]@);
        }
        let ghost mid = out@;
        match &path[i] {
            PathSegment::Property(name) => {
                out.append(name.as_str());
            },
            PathSegment::Index(index) => {
                out.append(" at index: ");
                out.append(decimal(*index).as_str());
                assert(out@ =~= mid + (" at index: "@ + decimal_of(*index as nat)));
            },
            PathSegment::Keyword(word) => {
                out.append(word.as_str());
            },
        }
        assert(out@ == mid + segment_text(path[i as int]@));
        assert(Seq::<char>::empty() + segment_text(path[i as int]@) =~= segment_text(
            path[i as int]@,
        ));
        i += 1;
    }
    assert(all.take(i as int) =~= all);
    out
}

/// Writes `msg_schema`.
fn write_findings(paths: &Vec<Vec<PathSegment>>) -> (res: String)
    ensures
        res@ == msg_schema(paths.deep_view()),
{
    let ghost all = paths.deep_view();
    let mut lines = String::new();
    let mut i: usize = 0;
    assert(all.take(0) =~= Seq::empty());
    while i < paths.len()
        invariant
            i <= paths.len(),
            all == paths.deep_view(),
            lines@ == findings_text(all.take(i as int)),
        decreases paths.len() - i,
    {
        assert(all.take(i + 1).drop_last() =~= all.take(i as int));
        assert(all.take(i + 1).last() == paths[i as int].deep_view());
        lines.append("Should be able to parse object at: ");
        lines.append(write_path(&paths[i]).as_str());
        lines.append(" \n");
        i += 1;
    }
    assert(all.take(i as int) =~= all);
    let mut out = String::from_str("Validation Error: \n");
    out.append(lines.as_str());
    out.append("Please check for missing or incorrect elements");
    out
}

/// Tests the keys of `labels` against the grammar of label keys.
fn check_labels(labels: &Vec<Label>) -> (ok: bool)
    ensures
        ok == labels_valid(labels.deep_view()),
{
    let mut i: usize = 0;
    while i < labels.len()
        invariant
            i <= labels.len(),
            forall|k: int| 0 <= k < i ==> oam_label_key((#[trigger] labels.deep_view()[k]).key),
        decreases labels.len() - i,
    {
        if !valid_oam_label((&labels[i].key, &labels[i].value)) {
            assert(!oam_label_key(labels.deep_view()[i as int].key));
            return false;
        }
        i += 1;
    }
    true
}

/// Whether one of the first `upto` components has the name `name`.
fn name_taken(components: &Vec<Component>, upto: usize, name: &String) -> (res: bool)
    requires
        upto <= components.len(),
    ensures
        res == has_name(components.deep_view(), upto as int, name@),
{
    let mut k: usize = 0;
    while k < upto
        invariant
            k <= upto <= components.len(),
            !has_name(components.deep_view(), k as int, name@),
        decreases upto - k,
    {
        if components[k].name == *name {
            assert(components.deep_view()[k as int].name == name@);
            return true;
        }
        k += 1;
    }
    false
}

/// Whether one of the first `upto` components has the identifier `id`.
fn id_taken(components: &Vec<Component>, upto: usize, id: &String) -> (res: bool)
    requires
        upto <= components.len(),
    ensures
        res == has_id(components.deep_view(), upto as int, id@),
{
    let mut k: usize = 0;
    while k < upto
        invariant
            k <= upto <= components.len(),
            !has_id(components.deep_view(), k as int, id@),
        decreases upto - k,
    {
        match &components[k].id {
            Some(other) => {
                if *other == *id {
                    assert(components.deep_view()[k as int].id == Some(id@));
                    return true;
                }
            },
            None => {},
        }
        k += 1;
    }
    false
}

/// Whether one of the first `upto` of `items` is `item`.
fn text_occurs(items: &Vec<String>, upto: usize, item: &String) -> (res: bool)
    requires
        upto <= items.len(),
    ensures
        res == occurs(items.deep_view(), upto as int, item@),
{
    let mut k: usize = 0;
    while k < upto
        invariant
            k <= upto <= items.len(),
            !occurs(items.deep_view(), k as int, item@),
        decreases upto - k,
    {
        if items[k] == *item {
            assert(items.deep_view()[k as int] == item@);
            return true;
        }
        k += 1;
    }
    false
}

/// Finds the first of `targets` that occurred before.
fn duplicate_target(targets: &Vec<String>) -> (res: Option<&String>)
    ensures
        res.deep_view() == duplicate_target_from(targets.deep_view(), 0),
{
    let mut j: usize = 0;
    while j < targets.len()
        invariant
            j <= targets.len(),
            duplicate_target_from(targets.deep_view(), 0) == duplicate_target_from(
                targets.deep_view(),
                j as int,
            ),
        decreases targets.len() - j,
    {
        if text_occurs(targets, j, &targets[j]) {
            return Some(&targets[j]);
        }
        j += 1;
    }
    None
}

/// Finds what the component at `i` breaks.
fn check_component(components: &Vec<Component>, i: usize) -> (res: Option<String>)
    requires
        i < components.len(),
    ensures
        res.deep_view() == component_error(components.deep_view(), i as int),
{
    let c = &components[i];
    assert(components.deep_view()[i as int] == c@);
    if name_taken(components, i, &c.name) {
        let mut message = String::from_str("Duplicate component name in manifest: ");
        message.append(c.name.as_str());
        return Some(message);
    }
    match &c.id {
        Some(id) => {
            if id_taken(components, i, id) {
                let mut message = String::from_str("Duplicate component identifier in manifest: ");
                message.append(id.as_str());
                return Some(message);
            }
        },
        None => {},
    }
    match duplicate_target(&c.link_targets) {
        Some(target) => {
            let mut message = String::from_str("Duplicate target ");
            message.append(target.as_str());
            message.append(" for component ");
            message.append(c.name.as_str());
            message.append(" linkdef trait in manifest");
            Some(message)
        },
        None => None,
    }
}

/// Finds what the first component that breaks a rule breaks.
fn check_components(components: &Vec<Component>) -> (res: Option<String>)
    ensures
        res.deep_view() == component_error_from(components.deep_view(), 0),
{
    let mut i: usize = 0;
    while i < components.len()
        invariant
            i <= components.len(),
            component_error_from(components.deep_view(), 0) == component_error_from(
                components.deep_view(),
                i as int,
            ),
        decreases components.len() - i,
    {
        match check_component(components, i) {
            Some(message) => {
                return Some(message);
            },
            None => {},
        }
        i += 1;
    }
    None
}

/// Collects the targets of all links of `components`.
fn collect_targets(components: &Vec<Component>) -> (res: Vec<String>)
    ensures
        res.deep_view() == all_targets(components.deep_view()),
{
    let ghost all = components.deep_view();
    let mut out: Vec<String> = Vec::new();
    let mut i: usize = 0;
    assert(all.take(0) =~= Seq::empty());
    assert(out.deep_view() =~= Seq::empty());
    while i < components.len()
        invariant
            i <= components.len(),
            all == components.deep_view(),
            out.deep_view() == all_targets(all.take(i as int)),
        decreases components.len() - i,
    {
        assert(all.take(i + 1).drop_last() =~= all.take(i as int));
        assert(all.take(i + 1).last() == components[i as int]@);
        let targets = &components[i].link_targets;
        let ghost base = out.deep_view();
        let mut j: usize = 0;
        assert(out.deep_view() =~= base + targets.deep_view().take(0));
        while j < targets.len()
            invariant
                j <= targets.len(),
                out.deep_view() == base + targets.deep_view().take(j as int),
            decreases targets.len() - j,
        {
            let ghost before = out.deep_view();
            out.push(targets[j].clone());
            assert(out.deep_view() =~= before.push(targets[j as int]@));
            assert(before.push(targets[j as int]@) =~= base + targets.deep_view().take(j + 1));
            j += 1;
        }
        assert(targets.deep_view().take(j as int) =~= targets.deep_view());
        i += 1;
    }
    assert(all.take(i as int) =~= all);
    out
}

/// Collects the link targets that no component is named after.
fn collect_missing(components: &Vec<Component>) -> (res: Vec<String>)
    ensures
        res.deep_view() == missing_targets(components.deep_view()),
{
    let targets = collect_targets(components);
    let ghost all = targets.deep_view();
    let mut out: Vec<String> = Vec::new();
    let mut i: usize = 0;
    assert(all.take(0) =~= Seq::empty());
    assert(out.deep_view() =~= Seq::empty());
    while i < targets.len()
        invariant
            i <= targets.len(),
            all == targets.deep_view(),
            out.deep_view() == missing_among(all.take(i as int), components.deep_view()),
        decreases targets.len() - i,
    {
        assert(all.take(i + 1).drop_last() =~= all.take(i as int));
        assert(all.take(i + 1).last() == targets[i as int]@);
        let ghost before = out.deep_view();
        let known = name_taken(components, components.len(), &targets[i]);
        if !known && !text_occurs(&out, out.len(), &targets[i]) {
            out.push(targets[i].clone());
            assert(out.deep_view() =~= before.push(targets[i as int]@));
        }
        i += 1;
    }
    assert(all.take(i as int) =~= all);
    out
}

/// Judges `manifest` by its fields and by `findings`, which is what the
/// schema found in its document.
pub fn check_manifest(manifest: &Manifest, findings: Findings) -> (res: Result<(), ValidationError>)
    ensures
        match res {
            Ok(_) => validation_error(manifest@, findings_view(findings)) is None,
            Err(e) => validation_error(manifest@, findings_view(findings)) == Some(e.message@),
        },
{
    let paths = match findings {
        Ok(paths) => paths,
        Err(reason) => {
            return Err(ValidationError { message: reason });
        },
    };
    if paths.len() > 0 {
        return Err(ValidationError { message: write_findings(&paths) });
    }
    if !check_labels(&manifest.labels) {
        return Err(ValidationError { message: String::from_str(INVALID_LABELS) });
    }
    if !check_labels(&manifest.annotations) {
        return Err(ValidationError { message: String::from_str(INVALID_ANNOTATIONS) });
    }
    match check_components(&manifest.components) {
        Some(message) => {
            return Err(ValidationError { message });
        },
        None => {},
    }
    let missing = collect_missing(&manifest.components);
    if missing.len() > 0 {
        let mut message = String::from_str(
            "The following capability component(s) are missing from the manifest:  ",
        );
        message.append(debug_list(&missing).as_str());
        return Err(ValidationError { message });
    }
    Ok(())
}

/// Validates `manifest`: applies `schema` to its document, then the rules on
/// labels, component names, identifiers and links. The error names the first
/// rule that the manifest breaks.
pub fn validate_manifest(schema: &Schema, manifest: &Manifest) -> (res: Result<(), ValidationError>)
    ensures
        is_verdict(schema@, manifest@, res),
{
    check_manifest(manifest, schema.findings(manifest.document.as_str()))
}

} // verus!
