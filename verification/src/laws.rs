use vstd::prelude::*;
use crate::api::{error_reply, ActionView, DeployResult, EventView, GetResult, ReplyView};
use crate::deploy::{
    capability_refs, component_conflict, conflict_from, deploy_admit, deploy_reply, deploy_step,
    lookup_ref, msg_conflict, msg_no_version, peer_refs, DeployStateView, ProviderRefView,
};
use crate::image::image_ref;
use crate::manifest::{ComponentKind, ComponentView};
use crate::put::put_step;
use crate::validation::manifest_name;
use crate::get::{get_fetched, get_reply, msg_fetched_version, msg_no_such_version, version_infos};
use crate::manifest::ManifestView;
use crate::put::{msg_version_exists, put_checked, PutStateView};
use crate::stored::{lemma_delete_version_wf, StoredManifestView};
use crate::undeploy::{msg_already_undeployed, undeploy_step, UndeployStateView};
use crate::validation::{is_verdict, ValidationError};

verus! {

/// Whatever is done to a stored model, its versions stay pairwise distinct
/// and its deployed version stays one of them.
pub proof fn law_operations_keep_models_well_formed(
    model: StoredManifestView,
    manifest: ManifestView,
    version: Seq<char>,
    requested: Option<Seq<char>>,
)
    requires
        model.wf(),
    ensures
        StoredManifestView::empty().wf(),
        model.add_version(manifest).wf(),
        model.delete_version(version).wf(),
        model.deploy(requested).wf(),
        model.undeploy().wf(),
{
    lemma_delete_version_wf(model, version);
    if model.can_deploy(requested) {
        let deployed = model.deploy(requested);
        let v = model.deploy_target(requested)->0;
        let i = model.index_of(v);
        assert(deployed.versions[i].version == v);
    }
    let added = model.add_version(manifest);
    if !model.has_version(manifest.version) {
        if added.deployed_version is Some {
            let v = added.deployed_version->0;
            let i = model.index_of(v);
            assert(added.versions[i].version == v);
        }
    }
}

/// The manifests of a model keep one name: that of the model. Adding a
/// manifest of that name keeps it so, and so does every other operation.
pub proof fn law_operations_keep_the_name(
    model: StoredManifestView,
    name: Seq<char>,
    manifest: ManifestView,
    version: Seq<char>,
    requested: Option<Seq<char>>,
)
    requires
        model.named(name),
        manifest.name == name,
    ensures
        StoredManifestView::empty().named(name),
        model.add_version(manifest).named(name),
        model.delete_version(version).named(name),
        model.deploy(requested).named(name),
        model.undeploy().named(name),
        model.versions.len() > 0 ==> model.name() == name,
{
    if model.has_version(version) {
        let idx = model.index_of(version);
        let after = model.delete_version(version);
        assert forall|i: int| 0 <= i < after.versions.len() implies (
        #[trigger] after.versions[i]).name == name by {
            let oi = if i < idx {
                i
            } else {
                i + 1
            };
            assert(after.versions[i] == model.versions[oi]);
        }
    }
}

/// A model holds what was put: after a manifest was added as a new version,
/// asking for its version gives this manifest.
pub proof fn law_put_then_get(model: StoredManifestView, manifest: ManifestView)
    requires
        model.wf(),
        !model.has_version(manifest.version),
    ensures
        model.add_version(manifest).get_version(manifest.version) == Some(manifest),
{
    let added = model.add_version(manifest);
    law_operations_keep_models_well_formed(model, manifest, manifest.version, None);
    let last = model.versions.len() as int;
    assert(added.versions[last].version == manifest.version);
    let i = added.index_of(manifest.version);
    assert(i == last);
}

/// Putting a manifest a second time changes nothing: the model has its
/// version already.
pub proof fn law_put_is_idempotent(model: StoredManifestView, manifest: ManifestView)
    ensures
        model.add_version(manifest).has_version(manifest.version),
        model.add_version(manifest).add_version(manifest) == model.add_version(manifest),
{
    if !model.has_version(manifest.version) {
        let added = model.add_version(manifest);
        assert(added.versions[model.versions.len() as int].version == manifest.version);
    }
}

/// A put request for a version that the model has is refused, and the model
/// is not written: so a put request that is repeated after it was carried
/// out is refused.
pub proof fn law_repeated_put_is_refused(
    manifest: ManifestView,
    model: StoredManifestView,
    later: u64,
)
    ensures
        put_checked(manifest, model.add_version(manifest), later, None) == (
            PutStateView::Done,
            error_reply(msg_version_exists(manifest.version)),
        ),
{
    law_put_is_idempotent(model, manifest);
}

/// A version that was deleted is gone.
pub proof fn law_delete_then_get(model: StoredManifestView, version: Seq<char>)
    requires
        model.wf(),
    ensures
        !model.delete_version(version).has_version(version),
        model.delete_version(version).get_version(version) is None,
{
    let after = model.delete_version(version);
    if model.has_version(version) {
        let idx = model.index_of(version);
        if after.has_version(version) {
            let j = after.index_of(version);
            let oj = if j < idx {
                j
            } else {
                j + 1
            };
            assert(after.versions[j] == model.versions[oj]);
            assert(model.versions[oj].version == model.versions[idx].version);
            assert(false);
        }
    }
}

/// A get request for a version that was deleted is answered with "not
/// found".
pub proof fn law_get_after_delete_is_not_found(
    name: Seq<char>,
    model: StoredManifestView,
    version: Seq<char>,
)
    requires
        model.wf(),
    ensures
        get_fetched(name, Some(version), model.delete_version(version)) == get_reply(
            GetResult::NotFound,
            msg_no_such_version(name, version),
            None,
        ),
{
    law_delete_then_get(model, version);
}

/// After the deployed version was deleted, the listing of the versions marks
/// none of those that remain as deployed.
pub proof fn law_delete_of_deployed_undeploys(model: StoredManifestView, version: Seq<char>)
    requires
        model.wf(),
        model.deployed_version == Some(version),
    ensures
        model.delete_version(version).deployed_version is None,
        forall|i: int|
            0 <= i < version_infos(model.delete_version(version)).len() ==> !(
            #[trigger] version_infos(model.delete_version(version))[i]).deployed,
{
}

/// A manifest that was put and then deleted is gone.
pub proof fn law_put_delete_get(model: StoredManifestView, manifest: ManifestView)
    requires
        model.wf(),
    ensures
        model.add_version(manifest).delete_version(manifest.version).get_version(
            manifest.version,
        ) is None,
{
    law_operations_keep_models_well_formed(model, manifest, manifest.version, None);
    law_delete_then_get(model.add_version(manifest), manifest.version);
}

/// A deploy request for a version that the model has not changes nothing:
/// the model stays as it is, and the request is refused without writing it.
pub proof fn law_deploy_of_absent_version_changes_nothing(
    name: Seq<char>,
    model: StoredManifestView,
    requested: Option<Seq<char>>,
    revision: u64,
    refs: Seq<ProviderRefView>,
)
    requires
        !model.can_deploy(requested),
    ensures
        model.deploy(requested) == model,
        deploy_admit(name, requested, model, revision, refs) == (
            DeployStateView::Done,
            deploy_reply(DeployResult::Error, msg_no_version(name)),
        ),
{
}

/// Deploying a version twice is deploying it once: the second deploy can be
/// met and leaves the model as the first left it.
pub proof fn law_deploy_twice(model: StoredManifestView, requested: Option<Seq<char>>)
    requires
        model.can_deploy(requested),
    ensures
        model.deploy(requested).can_deploy(requested),
        model.deploy(requested).deploy(requested) == model.deploy(requested),
{
    let once = model.deploy(requested);
    assert(once.versions == model.versions);
    assert(once.deploy_target(requested) == model.deploy_target(requested));
    let v = model.deploy_target(requested)->0;
    let i = model.index_of(v);
    assert(once.versions[i].version == v);
}

/// An undeploy leaves no version deployed, and a second undeploy changes
/// nothing.
pub proof fn law_undeploy_twice(model: StoredManifestView)
    ensures
        model.undeploy().deployed_version is None,
        model.undeploy().undeploy() == model.undeploy(),
{
}

/// An undeploy request for a model that has no version deployed still tells
/// the reconcilers, and its reply will say that the model was undeployed
/// already: so does every undeploy request that follows another.
pub proof fn law_repeated_undeploy_notifies(name: Seq<char>, model: StoredManifestView, revision: u64)
    ensures
        undeploy_step(
            name,
            UndeployStateView::AwaitModel,
            EventView::Fetched { model: model.undeploy(), revision },
        ) == (
            UndeployStateView::AwaitNotify { message: msg_already_undeployed(name) },
            ActionView::NotifyUndeployed { name },
        ),
{
}

/// The versions are listed in the order in which they were put: a manifest
/// that is taken comes last, and one that is refused changes nothing.
pub proof fn law_versions_in_order_of_puts(model: StoredManifestView, manifest: ManifestView)
    ensures
        model.has_version(manifest.version) ==> model.add_version(manifest).version_strings()
            == model.version_strings(),
        !model.has_version(manifest.version) ==> model.add_version(manifest).version_strings()
            == model.version_strings().push(manifest.version),
{
    if !model.has_version(manifest.version) {
        assert(model.add_version(manifest).version_strings() =~= model.version_strings().push(
            manifest.version,
        ));
    }
}

/// A get request for a version that was just put is answered with the
/// manifest that was put.
pub proof fn law_get_after_put(name: Seq<char>, model: StoredManifestView, manifest: ManifestView)
    requires
        model.wf(),
        !model.has_version(manifest.version),
    ensures
        get_fetched(name, Some(manifest.version), model.add_version(manifest)) == get_reply(
            GetResult::Success,
            msg_fetched_version(name, manifest.version),
            Some(manifest),
        ),
{
    law_put_then_get(model, manifest);
}

/// A deploy request that is repeated after it was carried out is admitted
/// again, beside the same provider images, and writes the model as the first
/// left it.
pub proof fn law_repeated_deploy_is_admitted(
    name: Seq<char>,
    model: StoredManifestView,
    requested: Option<Seq<char>>,
    revision: u64,
    later: u64,
    refs: Seq<ProviderRefView>,
)
    requires
        model.wf(),
        deploy_admit(name, requested, model, revision, refs).1 is Store,
    ensures
        deploy_admit(name, requested, model.deploy(requested), later, refs) == (
            deploy_admit(name, requested, model, revision, refs).0,
            ActionView::Store { model: model.deploy(requested), revision: later },
        ),
{
    law_deploy_twice(model, requested);
    let once = model.deploy(requested);
    let v = model.deploy_target(requested)->0;
    assert(once.versions == model.versions);
    assert(once.has_version(v) == model.has_version(v));
    assert(once.index_of(v) == model.index_of(v));
}

/// Validation is a function of the schema and the manifest: two verdicts on
/// one manifest agree, in whether it is valid and in the error.
pub proof fn law_validation_is_a_function(
    schema: Seq<char>,
    manifest: ManifestView,
    first: Result<(), ValidationError>,
    second: Result<(), ValidationError>,
)
    requires
        is_verdict(schema, manifest, first),
        is_verdict(schema, manifest, second),
    ensures
        first is Ok <==> second is Ok,
        first is Err ==> first->Err_0.message@ == second->Err_0.message@,
{
}

/// A put request reads the model under the manifest's own name, and only
/// where that is a manifest name: a manifest whose name has white space
/// around it does not come that far.
pub proof fn law_put_reads_the_model_of_the_manifest(
    schema: Result<Seq<char>, Seq<char>>,
    manifest: ManifestView,
)
    ensures
        put_step(schema, PutStateView::Start, EventView::Manifest { manifest }).1 matches ActionView::Fetch {
            name,
        } ==> name == manifest.name && manifest_name(manifest.name) && put_step(
            schema,
            PutStateView::Start,
            EventView::Manifest { manifest },
        ).0 == (PutStateView::AwaitModel { manifest }),
{
}

/// The model that a put request writes carries one name, that of the
/// manifest, and is well formed, where the model that was read under that
/// name is so; where none was read, it holds the manifest alone.
pub proof fn law_put_stores_one_name(
    schema: Result<Seq<char>, Seq<char>>,
    manifest: ManifestView,
    model: StoredManifestView,
    revision: u64,
)
    requires
        model.wf(),
        model.named(manifest.name),
    ensures
        put_step(
            schema,
            PutStateView::AwaitModel { manifest },
            EventView::Fetched { model, revision },
        ).1 matches ActionView::Store { model: stored, .. } ==> stored.wf() && stored.named(
            manifest.name,
        ) && stored.name() == manifest.name,
        put_step(schema, PutStateView::AwaitModel { manifest }, EventView::Absent).1 matches ActionView::Store {
            model: stored,
            ..
        } ==> stored.versions == seq![manifest],
{
    law_operations_keep_models_well_formed(model, manifest, manifest.version, None);
    law_operations_keep_the_name(model, manifest.name, manifest, manifest.version, None);
    let empty = StoredManifestView::empty();
    assert(!empty.has_version(manifest.version));
    assert(empty.add_version(manifest).versions =~= seq![manifest]);
    if !model.has_version(manifest.version) {
        let stored = model.add_version(manifest);
        assert(stored.versions.len() > 0);
    }
}

/// Every capability whose image has a repository and a version becomes an
/// entry with that repository, that version and the source.
pub proof fn law_capabilities_become_entries(
    components: Seq<ComponentView>,
    source: Seq<char>,
    j: int,
    repository: Seq<char>,
    version: Seq<char>,
)
    requires
        0 <= j < components.len(),
        components[j].kind == ComponentKind::Capability,
        image_ref(components[j].image) == Some((repository, version)),
    ensures
        capability_refs(components, source).contains(
            ProviderRefView { repository, version, source },
        ),
    decreases components.len(),
{
    let entry = ProviderRefView { repository, version, source };
    let before = capability_refs(components.drop_last(), source);
    let all = capability_refs(components, source);
    if j == components.len() - 1 {
        assert(all == before.push(entry));
        assert(all[before.len() as int] == entry);
    } else {
        assert(components.drop_last()[j] == components[j]);
        law_capabilities_become_entries(components.drop_last(), source, j, repository, version);
        let at = choose|at: int| 0 <= at < before.len() && before[at] == entry;
        assert(all[at] == entry);
    }
}

/// A deployed model of another name contributes the capabilities of its
/// deployed manifest, under its own name, to the admission of a deploy.
pub proof fn law_peers_contribute_their_capabilities(
    peer: StoredManifestView,
    name: Seq<char>,
    j: int,
    repository: Seq<char>,
    version: Seq<char>,
)
    requires
        peer.name() != name,
        peer.get_deployed() is Some,
        0 <= j < peer.get_deployed()->0.components.len(),
        peer.get_deployed()->0.components[j].kind == ComponentKind::Capability,
        image_ref(peer.get_deployed()->0.components[j].image) == Some((repository, version)),
    ensures
        peer_refs(peer, name).contains(
            ProviderRefView { repository, version, source: peer.name() },
        ),
{
    law_capabilities_become_entries(
        peer.get_deployed()->0.components,
        peer.name(),
        j,
        repository,
        version,
    );
}

/// The model that is to be deployed contributes nothing itself: its own
/// deployed version is no obstacle to deploying another.
pub proof fn law_own_versions_are_no_obstacle(model: StoredManifestView, name: Seq<char>)
    requires
        model.name() == name,
    ensures
        peer_refs(model, name) == Seq::<ProviderRefView>::empty(),
{
}

/// The entry for a repository is the last one: an entry after which no
/// other has its repository is the one that is found.
pub proof fn law_lookup_finds_the_last(refs: Seq<ProviderRefView>, j: int)
    requires
        0 <= j < refs.len(),
        forall|k: int| j < k < refs.len() ==> (#[trigger] refs[k]).repository != refs[j].repository,
    ensures
        lookup_ref(refs, refs[j].repository) == Some(refs[j]),
    decreases refs.len(),
{
    if j < refs.len() - 1 {
        let shorter = refs.drop_last();
        assert(refs.last() == refs[refs.len() - 1]);
        assert(shorter[j] == refs[j]);
        assert forall|k: int| j < k < shorter.len() implies (#[trigger] shorter[k]).repository
            != shorter[j].repository by {
            assert(shorter[k] == refs[k]);
        }
        law_lookup_finds_the_last(shorter, j);
    }
}

/// A capability conflicts with the deployed providers exactly as its image
/// says: where the entry for its repository has another version, the
/// conflict names the image and the model that the entry came from.
pub proof fn law_conflict_names_the_source(
    c: ComponentView,
    repository: Seq<char>,
    version: Seq<char>,
    refs: Seq<ProviderRefView>,
    existing: ProviderRefView,
)
    requires
        c.kind == ComponentKind::Capability,
        image_ref(c.image) == Some((repository, version)),
        lookup_ref(refs, repository) == Some(existing),
    ensures
        existing.version != version ==> component_conflict(c, refs) == Some(
            msg_conflict(c.image, existing.source),
        ),
        existing.version == version ==> component_conflict(c, refs) is None,
{
}

/// The conflict that is reported is that of the first component that has
/// one.
pub proof fn law_first_conflict_is_reported(
    components: Seq<ComponentView>,
    refs: Seq<ProviderRefView>,
    start: int,
    i: int,
)
    requires
        0 <= start <= i < components.len(),
        component_conflict(components[i], refs) is Some,
    ensures
        conflict_from(components, refs, start) is Some,
        (forall|k: int| start <= k < i ==> component_conflict(#[trigger] components[k], refs) is None)
            ==> conflict_from(components, refs, start) == component_conflict(components[i], refs),
    decreases i - start,
{
    if start < i && component_conflict(components[start], refs) is None {
        law_first_conflict_is_reported(components, refs, start + 1, i);
    }
}

/// A deploy is refused where any component of the manifest conflicts with a
/// deployed provider of another model: the reply is an error, the model is
/// not written and the reconcilers are not told, and the request is done.
/// Where the component is the first with a conflict, the reply says that
/// conflict.
pub proof fn law_conflict_refuses_deploy(
    name: Seq<char>,
    requested: Option<Seq<char>>,
    model: StoredManifestView,
    revision: u64,
    refs: Seq<ProviderRefView>,
    i: int,
    event: EventView,
)
    requires
        model.can_deploy(requested),
        0 <= i < model.get_version(model.deploy_target(requested)->0)->0.components.len(),
        component_conflict(
            model.get_version(model.deploy_target(requested)->0)->0.components[i],
            refs,
        ) is Some,
    ensures
        deploy_admit(name, requested, model, revision, refs).0 == DeployStateView::Done,
        deploy_admit(name, requested, model, revision, refs).1 matches ActionView::Reply {
            reply: ReplyView::Error { .. },
        },
        deploy_step(name, DeployStateView::Done, event) == (
            DeployStateView::Done,
            ActionView::Idle,
        ),
        (forall|k: int|
            0 <= k < i ==> component_conflict(
                #[trigger] model.get_version(
                    model.deploy_target(requested)->0,
                )->0.components[k],
                refs,
            ) is None) ==> deploy_admit(name, requested, model, revision, refs).1 == error_reply(
            component_conflict(
                model.get_version(model.deploy_target(requested)->0)->0.components[i],
                refs,
            )->0,
        ),
{
    let staged = model.get_version(model.deploy_target(requested)->0)->0;
    law_first_conflict_is_reported(staged.components, refs, 0, i);
}

} // verus!
