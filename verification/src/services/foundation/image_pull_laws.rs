//! What the pull of an image does.
use vstd::prelude::*;

use crate::models::{ImageRef, Manifest};
use crate::paths::path_joined;
use crate::services::foundation::image_pull_service::{
    is_pull, lemma_step_keeps_wf, ImagePull, ImagePullServiceImpl, PullAction, PullEvent,
    PullStage, PulledImage,
};
use crate::text::replaced;

verus! {

/// The directory of the layer at place `k` of a manifest.
pub open spec fn dir_at(pull: ImagePull, manifest: Manifest, k: int) -> Seq<char> {
    path_joined(pull.files.layers_root@, replaced(manifest.layers@[k].digest@, ':', "-"@))
}

/// The file of the layer at place `k` of a manifest.
pub open spec fn file_at(pull: ImagePull, manifest: Manifest, k: int) -> Seq<char> {
    path_joined(dir_at(pull, manifest, k), "layer.tar.gz"@)
}

/// The pull goes on with the layer at place `k`, whose file is looked for, or is finished when
/// there is none.
pub open spec fn is_at(pull: ImagePull, manifest: Manifest, k: int, action: PullAction) -> bool {
    if k < manifest.layers@.len() {
        &&& action matches PullAction::LookForLayer { path }
        &&& path@ == file_at(pull, manifest, k)
        &&& pull.stage == PullStage::LookingForLayer
    } else {
        action is Finished && pull.stage == PullStage::Complete
    }
}

/// The layer at place `k` of the manifest comes to the layers that the pull lists, and the others
/// stay.
pub open spec fn lists_layer(pre: ImagePull, post: ImagePull, manifest: Manifest, k: int) -> bool {
    &&& pre.layer_digests@.len() == k
    &&& post.layer_digests@.len() == k + 1
    &&& post.layer_digests@[k].0@ == manifest.layers@[k].digest@
    &&& forall|i: int| 0 <= i < k ==> #[trigger] post.layer_digests@[i] == pre.layer_digests@[i]
}

/// A pull fetches the manifest of the image, then the configuration that the manifest names, and
/// then goes through the layers that the manifest names, in their order. A layer whose file is
/// there is listed. For any other its directory is made, the layer is fetched by its digest, and
/// what came is written to its file; then it is listed. What cannot be had ends the pull for
/// that reason.
pub proof fn law_a_pull_goes_through_the_manifest(
    pre: ImagePull,
    event: PullEvent,
    post: ImagePull,
    action: PullAction,
)
    requires
        pre.wf(),
        pre.awaits(event),
        pre.steps_to(event, post, action),
    ensures
        post.image_ref == pre.image_ref,
        post.files == pre.files,
        ({
            let manifest = pre.manifest->0;
            let k = pre.layer_digests@.len() as int;
            match event {
                PullEvent::Refused(e) => action == PullAction::Failed(e),
                PullEvent::Manifest(m) => {
                    &&& action matches PullAction::FetchConfig { digest }
                    &&& digest.0@ == m.config.digest@
                    &&& post.manifest == Some(m)
                    &&& post.stage == PullStage::FetchingConfig
                },
                PullEvent::Config(c) => {
                    &&& post.config == Some(c)
                    &&& post.manifest == pre.manifest
                    &&& post.layer_digests@.len() == 0
                    &&& is_at(post, manifest, 0, action)
                },
                PullEvent::Found(found) => {
                    &&& post.manifest == pre.manifest
                    &&& post.config == pre.config
                    &&& if found {
                        &&& lists_layer(pre, post, manifest, k)
                        &&& is_at(post, manifest, k + 1, action)
                    } else {
                        &&& action matches PullAction::MakeLayerDir { path }
                        &&& path@ == dir_at(pre, manifest, k)
                        &&& post.layer_digests == pre.layer_digests
                        &&& post.stage == PullStage::MakingLayerDir
                    }
                },
                PullEvent::Layer(data) => {
                    &&& post.manifest == pre.manifest
                    &&& post.config == pre.config
                    &&& action matches PullAction::WriteLayer { path, data: d }
                    &&& path@ == file_at(pre, manifest, k)
                    &&& d@ == data@
                    &&& post.layer_digests == pre.layer_digests
                    &&& post.stage == PullStage::WritingLayer
                },
                PullEvent::Done => {
                    &&& post.manifest == pre.manifest
                    &&& post.config == pre.config
                    &&& if pre.stage == PullStage::MakingLayerDir {
                        &&& action matches PullAction::FetchLayer { digest }
                        &&& digest.0@ == manifest.layers@[k].digest@
                        &&& post.layer_digests == pre.layer_digests
                        &&& post.stage == PullStage::FetchingLayer
                    } else {
                        &&& lists_layer(pre, post, manifest, k)
                        &&& is_at(post, manifest, k + 1, action)
                    }
                },
            }
        }),
{
    if post.layer_digests@.len() > pre.layer_digests@.len() {
        assert forall|i: int| 0 <= i < pre.layer_digests@.len() implies #[trigger] post.layer_digests@[i]
            == pre.layer_digests@[i] by {
            assert(post.layer_digests@.drop_last()[i] == pre.layer_digests@[i]);
        }
    }
}

proof fn lemma_known(
    states: Seq<ImagePull>,
    actions: Seq<PullAction>,
    events: Seq<PullEvent>,
    n: int,
)
    requires
        is_pull(states, actions, events),
        0 <= n < states.len(),
        states[n].stage != PullStage::GivenUp,
    ensures
        states[n].wf(),
        n == 0 <==> states[n].stage == PullStage::FetchingManifest,
        n == 1 <==> states[n].stage == PullStage::FetchingConfig,
        n >= 1 ==> events[0] is Manifest && states[n].manifest == Some(events[0]->Manifest_0),
        n >= 2 ==> events[1] is Config && states[n].config == Some(events[1]->Config_0),
    decreases n,
{
    if n > 0 {
        assert(states[n - 1].awaits(events[n - 1]));
        lemma_known(states, actions, events, n - 1);
        lemma_step_keeps_wf(states[n - 1], events[n - 1], states[n], actions[n]);
    }
}

/// What a finished pull gives is the manifest and the configuration that were fetched, and the
/// digests of all layers of that manifest, in their order.
pub proof fn law_a_pulled_image_is_what_was_fetched(
    states: Seq<ImagePull>,
    actions: Seq<PullAction>,
    events: Seq<PullEvent>,
    r: PulledImage,
)
    requires
        is_pull(states, actions, events),
        actions.last() is Finished,
        call_ensures(ImagePull::finish, (states.last(),), r),
    ensures
        events.len() >= 2,
        events[0] == PullEvent::Manifest(r.manifest),
        events[1] == PullEvent::Config(r.config),
        r.layer_digests@.len() == r.manifest.layers@.len(),
        forall|k: int|
            0 <= k < r.manifest.layers@.len() ==> (#[trigger] r.layer_digests@[k]).0@
                == r.manifest.layers@[k].digest@,
{
    let n = events.len() as int;
    if n > 0 {
        assert(states[n - 1].awaits(events[n - 1]));
        assert(states[n].stage == PullStage::Complete);
        lemma_known(states, actions, events, n);
    }
}

/// A pull begins with the manifest, and with nothing that is known of the image.
pub proof fn law_a_pull_begins_with_the_manifest(
    service: &ImagePullServiceImpl,
    image_ref: ImageRef,
    r: (ImagePull, PullAction),
)
    requires
        call_ensures(ImagePullServiceImpl::pull_image, (service, image_ref), r),
    ensures
        r.1 is FetchManifest,
        r.0.image_ref == image_ref,
        r.0.files == service.files,
        r.0.stage == PullStage::FetchingManifest,
        r.0.layer_digests@.len() == 0,
        r.0.manifest is None,
        r.0.config is None,
{
}

/// A pull takes the answer to what it asked last, and each step of it is one that the laws speak
/// of.
pub proof fn law_a_pull_takes_the_answer_to_its_question(
    pull: &ImagePull,
    asked: &PullEvent,
    r: bool,
    pre: &mut ImagePull,
    event: PullEvent,
    action: PullAction,
)
    requires
        call_ensures(ImagePull::is_awaiting, (pull, asked), r),
        call_ensures(ImagePull::step, (pre, event), action),
    ensures
        r == match pull.stage {
            PullStage::FetchingManifest => asked is Manifest || asked is Refused,
            PullStage::FetchingConfig => asked is Config || asked is Refused,
            PullStage::LookingForLayer => asked is Found || asked is Refused,
            PullStage::FetchingLayer => asked is Layer || asked is Refused,
            PullStage::MakingLayerDir | PullStage::WritingLayer => asked is Done || asked
                is Refused,
            PullStage::Complete | PullStage::GivenUp => false,
        },
        old(pre).steps_to(event, *final(pre), action),
{
}

} // verus!
