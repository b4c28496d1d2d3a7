//! What the preparation of an image does.
use vstd::prelude::*;

use crate::models::{ContainerConfig, ImageRef};
use crate::paths::path_joined;
use crate::services::foundation::image_pull_service::PulledImage;
use crate::services::orchestration::image_orchestration_service::{
    is_preparation, ImageOrchestrationServiceImpl, ImagePreparation, PrepareAction, PrepareEvent,
    PrepareStage,
};
use crate::text::replaced;

verus! {

/// The action unpacks the layer at place `k` of an image into `rootfs`.
pub open spec fn unpacks_layer(
    action: PrepareAction,
    rootfs: Seq<char>,
    image: PulledImage,
    k: int,
) -> bool {
    &&& action matches PrepareAction::Unpack { digest, rootfs: r }
    &&& digest.0@ == image.layer_digests@[k].0@
    &&& r@ == rootfs
}

/// The action writes a configuration into `rootfs`, as it is.
pub open spec fn writes_config(
    action: PrepareAction,
    rootfs: Seq<char>,
    config: ContainerConfig,
) -> bool {
    &&& action matches PrepareAction::WriteConfig { path, config: c }
    &&& path@ == path_joined(rootfs, ".droidnode_image_config.json"@)
    &&& c == config
}

/// The action marks `rootfs` as ready.
pub open spec fn marks_ready(action: PrepareAction, rootfs: Seq<char>) -> bool {
    action matches PrepareAction::MarkReady { path } && path@ == path_joined(
        rootfs,
        ".droidnode_ready"@,
    )
}

/// The preparation ends with `rootfs`.
pub open spec fn ends_with(action: PrepareAction, rootfs: Seq<char>) -> bool {
    action matches PrepareAction::Finished { rootfs: r } && r@ == rootfs
}

/// The action is what is to be done at place `k` once the root of a pulled image was made: its
/// layers are unpacked from the base up, then its configuration is written if it has one, then
/// the root file system is marked as ready, and that is all.
pub open spec fn is_work(
    action: PrepareAction,
    rootfs: Seq<char>,
    image: PulledImage,
    k: int,
) -> bool {
    let layers = image.layer_digests@.len();
    match image.config.config {
        Some(config) => if k < layers {
            unpacks_layer(action, rootfs, image, k)
        } else if k == layers {
            writes_config(action, rootfs, config)
        } else if k == layers + 1 {
            marks_ready(action, rootfs)
        } else {
            k == layers + 2 && ends_with(action, rootfs)
        },
        None => if k < layers {
            unpacks_layer(action, rootfs, image, k)
        } else if k == layers {
            marks_ready(action, rootfs)
        } else {
            k == layers + 1 && ends_with(action, rootfs)
        },
    }
}

/// The state of a preparation after `n` steps, if nothing has ended it.
spec fn is_state(p: ImagePreparation, rootfs: Seq<char>, image: PulledImage, n: int) -> bool {
    let layers = image.layer_digests@.len();
    &&& p.layers == image.layer_digests
    &&& p.rootfs@ == rootfs
    &&& n < 3 + layers ==> p.config == image.config.config
    &&& n >= 3 + layers ==> p.config is None
    &&& if n == 2 {
        p.stage == PrepareStage::MakingRoot
    } else if n < 3 + layers {
        p.stage == (PrepareStage::Unpacking { at: (n - 3) as usize })
    } else if image.config.config is Some {
        n == 3 + layers && p.stage == PrepareStage::WritingConfig || n == 4 + layers && p.stage
            == PrepareStage::Marking
    } else {
        n == 3 + layers && p.stage == PrepareStage::Marking
    }
}

proof fn lemma_run(
    states: Seq<ImagePreparation>,
    events: Seq<PrepareEvent>,
    actions: Seq<PrepareAction>,
    n: int,
)
    requires
        is_preparation(states, events, actions),
        0 <= n <= events.len(),
        states[n].stage != PrepareStage::Over,
    ensures
        n == 0 ==> states[n].stage == PrepareStage::LookingForMark,
        n == 1 ==> states[n].stage == PrepareStage::Pulling,
        n >= 1 ==> events[0] == PrepareEvent::Found(false),
        n >= 2 ==> events[1] is Pulled && is_state(
            states[n],
            states[0].rootfs@,
            events[1]->Pulled_0,
            n,
        ),
        states[n].rootfs@ == states[0].rootfs@,
    decreases n,
{
    if n > 0 {
        assert(states[n - 1].awaits(events[n - 1]));
        lemma_run(states, events, actions, n - 1);
        assert(states[n - 1].layers.len() <= usize::MAX);
    }
}

/// A preparation looks first whether the root file system is ready, and has nothing more to do if
/// it is. Otherwise it pulls the image and makes the root, unpacks the layers of the image from
/// the base up, writes the configuration of the image if it has one, marks the root file system
/// as ready, and ends with it. What cannot be done ends it for that reason.
pub proof fn law_a_preparation_does_its_work(
    states: Seq<ImagePreparation>,
    events: Seq<PrepareEvent>,
    actions: Seq<PrepareAction>,
    i: int,
)
    requires
        is_preparation(states, events, actions),
        0 <= i < actions.len(),
    ensures
        match events[i] {
            PrepareEvent::Refused(e) => i > 0 && actions[i] == PrepareAction::Failed(e),
            PrepareEvent::Found(found) => i == 0 && if found {
                ends_with(actions[i], states[0].rootfs@)
            } else {
                actions[i] is Pull
            },
            PrepareEvent::Pulled(image) => {
                &&& i == 1
                &&& actions[i] matches PrepareAction::MakeRoot { path }
                &&& path@ == states[0].rootfs@
            },
            PrepareEvent::Done => {
                &&& i >= 2
                &&& events[1] is Pulled
                &&& is_work(actions[i], states[0].rootfs@, events[1]->Pulled_0, i - 2)
            },
        },
{
    assert(states[i].awaits(events[i]));
    assert(states[i].steps_to(events[i], states[i + 1], actions[i]));
    lemma_run(states, events, actions, i);
    assert(states[i].layers.len() <= usize::MAX);
}

/// The configuration that is written is that of the image that was pulled, in all its parts.
pub proof fn law_configurations_are_written_as_pulled(
    states: Seq<ImagePreparation>,
    events: Seq<PrepareEvent>,
    actions: Seq<PrepareAction>,
    i: int,
)
    requires
        is_preparation(states, events, actions),
        0 <= i < actions.len(),
        actions[i] is WriteConfig,
    ensures
        i > 1,
        events[1] is Pulled,
        events[1]->Pulled_0.config.config == Some(actions[i]->config),
{
    law_a_preparation_does_its_work(states, events, actions, i);
}

/// A root file system is marked as ready only when each layer of the image that was pulled was
/// unpacked, and the configuration of that image was written if it has one.
pub proof fn law_ready_means_prepared(
    states: Seq<ImagePreparation>,
    events: Seq<PrepareEvent>,
    actions: Seq<PrepareAction>,
    i: int,
)
    requires
        is_preparation(states, events, actions),
        0 <= i < actions.len(),
        actions[i] is MarkReady,
    ensures
        events[1] is Pulled,
        forall|k: int|
            0 <= k < events[1]->Pulled_0.layer_digests@.len() ==> 2 + k < i && unpacks_layer(
                #[trigger] actions[2 + k],
                states[0].rootfs@,
                events[1]->Pulled_0,
                k,
            ),
        events[1]->Pulled_0.config.config matches Some(config) ==> writes_config(
            actions[i - 1],
            states[0].rootfs@,
            config,
        ),
{
    law_a_preparation_does_its_work(states, events, actions, i);
    let image = events[1]->Pulled_0;
    assert forall|j: int| 2 <= j < i implies (#[trigger] events[j]) is Done by {
        assert(states[j].awaits(events[j]));
        law_a_preparation_does_its_work(states, events, actions, j);
        if events[j] is Refused {
            assert(states[j].steps_to(events[j], states[j + 1], actions[j]));
            assert(states[j + 1].awaits(events[j + 1]));
        }
    }
    assert forall|k: int| 0 <= k < image.layer_digests@.len() implies 2 + k < i && unpacks_layer(
        #[trigger] actions[2 + k],
        states[0].rootfs@,
        image,
        k,
    ) by {
        assert(events[2 + k] is Done);
        law_a_preparation_does_its_work(states, events, actions, 2 + k);
    }
    if image.config.config is Some {
        assert(events[i - 1] is Done);
        law_a_preparation_does_its_work(states, events, actions, i - 1);
    }
}

/// A preparation begins by looking for the mark in the root file system of its image, and knows
/// nothing of the image yet.
pub proof fn law_a_preparation_looks_for_the_mark(
    service: &ImageOrchestrationServiceImpl,
    image_ref: &ImageRef,
    r: (ImagePreparation, PrepareAction),
)
    requires
        call_ensures(ImageOrchestrationServiceImpl::prepare_image, (service, image_ref), r),
    ensures
        r.0.stage == PrepareStage::LookingForMark,
        r.0.config is None,
        r.0.layers@.len() == 0,
        r.1 matches PrepareAction::LookFor { path } && path@ == path_joined(
            r.0.rootfs@,
            ".droidnode_ready"@,
        ),
        r.0.rootfs@ == path_joined(
            path_joined(
                path_joined(service.rootfs_base@, image_ref.registry@),
                image_ref.repository@,
            ),
            replaced(replaced(image_ref.reference@, ':', "-"@), '@', "_at_"@),
        ),
{
}

/// The root file system of an image has a directory for its registry, its repository and its tag
/// or digest, in which hyphens stand for colons and `_at_` for at signs.
pub proof fn law_images_have_their_own_rootfs(
    service: &ImageOrchestrationServiceImpl,
    image_ref: &ImageRef,
    r: String,
)
    requires
        call_ensures(ImageOrchestrationServiceImpl::image_rootfs_path, (service, image_ref), r),
    ensures
        r@ == path_joined(
            path_joined(
                path_joined(service.rootfs_base@, image_ref.registry@),
                image_ref.repository@,
            ),
            replaced(replaced(image_ref.reference@, ':', "-"@), '@', "_at_"@),
        ),
{
}

/// A preparation takes the answer to what it asked last, and each step of it is one that the laws
/// speak of. Root file systems stand below the directory that the service was made with.
pub proof fn law_a_preparation_takes_the_answer_to_its_question(
    preparation: &ImagePreparation,
    asked: &PrepareEvent,
    r: bool,
    pre: &mut ImagePreparation,
    event: PrepareEvent,
    action: PrepareAction,
    base: String,
    service: ImageOrchestrationServiceImpl,
)
    requires
        call_ensures(ImagePreparation::is_awaiting, (preparation, asked), r),
        call_ensures(ImagePreparation::step, (pre, event), action),
        call_ensures(ImageOrchestrationServiceImpl::new, (base,), service),
    ensures
        r == match preparation.stage {
            PrepareStage::LookingForMark => asked is Found,
            PrepareStage::Pulling => asked is Pulled || asked is Refused,
            PrepareStage::MakingRoot
            | PrepareStage::Unpacking { .. }
            | PrepareStage::WritingConfig
            | PrepareStage::Marking => asked is Done || asked is Refused,
            PrepareStage::Over => false,
        },
        old(pre).steps_to(event, *final(pre), action),
        service.rootfs_base == base,
{
}

} // verus!
