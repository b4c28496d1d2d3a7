//! Makes the root file systems of images ready.
//!
//! A preparation is a conversation: [`ImagePreparation`] says what is to be done next, its
//! caller does it and tells what came of it, until the root file system is ready.
use vstd::prelude::*;

use crate::error::DroidError;
use crate::models::{ContainerConfig, Digest, ImageRef};
use crate::paths::{path_join, path_joined};
use crate::services::foundation::image_pull_service::PulledImage;
use crate::services::foundation::workload_execution_service::IMAGE_CONFIG_FILE;
use crate::text::{law_replaced_characters_are_gone, replace, replaced};

verus! {

/// The file that marks a root file system as ready.
pub const READY_FILE: &'static str = ".droidnode_ready";

/// What the file that marks a root file system as ready holds.
pub const READY_TEXT: &'static str = "1";

/// What is to be done next.
#[derive(Debug)]
pub enum PrepareAction {
    /// Find out whether a file is there.
    LookFor { path: String },
    /// Pull the image.
    Pull,
    /// Make the directory of the root file system, and those above it.
    MakeRoot { path: String },
    /// Unpack a layer over what is there.
    Unpack { digest: Digest, rootfs: String },
    /// Write what the image says of the process to run.
    WriteConfig { path: String, config: ContainerConfig },
    /// Mark the root file system as ready.
    MarkReady { path: String },
    /// The root file system is ready.
    Finished { rootfs: String },
    /// It cannot be made ready.
    Failed(DroidError),
}

/// What came of an action.
#[derive(Debug)]
pub enum PrepareEvent {
    Found(bool),
    Pulled(PulledImage),
    Done,
    Refused(DroidError),
}

/// What the preparation waits for.
#[derive(Debug, Clone, Copy, PartialEq, Eq, Structural)]
pub enum PrepareStage {
    LookingForMark,
    Pulling,
    MakingRoot,
    /// The layer at this place, from the base up.
    Unpacking { at: usize },
    WritingConfig,
    Marking,
    Over,
}

/// The preparation of one image.
#[derive(Debug)]
pub struct ImagePreparation {
    pub rootfs: String,
    /// The layers of the image, from the base up, once they are known.
    pub layers: Vec<Digest>,
    /// What the image says of the process to run, until it is written.
    pub config: Option<ContainerConfig>,
    pub stage: PrepareStage,
}

impl ImagePreparation {
    /// What holds between two steps.
    pub open spec fn wf(self) -> bool {
        self.stage matches PrepareStage::Unpacking { at } ==> at < self.layers@.len()
    }

    /// The event answers the last action.
    pub open spec fn awaits(self, event: PrepareEvent) -> bool {
        match self.stage {
            PrepareStage::LookingForMark => event is Found,
            PrepareStage::Pulling => event is Pulled || event is Refused,
            PrepareStage::MakingRoot
            | PrepareStage::Unpacking { .. }
            | PrepareStage::WritingConfig
            | PrepareStage::Marking => event is Done || event is Refused,
            PrepareStage::Over => false,
        }
    }

    /// The preparation is at the layer at place `at`, or behind the last one.
    pub open spec fn is_at_layer(self, at: int, action: PrepareAction) -> bool {
        if at < self.layers@.len() {
            &&& self.stage == (PrepareStage::Unpacking { at: at as usize })
            &&& action matches PrepareAction::Unpack { digest, rootfs }
            &&& digest.0@ == self.layers@[at].0@
            &&& rootfs@ == self.rootfs@
        } else {
            self.is_marking(action)
        }
    }

    /// The root file system is being marked as ready.
    pub open spec fn is_marking(self, action: PrepareAction) -> bool {
        &&& self.stage == PrepareStage::Marking
        &&& action matches PrepareAction::MarkReady { path }
        &&& path@ == path_joined(self.rootfs@, READY_FILE@)
    }

    /// From `self`, the preparation goes on behind its layers: what the image says is written,
    /// if it says anything, before the root file system is marked as ready.
    pub open spec fn goes_on(self, at: int, post: Self, action: PrepareAction) -> bool {
        &&& post.rootfs == self.rootfs
        &&& post.layers == self.layers
        &&& if at < self.layers@.len() || self.config is None {
            &&& post.config == self.config
            &&& post.is_at_layer(at, action)
        } else {
            &&& post.config is None
            &&& post.stage == PrepareStage::WritingConfig
            &&& action matches PrepareAction::WriteConfig { path, config }
            &&& path@ == path_joined(self.rootfs@, IMAGE_CONFIG_FILE@)
            &&& Some(config) == self.config
        }
    }

    /// One step: `event` leads from `self` to `post`, where `action` is to be done.
    pub open spec fn steps_to(self, event: PrepareEvent, post: Self, action: PrepareAction) -> bool {
        match event {
            PrepareEvent::Refused(e) => {
                &&& post == (ImagePreparation { stage: PrepareStage::Over, ..self })
                &&& action == PrepareAction::Failed(e)
            },
            PrepareEvent::Found(found) => if found {
                &&& post == (ImagePreparation { stage: PrepareStage::Over, ..self })
                &&& action matches PrepareAction::Finished { rootfs }
                &&& rootfs@ == self.rootfs@
            } else {
                &&& post == (ImagePreparation { stage: PrepareStage::Pulling, ..self })
                &&& action is Pull
            },
            PrepareEvent::Pulled(image) => {
                &&& post == (ImagePreparation {
                    layers: image.layer_digests,
                    config: image.config.config,
                    stage: PrepareStage::MakingRoot,
                    ..self
                })
                &&& action matches PrepareAction::MakeRoot { path }
                &&& path@ == self.rootfs@
            },
            PrepareEvent::Done => match self.stage {
                PrepareStage::MakingRoot => self.goes_on(0, post, action),
                PrepareStage::Unpacking { at } => self.goes_on(at + 1, post, action),
                PrepareStage::WritingConfig => {
                    &&& post == (ImagePreparation { stage: PrepareStage::Marking, ..self })
                    &&& post.is_marking(action)
                },
                _ => {
                    &&& post == (ImagePreparation { stage: PrepareStage::Over, ..self })
                    &&& action matches PrepareAction::Finished { rootfs }
                    &&& rootfs@ == self.rootfs@
                },
            },
        }
    }

    /// Whether an event answers the last action.
    pub fn is_awaiting(&self, event: &PrepareEvent) -> (r: bool)
        ensures
            r == self.awaits(*event),
    {
        match self.stage {
            PrepareStage::LookingForMark => matches!(event, PrepareEvent::Found(_)),
            PrepareStage::Pulling => matches!(event, PrepareEvent::Pulled(_)) || matches!(
                event,
                PrepareEvent::Refused(_)
            ),
            PrepareStage::Over => false,
            _ => matches!(event, PrepareEvent::Done) || matches!(event, PrepareEvent::Refused(_)),
        }
    }

    fn mark(&mut self) -> (action: PrepareAction)
        ensures
            *final(self) == (ImagePreparation { stage: PrepareStage::Marking, ..*old(self) }),
            final(self).is_marking(action),
    {
        self.stage = PrepareStage::Marking;
        PrepareAction::MarkReady { path: path_join(self.rootfs.as_str(), READY_FILE) }
    }

    fn go_on(&mut self, at: usize) -> (action: PrepareAction)
        ensures
            final(self).wf(),
            old(self).goes_on(at as int, *final(self), action),
    {
        if at < self.layers.len() {
            self.stage = PrepareStage::Unpacking { at };
            return PrepareAction::Unpack {
                digest: Digest::new(self.layers[at].0.as_str()),
                rootfs: self.rootfs.clone(),
            };
        }
        let mut config: Option<ContainerConfig> = None;
        std::mem::swap(&mut config, &mut self.config);
        match config {
            Some(config) => {
                self.stage = PrepareStage::WritingConfig;
                PrepareAction::WriteConfig {
                    path: path_join(self.rootfs.as_str(), IMAGE_CONFIG_FILE),
                    config,
                }
            },
            None => self.mark(),
        }
    }

    /// Takes note of what came of the last action, and says what is to be done next.
    pub fn step(&mut self, event: PrepareEvent) -> (action: PrepareAction)
        requires
            old(self).wf(),
            old(self).awaits(event),
        ensures
            final(self).wf(),
            old(self).steps_to(event, *final(self), action),
    {
        match event {
            PrepareEvent::Refused(e) => {
                self.stage = PrepareStage::Over;
                PrepareAction::Failed(e)
            },
            PrepareEvent::Found(found) => {
                if found {
                    self.stage = PrepareStage::Over;
                    PrepareAction::Finished { rootfs: self.rootfs.clone() }
                } else {
                    self.stage = PrepareStage::Pulling;
                    PrepareAction::Pull
                }
            },
            PrepareEvent::Pulled(image) => {
                self.layers = image.layer_digests;
                self.config = image.config.config;
                self.stage = PrepareStage::MakingRoot;
                PrepareAction::MakeRoot { path: self.rootfs.clone() }
            },
            PrepareEvent::Done => match self.stage {
                PrepareStage::MakingRoot => self.go_on(0),
                PrepareStage::Unpacking { at } => {
                    assert(self.layers.len() <= usize::MAX);
                    self.go_on(at + 1)
                },
                PrepareStage::WritingConfig => self.mark(),
                _ => {
                    self.stage = PrepareStage::Over;
                    PrepareAction::Finished { rootfs: self.rootfs.clone() }
                },
            },
        }
    }
}

/// Makes root file systems ready below a directory.
#[derive(Debug)]
pub struct ImageOrchestrationServiceImpl {
    pub rootfs_base: String,
}

/// The root file system of an image.
pub open spec fn rootfs_of(base: Seq<char>, image_ref: ImageRef) -> Seq<char> {
    path_joined(
        path_joined(path_joined(base, image_ref.registry@), image_ref.repository@),
        replaced(replaced(image_ref.reference@, ':', "-"@), '@', "_at_"@),
    )
}

impl ImageOrchestrationServiceImpl {
    pub fn new(rootfs_base: String) -> (r: Self)
        ensures
            r.rootfs_base == rootfs_base,
    {
        ImageOrchestrationServiceImpl { rootfs_base }
    }

    /// The root file system of an image.
    pub fn image_rootfs_path(&self, image_ref: &ImageRef) -> (r: String)
        ensures
            r@ == rootfs_of(self.rootfs_base@, *image_ref),
    {
        let safe: String = replace(replace(image_ref.reference.as_str(), ':', "-").as_str(), '@', "_at_");
        let registry: String = path_join(self.rootfs_base.as_str(), image_ref.registry.as_str());
        let repository: String = path_join(registry.as_str(), image_ref.repository.as_str());
        path_join(repository.as_str(), safe.as_str())
    }

    /// Begins to make the root file system of an image ready.
    pub fn prepare_image(&self, image_ref: &ImageRef) -> (r: (ImagePreparation, PrepareAction))
        ensures
            r.0.wf(),
            r.0.rootfs@ == rootfs_of(self.rootfs_base@, *image_ref),
            r.0.layers@.len() == 0,
            r.0.config is None,
            r.0.stage == PrepareStage::LookingForMark,
            r.1 matches PrepareAction::LookFor { path } && path@ == path_joined(
                rootfs_of(self.rootfs_base@, *image_ref),
                READY_FILE@,
            ),
    {
        let rootfs: String = self.image_rootfs_path(image_ref);
        let path: String = path_join(rootfs.as_str(), READY_FILE);
        let preparation = ImagePreparation {
            rootfs,
            layers: Vec::new(),
            config: None,
            stage: PrepareStage::LookingForMark,
        };
        (preparation, PrepareAction::LookFor { path })
    }
}

// ---------------------------------------------------------------------------

/// How much of a preparation is left at most.
pub open spec fn steps_left(p: ImagePreparation) -> int {
    match p.stage {
        PrepareStage::LookingForMark | PrepareStage::Pulling => 0,
        PrepareStage::MakingRoot => p.layers@.len() as int + 3,
        PrepareStage::Unpacking { at } => p.layers@.len() - at + 2,
        PrepareStage::WritingConfig => 2,
        PrepareStage::Marking => 1,
        PrepareStage::Over => 0,
    }
}

/// Once its image was pulled, a preparation comes to an end.
pub proof fn law_a_preparation_ends(
    pre: ImagePreparation,
    event: PrepareEvent,
    post: ImagePreparation,
    action: PrepareAction,
)
    requires
        pre.wf(),
        pre.awaits(event),
        pre.steps_to(event, post, action),
        pre.stage != PrepareStage::LookingForMark,
        pre.stage != PrepareStage::Pulling,
    ensures
        0 <= steps_left(post) < steps_left(pre),
        post.layers == pre.layers,
        action is Finished || action is Failed <==> post.stage == PrepareStage::Over,
{
    assert(pre.layers.len() <= usize::MAX);
}

/// The record of a preparation: from the state `states[i]`, the event `events[i]` leads to
/// the state `states[i + 1]`, where `actions[i]` is to be done.
pub open spec fn is_preparation(
    states: Seq<ImagePreparation>,
    events: Seq<PrepareEvent>,
    actions: Seq<PrepareAction>,
) -> bool {
    &&& states.len() == events.len() + 1
    &&& states.len() == actions.len() + 1
    &&& states[0].wf()
    &&& states[0].stage == PrepareStage::LookingForMark
    &&& forall|i: int|
        0 <= i < events.len() ==> {
            &&& states[i].awaits(#[trigger] events[i])
            &&& states[i].steps_to(events[i], states[i + 1], actions[i])
        }
}

/// The digests of the layers that were unpacked, in the order in which that was done.
pub open spec fn unpacked(actions: Seq<PrepareAction>) -> Seq<Seq<char>>
    decreases actions.len(),
{
    if actions.len() == 0 {
        Seq::empty()
    } else {
        match actions.last() {
            PrepareAction::Unpack { digest, .. } => unpacked(actions.drop_last()).push(digest.0@),
            _ => unpacked(actions.drop_last()),
        }
    }
}

/// The digests of layers.
pub open spec fn digests_of(layers: Seq<Digest>) -> Seq<Seq<char>> {
    layers.map_values(|d: Digest| d.0@)
}

/// How many layers are being unpacked or were, in a state.
pub open spec fn layers_begun(p: ImagePreparation) -> int {
    match p.stage {
        PrepareStage::LookingForMark | PrepareStage::Pulling | PrepareStage::MakingRoot => 0,
        PrepareStage::Unpacking { at } => at + 1,
        _ => p.layers@.len() as int,
    }
}

proof fn lemma_unpacked_so_far(
    states: Seq<ImagePreparation>,
    events: Seq<PrepareEvent>,
    actions: Seq<PrepareAction>,
    n: int,
)
    requires
        is_preparation(states, events, actions),
        0 <= n <= events.len(),
        states[n].stage != PrepareStage::Over,
    ensures
        states[n].wf(),
        0 <= layers_begun(states[n]) <= states[n].layers@.len(),
        unpacked(actions.take(n)) == digests_of(states[n].layers@).take(layers_begun(states[n])),
    decreases n,
{
    if n == 0 {
        assert(actions.take(0) =~= Seq::<PrepareAction>::empty());
        assert(digests_of(states[0].layers@).take(0) =~= Seq::<Seq<char>>::empty());
    } else {
        let pre = states[n - 1];
        let event = events[n - 1];
        let post = states[n];
        let action = actions[n - 1];
        assert(pre.awaits(event));
        assert(pre.stage != PrepareStage::Over);
        lemma_unpacked_so_far(states, events, actions, n - 1);
        assert(pre.layers.len() <= usize::MAX);
        assert(actions.take(n).drop_last() =~= actions.take(n - 1));
        assert(actions.take(n).last() == action);
        let before = digests_of(pre.layers@).take(layers_begun(pre));
        let after = digests_of(post.layers@).take(layers_begun(post));
        if action is Unpack {
            assert(after =~= before.push(action->Unpack_digest.0@));
        } else {
            assert(after =~= before);
        }
    }
}

/// The root file system is marked as ready only when every layer was unpacked, from the base
/// up and each of them once.
pub proof fn law_a_ready_rootfs_has_every_layer(
    states: Seq<ImagePreparation>,
    events: Seq<PrepareEvent>,
    actions: Seq<PrepareAction>,
)
    requires
        is_preparation(states, events, actions),
        events.len() > 0,
        actions.last() is MarkReady,
    ensures
        unpacked(actions) == digests_of(states.last().layers@),
{
    let n = events.len() as int;
    let pre = states[n - 1];
    assert(pre.awaits(events[n - 1]));
    assert(actions[n - 1] is MarkReady);
    assert(states[n].stage == PrepareStage::Marking);
    lemma_unpacked_so_far(states, events, actions, n);
    assert(actions.take(n) =~= actions);
    assert(digests_of(states[n].layers@).take(states[n].layers@.len() as int) =~= digests_of(
        states[n].layers@,
    ));
}

/// A preparation ends well only where the root file system is marked as ready: the mark was
/// found, or it was the last thing that was made.
pub proof fn law_finished_means_marked(
    pre: ImagePreparation,
    event: PrepareEvent,
    post: ImagePreparation,
    action: PrepareAction,
)
    requires
        pre.awaits(event),
        pre.steps_to(event, post, action),
        action is Finished,
    ensures
        (pre.stage == PrepareStage::LookingForMark && event == PrepareEvent::Found(true)) || (
        pre.stage == PrepareStage::Marking && event is Done),
{
}

/// What is ready already is not pulled or unpacked again.
pub proof fn law_a_ready_rootfs_is_left_alone(
    pre: ImagePreparation,
    post: ImagePreparation,
    action: PrepareAction,
)
    requires
        pre.stage == PrepareStage::LookingForMark,
        pre.steps_to(PrepareEvent::Found(true), post, action),
    ensures
        action is Finished,
        action->Finished_rootfs@ == pre.rootfs@,
{
}

/// The name of the directory of a root file system holds no colon and no at sign, whatever
/// the tag or digest of its image.
pub proof fn law_rootfs_names_are_plain(reference: Seq<char>)
    ensures
        !replaced(replaced(reference, ':', "-"@), '@', "_at_"@).contains(':'),
        !replaced(replaced(reference, ':', "-"@), '@', "_at_"@).contains('@'),
{
    reveal_strlit("-");
    reveal_strlit("_at_");
    let once = replaced(reference, ':', "-"@);
    law_replaced_characters_are_gone(reference, ':', "-"@, ':');
    law_replaced_characters_are_gone(once, '@', "_at_"@, ':');
    law_replaced_characters_are_gone(once, '@', "_at_"@, '@');
}

} // verus!
