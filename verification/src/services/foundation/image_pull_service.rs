//! Brings images from their registries to the node.
//!
//! A pull is a conversation: [`ImagePull`] says what is to be fetched or kept next, its
//! caller does it and tells what came of it. Layers that are kept already are not fetched.
use vstd::prelude::*;

use crate::brokers::filesystem_broker::{layer_dir, layer_file, FilesystemBrokerImpl};
use crate::error::DroidError;
use crate::models::{Digest, ImageConfig, ImageRef, Manifest};

verus! {

/// An image that is on the node: its manifest, its configuration, and the digests of its
/// layers from the base up.
#[derive(Debug)]
pub struct PulledImage {
    pub manifest: Manifest,
    pub config: ImageConfig,
    pub layer_digests: Vec<Digest>,
}

/// What is to be done next.
#[derive(Debug)]
pub enum PullAction {
    FetchManifest,
    FetchConfig { digest: Digest },
    /// Find out whether the file of a layer is there.
    LookForLayer { path: String },
    /// Make the directory of a layer.
    MakeLayerDir { path: String },
    FetchLayer { digest: Digest },
    /// Write the file of a layer, as a whole or not at all.
    WriteLayer { path: String, data: Vec<u8> },
    Finished,
    Failed(DroidError),
}

/// What came of an action.
#[derive(Debug)]
pub enum PullEvent {
    Manifest(Manifest),
    Config(ImageConfig),
    Found(bool),
    Layer(Vec<u8>),
    Done,
    Refused(DroidError),
}

/// What the pull waits for.
#[derive(Debug, Clone, Copy, PartialEq, Eq, Structural)]
pub enum PullStage {
    FetchingManifest,
    FetchingConfig,
    LookingForLayer,
    MakingLayerDir,
    FetchingLayer,
    WritingLayer,
    Complete,
    GivenUp,
}

/// The pull of one image.
#[derive(Debug)]
pub struct ImagePull {
    pub image_ref: ImageRef,
    pub files: FilesystemBrokerImpl,
    pub manifest: Option<Manifest>,
    pub config: Option<ImageConfig>,
    /// The digests of the layers whose files are on the node. The pull is at the layer after
    /// them.
    pub layer_digests: Vec<Digest>,
    pub stage: PullStage,
}

impl ImagePull {
    /// The digest of a layer of the manifest.
    pub open spec fn digest_at(self, i: int) -> Seq<char> {
        self.manifest->0.layers@[i].digest@
    }

    /// The digest of the layer that the pull is at.
    pub open spec fn current(self) -> Seq<char> {
        self.digest_at(self.layer_digests@.len() as int)
    }

    /// What holds between two steps: the digests that are known are those of the manifest, in
    /// the same order.
    pub open spec fn wf(self) -> bool {
        &&& match self.stage {
            PullStage::FetchingManifest => self.layer_digests@.len() == 0,
            PullStage::FetchingConfig => self.layer_digests@.len() == 0 && self.manifest is Some,
            PullStage::GivenUp => true,
            PullStage::Complete => {
                &&& self.manifest is Some
                &&& self.config is Some
                &&& self.layer_digests@.len() == self.manifest->0.layers@.len()
            },
            _ => {
                &&& self.manifest is Some
                &&& self.config is Some
                &&& self.layer_digests@.len() < self.manifest->0.layers@.len()
            },
        }
        &&& self.stage != PullStage::GivenUp ==> forall|i: int|
            0 <= i < self.layer_digests@.len() ==> (#[trigger] self.layer_digests@[i]).0@
                == self.digest_at(i)
    }

    /// The event answers the last action.
    pub open spec fn awaits(self, event: PullEvent) -> bool {
        match self.stage {
            PullStage::FetchingManifest => event is Manifest || event is Refused,
            PullStage::FetchingConfig => event is Config || event is Refused,
            PullStage::LookingForLayer => event is Found || event is Refused,
            PullStage::FetchingLayer => event is Layer || event is Refused,
            PullStage::MakingLayerDir | PullStage::WritingLayer => event is Done
                || event is Refused,
            PullStage::Complete | PullStage::GivenUp => false,
        }
    }

    /// The image is the same, and so is what is known of it.
    pub open spec fn keeps(self, post: Self) -> bool {
        &&& post.image_ref == self.image_ref
        &&& post.files == self.files
        &&& post.manifest == self.manifest
        &&& post.config == self.config
    }

    /// The pull is at its next layer, which is looked for, or has no more layers.
    pub open spec fn is_at_next(self, action: PullAction) -> bool {
        if self.layer_digests@.len() < self.manifest->0.layers@.len() {
            &&& self.stage == PullStage::LookingForLayer
            &&& action matches PullAction::LookForLayer { path }
            &&& path@ == layer_file(self.files.layers_root@, self.current())
        } else {
            &&& self.stage == PullStage::Complete
            &&& action is Finished
        }
    }

    /// The layer that the pull was at is on the node.
    pub open spec fn has_layer(self, post: Self) -> bool {
        &&& self.keeps(post)
        &&& post.layer_digests@.len() == self.layer_digests@.len() + 1
        &&& post.layer_digests@.drop_last() == self.layer_digests@
        &&& post.layer_digests@.last().0@ == self.current()
    }

    /// One step: `event` leads from `self` to `post`, where `action` is to be done.
    pub open spec fn steps_to(self, event: PullEvent, post: Self, action: PullAction) -> bool {
        match event {
            PullEvent::Refused(e) => {
                &&& post == (ImagePull { stage: PullStage::GivenUp, ..self })
                &&& action == PullAction::Failed(e)
            },
            PullEvent::Manifest(m) => {
                &&& post == (ImagePull {
                    manifest: Some(m),
                    stage: PullStage::FetchingConfig,
                    ..self
                })
                &&& action matches PullAction::FetchConfig { digest }
                &&& digest.0@ == m.config.digest@
            },
            PullEvent::Config(c) => {
                &&& post.config == Some(c)
                &&& (ImagePull { config: Some(c), ..self }).keeps(post)
                &&& post.layer_digests == self.layer_digests
                &&& post.is_at_next(action)
            },
            PullEvent::Found(found) => if found {
                &&& self.has_layer(post)
                &&& post.is_at_next(action)
            } else {
                &&& post == (ImagePull { stage: PullStage::MakingLayerDir, ..self })
                &&& action matches PullAction::MakeLayerDir { path }
                &&& path@ == layer_dir(self.files.layers_root@, self.current())
            },
            PullEvent::Layer(data) => {
                &&& post == (ImagePull { stage: PullStage::WritingLayer, ..self })
                &&& action matches PullAction::WriteLayer { path, data: d }
                &&& path@ == layer_file(self.files.layers_root@, self.current())
                &&& d == data
            },
            PullEvent::Done => if self.stage == PullStage::MakingLayerDir {
                &&& post == (ImagePull { stage: PullStage::FetchingLayer, ..self })
                &&& action matches PullAction::FetchLayer { digest }
                &&& digest.0@ == self.current()
            } else {
                &&& self.has_layer(post)
                &&& post.is_at_next(action)
            },
        }
    }

    /// Whether an event answers the last action.
    pub fn is_awaiting(&self, event: &PullEvent) -> (r: bool)
        ensures
            r == self.awaits(*event),
    {
        if matches!(event, PullEvent::Refused(_)) {
            return !matches!(self.stage, PullStage::Complete) && !matches!(
                self.stage,
                PullStage::GivenUp
            );
        }
        match self.stage {
            PullStage::FetchingManifest => matches!(event, PullEvent::Manifest(_)),
            PullStage::FetchingConfig => matches!(event, PullEvent::Config(_)),
            PullStage::LookingForLayer => matches!(event, PullEvent::Found(_)),
            PullStage::FetchingLayer => matches!(event, PullEvent::Layer(_)),
            PullStage::MakingLayerDir | PullStage::WritingLayer => matches!(event, PullEvent::Done),
            PullStage::Complete | PullStage::GivenUp => false,
        }
    }

    /// The digest of the layer that the pull is at.
    fn current_digest(&self) -> (r: Digest)
        requires
            self.manifest is Some,
            self.layer_digests@.len() < self.manifest->0.layers@.len(),
        ensures
            r.0@ == self.current(),
    {
        match &self.manifest {
            Some(m) => Digest::new(m.layers[self.layer_digests.len()].digest.as_str()),
            None => vstd::pervasive::unreached(),
        }
    }

    /// Goes on to the next layer.
    fn advance(&mut self) -> (action: PullAction)
        requires
            old(self).manifest is Some,
            old(self).config is Some,
            old(self).layer_digests@.len() <= old(self).manifest->0.layers@.len(),
        ensures
            old(self).keeps(*final(self)),
            final(self).layer_digests == old(self).layer_digests,
            final(self).is_at_next(action),
    {
        let total: usize = match &self.manifest {
            Some(m) => m.layers.len(),
            None => 0,
        };
        if self.layer_digests.len() < total {
            self.stage = PullStage::LookingForLayer;
            let digest = self.current_digest();
            PullAction::LookForLayer { path: self.files.layer_file_path(&digest) }
        } else {
            self.stage = PullStage::Complete;
            PullAction::Finished
        }
    }

    /// Takes note of what came of the last action, and says what is to be done next.
    pub fn step(&mut self, event: PullEvent) -> (action: PullAction)
        requires
            old(self).wf(),
            old(self).awaits(event),
        ensures
            final(self).wf(),
            old(self).steps_to(event, *final(self), action),
    {
        match event {
            PullEvent::Refused(e) => {
                self.stage = PullStage::GivenUp;
                PullAction::Failed(e)
            },
            PullEvent::Manifest(m) => {
                let digest = Digest::new(m.config.digest.as_str());
                self.manifest = Some(m);
                self.stage = PullStage::FetchingConfig;
                PullAction::FetchConfig { digest }
            },
            PullEvent::Config(c) => {
                self.config = Some(c);
                self.advance()
            },
            PullEvent::Found(found) => {
                let digest = self.current_digest();
                if found {
                    self.layer_digests.push(digest);
                    assert(self.layer_digests@.drop_last() =~= old(self).layer_digests@);
                    self.advance()
                } else {
                    self.stage = PullStage::MakingLayerDir;
                    PullAction::MakeLayerDir { path: self.files.layer_path(&digest) }
                }
            },
            PullEvent::Layer(data) => {
                let digest = self.current_digest();
                self.stage = PullStage::WritingLayer;
                PullAction::WriteLayer { path: self.files.layer_file_path(&digest), data }
            },
            PullEvent::Done => {
                let digest = self.current_digest();
                if matches!(self.stage, PullStage::MakingLayerDir) {
                    self.stage = PullStage::FetchingLayer;
                    PullAction::FetchLayer { digest }
                } else {
                    self.layer_digests.push(digest);
                    assert(self.layer_digests@.drop_last() =~= old(self).layer_digests@);
                    self.advance()
                }
            },
        }
    }

    /// The image, once its pull is complete.
    pub fn finish(self) -> (r: PulledImage)
        requires
            self.wf(),
            self.stage == PullStage::Complete,
        ensures
            Some(r.manifest) == self.manifest,
            Some(r.config) == self.config,
            r.layer_digests == self.layer_digests,
            r.layer_digests@.len() == r.manifest.layers@.len(),
            forall|i: int|
                0 <= i < r.layer_digests@.len() ==> (#[trigger] r.layer_digests@[i]).0@
                    == r.manifest.layers@[i].digest@,
    {
        match (self.manifest, self.config) {
            (Some(manifest), Some(config)) => PulledImage {
                manifest,
                config,
                layer_digests: self.layer_digests,
            },
            _ => vstd::pervasive::unreached(),
        }
    }
}

/// Pulls images.
#[derive(Debug)]
pub struct ImagePullServiceImpl {
    pub files: FilesystemBrokerImpl,
}

impl ImagePullServiceImpl {
    pub fn new(files: FilesystemBrokerImpl) -> (r: Self)
        ensures
            r.files == files,
    {
        ImagePullServiceImpl { files }
    }

    /// Begins to pull an image.
    pub fn pull_image(&self, image_ref: ImageRef) -> (r: (ImagePull, PullAction))
        ensures
            r.0.wf(),
            r.0.image_ref == image_ref,
            r.0.files == self.files,
            r.0.manifest is None,
            r.0.config is None,
            r.0.layer_digests@.len() == 0,
            r.0.stage == PullStage::FetchingManifest,
            r.1 is FetchManifest,
    {
        let pull = ImagePull {
            image_ref,
            files: self.files.clone(),
            manifest: None,
            config: None,
            layer_digests: Vec::new(),
            stage: PullStage::FetchingManifest,
        };
        (pull, PullAction::FetchManifest)
    }
}

// ---------------------------------------------------------------------------

/// A layer is fetched only where its file was looked for and not found: from the look to the
/// fetch the pull stays at the same layer.
pub proof fn law_cached_layers_are_not_fetched(
    looking: ImagePull,
    looked: PullEvent,
    making: ImagePull,
    make: PullAction,
    made: PullEvent,
    fetching: ImagePull,
    fetch: PullAction,
)
    requires
        looking.wf(),
        looking.stage == PullStage::LookingForLayer,
        looking.awaits(looked),
        looking.steps_to(looked, making, make),
        making.awaits(made),
        making.steps_to(made, fetching, fetch),
        fetch is FetchLayer,
    ensures
        looked == PullEvent::Found(false),
        fetch->FetchLayer_digest.0@ == looking.current(),
{
}

/// A layer is fetched only once its directory was made, and only directories of layers whose
/// files were looked for and not found are made.
pub proof fn law_only_missing_layers_get_directories(
    pre: ImagePull,
    event: PullEvent,
    post: ImagePull,
    action: PullAction,
)
    requires
        pre.wf(),
        pre.awaits(event),
        pre.steps_to(event, post, action),
    ensures
        action is FetchLayer ==> pre.stage == PullStage::MakingLayerDir && event is Done,
        action is MakeLayerDir ==> pre.stage == PullStage::LookingForLayer && event
            == PullEvent::Found(false),
        post.stage == PullStage::MakingLayerDir ==> action is MakeLayerDir,
        post.stage == PullStage::FetchingLayer ==> action is FetchLayer,
{
}

/// How much of a pull is left at most.
pub open spec fn steps_left(pull: ImagePull) -> int {
    let layers = match pull.manifest {
        Some(m) => 4 * (m.layers@.len() - pull.layer_digests@.len()),
        None => 0,
    };
    match pull.stage {
        PullStage::FetchingManifest => 0,
        PullStage::FetchingConfig => layers + 1,
        PullStage::LookingForLayer => layers,
        PullStage::MakingLayerDir => layers - 1,
        PullStage::FetchingLayer => layers - 2,
        PullStage::WritingLayer => layers - 3,
        PullStage::Complete | PullStage::GivenUp => 0,
    }
}

/// Once its manifest is there, a pull comes to an end.
pub proof fn law_a_pull_ends(
    pre: ImagePull,
    event: PullEvent,
    post: ImagePull,
    action: PullAction,
)
    requires
        pre.wf(),
        pre.awaits(event),
        pre.steps_to(event, post, action),
        pre.stage != PullStage::FetchingManifest,
    ensures
        0 <= steps_left(post) < steps_left(pre),
        post.stage != PullStage::FetchingManifest,
        action is Finished <==> post.stage == PullStage::Complete,
        action is Failed <==> post.stage == PullStage::GivenUp,
{
}

/// The record of a pull: in the state `states[i]` the action `actions[i]` is done, and
/// `events[i]` comes of it.
pub open spec fn is_pull(
    states: Seq<ImagePull>,
    actions: Seq<PullAction>,
    events: Seq<PullEvent>,
) -> bool {
    &&& states.len() == events.len() + 1
    &&& actions.len() == events.len() + 1
    &&& states[0].wf()
    &&& states[0].stage == PullStage::FetchingManifest
    &&& actions[0] is FetchManifest
    &&& forall|i: int|
        0 <= i < events.len() ==> {
            &&& states[i].awaits(#[trigger] events[i])
            &&& states[i].steps_to(events[i], states[i + 1], actions[i + 1])
        }
}

/// The file at `path` was looked for, and was there.
pub open spec fn was_found(action: PullAction, event: PullEvent, path: Seq<char>) -> bool {
    &&& action matches PullAction::LookForLayer { path: p }
    &&& p@ == path
    &&& event == PullEvent::Found(true)
}

/// The layer `digest` was fetched, and what came was then written to the file at `path`.
pub open spec fn was_kept(
    fetch: PullAction,
    fetched: PullEvent,
    write: PullAction,
    written: PullEvent,
    digest: Seq<char>,
    path: Seq<char>,
) -> bool {
    &&& fetch matches PullAction::FetchLayer { digest: d }
    &&& d.0@ == digest
    &&& write matches PullAction::WriteLayer { path: p, data }
    &&& fetched == PullEvent::Layer(data)
    &&& p@ == path
    &&& written is Done
}

/// After `i` steps the file of the layer `digest` is on the node: it was found, or it was
/// written in this pull.
pub open spec fn is_stored_at(
    actions: Seq<PullAction>,
    events: Seq<PullEvent>,
    i: int,
    digest: Seq<char>,
    path: Seq<char>,
) -> bool {
    ||| was_found(actions[i], events[i], path)
    ||| i > 0 && was_kept(actions[i - 1], events[i - 1], actions[i], events[i], digest, path)
}

/// The action that a pull waits for is the one that its stage tells.
proof fn lemma_pending(
    states: Seq<ImagePull>,
    actions: Seq<PullAction>,
    events: Seq<PullEvent>,
    n: int,
)
    requires
        is_pull(states, actions, events),
        0 <= n < states.len(),
    ensures
        states[n].wf(),
        states[n].files == states[0].files,
        states[n].stage == PullStage::LookingForLayer ==> (
        actions[n] matches PullAction::LookForLayer { path } && path@ == layer_file(
            states[n].files.layers_root@,
            states[n].current(),
        )),
        states[n].stage == PullStage::FetchingLayer ==> (
        actions[n] matches PullAction::FetchLayer { digest } && digest.0@ == states[n].current()),
        states[n].stage == PullStage::WritingLayer ==> n > 0 && was_kept(
            actions[n - 1],
            events[n - 1],
            actions[n],
            PullEvent::Done,
            states[n].current(),
            layer_file(states[n].files.layers_root@, states[n].current()),
        ),
    decreases n,
{
    if n > 0 {
        lemma_pending(states, actions, events, n - 1);
        let pre = states[n - 1];
        let post = states[n];
        assert(pre.awaits(events[n - 1]));
        assert(pre.steps_to(events[n - 1], post, actions[n]));
        lemma_step_keeps_wf(pre, events[n - 1], post, actions[n]);
    }
}

/// Every step keeps a pull well formed.
pub(crate) proof fn lemma_step_keeps_wf(
    pre: ImagePull,
    event: PullEvent,
    post: ImagePull,
    action: PullAction,
)
    requires
        pre.wf(),
        pre.awaits(event),
        pre.steps_to(event, post, action),
    ensures
        post.wf(),
{
    if post.stage != PullStage::GivenUp && pre.has_layer(post) {
        assert forall|i: int| 0 <= i < post.layer_digests@.len() implies (
        #[trigger] post.layer_digests@[i]).0@ == post.digest_at(i) by {
            if i < pre.layer_digests@.len() {
                assert(post.layer_digests@.drop_last()[i] == pre.layer_digests@[i]);
            }
        }
    }
}

proof fn lemma_stored(
    states: Seq<ImagePull>,
    actions: Seq<PullAction>,
    events: Seq<PullEvent>,
    n: int,
    k: int,
)
    requires
        is_pull(states, actions, events),
        0 <= n < states.len(),
        0 <= k < states[n].layer_digests@.len(),
        states[n].stage != PullStage::GivenUp,
    ensures
        exists|i: int|
            0 <= i < n && #[trigger] is_stored_at(
                actions,
                events,
                i,
                states[n].layer_digests@[k].0@,
                layer_file(states[0].files.layers_root@, states[n].layer_digests@[k].0@),
            ),
    decreases n,
{
    lemma_pending(states, actions, events, n);
    if n > 0 {
        let pre = states[n - 1];
        let post = states[n];
        let event = events[n - 1];
        lemma_pending(states, actions, events, n - 1);
        assert(pre.awaits(event));
        assert(pre.steps_to(event, post, actions[n]));
        let digest = post.layer_digests@[k].0@;
        let path = layer_file(states[0].files.layers_root@, digest);
        if k < pre.layer_digests@.len() {
            if pre.has_layer(post) {
                assert(post.layer_digests@.drop_last()[k] == pre.layer_digests@[k]);
            }
            assert(post.layer_digests@[k] == pre.layer_digests@[k]);
            lemma_stored(states, actions, events, n - 1, k);
            let i = choose|i: int|
                0 <= i < n - 1 && #[trigger] is_stored_at(actions, events, i, digest, path);
            assert(is_stored_at(actions, events, i, digest, path));
        } else {
            assert(pre.has_layer(post));
            assert(digest == pre.current());
            assert(is_stored_at(actions, events, n - 1, digest, path));
        }
    }
}

/// Every layer that a finished pull lists is on the node: its file was found, or the layer was
/// fetched and its file written in this pull.
pub proof fn law_listed_layers_are_stored(
    states: Seq<ImagePull>,
    actions: Seq<PullAction>,
    events: Seq<PullEvent>,
    k: int,
)
    requires
        is_pull(states, actions, events),
        actions.last() is Finished,
        0 <= k < states.last().layer_digests@.len(),
    ensures
        exists|i: int|
            0 <= i < events.len() && #[trigger] is_stored_at(
                actions,
                events,
                i,
                states.last().layer_digests@[k].0@,
                layer_file(
                    states[0].files.layers_root@,
                    states.last().layer_digests@[k].0@,
                ),
            ),
{
    let n = events.len() as int;
    if n > 0 {
        assert(states[n - 1].awaits(events[n - 1]));
        assert(states[n].stage == PullStage::Complete);
    }
    lemma_stored(states, actions, events, n, k);
}

} // verus!
