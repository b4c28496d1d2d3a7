//! Unpacks the layers of an image, one over the other, into a root file system.
//!
//! The extraction of a layer is a conversation: [`LayerExtraction`] says what is to
//! be done next, its caller does it and tells what came of it, until the layer is
//! unpacked or the extraction has failed. The paths of a layer are bytes, which need not be
//! text.
use vstd::prelude::*;

use crate::brokers::filesystem_broker::{layer_dir, layer_file, FilesystemBrokerImpl};
use crate::bytes::{bytes_of, lossy, same_bytes, shown, strip_bytes};
use crate::error::DroidError;
use crate::models::Digest;
use crate::paths::{file_name_of, parent_of, path_joined, raw_file_name, raw_join, raw_parent};
use crate::text::{cat2, cat3, cat5, without_prefix};
use vstd::utf8::encode_utf8;

verus! {

/// One entry of a layer.
#[derive(Debug)]
pub struct LayerEntry {
    pub path: Vec<u8>,
    /// The entry is another name of a file of the layer.
    pub is_hardlink: bool,
    /// The file that a hard link names, if the entry tells it.
    pub link_name: Option<Vec<u8>>,
}

/// What is to be done next.
#[derive(Debug)]
pub enum ExtractAction {
    /// Open the archive.
    OpenArchive { path: String },
    /// Read the next entry of the archive.
    NextEntry,
    /// Find out whether there is something at a path.
    LookUp { path: Vec<u8> },
    /// Find out whether there is a directory at a path.
    LookForDirectory { path: Vec<u8> },
    /// Remove a directory with all that is in it.
    RemoveDirectory { path: Vec<u8> },
    /// Make a directory, and those above it.
    MakeDirectory { path: Vec<u8> },
    /// Remove a file.
    RemoveFile { path: Vec<u8> },
    /// Unpack the entry that was read last into the target directory.
    UnpackEntry,
    /// Copy a file.
    CopyFile { from: Vec<u8>, to: Vec<u8> },
    /// The layer is unpacked.
    Finished,
    /// The extraction was given up.
    Failed(DroidError),
}

/// What came of an action.
#[derive(Debug)]
pub enum ExtractEvent {
    /// The archive has another entry.
    Entry(LayerEntry),
    /// The archive has no more entries.
    EndOfArchive,
    /// The answer to a question.
    Answer(bool),
    /// It is done.
    Done,
    /// It could not be done.
    Refused(String),
}

/// What the extraction waits for.
#[derive(Debug)]
pub enum ExtractStage {
    Opening,
    Reading,
    /// Whether there is a directory to clear.
    ClearCheck { dir: Vec<u8> },
    /// The removal of a directory that is to be made again.
    Clearing { dir: Vec<u8> },
    /// The new, empty directory.
    Remaking,
    /// Whether there is something to remove.
    RemovalCheck { path: Vec<u8> },
    /// Whether that is a directory.
    KindCheck { path: Vec<u8> },
    Removing,
    /// The unpacking of an entry.
    Unpacking { entry: LayerEntry },
    /// Whether the file that a hard link names is there.
    LinkCheck { from: Vec<u8>, to: Vec<u8> },
    /// Whether the file that a postponed hard link names is there.
    PostponedCheck { index: usize },
    /// The directory that a copy goes to.
    MakingParent { from: Vec<u8>, to: Vec<u8>, postponed: Option<usize> },
    /// A copy in the place of a hard link.
    Copying { from: Vec<u8>, to: Vec<u8>, postponed: Option<usize> },
    Over,
}

/// What an entry of a layer asks for.
pub enum EntryRole {
    /// The directory is to be emptied.
    Clear(Seq<u8>),
    /// What lower layers put at the path is to be removed.
    Remove(Seq<u8>),
    /// The entry is to be unpacked.
    Unpack,
}

/// The directory that an entry stands in, taken from the target directory.
pub open spec fn entry_dir(target: Seq<u8>, path: Seq<u8>) -> Seq<u8> {
    match parent_of(path) {
        Some(p) => path_joined(target, p),
        None => path_joined(target, Seq::empty()),
    }
}

/// What an entry asks for. An entry named `.wh..wh..opq` empties the directory it stands
/// in, an entry named `.wh.` and a name removes what has that name, read as text, and any
/// other entry is unpacked.
pub open spec fn role_of(target: Seq<u8>, path: Seq<u8>) -> EntryRole {
    match file_name_of(path) {
        Some(name) => if name == encode_utf8(".wh..wh..opq"@) {
            EntryRole::Clear(entry_dir(target, path))
        } else {
            match without_prefix(name, encode_utf8(".wh."@)) {
                Some(rest) => EntryRole::Remove(
                    path_joined(entry_dir(target, path), encode_utf8(shown(rest))),
                ),
                None => EntryRole::Unpack,
            }
        },
        None => EntryRole::Unpack,
    }
}

/// The extraction of one layer.
#[derive(Debug)]
pub struct LayerExtraction {
    /// The directory that the layer is unpacked into.
    pub target: Vec<u8>,
    /// Hard links to files that were not there yet, as pairs of the file named and the
    /// link, in the order of the archive.
    pub postponed: Vec<(Vec<u8>, Vec<u8>)>,
    pub stage: ExtractStage,
}

impl LayerExtraction {
    /// What holds between two steps.
    pub open spec fn wf(self) -> bool {
        match self.stage {
            ExtractStage::PostponedCheck { index } => index < self.postponed@.len(),
            ExtractStage::MakingParent { from, to, postponed: Some(index) } => self.is_postponed(
                index,
                from@,
                to@,
            ),
            ExtractStage::Copying { from, to, postponed: Some(index) } => self.is_postponed(
                index,
                from@,
                to@,
            ),
            _ => true,
        }
    }

    /// The postponed hard link at place `index` is to be the copy of `from` at `to`.
    pub open spec fn is_postponed(self, index: usize, from: Seq<u8>, to: Seq<u8>) -> bool {
        &&& index < self.postponed@.len()
        &&& from == self.inside(self.postponed@[index as int].0)
        &&& to == self.inside(self.postponed@[index as int].1)
    }

    /// The event answers the last action.
    pub open spec fn awaits(self, event: ExtractEvent) -> bool {
        match self.stage {
            ExtractStage::Reading => event is Entry || event is EndOfArchive || event is Refused,
            ExtractStage::ClearCheck { .. }
            | ExtractStage::RemovalCheck { .. }
            | ExtractStage::KindCheck { .. }
            | ExtractStage::LinkCheck { .. }
            | ExtractStage::PostponedCheck { .. } => event is Answer,
            ExtractStage::Over => false,
            _ => event is Done || event is Refused,
        }
    }

    /// `path`, taken from the target directory.
    pub open spec fn inside(self, path: Vec<u8>) -> Seq<u8> {
        path_joined(self.target@, path@)
    }

    /// From `self`, nothing but the stage changes.
    pub open spec fn keeps(self, post: Self) -> bool {
        &&& post.target == self.target
        &&& post.postponed@ == self.postponed@
    }

    /// From `self`, the next entry is read.
    pub open spec fn reads_on(self, post: Self, action: ExtractAction) -> bool {
        &&& self.keeps(post)
        &&& post.stage is Reading
        &&& action is NextEntry
    }

    /// From `self`, the extraction is given up.
    pub open spec fn gives_up(
        self,
        message: Seq<char>,
        post: Self,
        action: ExtractAction,
    ) -> bool {
        &&& self.keeps(post)
        &&& post.stage is Over
        &&& action matches ExtractAction::Failed(DroidError::Filesystem(m))
        &&& m@ == message
    }

    /// From `self`, the file `from` is copied to `to`, for which the directory is made
    /// first.
    pub open spec fn copies(
        self,
        from: Seq<u8>,
        to: Seq<u8>,
        postponed: Option<usize>,
        post: Self,
        action: ExtractAction,
    ) -> bool {
        &&& self.keeps(post)
        &&& match parent_of(to) {
            Some(dir) => {
                &&& action matches ExtractAction::MakeDirectory { path }
                &&& path@ == dir
                &&& post.stage matches ExtractStage::MakingParent { from: f, to: t, postponed: p }
                &&& f@ == from
                &&& t@ == to
                &&& p == postponed
            },
            None => post.is_copying(from, to, postponed, action),
        }
    }

    /// A file is being copied.
    pub open spec fn is_copying(
        self,
        from: Seq<u8>,
        to: Seq<u8>,
        postponed: Option<usize>,
        action: ExtractAction,
    ) -> bool {
        &&& action matches ExtractAction::CopyFile { from: af, to: at }
        &&& af@ == from
        &&& at@ == to
        &&& self.stage matches ExtractStage::Copying { from: f, to: t, postponed: p }
        &&& f@ == from
        &&& t@ == to
        &&& p == postponed
    }

    /// From `self`, the postponed hard links from place `index` on are taken up. When
    /// there are none left, the layer is unpacked.
    pub open spec fn takes_up(self, index: int, post: Self, action: ExtractAction) -> bool {
        &&& self.keeps(post)
        &&& if index < self.postponed@.len() {
            &&& post.stage == (ExtractStage::PostponedCheck { index: index as usize })
            &&& action matches ExtractAction::LookUp { path }
            &&& path@ == self.inside(self.postponed@[index].0)
        } else {
            &&& post.stage is Over
            &&& action is Finished
        }
    }

    /// From `self`, the extraction goes on behind a copy.
    pub open spec fn goes_on(
        self,
        postponed: Option<usize>,
        post: Self,
        action: ExtractAction,
    ) -> bool {
        match postponed {
            Some(index) => self.takes_up(index + 1, post, action),
            None => self.reads_on(post, action),
        }
    }

    /// From `self`, an entry is dealt with as its name says.
    pub open spec fn deals_with(self, entry: LayerEntry, post: Self, action: ExtractAction) -> bool {
        &&& self.keeps(post)
        &&& match role_of(self.target@, entry.path@) {
            EntryRole::Clear(d) => {
                &&& action matches ExtractAction::LookUp { path }
                &&& path@ == d
                &&& post.stage matches ExtractStage::ClearCheck { dir }
                &&& dir@ == d
            },
            EntryRole::Remove(p) => {
                &&& action matches ExtractAction::LookUp { path }
                &&& path@ == p
                &&& post.stage matches ExtractStage::RemovalCheck { path: q }
                &&& q@ == p
            },
            EntryRole::Unpack => {
                &&& action is UnpackEntry
                &&& post.stage == (ExtractStage::Unpacking { entry })
            },
        }
    }

    /// From `self`, an entry could not be unpacked. A hard link is made a copy; any other
    /// entry ends the extraction.
    pub open spec fn makes_do(self, entry: LayerEntry, post: Self, action: ExtractAction) -> bool {
        match (entry.is_hardlink, entry.link_name) {
            (true, Some(link)) => {
                &&& self.keeps(post)
                &&& action matches ExtractAction::LookUp { path }
                &&& path@ == self.inside(link)
                &&& post.stage == (ExtractStage::LinkCheck { from: link, to: entry.path })
            },
            _ => self.gives_up(
                "failed to unpack `"@ + shown(self.inside(entry.path)) + "`"@,
                post,
                action,
            ),
        }
    }

    /// One step: `event` leads from `self` to `post`, where `action` is to be done.
    pub open spec fn steps_to(self, event: ExtractEvent, post: Self, action: ExtractAction) -> bool {
        match (self.stage, event) {
            (ExtractStage::Opening, ExtractEvent::Done) => self.reads_on(post, action),
            (ExtractStage::Reading, ExtractEvent::Entry(entry)) => self.deals_with(
                entry,
                post,
                action,
            ),
            (ExtractStage::Reading, ExtractEvent::EndOfArchive) => self.takes_up(0, post, action),
            (ExtractStage::ClearCheck { dir }, ExtractEvent::Answer(there)) => if there {
                &&& self.keeps(post)
                &&& post.stage == (ExtractStage::Clearing { dir })
                &&& action matches ExtractAction::RemoveDirectory { path }
                &&& path@ == dir@
            } else {
                self.reads_on(post, action)
            },
            (ExtractStage::Clearing { dir }, ExtractEvent::Done) => {
                &&& self.keeps(post)
                &&& post.stage is Remaking
                &&& action == (ExtractAction::MakeDirectory { path: dir })
            },
            (ExtractStage::Remaking, ExtractEvent::Done) => self.reads_on(post, action),
            (ExtractStage::RemovalCheck { path }, ExtractEvent::Answer(there)) => if there {
                &&& self.keeps(post)
                &&& post.stage == (ExtractStage::KindCheck { path })
                &&& action matches ExtractAction::LookForDirectory { path: asked }
                &&& asked@ == path@
            } else {
                self.reads_on(post, action)
            },
            (ExtractStage::KindCheck { path }, ExtractEvent::Answer(is_dir)) => {
                &&& self.keeps(post)
                &&& post.stage is Removing
                &&& action == if is_dir {
                    ExtractAction::RemoveDirectory { path }
                } else {
                    ExtractAction::RemoveFile { path }
                }
            },
            (ExtractStage::Removing, ExtractEvent::Done) => self.reads_on(post, action),
            (ExtractStage::Unpacking { entry }, ExtractEvent::Done) => self.reads_on(post, action),
            (ExtractStage::Unpacking { entry }, ExtractEvent::Refused(_)) => self.makes_do(
                entry,
                post,
                action,
            ),
            (ExtractStage::LinkCheck { from, to }, ExtractEvent::Answer(there)) => if there {
                self.copies(self.inside(from), self.inside(to), None, post, action)
            } else {
                &&& post.target == self.target
                &&& post.postponed@ == self.postponed@.push((from, to))
                &&& post.stage is Reading
                &&& action is NextEntry
            },
            (ExtractStage::PostponedCheck { index }, ExtractEvent::Answer(there)) => {
                let from = self.inside(self.postponed@[index as int].0);
                let to = self.inside(self.postponed@[index as int].1);
                if there {
                    self.copies(from, to, Some(index), post, action)
                } else {
                    self.gives_up(
                        "failed to unpack `"@ + shown(to) + "` (hardlink target `"@
                            + shown(from) + "` not found)"@,
                        post,
                        action,
                    )
                }
            },
            (ExtractStage::MakingParent { from, to, postponed }, ExtractEvent::Done) => {
                &&& self.keeps(post)
                &&& post.is_copying(from@, to@, postponed, action)
            },
            (ExtractStage::Copying { from, to, postponed }, ExtractEvent::Done) => self.goes_on(
                postponed,
                post,
                action,
            ),
            (ExtractStage::Copying { from, to, postponed }, ExtractEvent::Refused(e)) => {
                self.gives_up(
                    "failed to copy hardlink `"@ + shown(from@) + "` -> `"@ + shown(to@)
                        + "`: "@ + e@,
                    post,
                    action,
                )
            },
            (_, ExtractEvent::Refused(e)) => self.gives_up(e@, post, action),
            _ => false,
        }
    }

    /// Begins to unpack the archive at `archive` into the directory `target`.
    pub fn begin(archive: String, target: Vec<u8>) -> (r: (Self, ExtractAction))
        ensures
            r.0.wf(),
            r.0.target == target,
            r.0.postponed@.len() == 0,
            r.0.stage is Opening,
            r.1 == (ExtractAction::OpenArchive { path: archive }),
    {
        (
            LayerExtraction { target, postponed: Vec::new(), stage: ExtractStage::Opening },
            ExtractAction::OpenArchive { path: archive },
        )
    }

    /// Whether an event answers the last action.
    pub fn is_awaiting(&self, event: &ExtractEvent) -> (r: bool)
        ensures
            r == self.awaits(*event),
    {
        match self.stage {
            ExtractStage::Reading => matches!(event, ExtractEvent::Entry(_)) || matches!(
                event,
                ExtractEvent::EndOfArchive
            ) || matches!(event, ExtractEvent::Refused(_)),
            ExtractStage::ClearCheck { .. }
            | ExtractStage::RemovalCheck { .. }
            | ExtractStage::KindCheck { .. }
            | ExtractStage::LinkCheck { .. }
            | ExtractStage::PostponedCheck { .. } => matches!(event, ExtractEvent::Answer(_)),
            ExtractStage::Over => false,
            _ => matches!(event, ExtractEvent::Done) || matches!(event, ExtractEvent::Refused(_)),
        }
    }

    fn read_on(&mut self) -> (action: ExtractAction)
        ensures
            final(self).wf(),
            old(self).reads_on(*final(self), action),
    {
        self.stage = ExtractStage::Reading;
        ExtractAction::NextEntry
    }

    fn give_up(&mut self, message: String) -> (action: ExtractAction)
        ensures
            final(self).wf(),
            old(self).gives_up(message@, *final(self), action),
    {
        self.stage = ExtractStage::Over;
        ExtractAction::Failed(DroidError::Filesystem(message))
    }

    fn copy(&mut self, from: Vec<u8>, to: Vec<u8>, postponed: Option<usize>) -> (action: ExtractAction)
        requires
            postponed matches Some(index) ==> old(self).is_postponed(index, from@, to@),
        ensures
            final(self).wf(),
            old(self).copies(from@, to@, postponed, *final(self), action),
    {
        match raw_parent(&to) {
            Some(dir) => {
                self.stage = ExtractStage::MakingParent { from, to, postponed };
                ExtractAction::MakeDirectory { path: dir }
            },
            None => self.copy_now(from, to, postponed),
        }
    }

    fn copy_now(&mut self, from: Vec<u8>, to: Vec<u8>, postponed: Option<usize>) -> (action:
        ExtractAction)
        requires
            postponed matches Some(index) ==> old(self).is_postponed(index, from@, to@),
        ensures
            final(self).wf(),
            old(self).keeps(*final(self)),
            final(self).is_copying(from@, to@, postponed, action),
    {
        let action = ExtractAction::CopyFile { from: from.clone(), to: to.clone() };
        self.stage = ExtractStage::Copying { from, to, postponed };
        action
    }

    fn take_up(&mut self, index: usize) -> (action: ExtractAction)
        ensures
            final(self).wf(),
            old(self).takes_up(index as int, *final(self), action),
    {
        if index < self.postponed.len() {
            let path: Vec<u8> = raw_join(&self.target, &self.postponed[index].0);
            self.stage = ExtractStage::PostponedCheck { index };
            ExtractAction::LookUp { path }
        } else {
            self.stage = ExtractStage::Over;
            ExtractAction::Finished
        }
    }

    fn deal_with(&mut self, entry: LayerEntry) -> (action: ExtractAction)
        ensures
            final(self).wf(),
            old(self).deals_with(entry, *final(self), action),
    {
        if let Some(name) = raw_file_name(&entry.path) {
            let dir: Vec<u8> = match raw_parent(&entry.path) {
                Some(p) => raw_join(&self.target, &p),
                None => {
                    let here: Vec<u8> = Vec::new();
                    raw_join(&self.target, &here)
                },
            };
            if same_bytes(&name, &bytes_of(".wh..wh..opq")) {
                let path: Vec<u8> = dir.clone();
                self.stage = ExtractStage::ClearCheck { dir };
                return ExtractAction::LookUp { path };
            }
            if let Some(rest) = strip_bytes(&name, &bytes_of(".wh.")) {
                let removed: String = lossy(&rest);
                let path: Vec<u8> = raw_join(&dir, &bytes_of(removed.as_str()));
                self.stage = ExtractStage::RemovalCheck { path: path.clone() };
                return ExtractAction::LookUp { path };
            }
        }
        self.stage = ExtractStage::Unpacking { entry };
        ExtractAction::UnpackEntry
    }

    fn make_do(&mut self, entry: LayerEntry) -> (action: ExtractAction)
        ensures
            final(self).wf(),
            old(self).makes_do(entry, *final(self), action),
    {
        if entry.is_hardlink {
            if let Some(link) = entry.link_name {
                let path: Vec<u8> = raw_join(&self.target, &link);
                self.stage = ExtractStage::LinkCheck { from: link, to: entry.path };
                return ExtractAction::LookUp { path };
            }
        }
        let path: Vec<u8> = raw_join(&self.target, &entry.path);
        self.give_up(cat3("failed to unpack `", lossy(&path).as_str(), "`"))
    }

    /// Takes note of what came of the last action, and says what is to be done next.
    pub fn step(&mut self, event: ExtractEvent) -> (action: ExtractAction)
        requires
            old(self).wf(),
            old(self).awaits(event),
        ensures
            final(self).wf(),
            old(self).steps_to(event, *final(self), action),
    {
        let mut stage: ExtractStage = ExtractStage::Over;
        std::mem::swap(&mut stage, &mut self.stage);
        match (stage, event) {
            (ExtractStage::Reading, ExtractEvent::Entry(entry)) => self.deal_with(entry),
            (ExtractStage::Reading, ExtractEvent::EndOfArchive) => self.take_up(0),
            (ExtractStage::ClearCheck { dir }, ExtractEvent::Answer(there)) => if there {
                let path: Vec<u8> = dir.clone();
                self.stage = ExtractStage::Clearing { dir };
                ExtractAction::RemoveDirectory { path }
            } else {
                self.read_on()
            },
            (ExtractStage::Clearing { dir }, ExtractEvent::Done) => {
                self.stage = ExtractStage::Remaking;
                ExtractAction::MakeDirectory { path: dir }
            },
            (ExtractStage::RemovalCheck { path }, ExtractEvent::Answer(there)) => if there {
                let asked: Vec<u8> = path.clone();
                self.stage = ExtractStage::KindCheck { path };
                ExtractAction::LookForDirectory { path: asked }
            } else {
                self.read_on()
            },
            (ExtractStage::KindCheck { path }, ExtractEvent::Answer(is_dir)) => {
                self.stage = ExtractStage::Removing;
                if is_dir {
                    ExtractAction::RemoveDirectory { path }
                } else {
                    ExtractAction::RemoveFile { path }
                }
            },
            (ExtractStage::Unpacking { entry }, ExtractEvent::Refused(_)) => self.make_do(entry),
            (ExtractStage::LinkCheck { from, to }, ExtractEvent::Answer(there)) => if there {
                let src: Vec<u8> = raw_join(&self.target, &from);
                let dst: Vec<u8> = raw_join(&self.target, &to);
                self.copy(src, dst, None)
            } else {
                self.postponed.push((from, to));
                self.read_on()
            },
            (ExtractStage::PostponedCheck { index }, ExtractEvent::Answer(there)) => {
                let src: Vec<u8> = raw_join(&self.target, &self.postponed[index].0);
                let dst: Vec<u8> = raw_join(&self.target, &self.postponed[index].1);
                if there {
                    self.copy(src, dst, Some(index))
                } else {
                    self.give_up(
                        cat5(
                            "failed to unpack `",
                            lossy(&dst).as_str(),
                            "` (hardlink target `",
                            lossy(&src).as_str(),
                            "` not found)",
                        ),
                    )
                }
            },
            (ExtractStage::MakingParent { from, to, postponed }, ExtractEvent::Done) => {
                self.copy_now(from, to, postponed)
            },
            (ExtractStage::Copying { from, to, postponed }, ExtractEvent::Done) => {
                match postponed {
                    Some(index) => {
                        assert(self.postponed.len() <= usize::MAX);
                        self.take_up(index + 1)
                    },
                    None => self.read_on(),
                }
            },
            (ExtractStage::Copying { from, to, postponed }, ExtractEvent::Refused(e)) => {
                let what: String = cat5(
                    "failed to copy hardlink `",
                    lossy(&from).as_str(),
                    "` -> `",
                    lossy(&to).as_str(),
                    "`: ",
                );
                self.give_up(cat2(what.as_str(), e.as_str()))
            },
            (_, ExtractEvent::Refused(e)) => self.give_up(e),
            (_, ExtractEvent::Done) => self.read_on(),
            _ => vstd::pervasive::unreached(),
        }
    }
}

/// Unpacks layers.
#[derive(Debug)]
pub struct ImageUnpackServiceImpl {
    pub files: FilesystemBrokerImpl,
}

impl ImageUnpackServiceImpl {
    pub fn new(files: FilesystemBrokerImpl) -> (r: Self)
        ensures
            r.files == files,
    {
        ImageUnpackServiceImpl { files }
    }

    /// Begins to unpack a layer into the directory `target`. The result starts with the
    /// directory of the layer, which has to be there.
    pub fn unpack_layer(&self, digest: &Digest, target: Vec<u8>) -> (r: (
        String,
        LayerExtraction,
        ExtractAction,
    ))
        ensures
            r.0@ == layer_dir(self.files.layers_root@, digest.0@),
            r.1.wf(),
            r.1.target == target,
            r.1.postponed@.len() == 0,
            r.1.stage is Opening,
            r.2 matches ExtractAction::OpenArchive { path } && path@ == layer_file(
                self.files.layers_root@,
                digest.0@,
            ),
    {
        let dir: String = self.files.layer_path(digest);
        let archive: String = self.files.layer_file_path(digest);
        let (extraction, action) = LayerExtraction::begin(archive, target);
        (dir, extraction, action)
    }
}

/// The error for an extraction that broke off.
pub fn broken_off(reason: &str) -> (r: DroidError)
    ensures
        r matches DroidError::Process(m) && m@ == "spawn_blocking: "@ + reason@,
{
    DroidError::Process(cat2("spawn_blocking: ", reason))
}

} // verus!
