//! What holds of every extraction of a layer.
use vstd::prelude::*;

use crate::brokers::filesystem_broker::layer_file;
use crate::paths::{file_name_of, path_joined};
use crate::services::foundation::image_pull_service::{ImagePull, PullAction, PullEvent};
use crate::services::foundation::image_unpack_service::{
    entry_dir, role_of, EntryRole, ExtractAction, ExtractEvent, ExtractStage, LayerExtraction,
};
use vstd::utf8::{encode_utf8, encode_utf8_decode_utf8, encode_utf8_valid_utf8};

verus! {

/// Every step keeps the extraction well formed.
pub proof fn law_steps_keep_the_extraction_well_formed(
    pre: LayerExtraction,
    event: ExtractEvent,
    post: LayerExtraction,
    action: ExtractAction,
)
    requires
        pre.wf(),
        pre.steps_to(event, post, action),
    ensures
        post.wf(),
        post.target == pre.target,
{
    assert(pre.postponed.len() <= usize::MAX);
}

/// A whiteout is never unpacked: only an entry that was just read, and that asks for
/// nothing else, is. Every such entry is unpacked.
pub proof fn law_whiteouts_are_not_unpacked(
    pre: LayerExtraction,
    event: ExtractEvent,
    post: LayerExtraction,
    action: ExtractAction,
)
    requires
        pre.wf(),
        pre.steps_to(event, post, action),
    ensures
        action is UnpackEntry <==> (event is Entry && role_of(
            pre.target@,
            event->Entry_0.path@,
        ) is Unpack),
{
}

/// A whiteout for a name that is text removes what has that very name, in the directory that
/// the whiteout stands in, however the name of that directory is written.
pub proof fn law_whiteouts_remove_by_name(target: Seq<u8>, path: Seq<u8>, name: Seq<char>)
    requires
        file_name_of(path) == Some(encode_utf8(".wh."@) + encode_utf8(name)),
        file_name_of(path) != Some(encode_utf8(".wh..wh..opq"@)),
    ensures
        role_of(target, path) == EntryRole::Remove(
            path_joined(entry_dir(target, path), encode_utf8(name)),
        ),
{
    let rest = encode_utf8(name);
    let full = encode_utf8(".wh."@) + rest;
    assert(full.skip(encode_utf8(".wh."@).len() as int) =~= rest);
    assert(encode_utf8(".wh."@) =~= full.subrange(0, encode_utf8(".wh."@).len() as int));
    encode_utf8_valid_utf8(name);
    encode_utf8_decode_utf8(name);
}

/// A directory is removed only because a whiteout clears it or removes it, and a file
/// only because a whiteout removes it.
pub proof fn law_only_whiteouts_remove(
    pre: LayerExtraction,
    event: ExtractEvent,
    post: LayerExtraction,
    action: ExtractAction,
)
    requires
        pre.wf(),
        pre.steps_to(event, post, action),
        action is RemoveDirectory || action is RemoveFile,
    ensures
        event is Answer,
        pre.stage matches ExtractStage::ClearCheck { dir } ==> event->Answer_0
            && action is RemoveDirectory && action->RemoveDirectory_path@ == dir@,
        pre.stage matches ExtractStage::KindCheck { path } ==> action == if event->Answer_0 {
            ExtractAction::RemoveDirectory { path }
        } else {
            ExtractAction::RemoveFile { path }
        },
        pre.stage is ClearCheck || pre.stage is KindCheck,
{
}

/// The record of an extraction: from the state `states[i]`, the event `events[i]` leads to
/// the state `states[i + 1]`, where `actions[i]` is to be done.
pub open spec fn is_extraction(
    states: Seq<LayerExtraction>,
    events: Seq<ExtractEvent>,
    actions: Seq<ExtractAction>,
) -> bool {
    &&& states.len() == events.len() + 1
    &&& states.len() == actions.len() + 1
    &&& states[0].wf()
    &&& states[0].stage is Opening
    &&& forall|i: int|
        0 <= i < events.len() ==> (#[trigger] states[i]).steps_to(
            events[i],
            states[i + 1],
            actions[i],
        )
}

/// The action copies the postponed hard link at place `j`.
pub open spec fn copies_postponed(s: LayerExtraction, action: ExtractAction, j: int) -> bool {
    &&& action matches ExtractAction::CopyFile { from, to }
    &&& from@ == s.inside(s.postponed@[j].0)
    &&& to@ == s.inside(s.postponed@[j].1)
}

/// The number of postponed hard links that were taken up and copied.
spec fn resolved(s: LayerExtraction) -> int {
    match s.stage {
        ExtractStage::PostponedCheck { index } => index as int,
        ExtractStage::MakingParent { from, to, postponed: Some(index) } => index as int,
        ExtractStage::Copying { from, to, postponed: Some(index) } => index + 1,
        _ => 0,
    }
}

proof fn lemma_resolved(
    states: Seq<LayerExtraction>,
    events: Seq<ExtractEvent>,
    actions: Seq<ExtractAction>,
    k: int,
    j: int,
)
    requires
        is_extraction(states, events, actions),
        0 <= k < states.len(),
        0 <= j < resolved(states[k]),
    ensures
        states[k].wf(),
        j < states[k].postponed@.len(),
        exists|i: int| 0 <= i < k && copies_postponed(states[k], #[trigger] actions[i], j),
    decreases k,
{
    if k > 0 {
        let pre = states[k - 1];
        let post = states[k];
        assert(pre.steps_to(events[k - 1], post, actions[k - 1]));
        assert(pre.postponed.len() <= usize::MAX);
        lemma_well_formed(states, events, actions, k - 1);
        law_steps_keep_the_extraction_well_formed(pre, events[k - 1], post, actions[k - 1]);
        if j < resolved(pre) {
            lemma_resolved(states, events, actions, k - 1, j);
            let i = choose|i: int|
                0 <= i < k - 1 && copies_postponed(pre, #[trigger] actions[i], j);
            assert(copies_postponed(post, actions[i], j));
        } else {
            assert(copies_postponed(post, actions[k - 1], j));
        }
    }
}

proof fn lemma_well_formed(
    states: Seq<LayerExtraction>,
    events: Seq<ExtractEvent>,
    actions: Seq<ExtractAction>,
    k: int,
)
    requires
        is_extraction(states, events, actions),
        0 <= k < states.len(),
    ensures
        states[k].wf(),
        states[k].target == states[0].target,
    decreases k,
{
    if k > 0 {
        lemma_well_formed(states, events, actions, k - 1);
        assert(states[k - 1].steps_to(events[k - 1], states[k], actions[k - 1]));
        law_steps_keep_the_extraction_well_formed(
            states[k - 1],
            events[k - 1],
            states[k],
            actions[k - 1],
        );
    }
}

/// An extraction that finishes has made a copy in the place of every hard link that was
/// postponed.
pub proof fn law_postponed_links_are_resolved(
    states: Seq<LayerExtraction>,
    events: Seq<ExtractEvent>,
    actions: Seq<ExtractAction>,
    j: int,
)
    requires
        is_extraction(states, events, actions),
        actions.len() > 0,
        actions.last() is Finished,
        0 <= j < states.last().postponed@.len(),
    ensures
        exists|i: int|
            0 <= i < actions.len() && copies_postponed(states.last(), #[trigger] actions[i], j),
{
    let k = states.len() - 2;
    lemma_well_formed(states, events, actions, k);
    assert(states[k].steps_to(events[k], states[k + 1], actions[k]));
    lemma_resolved(states, events, actions, k, j);
    let i = choose|i: int| 0 <= i < k && copies_postponed(states[k], #[trigger] actions[i], j);
    assert(copies_postponed(states.last(), actions[i], j));
}

/// A layer is unpacked from where it was kept when it was pulled.
pub proof fn law_layers_are_unpacked_from_where_they_are_kept(
    pull: ImagePull,
    data: Vec<u8>,
    pulled: ImagePull,
    write: PullAction,
    archive: Seq<char>,
)
    requires
        pull.wf(),
        pull.awaits(PullEvent::Layer(data)),
        pull.steps_to(PullEvent::Layer(data), pulled, write),
        archive == layer_file(pull.files.layers_root@, pull.current()),
    ensures
        write is WriteLayer,
        write->WriteLayer_path@ == archive,
        write->WriteLayer_data == data,
{
}

/// How much is left at most when the archive was read to its end.
pub open spec fn steps_left(extraction: LayerExtraction) -> int {
    let n = extraction.postponed@.len();
    match extraction.stage {
        ExtractStage::PostponedCheck { index } => 3 * (n - index),
        ExtractStage::MakingParent { postponed: Some(index), .. } => 3 * (n - index) - 1,
        ExtractStage::Copying { postponed: Some(index), .. } => 3 * (n - index) - 2,
        _ => 0,
    }
}

/// The archive was read to its end, and postponed hard links are left.
pub open spec fn is_resolving(extraction: LayerExtraction) -> bool {
    match extraction.stage {
        ExtractStage::PostponedCheck { .. } => true,
        ExtractStage::MakingParent { postponed, .. } => postponed is Some,
        ExtractStage::Copying { postponed, .. } => postponed is Some,
        _ => false,
    }
}

/// An extraction ends after its archive: once the archive was read, each step brings the end
/// nearer, and nothing more is read.
pub proof fn law_an_extraction_ends_after_its_archive(
    pre: LayerExtraction,
    event: ExtractEvent,
    post: LayerExtraction,
    action: ExtractAction,
)
    requires
        pre.wf(),
        pre.awaits(event),
        pre.steps_to(event, post, action),
        is_resolving(pre),
    ensures
        is_resolving(post) || post.stage is Over,
        is_resolving(post) ==> 0 < steps_left(post) < steps_left(pre),
        action !is NextEntry,
{
    assert(pre.postponed.len() <= usize::MAX);
}

} // verus!
