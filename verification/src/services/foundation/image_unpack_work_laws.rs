//! What becomes of the entries of a layer.
use vstd::prelude::*;

use crate::bytes::shown;
use crate::error::DroidError;
use crate::models::Digest;
use crate::paths::{file_name_of, parent_of, path_joined};
use crate::services::foundation::image_unpack_laws::{
    copies_postponed, is_extraction, law_postponed_links_are_resolved,
    law_steps_keep_the_extraction_well_formed,
};
use crate::services::foundation::image_unpack_service::{
    broken_off, ExtractAction, ExtractEvent, ExtractStage, ImageUnpackServiceImpl, LayerEntry,
    LayerExtraction,
};
use crate::text::replaced;
use vstd::utf8::encode_utf8;

verus! {

/// The entry `entry` is the event at place `i` of an extraction.
pub open spec fn reads_entry(
    states: Seq<LayerExtraction>,
    events: Seq<ExtractEvent>,
    i: int,
    entry: LayerEntry,
) -> bool {
    &&& 0 <= i < events.len()
    &&& states[i].stage is Reading
    &&& events[i] == ExtractEvent::Entry(entry)
}

/// The directory that an entry stands in.
pub open spec fn place_of(target: Seq<u8>, entry: LayerEntry) -> Seq<u8> {
    path_joined(
        target,
        match parent_of(entry.path@) {
            Some(dir) => dir,
            None => Seq::empty(),
        },
    )
}

/// The name of the entry starts with `.wh.`, which makes it a whiteout.
pub open spec fn is_whiteout(entry: LayerEntry) -> bool {
    file_name_of(entry.path@) matches Some(name) && encode_utf8(".wh."@).is_prefix_of(name)
}

/// The entry is a whiteout for all that is in its directory.
pub open spec fn is_opaque_whiteout(entry: LayerEntry) -> bool {
    file_name_of(entry.path@) == Some(encode_utf8(".wh..wh..opq"@))
}

/// The action looks something up at `path`.
pub open spec fn looks_up(action: ExtractAction, path: Seq<u8>) -> bool {
    action matches ExtractAction::LookUp { path: p } && p@ == path
}

/// The action removes the directory at `path`.
pub open spec fn removes_dir(action: ExtractAction, path: Seq<u8>) -> bool {
    action matches ExtractAction::RemoveDirectory { path: p } && p@ == path
}

/// The action makes the directory at `path`.
pub open spec fn makes_dir(action: ExtractAction, path: Seq<u8>) -> bool {
    action matches ExtractAction::MakeDirectory { path: p } && p@ == path
}

/// The action copies the file at `from` to `to`.
pub open spec fn copies(action: ExtractAction, from: Seq<u8>, to: Seq<u8>) -> bool {
    action matches ExtractAction::CopyFile { from: f, to: t } && f@ == from && t@ == to
}

/// The action gives the extraction up with a message.
pub open spec fn fails_with(action: ExtractAction, message: Seq<char>) -> bool {
    action matches ExtractAction::Failed(DroidError::Filesystem(m)) && m@ == message
}

proof fn lemma_at(
    states: Seq<LayerExtraction>,
    events: Seq<ExtractEvent>,
    actions: Seq<ExtractAction>,
    n: int,
)
    requires
        is_extraction(states, events, actions),
        0 <= n < states.len(),
    ensures
        states[n].wf(),
        states[n].target == states[0].target,
    decreases n,
{
    if n > 0 {
        lemma_at(states, events, actions, n - 1);
        assert(states[n - 1].steps_to(events[n - 1], states[n], actions[n - 1]));
        law_steps_keep_the_extraction_well_formed(
            states[n - 1],
            events[n - 1],
            states[n],
            actions[n - 1],
        );
    }
}

/// The step at place `i`.
proof fn lemma_step(
    states: Seq<LayerExtraction>,
    events: Seq<ExtractEvent>,
    actions: Seq<ExtractAction>,
    i: int,
)
    requires
        is_extraction(states, events, actions),
        0 <= i,
    ensures
        i < events.len() ==> states[i].steps_to(events[i], states[i + 1], actions[i]),
        i < events.len() ==> states[i].target == states[0].target && states[i].wf(),
{
    if i < events.len() {
        lemma_at(states, events, actions, i);
        assert(states[i].steps_to(events[i], states[i + 1], actions[i]));
    }
}

/// The archive is opened, and then read entry by entry.
pub proof fn law_archives_are_read(
    states: Seq<LayerExtraction>,
    events: Seq<ExtractEvent>,
    actions: Seq<ExtractAction>,
)
    requires
        is_extraction(states, events, actions),
        events.len() > 0,
        events[0] is Done,
    ensures
        actions[0] is NextEntry,
        states[1].stage is Reading,
{
    lemma_step(states, events, actions, 0);
}

/// An entry whose name starts with `.wh.` removes, and any other entry is unpacked. Once it was
/// unpacked, whatever kind of entry it is, the next one is read.
pub proof fn law_entries_are_unpacked_one_after_the_other(
    states: Seq<LayerExtraction>,
    events: Seq<ExtractEvent>,
    actions: Seq<ExtractAction>,
    i: int,
    entry: LayerEntry,
)
    requires
        is_extraction(states, events, actions),
        reads_entry(states, events, i, entry),
        !is_whiteout(entry),
    ensures
        actions[i] is UnpackEntry,
        i + 1 < events.len() && events[i + 1] is Done ==> actions[i + 1] is NextEntry && states[i
            + 2].stage is Reading && states[i + 2].postponed@ == states[i].postponed@,
{
    lemma_step(states, events, actions, i);
    lemma_step(states, events, actions, i + 1);
    lemma_opaque_names_are_whiteouts();
}

/// The name of an opaque whiteout starts as that of any other.
proof fn lemma_opaque_names_are_whiteouts()
    ensures
        encode_utf8(".wh."@).is_prefix_of(encode_utf8(".wh..wh..opq"@)),
        encode_utf8(".wh."@).len() == 4,
        encode_utf8(".wh..wh..opq"@).len() == 12,
{
    reveal_strlit(".wh.");
    reveal_strlit(".wh..wh..opq");
    vstd::utf8::is_ascii_chars_encode_utf8(".wh."@);
    vstd::utf8::is_ascii_chars_encode_utf8(".wh..wh..opq"@);
    let a = encode_utf8(".wh."@);
    let b = encode_utf8(".wh..wh..opq"@);
    assert(a =~= b.subrange(0, a.len() as int));
}

/// A whiteout for a whole directory empties it: the directory that the whiteout stands in is
/// removed and made again, if it is there. Then the next entry is read.
pub proof fn law_opaque_whiteouts_empty_their_directory(
    states: Seq<LayerExtraction>,
    events: Seq<ExtractEvent>,
    actions: Seq<ExtractAction>,
    i: int,
    entry: LayerEntry,
)
    requires
        is_extraction(states, events, actions),
        reads_entry(states, events, i, entry),
        is_opaque_whiteout(entry),
    ensures
        looks_up(actions[i], place_of(states[0].target@, entry)),
        i + 1 < events.len() && events[i + 1] == ExtractEvent::Answer(false)
            ==> actions[i + 1] is NextEntry,
        i + 1 < events.len() && events[i + 1] == ExtractEvent::Answer(true) ==> removes_dir(
            actions[i + 1],
            place_of(states[0].target@, entry),
        ),
        i + 2 < events.len() && events[i + 1] == ExtractEvent::Answer(true) && events[i + 2] is Done
            ==> makes_dir(actions[i + 2], place_of(states[0].target@, entry)),
        i + 3 < events.len() && events[i + 1] == ExtractEvent::Answer(true) && events[i + 2] is Done
            && events[i + 3] is Done ==> actions[i + 3] is NextEntry,
{
    lemma_step(states, events, actions, i);
    lemma_step(states, events, actions, i + 1);
    lemma_step(states, events, actions, i + 2);
    lemma_step(states, events, actions, i + 3);
}

/// Any other whiteout removes what has the name behind `.wh.`, in the directory that it stands
/// in: a directory with all that is in it, or a file. Then the next entry is read.
pub proof fn law_whiteouts_remove_what_they_name(
    states: Seq<LayerExtraction>,
    events: Seq<ExtractEvent>,
    actions: Seq<ExtractAction>,
    i: int,
    entry: LayerEntry,
)
    requires
        is_extraction(states, events, actions),
        reads_entry(states, events, i, entry),
        is_whiteout(entry),
        !is_opaque_whiteout(entry),
    ensures
        ({
            let name = file_name_of(entry.path@)->0;
            let gone = path_joined(
                place_of(states[0].target@, entry),
                encode_utf8(shown(name.skip(4))),
            );
            &&& looks_up(actions[i], gone)
            &&& i + 1 < events.len() && events[i + 1] == ExtractEvent::Answer(false)
                ==> actions[i + 1] is NextEntry
            &&& i + 1 < events.len() && events[i + 1] == ExtractEvent::Answer(true) ==> (
            actions[i + 1] matches ExtractAction::LookForDirectory { path } && path@ == gone)
            &&& i + 2 < events.len() && events[i + 1] == ExtractEvent::Answer(true) && events[i + 2]
                == ExtractEvent::Answer(true) ==> removes_dir(actions[i + 2], gone)
            &&& i + 2 < events.len() && events[i + 1] == ExtractEvent::Answer(true) && events[i + 2]
                == ExtractEvent::Answer(false) ==> (
            actions[i + 2] matches ExtractAction::RemoveFile { path } && path@ == gone)
            &&& i + 3 < events.len() && events[i + 1] == ExtractEvent::Answer(true) && events[i
                + 2] is Answer && events[i + 3] is Done ==> actions[i + 3] is NextEntry
        }),
{
    lemma_opaque_names_are_whiteouts();
    lemma_step(states, events, actions, i);
    lemma_step(states, events, actions, i + 1);
    lemma_step(states, events, actions, i + 2);
    lemma_step(states, events, actions, i + 3);
}

/// An entry that cannot be unpacked ends the extraction, unless it is a hard link that tells
/// what it links to.
pub proof fn law_only_hard_links_are_made_up_for(
    states: Seq<LayerExtraction>,
    events: Seq<ExtractEvent>,
    actions: Seq<ExtractAction>,
    i: int,
    entry: LayerEntry,
)
    requires
        is_extraction(states, events, actions),
        reads_entry(states, events, i, entry),
        !is_whiteout(entry),
        i + 1 < events.len(),
        events[i + 1] is Refused,
    ensures
        actions[i + 1] is Failed <==> !entry.is_hardlink || entry.link_name is None,
        actions[i + 1] is Failed ==> fails_with(
            actions[i + 1],
            "failed to unpack `"@ + shown(path_joined(states[0].target@, entry.path@)) + "`"@,
        ),
{
    lemma_opaque_names_are_whiteouts();
    lemma_step(states, events, actions, i);
    lemma_step(states, events, actions, i + 1);
}

/// A hard link that cannot be made becomes a copy of the file that it links to, if that file is
/// there already. The directory of the copy is made first, and the next entry is read after it.
pub proof fn law_hard_links_become_copies(
    states: Seq<LayerExtraction>,
    events: Seq<ExtractEvent>,
    actions: Seq<ExtractAction>,
    i: int,
    entry: LayerEntry,
    link: Vec<u8>,
)
    requires
        is_extraction(states, events, actions),
        reads_entry(states, events, i, entry),
        !is_whiteout(entry),
        entry.is_hardlink,
        entry.link_name == Some(link),
        i + 1 < events.len(),
        events[i + 1] is Refused,
    ensures
        ({
            let from = path_joined(states[0].target@, link@);
            let to = path_joined(states[0].target@, entry.path@);
            &&& looks_up(actions[i + 1], from)
            &&& i + 2 < events.len() && events[i + 2] == ExtractEvent::Answer(true) ==> match parent_of(to) {
                Some(dir) => {
                    &&& makes_dir(actions[i + 2], dir)
                    &&& i + 3 < events.len() && events[i + 3] is Done ==> copies(
                        actions[i + 3],
                        from,
                        to,
                    )
                    &&& i + 4 < events.len() && events[i + 3] is Done && events[i + 4] is Done
                        ==> actions[i + 4] is NextEntry
                },
                None => {
                    &&& copies(actions[i + 2], from, to)
                    &&& i + 3 < events.len() && events[i + 3] is Done ==> actions[i + 3] is NextEntry
                },
            }
        }),
{
    lemma_opaque_names_are_whiteouts();
    lemma_step(states, events, actions, i);
    lemma_step(states, events, actions, i + 1);
    lemma_step(states, events, actions, i + 2);
    lemma_step(states, events, actions, i + 3);
    lemma_step(states, events, actions, i + 4);
}

/// What is postponed stays so.
proof fn lemma_postponed_stays(
    states: Seq<LayerExtraction>,
    events: Seq<ExtractEvent>,
    actions: Seq<ExtractAction>,
    m: int,
    n: int,
    k: int,
)
    requires
        is_extraction(states, events, actions),
        0 <= m <= n < states.len(),
        0 <= k < states[m].postponed@.len(),
    ensures
        k < states[n].postponed@.len(),
        states[n].postponed@[k] == states[m].postponed@[k],
    decreases n,
{
    if m < n {
        lemma_postponed_stays(states, events, actions, m, n - 1, k);
        lemma_step(states, events, actions, n - 1);
    }
}

/// A hard link that cannot be made, to a file that is not there yet, is postponed: the next entry
/// is read, and before the extraction finishes a copy of the file is made in its place.
pub proof fn law_early_hard_links_become_copies(
    states: Seq<LayerExtraction>,
    events: Seq<ExtractEvent>,
    actions: Seq<ExtractAction>,
    i: int,
    entry: LayerEntry,
    link: Vec<u8>,
)
    requires
        is_extraction(states, events, actions),
        reads_entry(states, events, i, entry),
        !is_whiteout(entry),
        entry.is_hardlink,
        entry.link_name == Some(link),
        i + 2 < events.len(),
        events[i + 1] is Refused,
        events[i + 2] == ExtractEvent::Answer(false),
    ensures
        actions[i + 2] is NextEntry,
        actions.last() is Finished ==> exists|j: int|
            0 <= j < actions.len() && copies(
                #[trigger] actions[j],
                path_joined(states[0].target@, link@),
                path_joined(states[0].target@, entry.path@),
            ),
{
    lemma_opaque_names_are_whiteouts();
    lemma_step(states, events, actions, i);
    lemma_step(states, events, actions, i + 1);
    lemma_step(states, events, actions, i + 2);
    let k = states[i + 2].postponed@.len() as int;
    assert(states[i + 3].postponed@[k] == (link, entry.path));
    if actions.last() is Finished {
        let n = states.len() - 1;
        lemma_at(states, events, actions, n);
        lemma_postponed_stays(states, events, actions, i + 3, n, k);
        law_postponed_links_are_resolved(states, events, actions, k);
        let j = choose|j: int|
            0 <= j < actions.len() && copies_postponed(states.last(), #[trigger] actions[j], k);
        assert(copies(
            actions[j],
            path_joined(states[0].target@, link@),
            path_joined(states[0].target@, entry.path@),
        ));
    }
}

/// The archive was read to its end before the state `states[n]`.
pub open spec fn was_read(events: Seq<ExtractEvent>, n: int) -> bool {
    exists|i: int| 0 <= i < n && (#[trigger] events[i]) is EndOfArchive
}

/// The extraction is behind its archive.
spec fn is_behind(extraction: LayerExtraction) -> bool {
    match extraction.stage {
        ExtractStage::PostponedCheck { .. } => true,
        ExtractStage::MakingParent { postponed, .. } => postponed is Some,
        ExtractStage::Copying { postponed, .. } => postponed is Some,
        _ => false,
    }
}

proof fn lemma_behind(
    states: Seq<LayerExtraction>,
    events: Seq<ExtractEvent>,
    actions: Seq<ExtractAction>,
    n: int,
)
    requires
        is_extraction(states, events, actions),
        0 <= n < states.len(),
    ensures
        is_behind(states[n]) ==> was_read(events, n),
        n > 0 && actions[n - 1] is Finished ==> was_read(events, n),
    decreases n,
{
    if n > 0 {
        lemma_behind(states, events, actions, n - 1);
        lemma_step(states, events, actions, n - 1);
        if is_behind(states[n - 1]) {
            let i = choose|i: int| 0 <= i < n - 1 && (#[trigger] events[i]) is EndOfArchive;
            assert(events[i] is EndOfArchive);
        }
        if events[n - 1] is EndOfArchive {
            assert(was_read(events, n));
        }
    }
}

/// A layer counts as unpacked only when its archive was read to its end.
pub proof fn law_layers_are_unpacked_to_their_end(
    states: Seq<LayerExtraction>,
    events: Seq<ExtractEvent>,
    actions: Seq<ExtractAction>,
)
    requires
        is_extraction(states, events, actions),
        actions.len() > 0,
        actions.last() is Finished,
    ensures
        exists|i: int| 0 <= i < events.len() && (#[trigger] events[i]) is EndOfArchive,
{
    lemma_behind(states, events, actions, events.len() as int);
}

/// When the archive was read to its end, the layer is unpacked if no hard link was postponed.
/// Otherwise it is looked whether the file that the first of them links to is there, and so on
/// for each of them. One to a file that is still not there ends the extraction.
pub proof fn law_postponed_links_are_taken_up_in_order(
    pre: LayerExtraction,
    event: ExtractEvent,
    post: LayerExtraction,
    action: ExtractAction,
)
    requires
        pre.wf(),
        pre.steps_to(event, post, action),
    ensures
        event is EndOfArchive ==> {
            if pre.postponed@.len() == 0 {
                action is Finished
            } else {
                &&& looks_up(action, path_joined(pre.target@, pre.postponed@[0].0@))
                &&& post.stage == (ExtractStage::PostponedCheck { index: 0 })
            }
        },
        pre.stage matches ExtractStage::PostponedCheck { index } ==> {
            let from = path_joined(pre.target@, pre.postponed@[index as int].0@);
            let to = path_joined(pre.target@, pre.postponed@[index as int].1@);
            &&& event == ExtractEvent::Answer(false) ==> fails_with(
                action,
                "failed to unpack `"@ + shown(to) + "` (hardlink target `"@ + shown(from)
                    + "` not found)"@,
            )
            &&& event == ExtractEvent::Answer(true) ==> match parent_of(to) {
                Some(dir) => {
                    &&& makes_dir(action, dir)
                    &&& post.stage matches ExtractStage::MakingParent { from: f, to: t, postponed }
                    &&& f@ == from
                    &&& t@ == to
                    &&& postponed == Some(index)
                },
                None => copies(action, from, to),
            }
        },
        pre.stage matches ExtractStage::MakingParent { from, to, postponed } ==> event is Done
            ==> {
            &&& copies(action, from@, to@)
            &&& post.stage matches ExtractStage::Copying { from: f, to: t, postponed: p }
            &&& f@ == from@
            &&& t@ == to@
            &&& p == postponed
        },
        pre.stage matches ExtractStage::Copying { postponed: Some(index), .. } ==> event is Done
            ==> {
            if index + 1 < pre.postponed@.len() {
                &&& looks_up(action, path_joined(pre.target@, pre.postponed@[index + 1].0@))
                &&& post.stage matches ExtractStage::PostponedCheck { index: next }
                &&& next == index + 1
            } else {
                action is Finished
            }
        },
        pre.stage matches ExtractStage::Copying { from, to, .. } ==> (
        event matches ExtractEvent::Refused(e) ==> fails_with(
            action,
            "failed to copy hardlink `"@ + shown(from@) + "` -> `"@ + shown(to@) + "`: "@ + e@,
        )),
{
    assert(pre.postponed.len() <= usize::MAX);
}

/// What cannot be done ends the extraction for that reason, but for the unpacking of an entry and
/// the copy of a hard link, which have reasons of their own. Nothing else ends it but its end, and
/// a hard link to nothing.
pub proof fn law_what_ends_an_extraction_early(
    pre: LayerExtraction,
    event: ExtractEvent,
    post: LayerExtraction,
    action: ExtractAction,
)
    requires
        pre.wf(),
        pre.steps_to(event, post, action),
    ensures
        event matches ExtractEvent::Refused(e) ==> pre.stage !is Unpacking && pre.stage !is Copying
            ==> fails_with(action, e@),
        action is Failed ==> event is Refused || (pre.stage is PostponedCheck && event
            == ExtractEvent::Answer(false)),
        post.target == pre.target,
{
    assert(pre.postponed.len() <= usize::MAX);
}

/// A layer is unpacked from its file into the directory that was asked for, with no hard link
/// postponed at first. Its directory is the one that layers with its digest are kept in.
pub proof fn law_layers_are_unpacked_where_asked(
    service: &ImageUnpackServiceImpl,
    digest: &Digest,
    target: Vec<u8>,
    r: (String, LayerExtraction, ExtractAction),
)
    requires
        call_ensures(ImageUnpackServiceImpl::unpack_layer, (service, digest, target), r),
    ensures
        r.0@ == path_joined(service.files.layers_root@, replaced(digest.0@, ':', "-"@)),
        r.2 matches ExtractAction::OpenArchive { path } && path@ == path_joined(
            r.0@,
            "layer.tar.gz"@,
        ),
        r.1.target == target,
        r.1.postponed@.len() == 0,
        r.1.stage is Opening,
{
}

/// An extraction begins by opening the archive, and each step of it is one that the laws speak of.
pub proof fn law_an_extraction_begins_with_its_archive(
    archive: String,
    target: Vec<u8>,
    begun: (LayerExtraction, ExtractAction),
    pre: &mut LayerExtraction,
    event: ExtractEvent,
    action: ExtractAction,
)
    requires
        call_ensures(LayerExtraction::begin, (archive, target), begun),
        call_ensures(LayerExtraction::step, (pre, event), action),
    ensures
        begun.1 == (ExtractAction::OpenArchive { path: archive }),
        begun.0.target == target,
        begun.0.postponed@.len() == 0,
        begun.0.stage is Opening,
        old(pre).steps_to(event, *final(pre), action),
{
}

/// An extraction takes the answer to what it asked last, and nothing else.
pub proof fn law_an_extraction_takes_the_answer_to_its_question(
    extraction: &LayerExtraction,
    event: &ExtractEvent,
    r: bool,
)
    requires
        call_ensures(LayerExtraction::is_awaiting, (extraction, event), r),
    ensures
        r == match extraction.stage {
            ExtractStage::Over => false,
            ExtractStage::Reading => event is Entry || event is EndOfArchive || event is Refused,
            ExtractStage::ClearCheck { .. }
            | ExtractStage::RemovalCheck { .. }
            | ExtractStage::KindCheck { .. }
            | ExtractStage::LinkCheck { .. }
            | ExtractStage::PostponedCheck { .. } => event is Answer,
            ExtractStage::Opening
            | ExtractStage::Clearing { .. }
            | ExtractStage::Remaking
            | ExtractStage::Removing
            | ExtractStage::Unpacking { .. }
            | ExtractStage::MakingParent { .. }
            | ExtractStage::Copying { .. } => event is Done || event is Refused,
        },
{
}

/// An extraction that broke off is an error of its process.
pub proof fn law_extractions_that_break_off(reason: &str, r: DroidError)
    requires
        call_ensures(broken_off, (reason,), r),
    ensures
        r matches DroidError::Process(m) && m@ == "spawn_blocking: "@ + reason@,
{
}

/// Bytes that write a text are shown as that text.
pub proof fn law_texts_are_shown_as_they_are(text: Seq<char>)
    ensures
        shown(encode_utf8(text)) == text,
{
    vstd::utf8::encode_utf8_valid_utf8(text);
    vstd::utf8::encode_utf8_decode_utf8(text);
}

} // verus!
