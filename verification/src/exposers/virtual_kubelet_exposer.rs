//! The kubelet interface: what the control plane can ask of the node.
use vstd::prelude::*;

use crate::models::{NodeProfile, PodRunStatus};
use crate::text::{cat3, decimal, join, joined, same, show, views};

verus! {

/// How many lines of a pod's log are kept.
pub const LOG_CAPACITY: usize = 10_000;

/// The type of the answers with logs.
pub const LOG_TYPE: &'static str = "text/plain";

/// The type of the answers with metrics.
pub const METRICS_TYPE: &'static str = "text/plain; version=0.0.4";

// ---------------------------------------------------------------------------
// Tables
// ---------------------------------------------------------------------------

/// A table has an entry for `key`.
pub open spec fn has_key<V>(entries: Seq<(String, V)>, key: Seq<char>) -> bool {
    exists|i: int| 0 <= i < entries.len() && (#[trigger] entries[i]).0@ == key
}

/// The position of the entry for `key`.
pub open spec fn slot<V>(entries: Seq<(String, V)>, key: Seq<char>) -> int {
    choose|i: int| 0 <= i < entries.len() && (#[trigger] entries[i]).0@ == key
}

/// No two entries have the same key.
pub open spec fn unique_keys<V>(entries: Seq<(String, V)>) -> bool {
    forall|i: int, j: int|
        0 <= i < j < entries.len() ==> (#[trigger] entries[i]).0@ != (#[trigger] entries[j]).0@
}

/// An entry is the one that its key leads to.
proof fn lemma_slot<V>(entries: Seq<(String, V)>, i: int)
    requires
        unique_keys(entries),
        0 <= i < entries.len(),
    ensures
        has_key(entries, entries[i].0@),
        slot(entries, entries[i].0@) == i,
{
}

/// Changing a table under one key, or adding an entry for it, leaves the others alone.
proof fn lemma_other_slots<V>(before: Seq<(String, V)>, after: Seq<(String, V)>, key: Seq<char>)
    requires
        unique_keys(before),
        unique_keys(after),
        before.len() <= after.len(),
        forall|i: int|
            0 <= i < before.len() && (#[trigger] before[i]).0@ != key ==> after[i] == before[i],
        forall|i: int|
            0 <= i < before.len() && (#[trigger] before[i]).0@ == key ==> after[i].0@ == key,
        forall|i: int| before.len() <= i < after.len() ==> (#[trigger] after[i]).0@ == key,
    ensures
        forall|k: Seq<char>|
            k != key ==> #[trigger] has_key(after, k) == has_key(before, k) && (has_key(before, k)
                ==> after[slot(after, k)] == before[slot(before, k)]),
{
    assert forall|k: Seq<char>| k != key implies #[trigger] has_key(after, k) == has_key(before, k)
        && (has_key(before, k) ==> after[slot(after, k)] == before[slot(before, k)]) by {
        if has_key(before, k) {
            let i = slot(before, k);
            assert(after[i].0@ == k);
            lemma_slot(after, i);
        }
        if has_key(after, k) {
            let i = slot(after, k);
            assert(i < before.len());
            if before[i].0@ == key {
                assert(false);
            }
            assert(before[i].0@ == k);
        }
    }
}

/// The position of the entry for `key`.
fn find<V>(entries: &Vec<(String, V)>, key: &str) -> (r: Option<usize>)
    requires
        unique_keys(entries@),
    ensures
        match r {
            Some(i) => i < entries@.len() && entries@[i as int].0@ == key@ && slot(entries@, key@)
                == i,
            None => !has_key(entries@, key@),
        },
{
    let mut i: usize = 0;
    while i < entries.len()
        invariant
            i <= entries@.len(),
            unique_keys(entries@),
            forall|j: int| 0 <= j < i ==> (#[trigger] entries@[j]).0@ != key@,
        decreases entries.len() - i,
    {
        if same(entries[i].0.as_str(), key) {
            assert(0 <= i < entries@.len() && entries@[i as int].0@ == key@);
            return Some(i);
        }
        i = i + 1;
    }
    None
}

// ---------------------------------------------------------------------------
// Logs and statuses
// ---------------------------------------------------------------------------

/// The last `n` items of a sequence.
pub open spec fn last_of<T>(s: Seq<T>, n: nat) -> Seq<T> {
    if s.len() > n {
        s.skip(s.len() - n)
    } else {
        s
    }
}

/// What the kubelet interface tells of the node.
#[derive(Debug)]
pub struct KubeletState {
    pub node_profile: Option<NodeProfile>,
    /// The last lines that each pod has written, by the identifier of the pod.
    pub pod_logs: Vec<(String, Vec<String>)>,
    /// The last status of each pod, by the identifier of the pod.
    pub pod_statuses: Vec<(String, PodRunStatus)>,
}

impl KubeletState {
    /// The state is one that the operations lead to.
    pub open spec fn wf(self) -> bool {
        &&& unique_keys(self.pod_logs@)
        &&& unique_keys(self.pod_statuses@)
        &&& forall|i: int|
            0 <= i < self.pod_logs@.len() ==> 0 < (#[trigger] self.pod_logs@[i]).1@.len()
                <= LOG_CAPACITY
        &&& forall|i: int|
            0 <= i < self.pod_statuses@.len() ==> (#[trigger] self.pod_statuses@[i]).0@
                == self.pod_statuses@[i].1.pod_uid@
    }

    /// The lines that are kept of a pod.
    pub open spec fn log_of(self, pod_uid: Seq<char>) -> Seq<Seq<char>> {
        if has_key(self.pod_logs@, pod_uid) {
            views(self.pod_logs@[slot(self.pod_logs@, pod_uid)].1@)
        } else {
            Seq::empty()
        }
    }

    /// The status that is known of a pod.
    pub open spec fn status_of(self, pod_uid: Seq<char>) -> Option<PodRunStatus> {
        if has_key(self.pod_statuses@, pod_uid) {
            Some(self.pod_statuses@[slot(self.pod_statuses@, pod_uid)].1)
        } else {
            None
        }
    }

    pub fn new() -> (r: Self)
        ensures
            r.wf(),
            r.node_profile is None,
            forall|uid: Seq<char>| #[trigger] r.log_of(uid) == Seq::<Seq<char>>::empty(),
            forall|uid: Seq<char>| #[trigger] r.status_of(uid) is None,
    {
        KubeletState { node_profile: None, pod_logs: Vec::new(), pod_statuses: Vec::new() }
    }

    /// Adds a line to the log of a pod. Of each log the last lines are kept.
    pub fn append_log(&mut self, pod_uid: &str, line: String)
        requires
            old(self).wf(),
        ensures
            final(self).wf(),
            final(self).log_of(pod_uid@) == last_of(
                old(self).log_of(pod_uid@).push(line@),
                LOG_CAPACITY as nat,
            ),
            forall|uid: Seq<char>|
                uid != pod_uid@ ==> #[trigger] final(self).log_of(uid) == old(self).log_of(uid),
            final(self).pod_statuses == old(self).pod_statuses,
            final(self).node_profile == old(self).node_profile,
    {
        let ghost before = self.pod_logs@;
        let ghost lines_before = old(self).log_of(pod_uid@);
        let ghost text = line@;
        match find(&self.pod_logs, pod_uid) {
            Some(i) => {
                let ghost kept_before = self.pod_logs@[i as int].1@;
                self.pod_logs[i].1.push(line);
                if self.pod_logs[i].1.len() > LOG_CAPACITY {
                    let extra: usize = self.pod_logs[i].1.len() - LOG_CAPACITY;
                    let kept = self.pod_logs[i].1.split_off(extra);
                    self.pod_logs[i].1 = kept;
                }
                proof {
                    lemma_slot(before, i as int);
                    lemma_slot(self.pod_logs@, i as int);
                    assert(lines_before == views(kept_before));
                    assert(views(self.pod_logs@[i as int].1@) =~= last_of(
                        lines_before.push(text),
                        LOG_CAPACITY as nat,
                    ));
                }
            },
            None => {
                let mut lines: Vec<String> = Vec::new();
                lines.push(line);
                self.pod_logs.push((pod_uid.to_owned(), lines));
                proof {
                    lemma_slot(self.pod_logs@, before.len() as int);
                    assert(views(lines@) =~= last_of(lines_before.push(text), LOG_CAPACITY as nat));
                }
            },
        }
        proof {
            lemma_other_slots(before, self.pod_logs@, pod_uid@);
            assert forall|uid: Seq<char>| uid != pod_uid@ implies #[trigger] self.log_of(uid)
                == old(self).log_of(uid) by {
                assert(has_key(self.pod_logs@, uid) == has_key(before, uid));
            }
        }
    }

    /// Takes note of the status of a pod, in the place of what was known of it.
    pub fn update_status(&mut self, status: PodRunStatus)
        requires
            old(self).wf(),
        ensures
            final(self).wf(),
            final(self).status_of(status.pod_uid@) == Some(status),
            forall|uid: Seq<char>|
                uid != status.pod_uid@ ==> #[trigger] final(self).status_of(uid) == old(
                    self,
                ).status_of(uid),
            final(self).pod_logs == old(self).pod_logs,
            final(self).node_profile == old(self).node_profile,
    {
        let ghost before = self.pod_statuses@;
        let ghost key = status.pod_uid@;
        match find(&self.pod_statuses, status.pod_uid.as_str()) {
            Some(i) => {
                self.pod_statuses[i].1 = status;
                proof {
                    lemma_slot(self.pod_statuses@, i as int);
                }
            },
            None => {
                self.pod_statuses.push((status.pod_uid.clone(), status));
                proof {
                    lemma_slot(self.pod_statuses@, before.len() as int);
                }
            },
        }
        proof {
            lemma_other_slots(before, self.pod_statuses@, key);
            assert forall|uid: Seq<char>| uid != key implies #[trigger] self.status_of(uid)
                == old(self).status_of(uid) by {
                assert(has_key(self.pod_statuses@, uid) == has_key(before, uid));
            }
        }
    }

    /// The statuses of all pods, one for each pod.
    pub fn list_pods(&self) -> (r: Vec<&PodRunStatus>)
        requires
            self.wf(),
        ensures
            forall|i: int|
                0 <= i < r@.len() ==> self.status_of((#[trigger] r@[i]).pod_uid@) == Some(*r@[i]),
            forall|i: int, j: int|
                0 <= i < j < r@.len() ==> (#[trigger] r@[i]).pod_uid@ != (
                #[trigger] r@[j]).pod_uid@,
            forall|uid: Seq<char>|
                self.status_of(uid) is Some ==> exists|i: int|
                    0 <= i < r@.len() && (#[trigger] r@[i]).pod_uid@ == uid,
    {
        let mut out: Vec<&PodRunStatus> = Vec::new();
        let mut i: usize = 0;
        while i < self.pod_statuses.len()
            invariant
                i <= self.pod_statuses@.len(),
                out@.len() == i,
                forall|j: int| 0 <= j < i ==> *(#[trigger] out@[j]) == self.pod_statuses@[j].1,
            decreases self.pod_statuses.len() - i,
        {
            out.push(&self.pod_statuses[i].1);
            i = i + 1;
        }
        proof {
            assert forall|j: int| 0 <= j < out@.len() implies self.status_of(
                (#[trigger] out@[j]).pod_uid@,
            ) == Some(*out@[j]) by {
                lemma_slot(self.pod_statuses@, j);
            }
            assert forall|uid: Seq<char>| self.status_of(uid) is Some implies exists|j: int|
                0 <= j < out@.len() && (#[trigger] out@[j]).pod_uid@ == uid by {
                let j = slot(self.pod_statuses@, uid);
                assert(out@[j].pod_uid@ == uid);
            }
        }
        out
    }

    /// The log of a pod, as one text.
    pub fn container_logs(&self, pod_id: &str) -> (r: String)
        requires
            self.wf(),
        ensures
            r@ == joined(self.log_of(pod_id@), "\n"@),
    {
        match find(&self.pod_logs, pod_id) {
            Some(i) => {
                proof {
                    lemma_slot(self.pod_logs@, i as int);
                }
                join(&self.pod_logs[i].1, "\n")
            },
            None => {
                let empty: Vec<String> = Vec::new();
                assert(views(empty@) =~= Seq::<Seq<char>>::empty());
                join(&empty, "\n")
            },
        }
    }

    /// What is measured on the node, as text. Nothing is known before there is a profile.
    pub fn metrics(&self) -> (r: String)
        ensures
            match self.node_profile {
                Some(profile) => r@ == metrics_text(profile),
                None => r@ == Seq::<char>::empty(),
            },
    {
        match &self.node_profile {
            Some(profile) => {
                let ready: u64 = if profile.conditions.ready {
                    1
                } else {
                    0
                };
                let mut out: String = sample(
                    "# HELP droidnode_memory_available_bytes Available memory in bytes\n# TYPE droidnode_memory_available_bytes gauge\ndroidnode_memory_available_bytes ",
                    profile.memory.available_bytes,
                );
                out.append(
                    sample(
                        "# HELP droidnode_memory_total_bytes Total memory in bytes\n# TYPE droidnode_memory_total_bytes gauge\ndroidnode_memory_total_bytes ",
                        profile.memory.total_bytes,
                    ).as_str(),
                );
                out.append(
                    sample(
                        "# HELP droidnode_storage_available_bytes Available storage in bytes\n# TYPE droidnode_storage_available_bytes gauge\ndroidnode_storage_available_bytes ",
                        profile.storage.available_bytes,
                    ).as_str(),
                );
                out.append(
                    sample(
                        "# HELP droidnode_battery_percent Battery charge percentage\n# TYPE droidnode_battery_percent gauge\ndroidnode_battery_percent ",
                        profile.battery.percent as u64,
                    ).as_str(),
                );
                out.append(
                    sample(
                        "# HELP droidnode_node_ready Node readiness (1=ready)\n# TYPE droidnode_node_ready gauge\ndroidnode_node_ready ",
                        ready,
                    ).as_str(),
                );
                out
            },
            None => String::new(),
        }
    }
}

impl Default for KubeletState {
    fn default() -> (r: Self)
        ensures
            r.wf(),
            r.node_profile is None,
            forall|uid: Seq<char>| #[trigger] r.log_of(uid) == Seq::<Seq<char>>::empty(),
            forall|uid: Seq<char>| #[trigger] r.status_of(uid) is None,
    {
        KubeletState::new()
    }
}

/// The address that the node is reached at: the one that was found, or else its own.
pub fn local_address(found: Option<String>) -> (r: String)
    ensures
        match found {
            Some(address) => r == address,
            None => r@ == "127.0.0.1"@,
        },
{
    match found {
        Some(address) => address,
        None => "127.0.0.1".to_owned(),
    }
}

/// The answer that the node is alive.
pub fn healthz() -> (r: &'static str)
    ensures
        r@ == "ok"@,
{
    "ok"
}

// ---------------------------------------------------------------------------
// Metrics
// ---------------------------------------------------------------------------

/// A measured value after its description.
pub open spec fn sample_text(head: Seq<char>, value: nat) -> Seq<char> {
    head + decimal(value) + "\n"@
}

/// What is measured on a node, in the text format of Prometheus.
pub open spec fn metrics_text(profile: NodeProfile) -> Seq<char> {
    sample_text(
        "# HELP droidnode_memory_available_bytes Available memory in bytes\n# TYPE droidnode_memory_available_bytes gauge\ndroidnode_memory_available_bytes "@,
        profile.memory.available_bytes as nat,
    ) + sample_text(
        "# HELP droidnode_memory_total_bytes Total memory in bytes\n# TYPE droidnode_memory_total_bytes gauge\ndroidnode_memory_total_bytes "@,
        profile.memory.total_bytes as nat,
    ) + sample_text(
        "# HELP droidnode_storage_available_bytes Available storage in bytes\n# TYPE droidnode_storage_available_bytes gauge\ndroidnode_storage_available_bytes "@,
        profile.storage.available_bytes as nat,
    ) + sample_text(
        "# HELP droidnode_battery_percent Battery charge percentage\n# TYPE droidnode_battery_percent gauge\ndroidnode_battery_percent "@,
        profile.battery.percent as nat,
    ) + sample_text(
        "# HELP droidnode_node_ready Node readiness (1=ready)\n# TYPE droidnode_node_ready gauge\ndroidnode_node_ready "@,
        if profile.conditions.ready {
            1
        } else {
            0
        },
    )
}

fn sample(head: &str, value: u64) -> (r: String)
    ensures
        r@ == sample_text(head@, value as nat),
{
    cat3(head, show(value).as_str(), "\n")
}

// ---------------------------------------------------------------------------

/// The log of a pod after `lines` were appended to it, one after the other.
pub open spec fn log_after(log: Seq<Seq<char>>, lines: Seq<Seq<char>>) -> Seq<Seq<char>>
    decreases lines.len(),
{
    if lines.len() == 0 {
        log
    } else {
        last_of(log_after(log, lines.drop_last()).push(lines.last()), LOG_CAPACITY as nat)
    }
}

/// The log of a pod holds the last lines that the pod has written, in their order,
/// however many it has written.
pub proof fn law_the_log_holds_the_last_lines(lines: Seq<Seq<char>>)
    ensures
        log_after(Seq::empty(), lines) == (if lines.len() > 10_000 {
            lines.skip(lines.len() - 10_000)
        } else {
            lines
        }),
    decreases lines.len(),
{
    if lines.len() == 0 {
        assert(last_of(lines, LOG_CAPACITY as nat) =~= Seq::<Seq<char>>::empty());
    } else {
        law_the_log_holds_the_last_lines(lines.drop_last());
        assert(last_of(
            last_of(lines.drop_last(), LOG_CAPACITY as nat).push(lines.last()),
            LOG_CAPACITY as nat,
        ) =~= last_of(lines, LOG_CAPACITY as nat));
    }
}

/// A log never holds more lines than are to be kept.
pub proof fn law_logs_are_bounded(state: KubeletState, pod_uid: Seq<char>)
    requires
        state.wf(),
    ensures
        state.log_of(pod_uid).len() <= LOG_CAPACITY,
{
    if has_key(state.pod_logs@, pod_uid) {
        let i = slot(state.pod_logs@, pod_uid);
        assert(state.pod_logs@[i].1@.len() <= LOG_CAPACITY);
    }
}

/// The log of a pod is what is kept under its name, and its status is what is kept under its
/// identifier.
pub proof fn law_pods_are_found_by_their_keys(state: KubeletState, uid: Seq<char>, i: int)
    requires
        state.wf(),
    ensures
        0 <= i < state.pod_logs@.len() && state.pod_logs@[i].0@ == uid ==> state.log_of(uid)
            == views(state.pod_logs@[i].1@),
        (forall|j: int| 0 <= j < state.pod_logs@.len() ==> (#[trigger] state.pod_logs@[j]).0@ != uid)
            ==> state.log_of(uid).len() == 0,
        0 <= i < state.pod_statuses@.len() && state.pod_statuses@[i].0@ == uid ==> state.status_of(
            uid,
        ) == Some(state.pod_statuses@[i].1),
        (forall|j: int|
            0 <= j < state.pod_statuses@.len() ==> (#[trigger] state.pod_statuses@[j]).0@ != uid)
            ==> state.status_of(uid) is None,
{
    if 0 <= i < state.pod_logs@.len() {
        lemma_slot(state.pod_logs@, i);
    }
    if 0 <= i < state.pod_statuses@.len() {
        lemma_slot(state.pod_statuses@, i);
    }
}

/// A line that is added comes behind the lines that a pod has written before, of which the first
/// one goes when there are too many. Nothing else changes.
pub proof fn law_lines_are_added_at_the_end(
    state: &mut KubeletState,
    pod_uid: &str,
    line: String,
    other: Seq<char>,
    i: int,
)
    requires
        call_ensures(KubeletState::append_log, (state, pod_uid, line), ()),
        old(state).wf(),
    ensures
        final(state).wf(),
        ({
            let before = old(state).log_of(pod_uid@);
            let after = final(state).log_of(pod_uid@);
            if before.len() < 10_000 {
                after == before.push(line@)
            } else {
                &&& after.len() == 10_000
                &&& after[9_999] == line@
                &&& 0 <= i < 9_999 ==> after[i] == before[i + 1]
            }
        }),
        other != pod_uid@ ==> final(state).log_of(other) == old(state).log_of(other),
        final(state).status_of(other) == old(state).status_of(other),
        final(state).node_profile == old(state).node_profile,
{
    law_logs_are_bounded(*old(state), pod_uid@);
}

/// The last status of a pod takes the place of the one before. Nothing else changes.
pub proof fn law_the_last_status_counts(
    state: &mut KubeletState,
    status: PodRunStatus,
    other: Seq<char>,
)
    requires
        call_ensures(KubeletState::update_status, (state, status), ()),
        old(state).wf(),
    ensures
        final(state).wf(),
        final(state).status_of(status.pod_uid@) == Some(status),
        other != status.pod_uid@ ==> final(state).status_of(other) == old(state).status_of(other),
        final(state).log_of(other) == old(state).log_of(other),
        final(state).node_profile == old(state).node_profile,
{
}

/// The pods that are listed are those that have a status, each with its last one.
pub proof fn law_every_pod_is_listed_once(
    state: &KubeletState,
    r: Vec<&PodRunStatus>,
    uid: Seq<char>,
    i: int,
    j: int,
)
    requires
        call_ensures(KubeletState::list_pods, (state,), r),
        state.wf(),
    ensures
        0 <= i < r@.len() ==> state.status_of(r@[i].pod_uid@) == Some(*r@[i]),
        state.status_of(uid) is Some ==> exists|k: int|
            0 <= k < r@.len() && *(#[trigger] r@[k]) == state.status_of(uid)->0,
        0 <= i < r@.len() && 0 <= j < r@.len() && r@[i].pod_uid@ == r@[j].pod_uid@ ==> i == j,
{
    if state.status_of(uid) is Some {
        let k = choose|k: int| 0 <= k < r@.len() && (#[trigger] r@[k]).pod_uid@ == uid;
        assert(*r@[k] == state.status_of(uid)->0);
    }
}

/// Asking for the log of a pod gives its lines with line feeds between them, and nothing for a pod
/// that has written none.
pub proof fn law_logs_are_given_line_by_line(state: &KubeletState, pod_id: &str, r: String)
    requires
        call_ensures(KubeletState::container_logs, (state, pod_id), r),
        state.wf(),
    ensures
        ({
            let lines = state.log_of(pod_id@);
            &&& lines.len() == 0 ==> r@.len() == 0
            &&& lines.len() == 1 ==> r@ == lines[0]
            &&& lines.len() > 1 ==> r@ == joined(lines.drop_last(), seq!['\n']) + seq!['\n']
                + lines.last()
        }),
{
    reveal_strlit("\n");
    assert("\n"@ =~= seq!['\n']);
}

/// One value, with what it is and its name before it.
pub open spec fn is_sample(text: Seq<char>, name: Seq<char>, help: Seq<char>, value: nat) -> bool {
    text == "# HELP "@ + name + " "@ + help + "\n# TYPE "@ + name + " gauge\n"@ + name + " "@
        + decimal(value) + "\n"@
}

/// One for what is so, and zero for what is not.
pub open spec fn one_if(b: bool) -> nat {
    if b {
        1
    } else {
        0
    }
}

/// The metrics of a node tell the memory that it has free and has, the space for layers, the
/// charge of its battery and whether it is ready, in this order. A node without a profile has
/// none.
pub proof fn law_metrics_tell_of_the_profile(state: &KubeletState, r: String)
    requires
        call_ensures(KubeletState::metrics, (state,), r),
    ensures
        state.node_profile is None ==> r@.len() == 0,
        state.node_profile matches Some(profile) ==> exists|
            a: Seq<char>,
            b: Seq<char>,
            c: Seq<char>,
            d: Seq<char>,
            e: Seq<char>,
        |
            {
                &&& r@ == a + b + c + d + e
                &&& #[trigger] is_sample(
                    a,
                    "droidnode_memory_available_bytes"@,
                    "Available memory in bytes"@,
                    profile.memory.available_bytes as nat,
                )
                &&& #[trigger] is_sample(
                    b,
                    "droidnode_memory_total_bytes"@,
                    "Total memory in bytes"@,
                    profile.memory.total_bytes as nat,
                )
                &&& #[trigger] is_sample(
                    c,
                    "droidnode_storage_available_bytes"@,
                    "Available storage in bytes"@,
                    profile.storage.available_bytes as nat,
                )
                &&& #[trigger] is_sample(
                    d,
                    "droidnode_battery_percent"@,
                    "Battery charge percentage"@,
                    profile.battery.percent as nat,
                )
                &&& #[trigger] is_sample(
                    e,
                    "droidnode_node_ready"@,
                    "Node readiness (1=ready)"@,
                    one_if(profile.conditions.ready),
                )
            },
{
    if let Some(profile) = state.node_profile {
        let ready = one_if(profile.conditions.ready);
        let a = sample_text(
            "# HELP droidnode_memory_available_bytes Available memory in bytes\n# TYPE droidnode_memory_available_bytes gauge\ndroidnode_memory_available_bytes "@,
            profile.memory.available_bytes as nat,
        );
        let b = sample_text(
            "# HELP droidnode_memory_total_bytes Total memory in bytes\n# TYPE droidnode_memory_total_bytes gauge\ndroidnode_memory_total_bytes "@,
            profile.memory.total_bytes as nat,
        );
        let c = sample_text(
            "# HELP droidnode_storage_available_bytes Available storage in bytes\n# TYPE droidnode_storage_available_bytes gauge\ndroidnode_storage_available_bytes "@,
            profile.storage.available_bytes as nat,
        );
        let d = sample_text(
            "# HELP droidnode_battery_percent Battery charge percentage\n# TYPE droidnode_battery_percent gauge\ndroidnode_battery_percent "@,
            profile.battery.percent as nat,
        );
        let e = sample_text(
            "# HELP droidnode_node_ready Node readiness (1=ready)\n# TYPE droidnode_node_ready gauge\ndroidnode_node_ready "@,
            ready,
        );
        reveal_strlit("# HELP ");
        reveal_strlit(" ");
        reveal_strlit("\n# TYPE ");
        reveal_strlit(" gauge\n");
        reveal_strlit("\n");
        assert(is_sample(
            a,
            "droidnode_memory_available_bytes"@,
            "Available memory in bytes"@,
            profile.memory.available_bytes as nat,
        )) by {
            reveal_strlit("droidnode_memory_available_bytes");
            reveal_strlit("Available memory in bytes");
            reveal_strlit(
                "# HELP droidnode_memory_available_bytes Available memory in bytes\n# TYPE droidnode_memory_available_bytes gauge\ndroidnode_memory_available_bytes ",
            );
            assert("# HELP "@ + "droidnode_memory_available_bytes"@ + " "@
                + "Available memory in bytes"@ + "\n# TYPE "@ + "droidnode_memory_available_bytes"@
                + " gauge\n"@ + "droidnode_memory_available_bytes"@ + " "@
                =~= "# HELP droidnode_memory_available_bytes Available memory in bytes\n# TYPE droidnode_memory_available_bytes gauge\ndroidnode_memory_available_bytes "@);
        }
        assert(is_sample(
            b,
            "droidnode_memory_total_bytes"@,
            "Total memory in bytes"@,
            profile.memory.total_bytes as nat,
        )) by {
            reveal_strlit("droidnode_memory_total_bytes");
            reveal_strlit("Total memory in bytes");
            reveal_strlit(
                "# HELP droidnode_memory_total_bytes Total memory in bytes\n# TYPE droidnode_memory_total_bytes gauge\ndroidnode_memory_total_bytes ",
            );
            assert("# HELP "@ + "droidnode_memory_total_bytes"@ + " "@ + "Total memory in bytes"@
                + "\n# TYPE "@ + "droidnode_memory_total_bytes"@ + " gauge\n"@
                + "droidnode_memory_total_bytes"@ + " "@
                =~= "# HELP droidnode_memory_total_bytes Total memory in bytes\n# TYPE droidnode_memory_total_bytes gauge\ndroidnode_memory_total_bytes "@);
        }
        assert(is_sample(
            c,
            "droidnode_storage_available_bytes"@,
            "Available storage in bytes"@,
            profile.storage.available_bytes as nat,
        )) by {
            reveal_strlit("droidnode_storage_available_bytes");
            reveal_strlit("Available storage in bytes");
            reveal_strlit(
                "# HELP droidnode_storage_available_bytes Available storage in bytes\n# TYPE droidnode_storage_available_bytes gauge\ndroidnode_storage_available_bytes ",
            );
            assert("# HELP "@ + "droidnode_storage_available_bytes"@ + " "@
                + "Available storage in bytes"@ + "\n# TYPE "@
                + "droidnode_storage_available_bytes"@ + " gauge\n"@
                + "droidnode_storage_available_bytes"@ + " "@
                =~= "# HELP droidnode_storage_available_bytes Available storage in bytes\n# TYPE droidnode_storage_available_bytes gauge\ndroidnode_storage_available_bytes "@);
        }
        assert(is_sample(
            d,
            "droidnode_battery_percent"@,
            "Battery charge percentage"@,
            profile.battery.percent as nat,
        )) by {
            reveal_strlit("droidnode_battery_percent");
            reveal_strlit("Battery charge percentage");
            reveal_strlit(
                "# HELP droidnode_battery_percent Battery charge percentage\n# TYPE droidnode_battery_percent gauge\ndroidnode_battery_percent ",
            );
            assert("# HELP "@ + "droidnode_battery_percent"@ + " "@ + "Battery charge percentage"@
                + "\n# TYPE "@ + "droidnode_battery_percent"@ + " gauge\n"@
                + "droidnode_battery_percent"@ + " "@
                =~= "# HELP droidnode_battery_percent Battery charge percentage\n# TYPE droidnode_battery_percent gauge\ndroidnode_battery_percent "@);
        }
        assert(is_sample(e, "droidnode_node_ready"@, "Node readiness (1=ready)"@, ready)) by {
            reveal_strlit("droidnode_node_ready");
            reveal_strlit("Node readiness (1=ready)");
            reveal_strlit(
                "# HELP droidnode_node_ready Node readiness (1=ready)\n# TYPE droidnode_node_ready gauge\ndroidnode_node_ready ",
            );
            assert("# HELP "@ + "droidnode_node_ready"@ + " "@ + "Node readiness (1=ready)"@
                + "\n# TYPE "@ + "droidnode_node_ready"@ + " gauge\n"@ + "droidnode_node_ready"@
                + " "@
                =~= "# HELP droidnode_node_ready Node readiness (1=ready)\n# TYPE droidnode_node_ready gauge\ndroidnode_node_ready "@);
        }
        assert(r@ == a + b + c + d + e);
    }
}

/// The node is reached at the address that was found, or else at its own. That it is alive it says
/// with `ok`. At first it knows nothing.
pub proof fn law_answers_of_the_node(
    found: Option<String>,
    address: String,
    alive: &'static str,
    state: KubeletState,
    uid: Seq<char>,
)
    requires
        call_ensures(local_address, (found,), address),
        call_ensures(healthz, (), alive),
        call_ensures(KubeletState::new, (), state),
    ensures
        found matches Some(a) ==> address@ == a@,
        found is None ==> address@ == "127.0.0.1"@,
        alive@ == "ok"@,
        state.node_profile is None,
        state.log_of(uid).len() == 0,
        state.status_of(uid) is None,
{
}

} // verus!
