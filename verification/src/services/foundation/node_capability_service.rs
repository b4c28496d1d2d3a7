//! What the node is able to do.
use vstd::prelude::*;

use crate::error::DroidError;
use crate::models::{
    BatteryInfo, CpuInfo, MemoryInfo, NetworkInfo, NodeConditions, NodeProfile, RuntimeInfo,
    StorageInfo,
};
use crate::text::{
    decimal, is_blank, is_space, law_words_are_separated_by_white_space,
    law_written_numbers_can_be_read, lines, lines_of, parse_number, parsed_number, same,
    second_word, starts_with, views, word_after_first, word_len,
};

verus! {

pub const RUNTIME_NAME: &'static str = "proot-oci-runner";

pub const RUNTIME_VERSION: &'static str = "0.1.0";

/// A battery with less than this many percent is low.
pub const LOW_BATTERY_THRESHOLD: u8 = 20;

/// Less memory than this is too little.
pub const LOW_MEMORY_THRESHOLD_BYTES: u64 = 536_870_912;

/// The label of the node's memory in `/proc/meminfo`.
pub const MEMORY_TOTAL: &'static str = "MemTotal:";

/// The label of the memory that is free for use in `/proc/meminfo`.
pub const MEMORY_AVAILABLE: &'static str = "MemAvailable:";

/// The number in a line such as `MemTotal:       8192000 kB`, or 0 where there is none.
pub open spec fn line_kb(line: Seq<char>) -> nat {
    match second_word(line) {
        Some(word) => match parsed_number(word, u64::MAX as nat) {
            Some(n) => n,
            None => 0,
        },
        None => 0,
    }
}

/// The number in the last line that starts with `label`, or 0 where there is none.
pub open spec fn labelled_kb(ls: Seq<Seq<char>>, label: Seq<char>) -> nat
    decreases ls.len(),
{
    if ls.len() == 0 {
        0
    } else if label.is_prefix_of(ls.last()) {
        line_kb(ls.last())
    } else {
        labelled_kb(ls.drop_last(), label)
    }
}

/// The number that `/proc/meminfo` gives for `label`, in units of 1024 bytes.
pub open spec fn memory_kb(content: Seq<char>, label: Seq<char>) -> nat {
    labelled_kb(lines_of(content), label)
}

/// The battery is low and nothing charges it.
pub open spec fn is_battery_low(battery: BatteryInfo) -> bool {
    battery.percent < LOW_BATTERY_THRESHOLD && !battery.charging
}

/// There is too little memory.
pub open spec fn is_memory_low(memory: MemoryInfo) -> bool {
    memory.available_bytes < LOW_MEMORY_THRESHOLD_BYTES
}

/// The node has a network.
pub open spec fn is_online(network: NetworkInfo) -> bool {
    network.network_type@ != "none"@
}

/// What was read from the system that the agent runs on.
#[derive(Debug)]
pub struct SystemReadings {
    /// How many programs can run at once, if that is known.
    pub parallelism: Option<usize>,
    /// The name of the hardware.
    pub machine: String,
    /// The contents of `/proc/meminfo`, if it could be read.
    pub meminfo: Option<String>,
    /// The number of free blocks where layers are kept, and the size of each.
    pub blocks_available: u64,
    pub block_size: u64,
}

impl SystemReadings {
    /// The contents of `/proc/meminfo`, or nothing.
    pub open spec fn memory_text(self) -> Seq<char> {
        match self.meminfo {
            Some(text) => text@,
            None => Seq::empty(),
        }
    }

    /// The amounts are ones that can be counted in bytes.
    pub open spec fn is_countable(self) -> bool {
        &&& memory_kb(self.memory_text(), MEMORY_TOTAL@) * 1024 <= u64::MAX
        &&& memory_kb(self.memory_text(), MEMORY_AVAILABLE@) * 1024 <= u64::MAX
        &&& self.blocks_available * self.block_size <= u64::MAX
    }

    /// Whether the amounts are ones that can be counted in bytes.
    pub fn check_countable(&self) -> (r: bool)
        ensures
            r == self.is_countable(),
    {
        let empty: String = String::new();
        let text: &str = match &self.meminfo {
            Some(text) => text.as_str(),
            None => empty.as_str(),
        };
        let limit: u64 = u64::MAX / 1024;
        read_memory_kb(text, MEMORY_TOTAL) <= limit && read_memory_kb(text, MEMORY_AVAILABLE)
            <= limit && self.blocks_available.checked_mul(self.block_size).is_some()
    }
}

/// Describes one node.
#[derive(Debug)]
pub struct NodeCapabilityServiceImpl {
    pub node_id: String,
    pub layers_root: String,
}

impl NodeCapabilityServiceImpl {
    pub fn new(node_id: String, layers_root: String) -> (r: Self)
        ensures
            r.node_id == node_id,
            r.layers_root == layers_root,
    {
        NodeCapabilityServiceImpl { node_id, layers_root }
    }

    /// The profile of the node.
    pub fn get_profile(&self, readings: &SystemReadings) -> (r: Result<NodeProfile, DroidError>)
        requires
            readings.is_countable(),
        ensures
            r is Ok,
            ({
                let p = r->Ok_0;
                &&& p.node_id == self.node_id
                &&& p.cpu.arch == readings.machine
                &&& p.cpu.cores == match readings.parallelism {
                    Some(n) => n as u32,
                    None => 1,
                }
                &&& p.memory.total_bytes == memory_kb(readings.memory_text(), MEMORY_TOTAL@) * 1024
                &&& p.memory.available_bytes == memory_kb(
                    readings.memory_text(),
                    MEMORY_AVAILABLE@,
                ) * 1024
                &&& p.storage.available_bytes == readings.blocks_available * readings.block_size
                &&& p.runtime.name@ == RUNTIME_NAME@
                &&& p.runtime.version@ == RUNTIME_VERSION@
                &&& p.battery == (BatteryInfo { percent: 100, charging: true })
                &&& p.network.network_type@ == "wifi"@
                &&& p.conditions.battery_pressure == is_battery_low(p.battery)
                &&& p.conditions.memory_pressure == is_memory_low(p.memory)
                &&& p.conditions.network_available == is_online(p.network)
                &&& p.conditions.ready == (!is_memory_low(p.memory) && !is_battery_low(p.battery)
                    && is_online(p.network))
            }),
    {
        let cpu = read_cpu_info(readings.parallelism, readings.machine.clone());
        let empty: String = String::new();
        let text: &str = match &readings.meminfo {
            Some(text) => text.as_str(),
            None => empty.as_str(),
        };
        let memory = read_memory_info(text);
        let storage = read_storage_info(readings.blocks_available, readings.block_size);
        let battery = read_battery_info();
        let network = read_network_info();
        let conditions = NodeConditions {
            ready: is_ready(&memory, &battery, &network),
            battery_pressure: battery_pressure(&battery),
            memory_pressure: memory.available_bytes < LOW_MEMORY_THRESHOLD_BYTES,
            network_available: !same(network.network_type.as_str(), "none"),
        };
        Ok(
            NodeProfile {
                node_id: self.node_id.clone(),
                cpu,
                memory,
                storage,
                runtime: RuntimeInfo {
                    name: RUNTIME_NAME.to_owned(),
                    version: RUNTIME_VERSION.to_owned(),
                },
                battery,
                network,
                conditions,
            },
        )
    }
}

/// The processor: one core, unless it is known how many programs can run at once.
pub fn read_cpu_info(parallelism: Option<usize>, arch: String) -> (r: CpuInfo)
    ensures
        r.arch == arch,
        r.cores == match parallelism {
            Some(n) => n as u32,
            None => 1,
        },
{
    let cores: u32 = match parallelism {
        Some(n) => n as u32,
        None => 1,
    };
    CpuInfo { arch, cores }
}

/// The number in a line such as `MemTotal:       8192000 kB`, or 0 where there is none.
pub fn parse_meminfo_kb(line: &str) -> (r: u64)
    ensures
        r == line_kb(line@),
{
    match word_after_first(line) {
        Some(word) => match parse_number(word.as_str(), u64::MAX) {
            Some(n) => n,
            None => 0,
        },
        None => 0,
    }
}

/// The number that `/proc/meminfo` gives for `label`, in units of 1024 bytes.
pub fn read_memory_kb(content: &str, label: &str) -> (r: u64)
    ensures
        r == memory_kb(content@, label@),
{
    let ls: Vec<String> = lines(content);
    let ghost all = lines_of(content@);
    let mut value: u64 = 0;
    let mut i: usize = 0;
    assert(all.take(0) =~= Seq::<Seq<char>>::empty());
    while i < ls.len()
        invariant
            i <= ls@.len(),
            views(ls@) == all,
            value == labelled_kb(all.take(i as int), label@),
        decreases ls.len() - i,
    {
        assert(all.take(i + 1).drop_last() =~= all.take(i as int));
        assert(all.take(i + 1).last() == ls@[i as int]@);
        if starts_with(ls[i].as_str(), label) {
            value = parse_meminfo_kb(ls[i].as_str());
        }
        i = i + 1;
    }
    assert(all.take(ls@.len() as int) =~= all);
    value
}

/// The memory of the node, from the contents of `/proc/meminfo`.
pub fn read_memory_info(content: &str) -> (r: MemoryInfo)
    requires
        memory_kb(content@, MEMORY_TOTAL@) * 1024 <= u64::MAX,
        memory_kb(content@, MEMORY_AVAILABLE@) * 1024 <= u64::MAX,
    ensures
        r.total_bytes == memory_kb(content@, MEMORY_TOTAL@) * 1024,
        r.available_bytes == memory_kb(content@, MEMORY_AVAILABLE@) * 1024,
{
    let total: u64 = read_memory_kb(content, MEMORY_TOTAL);
    let available: u64 = read_memory_kb(content, MEMORY_AVAILABLE);
    MemoryInfo { total_bytes: total * 1024, available_bytes: available * 1024 }
}

/// The space for layers.
pub fn read_storage_info(blocks_available: u64, block_size: u64) -> (r: StorageInfo)
    requires
        blocks_available * block_size <= u64::MAX,
    ensures
        r.available_bytes == blocks_available * block_size,
{
    StorageInfo { available_bytes: blocks_available * block_size }
}

/// The battery: a full one that is always charging.
pub fn read_battery_info() -> (r: BatteryInfo)
    ensures
        r == (BatteryInfo { percent: 100, charging: true }),
{
    BatteryInfo { percent: 100, charging: true }
}

/// The network.
pub fn read_network_info() -> (r: NetworkInfo)
    ensures
        r.network_type@ == "wifi"@,
{
    NetworkInfo { network_type: "wifi".to_owned() }
}

/// Whether the node can take workloads.
pub fn is_ready(memory: &MemoryInfo, battery: &BatteryInfo, network: &NetworkInfo) -> (r: bool)
    ensures
        r == (!is_memory_low(*memory) && !is_battery_low(*battery) && is_online(*network)),
{
    let memory_ok = memory.available_bytes >= LOW_MEMORY_THRESHOLD_BYTES;
    let battery_ok = !battery_pressure(battery);
    let network_ok = !same(network.network_type.as_str(), "none");
    memory_ok && battery_ok && network_ok
}

/// Whether the battery is low and nothing charges it.
pub fn battery_pressure(battery: &BatteryInfo) -> (r: bool)
    ensures
        r == is_battery_low(*battery),
{
    battery.percent < LOW_BATTERY_THRESHOLD && !battery.charging
}

// ---------------------------------------------------------------------------

/// The amount in a line is the number behind its label, whatever blanks stand between the two and
/// whatever unit follows. A line without a number tells nothing.
pub proof fn law_amounts_stand_behind_their_labels(
    label: Seq<char>,
    gap: Seq<char>,
    n: nat,
    unit: Seq<char>,
)
    requires
        label.len() > 0,
        gap.len() > 0,
        forall|i: int| 0 <= i < label.len() ==> !is_space(#[trigger] label[i]),
        is_blank(gap),
        unit.len() == 0 || is_space(unit[0]),
        n <= u64::MAX,
    ensures
        line_kb(label + gap + decimal(n) + unit) == n,
        line_kb(label) == 0,
{
    law_written_numbers_can_be_read(n, u64::MAX as nat);
    lemma_decimals_are_words(n);
    law_words_are_separated_by_white_space(label, gap, decimal(n), unit);
    lemma_one_word(label);
}

proof fn lemma_decimals_are_words(n: nat)
    ensures
        decimal(n).len() > 0,
        forall|i: int| 0 <= i < decimal(n).len() ==> !is_space(#[trigger] decimal(n)[i]),
    decreases n,
{
    if n >= 10 {
        lemma_decimals_are_words(n / 10);
    }
}

proof fn lemma_one_word(word: Seq<char>)
    requires
        word.len() > 0,
        forall|i: int| 0 <= i < word.len() ==> !is_space(#[trigger] word[i]),
    ensures
        second_word(word) is None,
{
    lemma_whole_word(word);
    assert(word.skip(word.len() as int) =~= Seq::<char>::empty());
}

proof fn lemma_whole_word(word: Seq<char>)
    requires
        forall|i: int| 0 <= i < word.len() ==> !is_space(#[trigger] word[i]),
    ensures
        word_len(word) == word.len(),
    decreases word.len(),
{
    if word.len() > 0 {
        lemma_whole_word(word.skip(1));
    }
}

/// The amount for a label is that of the last line that starts with it, and nothing where no line
/// does.
pub proof fn law_the_last_line_with_a_label_counts(ls: Seq<Seq<char>>, label: Seq<char>, i: int)
    requires
        forall|j: int| i < j < ls.len() && 0 <= j ==> !label.is_prefix_of(#[trigger] ls[j]),
    ensures
        0 <= i < ls.len() && label.is_prefix_of(ls[i]) ==> labelled_kb(ls, label) == line_kb(ls[i]),
        i < 0 ==> labelled_kb(ls, label) == 0,
    decreases ls.len(),
{
    if ls.len() > 0 && i < ls.len() - 1 {
        let rest = ls.drop_last();
        assert(!label.is_prefix_of(ls[ls.len() - 1]));
        assert forall|j: int| i < j < rest.len() && 0 <= j implies !label.is_prefix_of(
            #[trigger] rest[j],
        ) by {
            assert(rest[j] == ls[j]);
        }
        law_the_last_line_with_a_label_counts(rest, label, i);
    }
}

/// The profile of a node tells its identifier, its hardware, the memory that the lines for
/// `MemTotal:` and `MemAvailable:` tell in kibibytes, and the free space in bytes. The node is
/// short of memory with less than 512 MiB free, and ready unless it is short of memory, its
/// battery is low or it has no network.
pub proof fn law_profiles_tell_what_was_read(
    service: &NodeCapabilityServiceImpl,
    readings: &SystemReadings,
    r: Result<NodeProfile, DroidError>,
)
    requires
        call_ensures(NodeCapabilityServiceImpl::get_profile, (service, readings), r),
    ensures
        r is Ok,
        ({
            let p = r->Ok_0;
            let text = match readings.meminfo {
                Some(text) => text@,
                None => Seq::empty(),
            };
            &&& p.node_id == service.node_id
            &&& p.cpu.arch == readings.machine
            &&& readings.parallelism is None ==> p.cpu.cores == 1
            &&& readings.parallelism matches Some(n) ==> n <= u32::MAX ==> p.cpu.cores == n
            &&& p.memory.total_bytes == labelled_kb(lines_of(text), "MemTotal:"@) * 1024
            &&& p.memory.available_bytes == labelled_kb(lines_of(text), "MemAvailable:"@) * 1024
            &&& p.storage.available_bytes == readings.blocks_available * readings.block_size
            &&& p.runtime.name@ == "proot-oci-runner"@
            &&& p.runtime.version@ == "0.1.0"@
            &&& p.battery.percent == 100
            &&& p.battery.charging
            &&& p.network.network_type@ == "wifi"@
            &&& p.conditions.memory_pressure <==> p.memory.available_bytes < 512 * 1024 * 1024
            &&& !p.conditions.battery_pressure
            &&& p.conditions.network_available
            &&& p.conditions.ready <==> p.memory.available_bytes >= 512 * 1024 * 1024
        }),
{
    reveal_strlit("wifi");
    reveal_strlit("none");
    assert("wifi"@[0] == 'w');
    assert("none"@[0] == 'n');
}

/// A node is ready unless it has less than 512 MiB of memory free, or less than a fifth of its
/// charge and nothing that charges it, or no network.
pub proof fn law_what_makes_a_node_ready(
    memory: &MemoryInfo,
    battery: &BatteryInfo,
    network: &NetworkInfo,
    ready: bool,
    low: bool,
)
    requires
        call_ensures(is_ready, (memory, battery, network), ready),
        call_ensures(battery_pressure, (battery,), low),
    ensures
        low <==> battery.percent < 20 && !battery.charging,
        ready <==> memory.available_bytes >= 512 * 1024 * 1024 && (battery.percent >= 20
            || battery.charging) && network.network_type@ != "none"@,
{
}

/// A profile can be made of what was read just when every amount can be counted in bytes.
pub proof fn law_amounts_have_to_be_countable(
    readings: &SystemReadings,
    r: bool,
    node_id: String,
    layers_root: String,
    service: NodeCapabilityServiceImpl,
)
    requires
        call_ensures(SystemReadings::check_countable, (readings,), r),
        call_ensures(NodeCapabilityServiceImpl::new, (node_id, layers_root), service),
    ensures
        ({
            let text = match readings.meminfo {
                Some(text) => text@,
                None => Seq::empty(),
            };
            r <==> {
                &&& labelled_kb(lines_of(text), "MemTotal:"@) * 1024 <= u64::MAX
                &&& labelled_kb(lines_of(text), "MemAvailable:"@) * 1024 <= u64::MAX
                &&& readings.blocks_available * readings.block_size <= u64::MAX
            }
        }),
        service.node_id == node_id,
        service.layers_root == layers_root,
{
}

} // verus!
