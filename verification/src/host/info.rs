//! What the host service tells of the machine: its name, memory, processors,
//! network devices and versions.
use crate::rpc::{Code, RpcStatus};
use crate::table::TextMap;
use crate::text;
use vstd::prelude::*;

verus! {

/// The name of the machine.
#[derive(Debug)]
pub struct HostnameResponse {
    pub hostname: String,
}

/// What the system said of its name.
pub enum HostnameRead {
    /// The system could not be asked.
    Failed(String),
    /// The name is no valid text.
    NotText,
    /// The name.
    Name(String),
}

/// The answer to a request for the name of the machine.
pub fn handle_hostname(read: HostnameRead) -> (r: Result<HostnameResponse, RpcStatus>)
    ensures
        match read {
            HostnameRead::Failed(e) => r matches Err(s) && s.says(
                Code::Internal,
                "Failed to get system hostname: "@ + e@,
            ),
            HostnameRead::NotText => r matches Ok(response) && response.hostname@
                == "Invalid UTF-8"@,
            HostnameRead::Name(name) => r matches Ok(response) && response.hostname == name,
        },
{
    match read {
        HostnameRead::Failed(e) => Err(
            RpcStatus {
                code: Code::Internal,
                message: text::cat2("Failed to get system hostname: ", e.as_str()),
            },
        ),
        HostnameRead::NotText => Ok(HostnameResponse { hostname: "Invalid UTF-8".to_owned() }),
        HostnameRead::Name(hostname) => Ok(HostnameResponse { hostname }),
    }
}

/// The memory of the machine.
#[derive(Debug)]
pub struct MemInfo {
    pub memtotal: u64,
    pub memfree: u64,
    pub memavailable: u64,
    pub buffers: u64,
    pub cached: u64,
    pub swapcached: u64,
    pub active: u64,
    pub inactive: u64,
    pub activeanon: u64,
    pub inactiveanon: u64,
    pub activefile: u64,
    pub inactivefile: u64,
    pub unevictable: u64,
    pub mlocked: u64,
    pub swaptotal: u64,
    pub swapfree: u64,
    pub dirty: u64,
    pub writeback: u64,
    pub anonpages: u64,
    pub mapped: u64,
    pub shmem: u64,
    pub slab: u64,
    pub sreclaimable: u64,
    pub sunreclaim: u64,
    pub kernelstack: u64,
    pub pagetables: u64,
    pub nfsunstable: u64,
    pub bounce: u64,
    pub writebacktmp: u64,
    pub commitlimit: u64,
    pub committedas: u64,
    pub vmalloctotal: u64,
    pub vmallocused: u64,
    pub vmallocchunk: u64,
    pub hardwarecorrupted: u64,
    pub anonhugepages: u64,
    pub shmemhugepages: u64,
    pub shmempmdmapped: u64,
    pub cmatotal: u64,
    pub cmafree: u64,
    pub hugepagestotal: u64,
    pub hugepagesfree: u64,
    pub hugepagesrsvd: u64,
    pub hugepagessurp: u64,
    pub hugepagesize: u64,
    pub directmap4k: u64,
    pub directmap2m: u64,
    pub directmap1g: u64,
}

/// What a line tells of the memory: a name, in lower case and without the colons
/// after it, and a number. Any other line tells nothing.
pub open spec fn memory_entry(line: Seq<char>) -> Option<(Seq<char>, u64)> {
    let parts = text::words(line);
    if parts.len() >= 2 {
        match text::unsigned_number(parts[1], 10, u64::MAX as nat) {
            Ok(n) => Some((text::lowered(text::stripped(parts[0], ':')), n as u64)),
            Err(_) => None,
        }
    } else {
        None
    }
}

/// What the lines tell of the memory; of two lines of one name the later counts.
pub open spec fn memory_values(lines: Seq<String>) -> Map<Seq<char>, u64>
    decreases lines.len(),
{
    if lines.len() == 0 {
        Map::empty()
    } else {
        let before = memory_values(lines.drop_last());
        match memory_entry(lines.last()@) {
            Some((key, value)) => before.insert(key, value),
            None => before,
        }
    }
}

/// What counts under a name is the last line that tells of it.
pub proof fn last_memory_line_counts(lines: Seq<String>, i: int, key: Seq<char>, value: u64)
    requires
        0 <= i < lines.len(),
        memory_entry(lines[i]@) == Some((key, value)),
        forall|j: int|
            i < j < lines.len() ==> !(memory_entry(#[trigger] lines[j]@) matches Some(entry)
                && entry.0 == key),
    ensures
        memory_values(lines).dom().contains(key),
        memory_values(lines)[key] == value,
    decreases lines.len(),
{
    let init = lines.drop_last();
    if i < lines.len() - 1 {
        assert(init[i] == lines[i]);
        assert forall|j: int| i < j < init.len() implies !(memory_entry(#[trigger] init[j]@) matches Some(entry)
            && entry.0 == key) by {
            assert(init[j] == lines[j]);
        }
        last_memory_line_counts(init, i, key, value);
        assert(!(memory_entry(lines[lines.len() - 1]@) matches Some(entry) && entry.0 == key));
    }
}

/// The number under a name, or 0.
pub open spec fn number(values: Map<Seq<char>, u64>, key: Seq<char>) -> u64 {
    if values.dom().contains(key) {
        values[key]
    } else {
        0
    }
}

/// The memory that the numbers tell of.
pub open spec fn memory_of(values: Map<Seq<char>, u64>) -> MemInfo {
    MemInfo {
        memtotal: number(values, "memtotal"@),
        memfree: number(values, "memfree"@),
        memavailable: number(values, "memavailable"@),
        buffers: number(values, "buffers"@),
        cached: number(values, "cached"@),
        swapcached: number(values, "swapcached"@),
        active: number(values, "active"@),
        inactive: number(values, "inactive"@),
        activeanon: number(values, "active(anon)"@),
        inactiveanon: number(values, "inactive(anon)"@),
        activefile: number(values, "active(file)"@),
        inactivefile: number(values, "inactive(file)"@),
        unevictable: number(values, "unevictable"@),
        mlocked: number(values, "mlocked"@),
        swaptotal: number(values, "swaptotal"@),
        swapfree: number(values, "swapfree"@),
        dirty: number(values, "dirty"@),
        writeback: number(values, "writeback"@),
        anonpages: number(values, "anonpages"@),
        mapped: number(values, "mapped"@),
        shmem: number(values, "shmem"@),
        slab: number(values, "slab"@),
        sreclaimable: number(values, "sreclaimable"@),
        sunreclaim: number(values, "sunreclaim"@),
        kernelstack: number(values, "kernelstack"@),
        pagetables: number(values, "pagetables"@),
        nfsunstable: number(values, "nfs_unstable"@),
        bounce: number(values, "bounce"@),
        writebacktmp: number(values, "writebacktmp"@),
        commitlimit: number(values, "commitlimit"@),
        committedas: number(values, "committed_as"@),
        vmalloctotal: number(values, "vmalloctotal"@),
        vmallocused: number(values, "vmallocused"@),
        vmallocchunk: number(values, "vmallocchunk"@),
        hardwarecorrupted: number(values, "hardwarecorrupted"@),
        anonhugepages: number(values, "anonhugepages"@),
        shmemhugepages: number(values, "shmemhugepages"@),
        shmempmdmapped: number(values, "shmempmdmapped"@),
        cmatotal: number(values, "cmatotal"@),
        cmafree: number(values, "cmafree"@),
        hugepagestotal: number(values, "hugepages_total"@),
        hugepagesfree: number(values, "hugepages_free"@),
        hugepagesrsvd: number(values, "hugepages_rsvd"@),
        hugepagessurp: number(values, "hugepages_surp"@),
        hugepagesize: number(values, "hugepagesize"@),
        directmap4k: number(values, "directmap4k"@),
        directmap2m: number(values, "directmap2m"@),
        directmap1g: number(values, "directmap1g"@),
    }
}

fn get(values: &TextMap<u64>, key: &str) -> (r: u64)
    requires
        values.wf(),
    ensures
        r == number(values@, key@),
{
    match values.get(key) {
        Some(value) => *value,
        None => 0,
    }
}

/// Reads what the lines of the kernel's memory file tell.
pub fn read_and_parse_meminfo(lines: &Vec<String>) -> (r: MemInfo)
    ensures
        r == memory_of(memory_values(lines@)),
{
    let mut values: TextMap<u64> = TextMap::new();
    let mut i: usize = 0;
    assert(lines@.take(0) =~= Seq::<String>::empty());
    while i < lines.len()
        invariant
            i <= lines@.len(),
            values.wf(),
            values@ == memory_values(lines@.take(i as int)),
        decreases lines@.len() - i,
    {
        assert(lines@.take(i + 1).drop_last() =~= lines@.take(i as int));
        let parts = text::split_whitespace(lines[i].as_str());
        if parts.len() >= 2 {
            assert(text::views(parts@)[0] == parts@[0]@);
            assert(text::views(parts@)[1] == parts@[1]@);
            let key = text::strip_end(parts[0].as_str(), ':');
            if let Ok(value) = text::parse_unsigned(parts[1].as_str(), 10, u64::MAX) {
                values.insert(text::to_lowercase(key.as_str()), value);
            }
        }
        i += 1;
    }
    assert(lines@.take(i as int) =~= lines@);
    MemInfo {
        memtotal: get(&values, "memtotal"),
        memfree: get(&values, "memfree"),
        memavailable: get(&values, "memavailable"),
        buffers: get(&values, "buffers"),
        cached: get(&values, "cached"),
        swapcached: get(&values, "swapcached"),
        active: get(&values, "active"),
        inactive: get(&values, "inactive"),
        activeanon: get(&values, "active(anon)"),
        inactiveanon: get(&values, "inactive(anon)"),
        activefile: get(&values, "active(file)"),
        inactivefile: get(&values, "inactive(file)"),
        unevictable: get(&values, "unevictable"),
        mlocked: get(&values, "mlocked"),
        swaptotal: get(&values, "swaptotal"),
        swapfree: get(&values, "swapfree"),
        dirty: get(&values, "dirty"),
        writeback: get(&values, "writeback"),
        anonpages: get(&values, "anonpages"),
        mapped: get(&values, "mapped"),
        shmem: get(&values, "shmem"),
        slab: get(&values, "slab"),
        sreclaimable: get(&values, "sreclaimable"),
        sunreclaim: get(&values, "sunreclaim"),
        kernelstack: get(&values, "kernelstack"),
        pagetables: get(&values, "pagetables"),
        nfsunstable: get(&values, "nfs_unstable"),
        bounce: get(&values, "bounce"),
        writebacktmp: get(&values, "writebacktmp"),
        commitlimit: get(&values, "commitlimit"),
        committedas: get(&values, "committed_as"),
        vmalloctotal: get(&values, "vmalloctotal"),
        vmallocused: get(&values, "vmallocused"),
        vmallocchunk: get(&values, "vmallocchunk"),
        hardwarecorrupted: get(&values, "hardwarecorrupted"),
        anonhugepages: get(&values, "anonhugepages"),
        shmemhugepages: get(&values, "shmemhugepages"),
        shmempmdmapped: get(&values, "shmempmdmapped"),
        cmatotal: get(&values, "cmatotal"),
        cmafree: get(&values, "cmafree"),
        hugepagestotal: get(&values, "hugepages_total"),
        hugepagesfree: get(&values, "hugepages_free"),
        hugepagesrsvd: get(&values, "hugepages_rsvd"),
        hugepagessurp: get(&values, "hugepages_surp"),
        hugepagesize: get(&values, "hugepagesize"),
        directmap4k: get(&values, "directmap4k"),
        directmap2m: get(&values, "directmap2m"),
        directmap1g: get(&values, "directmap1g"),
    }
}

/// The answer to a request for the memory of the machine.
pub fn handle_get_memory(lines: Result<Vec<String>, String>) -> (r: Result<MemInfo, RpcStatus>)
    ensures
        match lines {
            Ok(lines) => r == Ok::<MemInfo, RpcStatus>(memory_of(memory_values(lines@))),
            Err(e) => r matches Err(s) && s.says(
                Code::Internal,
                "Failed to get memory info: "@ + e@,
            ),
        },
{
    match lines {
        Ok(lines) => Ok(read_and_parse_meminfo(&lines)),
        Err(e) => Err(
            RpcStatus {
                code: Code::Internal,
                message: text::cat2("Failed to get memory info: ", e.as_str()),
            },
        ),
    }
}

/// One processor of the machine. The clock rate and the speed estimate, which are
/// fractions, are held as they are written.
#[derive(Debug)]
pub struct CpuInfo {
    pub processor: u32,
    pub vendor_id: String,
    pub cpu_family: String,
    pub model: String,
    pub model_name: String,
    pub stepping: String,
    pub microcode: String,
    pub cpu_mhz: String,
    pub cache_size: String,
    pub physical_id: String,
    pub siblings: u32,
    pub core_id: String,
    pub cpu_cores: u32,
    pub apic_id: String,
    pub initial_apic_id: String,
    pub fpu: String,
    pub fpu_exception: String,
    pub cpu_id_level: u32,
    pub wp: String,
    pub flags: Vec<String>,
    pub bugs: Vec<String>,
    pub bogo_mips: String,
    pub cl_flush_size: u32,
    pub cache_alignment: u32,
    pub address_sizes: String,
    pub power_management: String,
}

/// The texts of a table.
pub open spec fn texts(map: Map<Seq<char>, String>) -> Map<Seq<char>, Seq<char>> {
    map.map_values(|s: String| s@)
}

/// The text under a name; an empty one where there is none.
pub open spec fn string(map: Map<Seq<char>, Seq<char>>, key: Seq<char>) -> Seq<char> {
    if map.dom().contains(key) {
        map[key]
    } else {
        Seq::empty()
    }
}

/// The number under a name; 0 where there is none.
pub open spec fn small_number(map: Map<Seq<char>, Seq<char>>, key: Seq<char>) -> u32 {
    match text::unsigned_number(string(map, key), 10, u32::MAX as nat) {
        Ok(n) => n as u32,
        Err(_) => 0,
    }
}

/// Whether a processor is the one that the texts tell of.
pub open spec fn cpu_is(info: CpuInfo, map: Map<Seq<char>, Seq<char>>) -> bool {
    &&& info.processor == small_number(map, "processor"@)
    &&& info.vendor_id@ == string(map, "vendor_id"@)
    &&& info.cpu_family@ == string(map, "cpu family"@)
    &&& info.model@ == string(map, "model"@)
    &&& info.model_name@ == string(map, "model name"@)
    &&& info.stepping@ == string(map, "stepping"@)
    &&& info.microcode@ == string(map, "microcode"@)
    &&& info.cpu_mhz@ == string(map, "cpu mhz"@)
    &&& info.cache_size@ == string(map, "cache size"@)
    &&& info.physical_id@ == string(map, "physical id"@)
    &&& info.siblings == small_number(map, "siblings"@)
    &&& info.core_id@ == string(map, "core id"@)
    &&& info.cpu_cores == small_number(map, "cpu cores"@)
    &&& info.apic_id@ == string(map, "apicid"@)
    &&& info.initial_apic_id@ == string(map, "initial apicid"@)
    &&& info.fpu@ == string(map, "fpu"@)
    &&& info.fpu_exception@ == string(map, "fpu_exception"@)
    &&& info.cpu_id_level == small_number(map, "cpuid level"@)
    &&& info.wp@ == string(map, "wp"@)
    &&& text::views(info.flags@) == text::words(string(map, "flags"@))
    &&& text::views(info.bugs@) == text::words(string(map, "bugs"@))
    &&& info.bogo_mips@ == string(map, "bogomips"@)
    &&& info.cl_flush_size == small_number(map, "clflush size"@)
    &&& info.cache_alignment == small_number(map, "cache_alignment"@)
    &&& info.address_sizes@ == string(map, "address sizes"@)
    &&& info.power_management@ == string(map, "power management"@)
}

fn get_string(map: &TextMap<String>, key: &str) -> (r: String)
    requires
        map.wf(),
    ensures
        r@ == string(texts(map@), key@),
{
    match map.get(key) {
        Some(value) => value.clone(),
        None => String::new(),
    }
}

fn get_u32(map: &TextMap<String>, key: &str) -> (r: u32)
    requires
        map.wf(),
    ensures
        r == small_number(texts(map@), key@),
{
    let value = get_string(map, key);
    match text::parse_unsigned(value.as_str(), 10, u32::MAX as u64) {
        Ok(n) => n as u32,
        Err(_) => 0,
    }
}

fn get_words(map: &TextMap<String>, key: &str) -> (r: Vec<String>)
    requires
        map.wf(),
    ensures
        text::views(r@) == text::words(string(texts(map@), key@)),
{
    let value = get_string(map, key);
    text::split_whitespace(value.as_str())
}

/// The processor that the texts tell of.
pub fn parse_map_to_cpu_info(map: &TextMap<String>) -> (info: CpuInfo)
    requires
        map.wf(),
    ensures
        cpu_is(info, texts(map@)),
{
    CpuInfo {
        processor: get_u32(map, "processor"),
        vendor_id: get_string(map, "vendor_id"),
        cpu_family: get_string(map, "cpu family"),
        model: get_string(map, "model"),
        model_name: get_string(map, "model name"),
        stepping: get_string(map, "stepping"),
        microcode: get_string(map, "microcode"),
        cpu_mhz: get_string(map, "cpu mhz"),
        cache_size: get_string(map, "cache size"),
        physical_id: get_string(map, "physical id"),
        siblings: get_u32(map, "siblings"),
        core_id: get_string(map, "core id"),
        cpu_cores: get_u32(map, "cpu cores"),
        apic_id: get_string(map, "apicid"),
        initial_apic_id: get_string(map, "initial apicid"),
        fpu: get_string(map, "fpu"),
        fpu_exception: get_string(map, "fpu_exception"),
        cpu_id_level: get_u32(map, "cpuid level"),
        wp: get_string(map, "wp"),
        flags: get_words(map, "flags"),
        bugs: get_words(map, "bugs"),
        bogo_mips: get_string(map, "bogomips"),
        cl_flush_size: get_u32(map, "clflush size"),
        cache_alignment: get_u32(map, "cache_alignment"),
        address_sizes: get_string(map, "address sizes"),
        power_management: get_string(map, "power management"),
    }
}

/// What a line tells of a processor: a name in lower case, and the text after the
/// first colon.
pub open spec fn cpu_entry(line: Seq<char>) -> Option<(Seq<char>, Seq<char>)> {
    match text::split_at_first(line, ':') {
        Some((key, value)) => Some((text::lowered(text::trimmed(key)), text::trimmed(value))),
        None => None,
    }
}

/// The processors that lines tell of: what is complete, and what the last lines tell
/// of the next one. A blank line ends a processor.
pub open spec fn cpu_blocks(lines: Seq<String>) -> (
    Seq<Map<Seq<char>, Seq<char>>>,
    Map<Seq<char>, Seq<char>>,
)
    decreases lines.len(),
{
    if lines.len() == 0 {
        (Seq::empty(), Map::empty())
    } else {
        let (done, current) = cpu_blocks(lines.drop_last());
        let line = lines.last()@;
        if text::trimmed(line).len() == 0 {
            if current == Map::<Seq<char>, Seq<char>>::empty() {
                (done, current)
            } else {
                (done.push(current), Map::empty())
            }
        } else {
            match cpu_entry(line) {
                Some((key, value)) => (done, current.insert(key, value)),
                None => (done, current),
            }
        }
    }
}

/// All processors that lines tell of.
pub open spec fn cpus_of(lines: Seq<String>) -> Seq<Map<Seq<char>, Seq<char>>> {
    let (done, current) = cpu_blocks(lines);
    if current == Map::<Seq<char>, Seq<char>>::empty() {
        done
    } else {
        done.push(current)
    }
}

/// Whether processors are those that the texts tell of, in order.
pub open spec fn cpus_tell(
    infos: Seq<CpuInfo>,
    blocks: Seq<Map<Seq<char>, Seq<char>>>,
) -> bool {
    &&& infos.len() == blocks.len()
    &&& forall|i: int| 0 <= i < infos.len() ==> cpu_is(#[trigger] infos[i], blocks[i])
}

/// Reads what the lines of the kernel's processor file tell.
pub fn read_and_parse_cpuinfo(lines: &Vec<String>) -> (cpus: Vec<CpuInfo>)
    ensures
        cpus_tell(cpus@, cpus_of(lines@)),
{
    let mut cpus: Vec<CpuInfo> = Vec::new();
    let mut current: TextMap<String> = TextMap::new();
    let mut i: usize = 0;
    assert(lines@.take(0) =~= Seq::<String>::empty());
    assert(texts(current@) =~= Map::<Seq<char>, Seq<char>>::empty());
    while i < lines.len()
        invariant
            i <= lines@.len(),
            current.wf(),
            cpus_tell(cpus@, cpu_blocks(lines@.take(i as int)).0),
            texts(current@) == cpu_blocks(lines@.take(i as int)).1,
        decreases lines@.len() - i,
    {
        let ghost was = current@;
        proof {
            assert(lines@.take(i + 1).drop_last() =~= lines@.take(i as int));
            lemma_texts_empty(was);
        }
        let line = text::trim(lines[i].as_str());
        if line.as_str().is_empty() {
            if !current.is_empty() {
                let info = parse_map_to_cpu_info(&current);
                cpus.push(info);
                current = TextMap::new();
                assert(texts(current@) =~= Map::<Seq<char>, Seq<char>>::empty());
            }
        } else {
            if let Some((key, value)) = text::split_once(lines[i].as_str(), ':') {
                let key = text::to_lowercase(text::trim(key.as_str()).as_str());
                let value = text::trim(value.as_str());
                current.insert(key, value);
                assert(texts(current@) =~= texts(was).insert(key@, value@));
            }
        }
        i += 1;
    }
    assert(lines@.take(i as int) =~= lines@);
    proof {
        lemma_texts_empty(current@);
    }
    if !current.is_empty() {
        let info = parse_map_to_cpu_info(&current);
        cpus.push(info);
    }
    cpus
}

proof fn lemma_texts_empty(map: Map<Seq<char>, String>)
    ensures
        texts(map) == Map::<Seq<char>, Seq<char>>::empty() <==> map == Map::<
            Seq<char>,
            String,
        >::empty(),
{
    if texts(map) == Map::<Seq<char>, Seq<char>>::empty() {
        assert(map.dom() =~= texts(map).dom());
        assert(map =~= Map::<Seq<char>, String>::empty());
    }
    if map == Map::<Seq<char>, String>::empty() {
        assert(texts(map) =~= Map::<Seq<char>, Seq<char>>::empty());
    }
}

/// The answer to a request for the processors of the machine.
pub fn handle_get_cpu_info(lines: Result<Vec<String>, String>) -> (r: Result<
    Vec<CpuInfo>,
    RpcStatus,
>)
    ensures
        match lines {
            Ok(lines) => r matches Ok(cpus) && cpus_tell(cpus@, cpus_of(lines@)),
            Err(e) => r matches Err(s) && s.says(Code::Internal, "Failed to get CPU info: "@ + e@),
        },
{
    match lines {
        Ok(lines) => Ok(read_and_parse_cpuinfo(&lines)),
        Err(e) => Err(
            RpcStatus {
                code: Code::Internal,
                message: text::cat2("Failed to get CPU info: ", e.as_str()),
            },
        ),
    }
}

/// What a network device has sent and received.
#[derive(Debug)]
pub struct NetDev {
    pub name: String,
    pub rx_bytes: u64,
    pub rx_packets: u64,
    pub rx_errors: u64,
    pub rx_dropped: u64,
    pub rx_fifo: u64,
    pub rx_frame: u64,
    pub rx_compressed: u64,
    pub rx_multicast: u64,
    pub tx_bytes: u64,
    pub tx_packets: u64,
    pub tx_errors: u64,
    pub tx_dropped: u64,
    pub tx_fifo: u64,
    pub tx_collisions: u64,
    pub tx_carrier: u64,
    pub tx_compressed: u64,
}

/// What the kernel shows of a network device.
pub struct NetEntry {
    pub is_dir: bool,
    /// The device's name, where it is valid text.
    pub name: Option<String>,
    pub has_statistics: bool,
    /// What the files of its statistics hold, by name, as far as they can be read.
    pub statistics: TextMap<String>,
}

/// The number in a file, or 0.
pub open spec fn stat(files: Map<Seq<char>, String>, name: Seq<char>) -> u64 {
    if files.dom().contains(name) {
        match text::unsigned_number(text::trimmed(files[name]@), 10, u64::MAX as nat) {
            Ok(n) => n as u64,
            Err(_) => 0,
        }
    } else {
        0
    }
}

/// The number in a file of the statistics, or 0.
pub fn read_net_stat(files: &TextMap<String>, stat_name: &str) -> (r: u64)
    requires
        files.wf(),
    ensures
        r == stat(files@, stat_name@),
{
    match files.get(stat_name) {
        Some(content) => match text::parse_unsigned(
            text::trim(content.as_str()).as_str(),
            10,
            u64::MAX,
        ) {
            Ok(n) => n,
            Err(_) => 0,
        },
        None => 0,
    }
}

/// Whether an entry is a network device with statistics.
pub open spec fn is_device(entry: NetEntry) -> bool {
    entry.is_dir && entry.has_statistics
}

/// Whether this is what an entry tells of its device.
pub open spec fn device_is(dev: NetDev, entry: NetEntry) -> bool {
    let files = entry.statistics@;
    &&& match entry.name {
        Some(name) => dev.name@ == name@,
        None => dev.name@ == "invalid_utf8"@,
    }
    &&& dev.rx_bytes == stat(files, "rx_bytes"@)
    &&& dev.rx_packets == stat(files, "rx_packets"@)
    &&& dev.rx_errors == stat(files, "rx_errors"@)
    &&& dev.rx_dropped == stat(files, "rx_dropped"@)
    &&& dev.rx_fifo == stat(files, "rx_fifo_errors"@)
    &&& dev.rx_frame == stat(files, "rx_frame_errors"@)
    &&& dev.rx_compressed == stat(files, "rx_compressed"@)
    &&& dev.rx_multicast == stat(files, "multicast"@)
    &&& dev.tx_bytes == stat(files, "tx_bytes"@)
    &&& dev.tx_packets == stat(files, "tx_packets"@)
    &&& dev.tx_errors == stat(files, "tx_errors"@)
    &&& dev.tx_dropped == stat(files, "tx_dropped"@)
    &&& dev.tx_fifo == stat(files, "tx_fifo_errors"@)
    &&& dev.tx_collisions == stat(files, "collisions"@)
    &&& dev.tx_carrier == stat(files, "tx_carrier_errors"@)
    &&& dev.tx_compressed == stat(files, "tx_compressed"@)
}

/// The entries that are network devices with statistics, in order.
pub open spec fn device_entries(entries: Seq<NetEntry>) -> Seq<NetEntry> {
    entries.filter(|entry: NetEntry| is_device(entry))
}

/// Whether these are the devices of the entries.
pub open spec fn devices_are(devices: Seq<NetDev>, entries: Seq<NetEntry>) -> bool {
    &&& devices.len() == device_entries(entries).len()
    &&& forall|i: int|
        0 <= i < devices.len() ==> device_is(#[trigger] devices[i], device_entries(entries)[i])
}

/// What the entries tell of the network devices.
pub fn read_all_net_stats(entries: Vec<NetEntry>) -> (devices: Vec<NetDev>)
    requires
        forall|i: int| 0 <= i < entries@.len() ==> (#[trigger] entries@[i]).statistics.wf(),
    ensures
        devices_are(devices@, entries@),
{
    let ghost all = entries@;
    let mut rest = entries;
    let mut devices: Vec<NetDev> = Vec::new();
    let ghost mut done: int = 0;
    proof {
        reveal(Seq::filter);
        assert(all.take(0) =~= Seq::<NetEntry>::empty());
    }
    while rest.len() > 0
        invariant
            0 <= done,
            done + rest@.len() == all.len(),
            rest@ == all.skip(done),
            forall|i: int| 0 <= i < all.len() ==> (#[trigger] all[i]).statistics.wf(),
            devices_are(devices@, all.take(done)),
        decreases rest@.len(),
    {
        assert(rest@[0] == all[done]);
        let entry = rest.remove(0);
        let ghost before = devices@;
        proof {
            let next = all.take(done + 1);
            assert(next.drop_last() =~= all.take(done));
            assert(next.last() == entry);
            reveal(Seq::filter);
            assert(device_entries(next) == (if is_device(entry) {
                device_entries(all.take(done)).push(entry)
            } else {
                device_entries(all.take(done))
            }));
            done = done + 1;
            assert(rest@ =~= all.skip(done));
        }
        if !entry.is_dir || !entry.has_statistics {
            continue ;
        }
        let name = match entry.name {
            Some(name) => name,
            None => "invalid_utf8".to_owned(),
        };
        let device = NetDev {
            name,
            rx_bytes: read_net_stat(&entry.statistics, "rx_bytes"),
            rx_packets: read_net_stat(&entry.statistics, "rx_packets"),
            rx_errors: read_net_stat(&entry.statistics, "rx_errors"),
            rx_dropped: read_net_stat(&entry.statistics, "rx_dropped"),
            rx_fifo: read_net_stat(&entry.statistics, "rx_fifo_errors"),
            rx_frame: read_net_stat(&entry.statistics, "rx_frame_errors"),
            rx_compressed: read_net_stat(&entry.statistics, "rx_compressed"),
            rx_multicast: read_net_stat(&entry.statistics, "multicast"),
            tx_bytes: read_net_stat(&entry.statistics, "tx_bytes"),
            tx_packets: read_net_stat(&entry.statistics, "tx_packets"),
            tx_errors: read_net_stat(&entry.statistics, "tx_errors"),
            tx_dropped: read_net_stat(&entry.statistics, "tx_dropped"),
            tx_fifo: read_net_stat(&entry.statistics, "tx_fifo_errors"),
            tx_collisions: read_net_stat(&entry.statistics, "collisions"),
            tx_carrier: read_net_stat(&entry.statistics, "tx_carrier_errors"),
            tx_compressed: read_net_stat(&entry.statistics, "tx_compressed"),
        };
        assert(device_is(device, entry));
        devices.push(device);
        assert forall|i: int| 0 <= i < devices@.len() implies device_is(
            #[trigger] devices@[i],
            device_entries(all.take(done))[i],
        ) by {
            if i < before.len() {
                assert(devices@[i] == before[i]);
            }
        }
    }
    assert(all.take(done) =~= all);
    devices
}

/// The answer to a request for the network devices of the machine.
pub fn handle_get_network_info(entries: Result<Vec<NetEntry>, String>) -> (r: Result<
    Vec<NetDev>,
    RpcStatus,
>)
    requires
        entries matches Ok(list) ==> forall|i: int|
            0 <= i < list@.len() ==> (#[trigger] list@[i]).statistics.wf(),
    ensures
        match entries {
            Ok(list) => r matches Ok(devices) && devices_are(devices@, list@),
            Err(e) => r matches Err(s) && s.says(
                Code::Internal,
                "Failed to get network info from sysfs: "@ + e@,
            ),
        },
{
    match entries {
        Ok(list) => Ok(read_all_net_stats(list)),
        Err(e) => Err(
            RpcStatus {
                code: Code::Internal,
                message: text::cat2("Failed to get network info from sysfs: ", e.as_str()),
            },
        ),
    }
}

/// The versions of the kernel and of the service.
#[derive(Debug)]
pub struct GetVersionInfoResponse {
    pub kernel_version: String,
    pub feos_version: String,
}

/// The answer to a request for the versions, from what the kernel says of itself.
pub fn handle_get_version_info(kernel: Result<String, String>, feos_version: String) -> (r: Result<
    GetVersionInfoResponse,
    RpcStatus,
>)
    ensures
        match kernel {
            Ok(version) => r matches Ok(response) && response.kernel_version@ == text::trimmed(
                version@,
            ) && response.feos_version == feos_version,
            Err(e) => r matches Err(s) && s.says(
                Code::Internal,
                "Failed to read kernel version from /proc/version: "@ + e@,
            ),
        },
{
    match kernel {
        Ok(version) => Ok(
            GetVersionInfoResponse { kernel_version: text::trim(version.as_str()), feos_version },
        ),
        Err(e) => Err(
            RpcStatus {
                code: Code::Internal,
                message: text::cat2(
                    "Failed to read kernel version from /proc/version: ",
                    e.as_str(),
                ),
            },
        ),
    }
}

} // verus!
