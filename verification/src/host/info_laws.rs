//! What holds of what the host service tells of the machine: each value is the one that the
//! system tells under its name.
use crate::host::info::{
    self, handle_get_cpu_info, handle_get_memory, handle_get_network_info, handle_get_version_info,
    handle_hostname, parse_map_to_cpu_info, read_all_net_stats, read_and_parse_cpuinfo,
    read_and_parse_meminfo, read_net_stat, CpuInfo, GetVersionInfoResponse, HostnameRead,
    HostnameResponse, MemInfo, NetDev, NetEntry,
};
use crate::rpc::{Code, RpcStatus};
use crate::table::TextMap;
use crate::text;
use crate::text_laws;
use vstd::prelude::*;

verus! {

/// What counts under a name once a line has told a value under a key: the value where the
/// name is the key, and what counted before for any other name.
pub open spec fn counted(name: Seq<char>, key: Seq<char>, value: int, before: u64) -> int {
    if name == key {
        value
    } else {
        before as int
    }
}

/// A line of the kernel's memory file counts under its name: one more line of a name, a colon,
/// white space and a number sets what is told under that name, and nothing else. What comes
/// after the number does not count.
pub proof fn memory_is_told_by_name(
    lines: &Vec<String>,
    name: Seq<char>,
    gap: Seq<char>,
    digits: Seq<char>,
    tail: Seq<char>,
    line: String,
    more: &Vec<String>,
    before: MemInfo,
    after: MemInfo,
    key: Seq<char>,
    value: int,
)
    requires
        text_laws::solid(name),
        name.len() > 0 && name.last() != ':',
        text_laws::blank(gap) && gap.len() > 0,
        text_laws::all_digits(digits, 10) && digits.len() > 0,
        text_laws::place_value(digits, 10) <= u64::MAX,
        tail.len() == 0 || text::is_space(tail[0]),
        line@ == name + ":"@ + gap + digits + tail,
        more@ == lines@.push(line),
        call_ensures(read_and_parse_meminfo, (lines,), before),
        call_ensures(read_and_parse_meminfo, (more,), after),
        key == text::lowered(name),
        value == text_laws::place_value(digits, 10),
    ensures
        after.memtotal == counted("memtotal"@, key, value, before.memtotal),
        after.memfree == counted("memfree"@, key, value, before.memfree),
        after.memavailable == counted("memavailable"@, key, value, before.memavailable),
        after.buffers == counted("buffers"@, key, value, before.buffers),
        after.cached == counted("cached"@, key, value, before.cached),
        after.swapcached == counted("swapcached"@, key, value, before.swapcached),
        after.active == counted("active"@, key, value, before.active),
        after.inactive == counted("inactive"@, key, value, before.inactive),
        after.activeanon == counted("active(anon)"@, key, value, before.activeanon),
        after.inactiveanon == counted("inactive(anon)"@, key, value, before.inactiveanon),
        after.activefile == counted("active(file)"@, key, value, before.activefile),
        after.inactivefile == counted("inactive(file)"@, key, value, before.inactivefile),
        after.unevictable == counted("unevictable"@, key, value, before.unevictable),
        after.mlocked == counted("mlocked"@, key, value, before.mlocked),
        after.swaptotal == counted("swaptotal"@, key, value, before.swaptotal),
        after.swapfree == counted("swapfree"@, key, value, before.swapfree),
        after.dirty == counted("dirty"@, key, value, before.dirty),
        after.writeback == counted("writeback"@, key, value, before.writeback),
        after.anonpages == counted("anonpages"@, key, value, before.anonpages),
        after.mapped == counted("mapped"@, key, value, before.mapped),
        after.shmem == counted("shmem"@, key, value, before.shmem),
        after.slab == counted("slab"@, key, value, before.slab),
        after.sreclaimable == counted("sreclaimable"@, key, value, before.sreclaimable),
        after.sunreclaim == counted("sunreclaim"@, key, value, before.sunreclaim),
        after.kernelstack == counted("kernelstack"@, key, value, before.kernelstack),
        after.pagetables == counted("pagetables"@, key, value, before.pagetables),
        after.nfsunstable == counted("nfs_unstable"@, key, value, before.nfsunstable),
        after.bounce == counted("bounce"@, key, value, before.bounce),
        after.writebacktmp == counted("writebacktmp"@, key, value, before.writebacktmp),
        after.commitlimit == counted("commitlimit"@, key, value, before.commitlimit),
        after.committedas == counted("committed_as"@, key, value, before.committedas),
        after.vmalloctotal == counted("vmalloctotal"@, key, value, before.vmalloctotal),
        after.vmallocused == counted("vmallocused"@, key, value, before.vmallocused),
        after.vmallocchunk == counted("vmallocchunk"@, key, value, before.vmallocchunk),
        after.hardwarecorrupted == counted("hardwarecorrupted"@, key, value, before.hardwarecorrupted),
        after.anonhugepages == counted("anonhugepages"@, key, value, before.anonhugepages),
        after.shmemhugepages == counted("shmemhugepages"@, key, value, before.shmemhugepages),
        after.shmempmdmapped == counted("shmempmdmapped"@, key, value, before.shmempmdmapped),
        after.cmatotal == counted("cmatotal"@, key, value, before.cmatotal),
        after.cmafree == counted("cmafree"@, key, value, before.cmafree),
        after.hugepagestotal == counted("hugepages_total"@, key, value, before.hugepagestotal),
        after.hugepagesfree == counted("hugepages_free"@, key, value, before.hugepagesfree),
        after.hugepagesrsvd == counted("hugepages_rsvd"@, key, value, before.hugepagesrsvd),
        after.hugepagessurp == counted("hugepages_surp"@, key, value, before.hugepagessurp),
        after.hugepagesize == counted("hugepagesize"@, key, value, before.hugepagesize),
        after.directmap4k == counted("directmap4k"@, key, value, before.directmap4k),
        after.directmap2m == counted("directmap2m"@, key, value, before.directmap2m),
        after.directmap1g == counted("directmap1g"@, key, value, before.directmap1g),
{
    reveal_strlit(":");
    let label = name + ":"@;
    assert(text_laws::solid(label)) by {
        assert forall|i: int| 0 <= i < label.len() implies !text::is_space(
            #[trigger] label[i],
        ) by {
            if i < name.len() {
                assert(label[i] == name[i]);
            }
        }
    }
    text_laws::lemma_digits_are_solid(digits);
    text_laws::lemma_front_words(label, gap, digits, tail);
    let parts = text::words(line@);
    assert(parts[0] == label && parts[1] == digits);
    text_laws::lemma_scan_value(digits, 10, u64::MAX as nat);
    assert(text_laws::is_digit(digits[0], 10));
    assert(label.drop_last() =~= name);
    assert(label.last() == ':');
    reveal_with_fuel(text::stripped, 2);
    assert(text::stripped(label, ':') == name);
    assert(more@.drop_last() =~= lines@);
    assert(info::memory_entry(line@) == Some((key, value as u64)));
    assert(info::memory_values(more@) == info::memory_values(lines@).insert(key, value as u64));
}

/// A blank line tells nothing of the memory.
pub proof fn blank_lines_tell_no_memory(
    lines: &Vec<String>,
    line: String,
    more: &Vec<String>,
    before: MemInfo,
    after: MemInfo,
)
    requires
        text_laws::blank(line@),
        more@ == lines@.push(line),
        call_ensures(read_and_parse_meminfo, (lines,), before),
        call_ensures(read_and_parse_meminfo, (more,), after),
    ensures
        after == before,
{
    assert(line@ =~= line@ + Seq::<char>::empty());
    text_laws::lemma_blank_front(line@, Seq::empty());
    assert(text::words(Seq::<char>::empty()).len() == 0);
    assert(more@.drop_last() =~= lines@);
}

/// What no line tells of counts as nothing.
pub proof fn untold_memory_is_nothing(lines: &Vec<String>, r: MemInfo)
    requires
        lines@.len() == 0,
        call_ensures(read_and_parse_meminfo, (lines,), r),
    ensures
        r.memtotal == 0,
        r.memfree == 0,
        r.memavailable == 0,
        r.buffers == 0,
        r.cached == 0,
        r.swapcached == 0,
        r.active == 0,
        r.inactive == 0,
        r.activeanon == 0,
        r.inactiveanon == 0,
        r.activefile == 0,
        r.inactivefile == 0,
        r.unevictable == 0,
        r.mlocked == 0,
        r.swaptotal == 0,
        r.swapfree == 0,
        r.dirty == 0,
        r.writeback == 0,
        r.anonpages == 0,
        r.mapped == 0,
        r.shmem == 0,
        r.slab == 0,
        r.sreclaimable == 0,
        r.sunreclaim == 0,
        r.kernelstack == 0,
        r.pagetables == 0,
        r.nfsunstable == 0,
        r.bounce == 0,
        r.writebacktmp == 0,
        r.commitlimit == 0,
        r.committedas == 0,
        r.vmalloctotal == 0,
        r.vmallocused == 0,
        r.vmallocchunk == 0,
        r.hardwarecorrupted == 0,
        r.anonhugepages == 0,
        r.shmemhugepages == 0,
        r.shmempmdmapped == 0,
        r.cmatotal == 0,
        r.cmafree == 0,
        r.hugepagestotal == 0,
        r.hugepagesfree == 0,
        r.hugepagesrsvd == 0,
        r.hugepagessurp == 0,
        r.hugepagesize == 0,
        r.directmap4k == 0,
        r.directmap2m == 0,
        r.directmap1g == 0,
{
}

/// The memory that is answered is what the lines tell, and a file that cannot be read is an
/// error.
pub proof fn memory_is_answered_as_told(
    lines: Vec<String>,
    told: MemInfo,
    r: Result<MemInfo, RpcStatus>,
    why: String,
    refused: Result<MemInfo, RpcStatus>,
)
    requires
        call_ensures(read_and_parse_meminfo, (&lines,), told),
        call_ensures(handle_get_memory, (Ok(lines),), r),
        call_ensures(handle_get_memory, (Err(why),), refused),
    ensures
        r == Ok::<MemInfo, RpcStatus>(told),
        refused matches Err(s) && s.code == Code::Internal && s.message@
            == "Failed to get memory info: "@ + why@,
{
}

/// Whether a number is what a text reads as: what its digits stand for, and 0 where it is no
/// number that fits.
pub open spec fn reads_small(n: u32, s: Seq<char>) -> bool {
    &&& s.len() > 0 && text_laws::all_digits(s, 10) && text_laws::place_value(s, 10) <= u32::MAX
        ==> n == text_laws::place_value(s, 10)
    &&& s.len() == 0 ==> n == 0
    &&& s.len() > 0 && text_laws::all_digits(s, 10) && text_laws::place_value(s, 10) > u32::MAX
        ==> n == 0
}

proof fn lemma_reads_small(map: Map<Seq<char>, Seq<char>>, key: Seq<char>)
    ensures
        reads_small(info::small_number(map, key), info::string(map, key)),
{
    let s = info::string(map, key);
    if s.len() > 0 && text_laws::all_digits(s, 10) {
        assert(text_laws::is_digit(s[0], 10));
        text_laws::lemma_scan_value(s, 10, u32::MAX as nat);
    }
}

proof fn lemma_small_numbers(map: Map<Seq<char>, Seq<char>>)
    ensures
        reads_small(info::small_number(map, "processor"@), info::string(map, "processor"@)),
        reads_small(info::small_number(map, "siblings"@), info::string(map, "siblings"@)),
        reads_small(info::small_number(map, "cpu cores"@), info::string(map, "cpu cores"@)),
        reads_small(info::small_number(map, "cpuid level"@), info::string(map, "cpuid level"@)),
        reads_small(info::small_number(map, "clflush size"@), info::string(map, "clflush size"@)),
        reads_small(
            info::small_number(map, "cache_alignment"@),
            info::string(map, "cache_alignment"@),
        ),
{
    lemma_reads_small(map, "processor"@);
    lemma_reads_small(map, "siblings"@);
    lemma_reads_small(map, "cpu cores"@);
    lemma_reads_small(map, "cpuid level"@);
    lemma_reads_small(map, "clflush size"@);
    lemma_reads_small(map, "cache_alignment"@);
}

/// Each value that is told of a processor is the one under its name in the kernel's processor
/// file; what is missing is empty, or 0.
pub proof fn processor_is_told_by_name(map: &TextMap<String>, info: CpuInfo)
    requires
        call_ensures(parse_map_to_cpu_info, (map,), info),
    ensures
        map@.dom().contains("processor"@) ==> reads_small(info.processor, map@["processor"@]@),
        !map@.dom().contains("processor"@) ==> info.processor == 0,
        map@.dom().contains("vendor_id"@) ==> info.vendor_id@ == map@["vendor_id"@]@,
        !map@.dom().contains("vendor_id"@) ==> info.vendor_id@.len() == 0,
        map@.dom().contains("cpu family"@) ==> info.cpu_family@ == map@["cpu family"@]@,
        !map@.dom().contains("cpu family"@) ==> info.cpu_family@.len() == 0,
        map@.dom().contains("model"@) ==> info.model@ == map@["model"@]@,
        !map@.dom().contains("model"@) ==> info.model@.len() == 0,
        map@.dom().contains("model name"@) ==> info.model_name@ == map@["model name"@]@,
        !map@.dom().contains("model name"@) ==> info.model_name@.len() == 0,
        map@.dom().contains("stepping"@) ==> info.stepping@ == map@["stepping"@]@,
        !map@.dom().contains("stepping"@) ==> info.stepping@.len() == 0,
        map@.dom().contains("microcode"@) ==> info.microcode@ == map@["microcode"@]@,
        !map@.dom().contains("microcode"@) ==> info.microcode@.len() == 0,
        map@.dom().contains("cpu mhz"@) ==> info.cpu_mhz@ == map@["cpu mhz"@]@,
        !map@.dom().contains("cpu mhz"@) ==> info.cpu_mhz@.len() == 0,
        map@.dom().contains("cache size"@) ==> info.cache_size@ == map@["cache size"@]@,
        !map@.dom().contains("cache size"@) ==> info.cache_size@.len() == 0,
        map@.dom().contains("physical id"@) ==> info.physical_id@ == map@["physical id"@]@,
        !map@.dom().contains("physical id"@) ==> info.physical_id@.len() == 0,
        map@.dom().contains("siblings"@) ==> reads_small(info.siblings, map@["siblings"@]@),
        !map@.dom().contains("siblings"@) ==> info.siblings == 0,
        map@.dom().contains("core id"@) ==> info.core_id@ == map@["core id"@]@,
        !map@.dom().contains("core id"@) ==> info.core_id@.len() == 0,
        map@.dom().contains("cpu cores"@) ==> reads_small(info.cpu_cores, map@["cpu cores"@]@),
        !map@.dom().contains("cpu cores"@) ==> info.cpu_cores == 0,
        map@.dom().contains("apicid"@) ==> info.apic_id@ == map@["apicid"@]@,
        !map@.dom().contains("apicid"@) ==> info.apic_id@.len() == 0,
        map@.dom().contains("initial apicid"@) ==> info.initial_apic_id@ == map@["initial apicid"@]@,
        !map@.dom().contains("initial apicid"@) ==> info.initial_apic_id@.len() == 0,
        map@.dom().contains("fpu"@) ==> info.fpu@ == map@["fpu"@]@,
        !map@.dom().contains("fpu"@) ==> info.fpu@.len() == 0,
        map@.dom().contains("fpu_exception"@) ==> info.fpu_exception@ == map@["fpu_exception"@]@,
        !map@.dom().contains("fpu_exception"@) ==> info.fpu_exception@.len() == 0,
        map@.dom().contains("cpuid level"@) ==> reads_small(info.cpu_id_level, map@["cpuid level"@]@),
        !map@.dom().contains("cpuid level"@) ==> info.cpu_id_level == 0,
        map@.dom().contains("wp"@) ==> info.wp@ == map@["wp"@]@,
        !map@.dom().contains("wp"@) ==> info.wp@.len() == 0,
        map@.dom().contains("flags"@) ==> text::views(info.flags@) == text::words(map@["flags"@]@),
        !map@.dom().contains("flags"@) ==> info.flags@.len() == 0,
        map@.dom().contains("bugs"@) ==> text::views(info.bugs@) == text::words(map@["bugs"@]@),
        !map@.dom().contains("bugs"@) ==> info.bugs@.len() == 0,
        map@.dom().contains("bogomips"@) ==> info.bogo_mips@ == map@["bogomips"@]@,
        !map@.dom().contains("bogomips"@) ==> info.bogo_mips@.len() == 0,
        map@.dom().contains("clflush size"@) ==> reads_small(info.cl_flush_size, map@["clflush size"@]@),
        !map@.dom().contains("clflush size"@) ==> info.cl_flush_size == 0,
        map@.dom().contains("cache_alignment"@) ==> reads_small(info.cache_alignment, map@["cache_alignment"@]@),
        !map@.dom().contains("cache_alignment"@) ==> info.cache_alignment == 0,
        map@.dom().contains("address sizes"@) ==> info.address_sizes@ == map@["address sizes"@]@,
        !map@.dom().contains("address sizes"@) ==> info.address_sizes@.len() == 0,
        map@.dom().contains("power management"@) ==> info.power_management@ == map@["power management"@]@,
        !map@.dom().contains("power management"@) ==> info.power_management@.len() == 0,
{
    lemma_small_numbers(info::texts(map@));
    assert(text::words(Seq::<char>::empty()).len() == 0);
    assert(text::views(info.flags@).len() == info.flags@.len());
    assert(text::views(info.bugs@).len() == info.bugs@.len());
}

/// A line of a name, a colon and a value tells that value of the last processor under that
/// name, whatever white space is around either.
pub proof fn last_processor_line_counts(
    lines: &Vec<String>,
    line: String,
    name: Seq<char>,
    rest: Seq<char>,
    more: &Vec<String>,
    cpus: Vec<CpuInfo>,
    key: Seq<char>,
    value: Seq<char>,
)
    requires
        line@ == name + ":"@ + rest,
        forall|i: int| 0 <= i < name.len() ==> #[trigger] name[i] != ':',
        more@ == lines@.push(line),
        call_ensures(read_and_parse_cpuinfo, (more,), cpus),
        key == text::lowered(text::trimmed(name)),
        value == text::trimmed(rest),
    ensures
        cpus@.len() > 0,
        key == "processor"@ ==> reads_small(cpus@.last().processor, value),
        key == "vendor_id"@ ==> cpus@.last().vendor_id@ == value,
        key == "cpu family"@ ==> cpus@.last().cpu_family@ == value,
        key == "model"@ ==> cpus@.last().model@ == value,
        key == "model name"@ ==> cpus@.last().model_name@ == value,
        key == "stepping"@ ==> cpus@.last().stepping@ == value,
        key == "microcode"@ ==> cpus@.last().microcode@ == value,
        key == "cpu mhz"@ ==> cpus@.last().cpu_mhz@ == value,
        key == "cache size"@ ==> cpus@.last().cache_size@ == value,
        key == "physical id"@ ==> cpus@.last().physical_id@ == value,
        key == "siblings"@ ==> reads_small(cpus@.last().siblings, value),
        key == "core id"@ ==> cpus@.last().core_id@ == value,
        key == "cpu cores"@ ==> reads_small(cpus@.last().cpu_cores, value),
        key == "apicid"@ ==> cpus@.last().apic_id@ == value,
        key == "initial apicid"@ ==> cpus@.last().initial_apic_id@ == value,
        key == "fpu"@ ==> cpus@.last().fpu@ == value,
        key == "fpu_exception"@ ==> cpus@.last().fpu_exception@ == value,
        key == "cpuid level"@ ==> reads_small(cpus@.last().cpu_id_level, value),
        key == "wp"@ ==> cpus@.last().wp@ == value,
        key == "flags"@ ==> text::views(cpus@.last().flags@) == text::words(value),
        key == "bugs"@ ==> text::views(cpus@.last().bugs@) == text::words(value),
        key == "bogomips"@ ==> cpus@.last().bogo_mips@ == value,
        key == "clflush size"@ ==> reads_small(cpus@.last().cl_flush_size, value),
        key == "cache_alignment"@ ==> reads_small(cpus@.last().cache_alignment, value),
        key == "address sizes"@ ==> cpus@.last().address_sizes@ == value,
        key == "power management"@ ==> cpus@.last().power_management@ == value,
{
    reveal_strlit(":");
    assert(more@.drop_last() =~= lines@);
    text_laws::lemma_split_is(name, ':', rest);
    assert(line@ =~= name + seq![':'] + rest);
    text_laws::lemma_trimmed_empty(line@);
    assert(line@[name.len() as int] == ':');
    let (done, current) = info::cpu_blocks(more@);
    let (_, was) = info::cpu_blocks(lines@);
    assert(current == was.insert(key, value));
    assert(current.dom().contains(key));
    assert(current != Map::<Seq<char>, Seq<char>>::empty());
    assert(info::cpus_of(more@).last() == current);
    assert(info::cpu_is(cpus@[cpus@.len() - 1], current));
    assert(info::string(current, key) == value);
    lemma_small_numbers(current);
}

/// Whether two processors are told the same of.
pub open spec fn alike(a: CpuInfo, b: CpuInfo) -> bool {
    &&& a.processor == b.processor
    &&& a.vendor_id@ == b.vendor_id@
    &&& a.cpu_family@ == b.cpu_family@
    &&& a.model@ == b.model@
    &&& a.model_name@ == b.model_name@
    &&& a.stepping@ == b.stepping@
    &&& a.microcode@ == b.microcode@
    &&& a.cpu_mhz@ == b.cpu_mhz@
    &&& a.cache_size@ == b.cache_size@
    &&& a.physical_id@ == b.physical_id@
    &&& a.siblings == b.siblings
    &&& a.core_id@ == b.core_id@
    &&& a.cpu_cores == b.cpu_cores
    &&& a.apic_id@ == b.apic_id@
    &&& a.initial_apic_id@ == b.initial_apic_id@
    &&& a.fpu@ == b.fpu@
    &&& a.fpu_exception@ == b.fpu_exception@
    &&& a.cpu_id_level == b.cpu_id_level
    &&& a.wp@ == b.wp@
    &&& text::views(a.flags@) == text::views(b.flags@)
    &&& text::views(a.bugs@) == text::views(b.bugs@)
    &&& a.bogo_mips@ == b.bogo_mips@
    &&& a.cl_flush_size == b.cl_flush_size
    &&& a.cache_alignment == b.cache_alignment
    &&& a.address_sizes@ == b.address_sizes@
    &&& a.power_management@ == b.power_management@
}

proof fn lemma_blocks_apart(first: Seq<String>, blank: String, second: Seq<String>)
    requires
        text::trimmed(blank@).len() == 0,
    ensures
        info::cpu_blocks(first + seq![blank] + second) == (
            info::cpus_of(first) + info::cpu_blocks(second).0,
            info::cpu_blocks(second).1,
        ),
    decreases second.len(),
{
    let all = first + seq![blank] + second;
    if second.len() == 0 {
        assert(all.drop_last() =~= first);
        assert(all.last() == blank);
        assert(info::cpus_of(first) + info::cpu_blocks(second).0 =~= info::cpus_of(first));
    } else {
        let init = second.drop_last();
        assert(all.drop_last() =~= first + seq![blank] + init);
        assert(all.last() == second.last());
        lemma_blocks_apart(first, blank, init);
        let (done, current) = info::cpu_blocks(init);
        assert((info::cpus_of(first) + done).push(current) =~= info::cpus_of(first) + done.push(
            current,
        ));
    }
}

/// Processors are told apart by blank lines: the processors of two files with a blank line
/// between them are those of the first followed by those of the second.
pub proof fn blank_lines_part_processors(
    first: &Vec<String>,
    blank: String,
    second: &Vec<String>,
    both: &Vec<String>,
    a: Vec<CpuInfo>,
    b: Vec<CpuInfo>,
    all: Vec<CpuInfo>,
)
    requires
        text_laws::blank(blank@),
        both@ == first@ + seq![blank] + second@,
        call_ensures(read_and_parse_cpuinfo, (first,), a),
        call_ensures(read_and_parse_cpuinfo, (second,), b),
        call_ensures(read_and_parse_cpuinfo, (both,), all),
    ensures
        all@.len() == a@.len() + b@.len(),
        forall|i: int| 0 <= i < a@.len() ==> alike(#[trigger] all@[i], a@[i]),
        forall|i: int| a@.len() <= i < all@.len() ==> alike(#[trigger] all@[i], b@[i - a@.len()]),
{
    text_laws::lemma_trimmed_is(blank@, Seq::empty(), Seq::empty());
    assert(blank@ + Seq::<char>::empty() + Seq::<char>::empty() =~= blank@);
    lemma_blocks_apart(first@, blank, second@);
    let whole = info::cpus_of(both@);
    let (done, current) = info::cpu_blocks(second@);
    assert(whole =~= info::cpus_of(first@) + info::cpus_of(second@));
    assert forall|i: int| 0 <= i < a@.len() implies alike(#[trigger] all@[i], a@[i]) by {
        assert(info::cpu_is(all@[i], whole[i]));
        assert(info::cpu_is(a@[i], info::cpus_of(first@)[i]));
    }
    assert forall|i: int| a@.len() <= i < all@.len() implies alike(
        #[trigger] all@[i],
        b@[i - a@.len()],
    ) by {
        assert(info::cpu_is(all@[i], whole[i]));
        assert(info::cpu_is(b@[i - a@.len()], info::cpus_of(second@)[i - a@.len()]));
    }
}

/// A file without lines tells of no processor; the processors that are answered are those that
/// the lines tell of, and a file that cannot be read is an error.
pub proof fn processors_are_answered_as_told(
    none: &Vec<String>,
    nobody: Vec<CpuInfo>,
    lines: Vec<String>,
    told: Vec<CpuInfo>,
    r: Result<Vec<CpuInfo>, RpcStatus>,
    why: String,
    refused: Result<Vec<CpuInfo>, RpcStatus>,
)
    requires
        none@.len() == 0,
        call_ensures(read_and_parse_cpuinfo, (none,), nobody),
        call_ensures(read_and_parse_cpuinfo, (&lines,), told),
        call_ensures(handle_get_cpu_info, (Ok(lines),), r),
        call_ensures(handle_get_cpu_info, (Err(why),), refused),
    ensures
        nobody@.len() == 0,
        r matches Ok(cpus) && cpus@.len() == told@.len() && (forall|i: int|
            0 <= i < told@.len() ==> alike(#[trigger] cpus@[i], told@[i])),
        refused matches Err(s) && s.code == Code::Internal && s.message@
            == "Failed to get CPU info: "@ + why@,
{
    match r {
        Ok(cpus) => {
            assert forall|i: int| 0 <= i < told@.len() implies alike(
                #[trigger] cpus@[i],
                told@[i],
            ) by {
                assert(info::cpu_is(cpus@[i], info::cpus_of(lines@)[i]));
                assert(info::cpu_is(told@[i], info::cpus_of(lines@)[i]));
            }
        },
        _ => {},
    }
}

/// Whether a number is what a file of the statistics holds: what the digits in it stand for,
/// and 0 where there is no such file.
pub open spec fn reads(n: u64, files: Map<Seq<char>, String>, name: Seq<char>) -> bool {
    if files.dom().contains(name) {
        n == info::stat(files, name)
    } else {
        n == 0
    }
}

/// The number in a file of the statistics is what the digits in it stand for, whatever white
/// space is around them; without the file it is 0.
pub proof fn statistics_are_read_as_numbers(
    files: &TextMap<String>,
    name: &str,
    before: Seq<char>,
    digits: Seq<char>,
    after: Seq<char>,
    r: u64,
)
    requires
        text_laws::blank(before),
        text_laws::blank(after),
        text_laws::all_digits(digits, 10) && digits.len() > 0,
        text_laws::place_value(digits, 10) <= u64::MAX,
        call_ensures(read_net_stat, (files, name), r),
    ensures
        files@.dom().contains(name@) && files@[name@]@ == before + digits + after ==> r
            == text_laws::place_value(digits, 10),
        !files@.dom().contains(name@) ==> r == 0,
        reads(r, files@, name@),
{
    assert(text_laws::is_digit(digits[0], 10));
    assert(text_laws::is_digit(digits[digits.len() - 1], 10));
    text_laws::lemma_trimmed_is(before, digits, after);
    text_laws::lemma_scan_value(digits, 10, u64::MAX as nat);
}

/// Each count of a network device is what its file of the same name tells, received and sent
/// kept apart; an entry counts as a device exactly where it is a directory with statistics.
pub proof fn devices_are_counted_by_name(
    entries: Vec<NetEntry>,
    entry: NetEntry,
    more: Vec<NetEntry>,
    before: Vec<NetDev>,
    after: Vec<NetDev>,
)
    requires
        more@ == entries@.push(entry),
        call_ensures(read_all_net_stats, (entries,), before),
        call_ensures(read_all_net_stats, (more,), after),
    ensures
        !(entry.is_dir && entry.has_statistics) ==> after@.len() == before@.len(),
        entry.is_dir && entry.has_statistics ==> {
            let files = entry.statistics@;
            &&& after@.len() == before@.len() + 1
            &&& entry.name matches Some(name) ==> after@.last().name@ == name@
            &&& entry.name is None ==> after@.last().name@ == "invalid_utf8"@
            &&& reads(after@.last().rx_bytes, files, "rx_bytes"@)
            &&& reads(after@.last().rx_packets, files, "rx_packets"@)
            &&& reads(after@.last().rx_errors, files, "rx_errors"@)
            &&& reads(after@.last().rx_dropped, files, "rx_dropped"@)
            &&& reads(after@.last().rx_fifo, files, "rx_fifo_errors"@)
            &&& reads(after@.last().rx_frame, files, "rx_frame_errors"@)
            &&& reads(after@.last().rx_compressed, files, "rx_compressed"@)
            &&& reads(after@.last().rx_multicast, files, "multicast"@)
            &&& reads(after@.last().tx_bytes, files, "tx_bytes"@)
            &&& reads(after@.last().tx_packets, files, "tx_packets"@)
            &&& reads(after@.last().tx_errors, files, "tx_errors"@)
            &&& reads(after@.last().tx_dropped, files, "tx_dropped"@)
            &&& reads(after@.last().tx_fifo, files, "tx_fifo_errors"@)
            &&& reads(after@.last().tx_collisions, files, "collisions"@)
            &&& reads(after@.last().tx_carrier, files, "tx_carrier_errors"@)
            &&& reads(after@.last().tx_compressed, files, "tx_compressed"@)
        },
        forall|i: int|
            0 <= i < before@.len() ==> (#[trigger] after@[i]).name@ == before@[i].name@
                && after@[i].rx_bytes == before@[i].rx_bytes && after@[i].tx_bytes
                == before@[i].tx_bytes,
{
    reveal(Seq::filter);
    assert(more@.drop_last() =~= entries@);
    let was = info::device_entries(entries@);
    let now = info::device_entries(more@);
    assert(now == (if info::is_device(entry) {
        was.push(entry)
    } else {
        was
    }));
    if info::is_device(entry) {
        assert(info::device_is(after@[after@.len() - 1], now[now.len() - 1]));
    }
    assert forall|i: int| 0 <= i < before@.len() implies (#[trigger] after@[i]).name@
        == before@[i].name@ && after@[i].rx_bytes == before@[i].rx_bytes && after@[i].tx_bytes
        == before@[i].tx_bytes by {
        assert(info::device_is(after@[i], now[i]));
        assert(info::device_is(before@[i], was[i]));
    }
}

/// No entries tell of no device; the devices that are answered are those of the entries, and a
/// directory that cannot be read is an error.
pub proof fn devices_are_answered_as_told(
    none: Vec<NetEntry>,
    nothing: Vec<NetDev>,
    entries: Vec<NetEntry>,
    told: Vec<NetDev>,
    r: Result<Vec<NetDev>, RpcStatus>,
    why: String,
    refused: Result<Vec<NetDev>, RpcStatus>,
)
    requires
        none@.len() == 0,
        call_ensures(read_all_net_stats, (none,), nothing),
        call_ensures(read_all_net_stats, (entries,), told),
        call_ensures(handle_get_network_info, (Ok(entries),), r),
        call_ensures(handle_get_network_info, (Err(why),), refused),
    ensures
        nothing@.len() == 0,
        r matches Ok(devices) && devices@.len() == told@.len() && (forall|i: int|
            0 <= i < told@.len() ==> (#[trigger] devices@[i]).name@ == told@[i].name@
                && devices@[i].rx_bytes == told@[i].rx_bytes && devices@[i].tx_bytes
                == told@[i].tx_bytes),
        refused matches Err(s) && s.code == Code::Internal && s.message@
            == "Failed to get network info from sysfs: "@ + why@,
{
    reveal(Seq::filter);
    match r {
        Ok(devices) => {
            let list = info::device_entries(entries@);
            assert forall|i: int| 0 <= i < told@.len() implies (#[trigger] devices@[i]).name@
                == told@[i].name@ && devices@[i].rx_bytes == told@[i].rx_bytes
                && devices@[i].tx_bytes == told@[i].tx_bytes by {
                assert(info::device_is(devices@[i], list[i]));
                assert(info::device_is(told@[i], list[i]));
            }
        },
        _ => {},
    }
}

/// The name of the machine is answered as the system gives it; what is no text is answered as
/// that, and a system that does not answer is an error.
pub proof fn name_is_answered_as_given(
    name: String,
    given: Result<HostnameResponse, RpcStatus>,
    unreadable: Result<HostnameResponse, RpcStatus>,
    why: String,
    refused: Result<HostnameResponse, RpcStatus>,
)
    requires
        call_ensures(handle_hostname, (HostnameRead::Name(name),), given),
        call_ensures(handle_hostname, (HostnameRead::NotText,), unreadable),
        call_ensures(handle_hostname, (HostnameRead::Failed(why),), refused),
    ensures
        given matches Ok(r) && r.hostname@ == name@,
        unreadable matches Ok(r) && r.hostname@ == "Invalid UTF-8"@,
        refused matches Err(s) && s.code == Code::Internal && s.message@
            == "Failed to get system hostname: "@ + why@,
{
}

/// The version of the kernel is what its file holds, without the white space around it, and
/// that of the service is its own.
pub proof fn versions_are_answered_as_given(
    before: Seq<char>,
    version: Seq<char>,
    after: Seq<char>,
    content: String,
    own: String,
    given: Result<GetVersionInfoResponse, RpcStatus>,
    why: String,
    refused: Result<GetVersionInfoResponse, RpcStatus>,
)
    requires
        text_laws::blank(before),
        text_laws::blank(after),
        version.len() > 0 ==> !text::is_space(version[0]) && !text::is_space(version.last()),
        content@ == before + version + after,
        call_ensures(handle_get_version_info, (Ok(content), own), given),
        call_ensures(handle_get_version_info, (Err(why), own), refused),
    ensures
        given matches Ok(r) && r.kernel_version@ == version && r.feos_version@ == own@,
        refused matches Err(s) && s.code == Code::Internal && s.message@
            == "Failed to read kernel version from /proc/version: "@ + why@,
{
    text_laws::lemma_trimmed_is(before, version, after);
}

} // verus!
