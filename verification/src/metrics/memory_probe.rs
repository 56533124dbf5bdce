//! Process memory sampling.
//!
//! A sample combines the resident and virtual sizes, which the `memory-stats`
//! crate reads, with the thread count and the swapped-out memory, which Linux
//! reports in `/proc/self/status`. The text of that file is handed in.

use crate::text;
use std::sync::Once;
use vstd::prelude::*;
use vstd::slice::slice_subrange;
use vstd::string::StringExecFns;

verus! {

/// A point-in-time sample of the process's memory footprint.
#[derive(Clone, Copy, Debug, PartialEq, Eq)]
pub struct MemorySample {
    /// Resident set size in bytes (physical memory currently held).
    pub rss_bytes: u64,
    /// Virtual memory size in bytes (address space reserved).
    pub vm_bytes: u64,
    /// OS thread count. `None` on platforms where it is not read.
    pub threads: Option<u64>,
    /// Anonymous memory swapped out to disk, in bytes. `None` on platforms
    /// where it is not read.
    ///
    /// A process that is swapping itself to death shows a healthy `rss_bytes`;
    /// this is the field that tells.
    pub swap_bytes: Option<u64>,
}

/// Reads the current process's memory footprint.
///
/// A trait, so that what consumes samples can be tested without reading real
/// process memory.
pub trait MemoryProbe: Send + Sync {
    /// Returns the current sample, or `None` if the platform cannot supply one.
    fn sample(&self) -> Option<MemorySample>;
}

/// What `/proc/self/status` says of the process: its thread count, and its
/// swapped-out anonymous memory in bytes.
pub struct StatusFields {
    pub threads: Option<u64>,
    pub swap_bytes: Option<u64>,
}

/// Nothing known yet, or nothing readable.
pub open spec fn no_fields() -> StatusFields {
    StatusFields { threads: None, swap_bytes: None }
}

/// The number of kibibytes in what follows `VmSwap:`: a number, then `kB`,
/// with white space around each.
pub open spec fn swap_kib(value: Seq<char>) -> Option<u64> {
    match text::without_suffix(text::trimmed(value), "kB"@) {
        Some(number) => text::parsed_u64(text::trimmed(number)),
        None => None,
    }
}

/// The fields once `line` has been read, given those of the lines before it.
pub open spec fn fields_after_line(before: StatusFields, line: Seq<char>) -> StatusFields {
    match text::without_prefix(line, "Threads:"@) {
        Some(value) => StatusFields {
            threads: text::parsed_u64(text::trimmed(value)),
            swap_bytes: before.swap_bytes,
        },
        None => match text::without_prefix(line, "VmSwap:"@) {
            Some(value) => StatusFields {
                threads: before.threads,
                swap_bytes: match swap_kib(value) {
                    Some(kib) => Some((kib * 1024) as u64),
                    None => None,
                },
            },
            None => before,
        },
    }
}

/// The fields once all of `text` has been read, line by line.
pub open spec fn fields_after_text(before: StatusFields, text: Seq<char>) -> StatusFields
    decreases text.len(),
{
    if text.len() == 0 {
        before
    } else {
        proof {
            text::lemma_after_first_line_shorter(text);
        }
        fields_after_text(fields_after_line(before, text::first_line(text)), text::after_first_line(text))
    }
}

/// The fields that a readable or unreadable status file gives.
pub open spec fn status_fields(status: Option<Seq<char>>) -> StatusFields {
    match status {
        Some(text) => fields_after_text(no_fields(), text),
        None => no_fields(),
    }
}

/// The swap size on `line`, if it has one, fits `u64` when taken in bytes.
pub open spec fn line_in_range(line: Seq<char>) -> bool {
    match text::without_prefix(line, "VmSwap:"@) {
        Some(value) => match swap_kib(value) {
            Some(kib) => kib * 1024 <= u64::MAX,
            None => true,
        },
        None => true,
    }
}

/// Every swap size in `text` fits `u64` when taken in bytes.
pub open spec fn text_in_range(text: Seq<char>) -> bool
    decreases text.len(),
{
    if text.len() == 0 {
        true
    } else {
        proof {
            text::lemma_after_first_line_shorter(text);
        }
        line_in_range(text::first_line(text)) && text_in_range(text::after_first_line(text))
    }
}

/// A status text that the fields can be read from.
pub open spec fn status_in_range(status: Option<&str>) -> bool {
    match status {
        Some(text) => text_in_range(text@),
        None => true,
    }
}

/// The sample that a reading of the process sizes and of the status file
/// makes: none without the sizes.
pub open spec fn sample_of(
    sizes: Option<(usize, usize)>,
    status: Option<Seq<char>>,
) -> Option<MemorySample> {
    match sizes {
        Some((physical, virtual_size)) => Some(
            MemorySample {
                rss_bytes: physical as u64,
                vm_bytes: virtual_size as u64,
                threads: status_fields(status).threads,
                swap_bytes: status_fields(status).swap_bytes,
            },
        ),
        None => None,
    }
}

/// Calls `memory_stats::memory_stats` and hands on the physical and the
/// virtual memory size that it read. Nothing is claimed of the sizes, nor of
/// whether there are any: they are the operating system's.
#[verifier::external_body]
fn process_sizes() -> Option<(usize, usize)> {
    memory_stats::memory_stats().map(|stats| (stats.physical_mem, stats.virtual_mem))
}

/// Reads the process sizes for the sake of what `memory-stats` sets up on the
/// way.
fn first_reading() {
    let _ = process_sizes();
}

/// Calls `std::sync::Once::call_once_force` with `first_reading`: it is run
/// where `init` has run nothing to its end yet, and one that another thread is
/// running is waited for. Nothing is claimed, as nothing is returned.
#[verifier::external_body]
fn settle_first_reading(init: &Once) {
    init.call_once_force(|_| first_reading());
}

/// Sizes that a call of `process_sizes` may give.
pub closed spec fn are_process_sizes(sizes: Option<(usize, usize)>) -> bool {
    call_ensures(process_sizes, (), sizes)
}

/// Where the first line of what is left from `from` on ends, and the line.
fn line_at(chars: &[char], from: usize) -> (r: (usize, &[char]))
    requires
        from < chars@.len(),
    ensures
        from <= r.0 <= chars@.len(),
        r.1@ == text::first_line(chars@.skip(from as int)),
        text::after_first_line(chars@.skip(from as int)) == (if r.0 < chars@.len() {
            chars@.skip(r.0 + 1)
        } else {
            Seq::empty()
        }),
{
    let end: usize = text::find_line_feed(chars, from);
    let ghost rest = chars@.skip(from as int);
    proof {
        text::lemma_line_feed(rest);
        assert(rest.take(text::line_feed(rest)) == chars@.subrange(from as int, end as int));
        if end < chars@.len() {
            assert(rest.skip(text::line_feed(rest) + 1) == chars@.skip(end + 1));
        }
    }
    let line = if end < chars.len() && from < end && chars[end - 1] == '\r' {
        assert(chars@.subrange(from as int, end as int).drop_last() == chars@.subrange(
            from as int,
            end - 1,
        ));
        slice_subrange(chars, from, end - 1)
    } else {
        slice_subrange(chars, from, end)
    };
    (end, line)
}

/// The number of kibibytes in what follows `VmSwap:`.
fn parse_swap_kib(value: &[char]) -> (r: Option<u64>)
    ensures
        r == swap_kib(value@),
{
    match text::strip_suffix(text::trim(value), "kB") {
        Some(number) => text::parse_u64(text::trim(number)),
        None => None,
    }
}

/// Production probe.
#[derive(Debug, Default, Clone, Copy)]
pub struct ProcessMemoryProbe;

impl ProcessMemoryProbe {
    /// Creates a new probe.
    pub fn new() -> (r: Self)
        ensures
            r == ProcessMemoryProbe,
    {
        ProcessMemoryProbe
    }

    /// Whether every swap size in `status` can be given in bytes.
    pub fn swap_fits(status: &str) -> (r: bool)
        ensures
            r == text_in_range(status@),
    {
        let all = text::chars_of(status);
        let chars: &[char] = all.as_slice();
        let mut at: usize = 0;
        assert(chars@.skip(0) == chars@);
        while at < chars.len()
            invariant
                at <= chars@.len(),
                chars@ == status@,
                text_in_range(status@) == text_in_range(chars@.skip(at as int)),
            decreases chars@.len() - at,
        {
            let (end, line) = line_at(chars, at);
            match text::strip_prefix(line, "VmSwap:") {
                Some(value) => match parse_swap_kib(value) {
                    Some(kib) => {
                        if kib > u64::MAX / 1024 {
                            return false;
                        }
                    },
                    None => {},
                },
                None => {},
            }
            if end == chars.len() {
                at = end;
                assert(chars@.skip(at as int) == Seq::<char>::empty());
            } else {
                at = end + 1;
            }
        }
        true
    }

    /// Reads the thread count and the swapped-out anonymous memory in one pass
    /// over the text of `/proc/self/status`. Of several lines with one field
    /// the last counts. Both fields are `None` where there is no such file.
    pub fn linux_status_fields(status: Option<&str>) -> (r: (Option<u64>, Option<u64>))
        requires
            status_in_range(status),
        ensures
            r.0 == status_fields(text::str_view(status)).threads,
            r.1 == status_fields(text::str_view(status)).swap_bytes,
    {
        let text = match status {
            Some(text) => text,
            None => {
                return (None, None);
            },
        };
        let all = text::chars_of(text);
        let chars: &[char] = all.as_slice();
        let mut threads: Option<u64> = None;
        let mut swap_bytes: Option<u64> = None;
        let mut at: usize = 0;
        assert(chars@.skip(0) == chars@);
        while at < chars.len()
            invariant
                at <= chars@.len(),
                chars@ == text@,
                text_in_range(chars@.skip(at as int)),
                fields_after_text(no_fields(), text@) == fields_after_text(
                    StatusFields { threads, swap_bytes },
                    chars@.skip(at as int),
                ),
            decreases chars@.len() - at,
        {
            let (end, line) = line_at(chars, at);
            match text::strip_prefix(line, "Threads:") {
                Some(value) => {
                    threads = text::parse_u64(text::trim(value));
                },
                None => match text::strip_prefix(line, "VmSwap:") {
                    Some(value) => {
                        swap_bytes = match parse_swap_kib(value) {
                            Some(kib) => Some(kib * 1024),
                            None => None,
                        };
                    },
                    None => {},
                },
            }
            if end == chars.len() {
                at = end;
                assert(chars@.skip(at as int) == Seq::<char>::empty());
            } else {
                at = end + 1;
            }
        }
        (threads, swap_bytes)
    }

    /// The sample that a reading of the process sizes (physical, then virtual)
    /// and of the status file makes.
    pub fn sample_from(&self, sizes: Option<(usize, usize)>, status: Option<&str>) -> (r: Option<
        MemorySample,
    >)
        requires
            sizes is Some ==> status_in_range(status),
        ensures
            r == sample_of(sizes, text::str_view(status)),
    {
        match sizes {
            Some((physical, virtual_size)) => {
                let (threads, swap_bytes) = Self::linux_status_fields(status);
                Some(
                    MemorySample {
                        rss_bytes: physical as u64,
                        vm_bytes: virtual_size as u64,
                        threads,
                        swap_bytes,
                    },
                )
            },
            None => None,
        }
    }

    /// Samples the process, given the text of `/proc/self/status` where the
    /// platform has that file.
    ///
    /// The first reading of the process sizes in a process must not run beside
    /// another one: `memory-stats` would then report zero for both sizes. So
    /// one reading is made under `init` before any that counts. All samples
    /// of a process have to be taken with the same `init`.
    pub fn sample(&self, init: &Once, status: Option<&str>) -> (r: Option<MemorySample>)
        requires
            status_in_range(status),
        ensures
            exists|sizes: Option<(usize, usize)>|
                are_process_sizes(sizes) && r == #[trigger] sample_of(
                    sizes,
                    text::str_view(status),
                ),
            r matches Some(sample) ==> sample.threads == status_fields(text::str_view(status)).threads
                && sample.swap_bytes == status_fields(text::str_view(status)).swap_bytes,
    {
        settle_first_reading(init);
        let sizes = process_sizes();
        self.sample_from(sizes, status)
    }
}

/// A probe that returns fixed values.
#[derive(Debug, Clone, Copy)]
pub struct StaticMemoryProbe {
    pub sample: Option<MemorySample>,
}

impl StaticMemoryProbe {
    /// Creates a probe returning the given byte counts, 42 threads, and zero swap.
    pub fn new(rss_bytes: u64, vm_bytes: u64) -> (r: Self)
        ensures
            r.sample == Some(
                (MemorySample { rss_bytes, vm_bytes, threads: Some(42), swap_bytes: Some(0) }),
            ),
    {
        StaticMemoryProbe {
            sample: Some(
                MemorySample { rss_bytes, vm_bytes, threads: Some(42), swap_bytes: Some(0) },
            ),
        }
    }

    /// Overrides the configured swap byte count.
    ///
    /// No-op if the probe was built with [`Self::unavailable`].
    pub fn with_swap_bytes(self, swap_bytes: u64) -> (r: Self)
        ensures
            r.sample == (match self.sample {
                Some(sample) => Some((MemorySample { swap_bytes: Some(swap_bytes), ..sample })),
                None => None,
            }),
    {
        match self.sample {
            Some(sample) => StaticMemoryProbe {
                sample: Some(MemorySample { swap_bytes: Some(swap_bytes), ..sample }),
            },
            None => self,
        }
    }

    /// Creates a probe that always fails to sample.
    pub fn unavailable() -> (r: Self)
        ensures
            r.sample is None,
    {
        StaticMemoryProbe { sample: None }
    }
}

impl MemoryProbe for StaticMemoryProbe {
    fn sample(&self) -> (r: Option<MemorySample>)
        ensures
            r == self.sample,
    {
        self.sample
    }
}

/// One `key=value` entry for a variable that is set, none for one that is not.
pub open spec fn override_entry(key: Seq<char>, value: Option<Seq<char>>) -> Seq<Seq<char>> {
    match value {
        Some(value) => seq![key + "="@ + value],
        None => Seq::empty(),
    }
}

/// `parts` with a space between each two.
pub open spec fn spaced(parts: Seq<Seq<char>>) -> Seq<char>
    decreases parts.len(),
{
    if parts.len() == 0 {
        Seq::empty()
    } else if parts.len() == 1 {
        parts[0]
    } else {
        spaced(parts.drop_last()) + " "@ + parts.last()
    }
}

/// The text of a list of overrides; no text for an empty list.
pub open spec fn override_line(parts: Seq<Seq<char>>) -> Option<Seq<char>> {
    if parts.len() == 0 {
        None
    } else {
        Some(spaced(parts))
    }
}

/// Adds one variable's entry, if it is set, to the text of the overrides so far.
fn add_override(
    line: Option<String>,
    key: &str,
    value: Option<&str>,
    Ghost(parts): Ghost<Seq<Seq<char>>>,
) -> (r: Option<String>)
    requires
        text::string_view(line) == override_line(parts),
    ensures
        text::string_view(r) == override_line(parts + override_entry(key@, text::str_view(value))),
{
    match value {
        None => {
            assert(parts + override_entry(key@, None) == parts);
            line
        },
        Some(value) => {
            let ghost entry = key@ + "="@ + value@;
            assert(override_entry(key@, Some(value@)) == seq![entry]);
            assert((parts + seq![entry]).drop_last() == parts);
            assert((parts + seq![entry]).last() == entry);
            let mut text: String = match line {
                Some(line) => line.concat(" "),
                None => String::new(),
            };
            text.append(key);
            text.append("=");
            text.append(value);
            assert(text@ == spaced(parts + seq![entry]));
            Some(text)
        },
    }
}

/// The glibc allocator overrides that are set, as one line of text for the
/// log; `None` when none is.
///
/// These variables change how freed memory goes back to the operating system,
/// so a trace gathered with them set is not comparable to one gathered
/// without. A line reads, for instance,
/// `MALLOC_MMAP_THRESHOLD_=1048576 MALLOC_ARENA_MAX=2`.
pub fn allocator_environment(
    mmap_threshold: Option<&str>,
    arena_max: Option<&str>,
    trim_threshold: Option<&str>,
) -> (r: Option<String>)
    ensures
        text::string_view(r) == override_line(
            override_entry("MALLOC_MMAP_THRESHOLD_"@, text::str_view(mmap_threshold))
                + override_entry("MALLOC_ARENA_MAX"@, text::str_view(arena_max)) + override_entry(
                "MALLOC_TRIM_THRESHOLD_"@,
                text::str_view(trim_threshold),
            ),
        ),
        r is None <==> mmap_threshold is None && arena_max is None && trim_threshold is None,
{
    let ghost none = Seq::<Seq<char>>::empty();
    let ghost first = override_entry("MALLOC_MMAP_THRESHOLD_"@, text::str_view(mmap_threshold));
    let ghost second = override_entry("MALLOC_ARENA_MAX"@, text::str_view(arena_max));
    assert(none + first == first);
    let line = add_override(None, "MALLOC_MMAP_THRESHOLD_", mmap_threshold, Ghost(none));
    let line = add_override(line, "MALLOC_ARENA_MAX", arena_max, Ghost(first));
    add_override(line, "MALLOC_TRIM_THRESHOLD_", trim_threshold, Ghost(first + second))
}

/// A line of `text` begins with `prefix`.
pub open spec fn has_line_with(text: Seq<char>, prefix: Seq<char>) -> bool
    decreases text.len(),
{
    if text.len() == 0 {
        false
    } else {
        proof {
            text::lemma_after_first_line_shorter(text);
        }
        text::without_prefix(text::first_line(text), prefix) is Some || has_line_with(
            text::after_first_line(text),
            prefix,
        )
    }
}

/// No line begins with both field names.
proof fn lemma_field_names_differ(line: Seq<char>)
    ensures
        text::without_prefix(line, "Threads:"@) is None || text::without_prefix(
            line,
            "VmSwap:"@,
        ) is None,
{
    reveal_strlit("Threads:");
    reveal_strlit("VmSwap:");
    if text::without_prefix(line, "Threads:"@) is Some && text::without_prefix(
        line,
        "VmSwap:"@,
    ) is Some {
        assert(line.subrange(0, "Threads:"@.len() as int)[0] == line[0]);
        assert(line.subrange(0, "VmSwap:"@.len() as int)[0] == line[0]);
        assert("Threads:"@[0] == 'T');
        assert("VmSwap:"@[0] == 'V');
    }
}

/// A field is what the last line with its name says, whatever stood before:
/// where the text has a line with the name, earlier readings of the field are
/// forgotten, and where it has none, they are kept.
pub proof fn law_last_line_counts(before: StatusFields, other: StatusFields, text: Seq<char>)
    ensures
        has_line_with(text, "Threads:"@) ==> fields_after_text(before, text).threads
            == fields_after_text(other, text).threads,
        !has_line_with(text, "Threads:"@) ==> fields_after_text(before, text).threads
            == before.threads,
        has_line_with(text, "VmSwap:"@) ==> fields_after_text(before, text).swap_bytes
            == fields_after_text(other, text).swap_bytes,
        !has_line_with(text, "VmSwap:"@) ==> fields_after_text(before, text).swap_bytes
            == before.swap_bytes,
    decreases text.len(),
{
    if text.len() > 0 {
        let line = text::first_line(text);
        let rest = text::after_first_line(text);
        text::lemma_after_first_line_shorter(text);
        lemma_field_names_differ(line);
        law_last_line_counts(fields_after_line(before, line), fields_after_line(other, line), rest);
        law_last_line_counts(fields_after_line(other, line), fields_after_line(before, line), rest);
    }
}

/// Swapped-out memory is a whole number of kibibytes.
pub proof fn law_swap_in_whole_kibibytes(before: StatusFields, text: Seq<char>)
    requires
        text_in_range(text),
        before.swap_bytes matches Some(bytes) ==> bytes % 1024 == 0,
    ensures
        fields_after_text(before, text).swap_bytes matches Some(bytes) ==> bytes % 1024 == 0,
    decreases text.len(),
{
    if text.len() > 0 {
        text::lemma_after_first_line_shorter(text);
        lemma_field_names_differ(text::first_line(text));
        law_swap_in_whole_kibibytes(
            fields_after_line(before, text::first_line(text)),
            text::after_first_line(text),
        );
    }
}

/// A line on threads tells their number, whatever white space stands around
/// it, and nothing of the swap; a line with anything else there tells that
/// their number is unknown.
pub proof fn law_threads_line(
    before: StatusFields,
    left: Seq<char>,
    number: Seq<char>,
    right: Seq<char>,
)
    requires
        forall|i: int| 0 <= i < left.len() ==> text::is_white_space(#[trigger] left[i]),
        forall|i: int| 0 <= i < right.len() ==> text::is_white_space(#[trigger] right[i]),
        number.len() > 0 ==> !text::is_white_space(number.first()) && !text::is_white_space(
            number.last(),
        ),
    ensures
        fields_after_line(before, "Threads:"@ + (left + number + right)).threads
            == text::parsed_u64(number),
        fields_after_line(before, "Threads:"@ + (left + number + right)).swap_bytes
            == before.swap_bytes,
{
    let value = left + number + right;
    text::law_prefix_is_taken_off("Threads:"@, value, value);
    text::law_trim_leaves_the_middle(left, number, right);
}

/// A line on swap with a number and the unit tells 1024 times the number in
/// bytes, whatever white space stands around both, and nothing of the threads.
/// Anything else before the unit tells that the swap is unknown.
pub proof fn law_swap_line(
    before: StatusFields,
    left: Seq<char>,
    number: Seq<char>,
    between: Seq<char>,
    right: Seq<char>,
)
    requires
        forall|i: int| 0 <= i < left.len() ==> text::is_white_space(#[trigger] left[i]),
        forall|i: int| 0 <= i < between.len() ==> text::is_white_space(#[trigger] between[i]),
        forall|i: int| 0 <= i < right.len() ==> text::is_white_space(#[trigger] right[i]),
        number.len() > 0 ==> !text::is_white_space(number.first()) && !text::is_white_space(
            number.last(),
        ),
    ensures
        ({
            let line = "VmSwap:"@ + (left + (number + between + "kB"@) + right);
            let after = fields_after_line(before, line);
            &&& after.threads == before.threads
            &&& match text::parsed_u64(number) {
                Some(kib) => {
                    &&& line_in_range(line) <==> kib * 1024 <= u64::MAX
                    &&& kib * 1024 <= u64::MAX ==> after.swap_bytes is Some
                        && after.swap_bytes->0 as int == kib * 1024
                },
                None => line_in_range(line) && after.swap_bytes is None,
            }
        }),
{
    reveal_strlit("kB");
    let unit = "kB"@;
    let middle = number + between + unit;
    let value = left + middle + right;
    let line = "VmSwap:"@ + value;
    text::law_prefix_is_taken_off("VmSwap:"@, value, value);
    lemma_field_names_differ(line);
    assert(unit[0] == 'k' && unit[1] == 'B' && unit.len() == 2);
    assert(middle.last() == 'B');
    let none = Seq::<char>::empty();
    if number.len() > 0 {
        assert(middle.first() == number.first());
        text::law_trim_leaves_the_middle(left, middle, right);
        text::law_suffix_is_taken_off(number + between, unit, unit);
        assert(none + number + between == number + between);
        text::law_trim_leaves_the_middle(none, number, between);
    } else {
        assert(value == left + between + unit + right);
        assert forall|i: int| 0 <= i < (left + between).len() implies text::is_white_space(
            #[trigger] (left + between)[i],
        ) by {
            if i >= left.len() {
                assert((left + between)[i] == between[i - left.len()]);
            }
        }
        text::law_trim_leaves_the_middle(left + between, unit, right);
        text::law_suffix_is_taken_off(none, unit, unit);
        assert(none + unit == unit);
        assert(none + none + none == none);
        text::law_trim_leaves_the_middle(none, none, none);
        assert(number == none);
    }
    assert(text::trimmed(text::without_suffix(text::trimmed(value), unit)->0) == number);
    assert(swap_kib(value) == text::parsed_u64(number));
}

/// A line on swap without the unit at its end tells that the swap is unknown.
pub proof fn law_swap_needs_its_unit(
    before: StatusFields,
    left: Seq<char>,
    size: Seq<char>,
    right: Seq<char>,
)
    requires
        forall|i: int| 0 <= i < left.len() ==> text::is_white_space(#[trigger] left[i]),
        forall|i: int| 0 <= i < right.len() ==> text::is_white_space(#[trigger] right[i]),
        size.len() > 0 ==> !text::is_white_space(size.first()) && !text::is_white_space(
            size.last(),
        ),
        size.len() < 2 || size[size.len() - 2] != 'k' || size[size.len() - 1] != 'B',
    ensures
        fields_after_line(before, "VmSwap:"@ + (left + size + right)).swap_bytes is None,
        fields_after_line(before, "VmSwap:"@ + (left + size + right)).threads == before.threads,
        line_in_range("VmSwap:"@ + (left + size + right)),
{
    reveal_strlit("kB");
    let value = left + size + right;
    text::law_prefix_is_taken_off("VmSwap:"@, value, value);
    lemma_field_names_differ("VmSwap:"@ + value);
    text::law_trim_leaves_the_middle(left, size, right);
    text::law_suffix_is_taken_off(size, "kB"@, size);
    if text::without_suffix(size, "kB"@) is Some {
        let rest = text::without_suffix(size, "kB"@)->0;
        assert(size == rest + "kB"@);
        assert(size[size.len() - 2] == "kB"@[0] && size[size.len() - 1] == "kB"@[1]);
    }
}

/// A line that begins with neither name tells nothing.
pub proof fn law_other_lines_tell_nothing(before: StatusFields, line: Seq<char>)
    requires
        forall|rest: Seq<char>| line != #[trigger] ("Threads:"@ + rest),
        forall|rest: Seq<char>| line != #[trigger] ("VmSwap:"@ + rest),
    ensures
        fields_after_line(before, line) == before,
        line_in_range(line),
{
    text::law_prefix_is_taken_off("Threads:"@, line, line);
    text::law_prefix_is_taken_off("VmSwap:"@, line, line);
}

/// A text is read line by line, from its first line on, whether a line ends in
/// a line feed, in a carriage return and a line feed, or with the text.
pub proof fn law_lines_are_read_in_order(before: StatusFields, line: Seq<char>, rest: Seq<char>)
    requires
        !line.contains('\n'),
    ensures
        line.len() == 0 || line.last() != '\r' ==> fields_after_text(
            before,
            line + seq!['\n'] + rest,
        ) == fields_after_text(fields_after_line(before, line), rest),
        line.len() == 0 || line.last() != '\r' ==> (text_in_range(line + seq!['\n'] + rest)
            <==> line_in_range(line) && text_in_range(rest)),
        fields_after_text(before, line + seq!['\r', '\n'] + rest) == fields_after_text(
            fields_after_line(before, line),
            rest,
        ),
        text_in_range(line + seq!['\r', '\n'] + rest) <==> line_in_range(line) && text_in_range(
            rest,
        ),
        line.len() > 0 ==> fields_after_text(before, line) == fields_after_line(before, line),
        line.len() > 0 ==> (text_in_range(line) <==> line_in_range(line)),
        fields_after_text(before, Seq::empty()) == before,
        text_in_range(Seq::empty()),
{
    reveal_with_fuel(fields_after_text, 2);
    reveal_with_fuel(text_in_range, 2);
    text::law_lines_end_at_line_feeds(line, rest);
}

/// Reading a text whose lines are all ended, and then another, is reading both
/// at once.
pub proof fn law_texts_are_read_one_after_the_other(
    before: StatusFields,
    first: Seq<char>,
    second: Seq<char>,
)
    requires
        first.len() == 0 || first.last() == '\n',
    ensures
        fields_after_text(before, first + second) == fields_after_text(
            fields_after_text(before, first),
            second,
        ),
    decreases first.len(),
{
    if first.len() == 0 {
        assert(first + second == second);
    } else {
        let whole = first + second;
        let end = text::line_feed(first);
        text::lemma_line_feed(first);
        assert(end < first.len()) by {
            if end == first.len() {
                assert(first[first.len() - 1] != '\n');
            }
        }
        text::lemma_line_feed_unique(whole, end);
        assert(whole.take(end) == first.take(end));
        assert(whole.skip(end + 1) == first.skip(end + 1) + second);
        let rest = text::after_first_line(first);
        assert(rest.len() == 0 || rest.last() == '\n');
        law_texts_are_read_one_after_the_other(
            fields_after_line(before, text::first_line(first)),
            rest,
            second,
        );
    }
}

/// The number of threads is what the line on threads says, wherever in the
/// file it stands.
pub proof fn law_threads_are_found(
    above: Seq<char>,
    left: Seq<char>,
    number: Seq<char>,
    right: Seq<char>,
    below: Seq<char>,
)
    requires
        above.len() == 0 || above.last() == '\n',
        forall|i: int|
            0 <= i < left.len() ==> text::is_white_space(#[trigger] left[i]) && left[i] != '\n',
        forall|i: int|
            0 <= i < right.len() ==> text::is_white_space(#[trigger] right[i]) && right[i] != '\n'
                && right[i] != '\r',
        number.len() > 0 && !text::is_white_space(number.first()) && !text::is_white_space(
            number.last(),
        ),
        !number.contains('\n'),
        !has_line_with(below, "Threads:"@),
    ensures
        status_fields(
            Some(above + ("Threads:"@ + (left + number + right) + seq!['\n'] + below)),
        ).threads == text::parsed_u64(number),
{
    reveal_strlit("Threads:");
    let line = "Threads:"@ + (left + number + right);
    let here = fields_after_text(no_fields(), above);
    law_texts_are_read_one_after_the_other(no_fields(), above, line + seq!['\n'] + below);
    lemma_field_line("Threads:"@, left, number, right);
    law_lines_are_read_in_order(here, line, below);
    law_threads_line(here, left, number, right);
    law_last_line_counts(fields_after_line(here, line), here, below);
}

/// The swapped-out memory is what the line on swap says, wherever in the file
/// it stands.
pub proof fn law_swap_is_found(
    above: Seq<char>,
    left: Seq<char>,
    number: Seq<char>,
    between: Seq<char>,
    right: Seq<char>,
    below: Seq<char>,
    kib: u64,
)
    requires
        above.len() == 0 || above.last() == '\n',
        forall|i: int|
            0 <= i < left.len() ==> text::is_white_space(#[trigger] left[i]) && left[i] != '\n',
        forall|i: int|
            0 <= i < between.len() ==> text::is_white_space(#[trigger] between[i]) && between[i]
                != '\n',
        forall|i: int|
            0 <= i < right.len() ==> text::is_white_space(#[trigger] right[i]) && right[i] != '\n'
                && right[i] != '\r',
        number.len() > 0 && !text::is_white_space(number.first()) && !text::is_white_space(
            number.last(),
        ),
        !number.contains('\n'),
        !has_line_with(below, "VmSwap:"@),
        text::parsed_u64(number) == Some(kib),
        kib * 1024 <= u64::MAX,
    ensures
        ({
            let swap = status_fields(
                Some(
                    above + ("VmSwap:"@ + (left + (number + between + "kB"@) + right) + seq!['\n']
                        + below),
                ),
            ).swap_bytes;
            swap is Some && swap->0 as int == kib * 1024
        }),
{
    reveal_strlit("VmSwap:");
    reveal_strlit("kB");
    let size = number + between + "kB"@;
    let line = "VmSwap:"@ + (left + size + right);
    let here = fields_after_text(no_fields(), above);
    law_texts_are_read_one_after_the_other(no_fields(), above, line + seq!['\n'] + below);
    assert(size.last() == "kB"@[1]);
    assert(!size.contains('\n')) by {
        if size.contains('\n') {
            let i = choose|i: int| 0 <= i < size.len() && size[i] == '\n';
            if i < number.len() {
                assert(number.contains(number[i]));
            } else if i < number.len() + between.len() {
                assert(size[i] == between[i - number.len()]);
            } else {
                assert(size[i] == "kB"@[i - number.len() - between.len()]);
            }
        }
    }
    lemma_field_line("VmSwap:"@, left, size, right);
    law_lines_are_read_in_order(here, line, below);
    law_swap_line(here, left, number, between, right);
    law_last_line_counts(fields_after_line(here, line), here, below);
}

/// A name and a value with white space around it make one line.
proof fn lemma_field_line(name: Seq<char>, left: Seq<char>, value: Seq<char>, right: Seq<char>)
    requires
        !name.contains('\n'),
        !value.contains('\n'),
        value.len() > 0 && !text::is_white_space(value.last()),
        forall|i: int| 0 <= i < left.len() ==> #[trigger] left[i] != '\n',
        forall|i: int| 0 <= i < right.len() ==> #[trigger] right[i] != '\n' && right[i] != '\r',
    ensures
        !(name + (left + value + right)).contains('\n'),
        (name + (left + value + right)).last() != '\r',
{
    let line = name + (left + value + right);
    if line.contains('\n') {
        let i = choose|i: int| 0 <= i < line.len() && line[i] == '\n';
        let at_value = name.len() + left.len();
        let at_right = at_value + value.len();
        if i < name.len() {
            assert(name.contains(name[i]));
        } else if i < at_value {
            assert(line[i] == left[i - name.len()]);
        } else if i < at_right {
            assert(value.contains(value[i - at_value]));
        } else {
            assert(line[i] == right[i - at_right]);
        }
    }
    if right.len() > 0 {
        assert(line.last() == right[right.len() - 1]);
    } else {
        assert(line.last() == value.last());
    }
}

/// A sample carries both sizes in full, and what the status file says; there
/// is none without the sizes.
pub proof fn law_sample_keeps_what_was_read(
    physical: usize,
    virtual_size: usize,
    status: Option<Seq<char>>,
)
    ensures
        sample_of(Some((physical, virtual_size)), status) matches Some(sample) && {
            &&& sample.rss_bytes as int == physical as int
            &&& sample.vm_bytes as int == virtual_size as int
            &&& sample.threads == status_fields(status).threads
            &&& sample.swap_bytes == status_fields(status).swap_bytes
        },
        sample_of(None, status) is None,
        status_fields(None).threads is None,
        status_fields(None).swap_bytes is None,
{
}

/// A file without a line on a field tells that the field is unknown.
pub proof fn law_unmentioned_fields_are_unknown(text: Seq<char>)
    ensures
        !has_line_with(text, "Threads:"@) ==> status_fields(Some(text)).threads is None,
        !has_line_with(text, "VmSwap:"@) ==> status_fields(Some(text)).swap_bytes is None,
{
    law_last_line_counts(no_fields(), no_fields(), text);
}

/// The allocator line has an entry for each variable that is set, in a fixed
/// order and with a space between each two; without any there is no line.
pub proof fn law_allocator_line(
    mmap: Option<Seq<char>>,
    arena: Option<Seq<char>>,
    trim: Option<Seq<char>>,
)
    ensures
        ({
            let line = override_line(
                override_entry("MALLOC_MMAP_THRESHOLD_"@, mmap) + override_entry(
                    "MALLOC_ARENA_MAX"@,
                    arena,
                ) + override_entry("MALLOC_TRIM_THRESHOLD_"@, trim),
            );
            let m = "MALLOC_MMAP_THRESHOLD_"@ + "="@;
            let a = "MALLOC_ARENA_MAX"@ + "="@;
            let t = "MALLOC_TRIM_THRESHOLD_"@ + "="@;
            match (mmap, arena, trim) {
                (None, None, None) => line is None,
                (Some(x), None, None) => line == Some(m + x),
                (None, Some(y), None) => line == Some(a + y),
                (None, None, Some(z)) => line == Some(t + z),
                (Some(x), Some(y), None) => line == Some(m + x + " "@ + (a + y)),
                (Some(x), None, Some(z)) => line == Some(m + x + " "@ + (t + z)),
                (None, Some(y), Some(z)) => line == Some(a + y + " "@ + (t + z)),
                (Some(x), Some(y), Some(z)) => line == Some(
                    m + x + " "@ + (a + y) + " "@ + (t + z),
                ),
            }
        }),
{
    reveal_with_fuel(spaced, 4);
    let first = override_entry("MALLOC_MMAP_THRESHOLD_"@, mmap);
    let second = override_entry("MALLOC_ARENA_MAX"@, arena);
    let third = override_entry("MALLOC_TRIM_THRESHOLD_"@, trim);
    let all = first + second + third;
    if all.len() >= 2 {
        let before = all.drop_last();
        assert(spaced(all) == spaced(before) + " "@ + all.last());
        if before.len() == 2 {
            assert(spaced(before) == spaced(before.drop_last()) + " "@ + before.last());
        }
    }
}

/// A text has a line with a name where its first line begins with it, or a
/// later one does.
pub proof fn law_lines_with_a_name(line: Seq<char>, rest: Seq<char>, name: Seq<char>)
    requires
        !line.contains('\n'),
        line.len() == 0 || line.last() != '\r',
    ensures
        has_line_with(line + seq!['\n'] + rest, name) <==> name.is_prefix_of(line)
            || has_line_with(rest, name),
        !has_line_with(Seq::empty(), name),
        line.len() > 0 ==> (has_line_with(line, name) <==> name.is_prefix_of(line)),
{
    reveal_with_fuel(has_line_with, 2);
    text::law_lines_end_at_line_feeds(line, rest);
}

/// The sizes of a sample are what `process_sizes` gave.
proof fn law_sizes_are_those_of_the_process(sizes: Option<(usize, usize)>)
    requires
        are_process_sizes(sizes),
    ensures
        call_ensures(process_sizes, (), sizes),
{
}

} // verus!
