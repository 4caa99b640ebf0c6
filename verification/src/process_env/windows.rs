//! Processes as Windows describes them: a snapshot of names, and environments
//! read out of another process's memory.

use vstd::prelude::*;

use crate::numerals::to_decimal;
use crate::process_env::LauncherProcess;
use crate::text::{
    cat3, cat4, chars_of, copy_opt, eq_ignore_ascii_case, string_of,
};
use crate::utf16::{decode, wide_array_to_string, zero_index};
use crate::numerals::decimal;
use crate::process_env::{process_views, ProcessModel};
use crate::text::{equal_to, lemma_span_is, lower, opt_view, span, views};
use crate::utf16::{
    before_zero, decoded, encoded, law_decoding_undoes_encoding, lemma_encoded_zero,
};

verus! {

// ----- the search -----------------------------------------------------------------

/// One process of a snapshot: its file name ends at the first zero, and its
/// path is missing where it could not be asked for.
#[derive(Debug, Clone, PartialEq, Eq)]
pub struct SnapshotEntry {
    pub pid: u32,
    pub parent_pid: u32,
    pub exe_file: Vec<u16>,
    pub path: Option<String>,
}

/// The process that an entry describes, if it has the name.
pub open spec fn process_of(entry: SnapshotEntry, name: Seq<char>) -> Option<ProcessModel> {
    let file = decoded(before_zero(entry.exe_file@));
    if lower(file) == lower(name) {
        Some(
            ProcessModel {
                pid: entry.pid,
                parent_pid: entry.parent_pid,
                name: file,
                executable_path: opt_view(entry.path),
            },
        )
    } else {
        None
    }
}

/// The processes of that name among the entries, in order.
pub open spec fn processes_of(entries: Seq<SnapshotEntry>, name: Seq<char>) -> Seq<ProcessModel>
    decreases entries.len(),
{
    if entries.len() == 0 {
        Seq::empty()
    } else {
        let before = processes_of(entries.drop_last(), name);
        match process_of(entries.last(), name) {
            Some(process) => before.push(process),
            None => before,
        }
    }
}

/// The processes of that name in a snapshot; case makes no difference.
pub fn find_processes(process_name: &str, entries: &Vec<SnapshotEntry>) -> (r: Vec<
    LauncherProcess,
>)
    ensures
        process_views(r@) == processes_of(entries@, process_name@),
{
    let mut r: Vec<LauncherProcess> = Vec::new();
    let mut i: usize = 0;
    while i < entries.len()
        invariant
            i <= entries@.len(),
            process_views(r@) == processes_of(entries@.take(i as int), process_name@),
        decreases entries.len() - i,
    {
        assert(entries@.take(i + 1).drop_last() =~= entries@.take(i as int));
        let name = wide_array_to_string(entries[i].exe_file.as_slice());
        if eq_ignore_ascii_case(name.as_str(), process_name) {
            let process = LauncherProcess {
                pid: entries[i].pid,
                parent_pid: entries[i].parent_pid,
                name,
                executable_path: copy_opt(&entries[i].path),
            };
            r.push(process);
        }
        i += 1;
    }
    assert(entries@.take(i as int) =~= entries@);
    r
}

// ----- where the environment is ---------------------------------------------------

/// Where the address of the process parameters stands, from the start of the
/// process environment block.
pub const PEB_PROCESS_PARAMETERS_OFFSET_X64: usize = 0x20;

/// Where the address of the environment stands, from the start of the process
/// parameters.
pub const RTL_USER_PROCESS_PARAMETERS_ENVIRONMENT_OFFSET_X64: usize = 0x80;

/// What is to be read next on the way to an environment.
#[derive(Debug, Clone, Copy, PartialEq, Eq, Structural)]
pub enum EnvironmentStep {
    /// Ask for the address of the process environment block.
    QueryBlock,
    /// Read the address of the process parameters, at this address.
    ReadParametersPointer(usize),
    /// Read the address of the environment, at this address.
    ReadEnvironmentPointer(usize),
    /// Read the environment, at this address.
    ReadEnvironment(usize),
    /// The process has no environment.
    NoEnvironment,
    /// The environment cannot be read.
    Fail(InspectionError),
}

/// Why a process cannot be inspected.
#[derive(Debug, Clone, Copy, PartialEq, Eq, Structural)]
pub enum InspectionError {
    ThirtyTwoBit,
    NoBlock,
    NoParameters,
}

pub open spec fn inspection_error_text(error: InspectionError) -> Seq<char> {
    match error {
        InspectionError::ThirtyTwoBit => "32-bit launcher process inspection is not supported yet"@,
        InspectionError::NoBlock => "launcher process has no PEB"@,
        InspectionError::NoParameters => "launcher process has no process parameters"@,
    }
}

impl InspectionError {
    /// The error in words.
    pub fn message(self) -> (r: &'static str)
        ensures
            r@ == inspection_error_text(self),
    {
        match self {
            InspectionError::ThirtyTwoBit => {
                "32-bit launcher process inspection is not supported yet"
            },
            InspectionError::NoBlock => "launcher process has no PEB",
            InspectionError::NoParameters => "launcher process has no process parameters",
        }
    }
}

/// The sum of an address and an offset, which wraps at the end of memory.
pub open spec fn address_after(address: usize, offset: usize) -> usize {
    address.wrapping_add(offset)
}

/// The first step towards an environment.
pub open spec fn first_environment_step(is_wow64: bool) -> EnvironmentStep {
    if is_wow64 {
        EnvironmentStep::Fail(InspectionError::ThirtyTwoBit)
    } else {
        EnvironmentStep::QueryBlock
    }
}

/// Begins to read the environment of a process: only of a 64-bit one.
pub fn read_process_environment(is_wow64: bool) -> (r: EnvironmentStep)
    ensures
        r == first_environment_step(is_wow64),
{
    if is_wow64 {
        EnvironmentStep::Fail(InspectionError::ThirtyTwoBit)
    } else {
        EnvironmentStep::QueryBlock
    }
}

/// The step after `step`, which found `value`: each address leads to the next,
/// and a null address ends the way.
pub open spec fn next_environment_step(step: EnvironmentStep, value: usize) -> EnvironmentStep {
    match step {
        EnvironmentStep::QueryBlock => if value == 0 {
            EnvironmentStep::Fail(InspectionError::NoBlock)
        } else {
            EnvironmentStep::ReadParametersPointer(
                address_after(value, PEB_PROCESS_PARAMETERS_OFFSET_X64),
            )
        },
        EnvironmentStep::ReadParametersPointer(_) => if value == 0 {
            EnvironmentStep::Fail(InspectionError::NoParameters)
        } else {
            EnvironmentStep::ReadEnvironmentPointer(
                address_after(value, RTL_USER_PROCESS_PARAMETERS_ENVIRONMENT_OFFSET_X64),
            )
        },
        EnvironmentStep::ReadEnvironmentPointer(_) => if value == 0 {
            EnvironmentStep::NoEnvironment
        } else {
            EnvironmentStep::ReadEnvironment(value)
        },
        _ => step,
    }
}

pub fn continue_reading(step: EnvironmentStep, value: usize) -> (r: EnvironmentStep)
    ensures
        r == next_environment_step(step, value),
{
    match step {
        EnvironmentStep::QueryBlock => if value == 0 {
            EnvironmentStep::Fail(InspectionError::NoBlock)
        } else {
            EnvironmentStep::ReadParametersPointer(
                value.wrapping_add(PEB_PROCESS_PARAMETERS_OFFSET_X64),
            )
        },
        EnvironmentStep::ReadParametersPointer(_) => if value == 0 {
            EnvironmentStep::Fail(InspectionError::NoParameters)
        } else {
            EnvironmentStep::ReadEnvironmentPointer(
                value.wrapping_add(RTL_USER_PROCESS_PARAMETERS_ENVIRONMENT_OFFSET_X64),
            )
        },
        EnvironmentStep::ReadEnvironmentPointer(_) => if value == 0 {
            EnvironmentStep::NoEnvironment
        } else {
            EnvironmentStep::ReadEnvironment(value)
        },
        _ => step,
    }
}

/// A read of a fixed size has to be complete; else the error says how much was
/// asked for and how much came.
pub fn check_complete_read(expected: u64, got: u64) -> (r: Result<(), String>)
    ensures
        match r {
            Ok(()) => got == expected,
            Err(error) => got != expected && error@ == "launcher memory read was incomplete: expected "@
                + decimal(expected as nat) + ", got "@ + decimal(got as nat),
        },
{
    if got != expected {
        let wanted = to_decimal(expected);
        let came = to_decimal(got);
        return Err(
            cat4(
                "launcher memory read was incomplete: expected ",
                wanted.as_str(),
                ", got ",
                came.as_str(),
            ),
        );
    }
    Ok(())
}

/// How a failed Windows call is reported.
pub fn windows_error(action: &str, code: u32) -> (r: String)
    ensures
        r@ == action@ + " failed with Windows error "@ + decimal(code as nat),
{
    let number = to_decimal(code as u64);
    cat3(action, " failed with Windows error ", number.as_str())
}

// ----- reading the environment ----------------------------------------------------

/// The most that is read of an environment.
pub const MAX_ENVIRONMENT_BYTES: usize = 524288;

/// How much is asked for in one read.
pub const ENVIRONMENT_CHUNK_BYTES: usize = 4096;

/// Four zero bytes at an even index: the end of the last entry and the empty
/// one that ends the block.
pub open spec fn ends_block_at(bytes: Seq<u8>, i: int) -> bool {
    &&& 0 <= i && i + 4 <= bytes.len() && i % 2 == 0
    &&& bytes[i] == 0 && bytes[i + 1] == 0 && bytes[i + 2] == 0 && bytes[i + 3] == 0
}

/// The end of the block is among the bytes.
pub open spec fn has_block_end(bytes: Seq<u8>) -> bool {
    exists|i: int| ends_block_at(bytes, i)
}

pub fn has_double_utf16_nul(bytes: &[u8]) -> (r: bool)
    ensures
        r == has_block_end(bytes@),
{
    let mut i: usize = 0;
    while bytes.len() >= 4 && i <= bytes.len() - 4
        invariant
            i % 2 == 0,
            forall|k: int| k < i ==> !ends_block_at(bytes@, k),
        decreases bytes.len() + 2 - i,
    {
        if bytes[i] == 0 && bytes[i + 1] == 0 && bytes[i + 2] == 0 && bytes[i + 3] == 0 {
            assert(ends_block_at(bytes@, i as int));
            return true;
        }
        if bytes.len() - i < 6 {
            assert forall|k: int| !ends_block_at(bytes@, k) by {}
            return false;
        }
        i += 2;
    }
    assert forall|k: int| !ends_block_at(bytes@, k) by {}
    false
}

/// What has been read of an environment so far.
#[derive(Debug, Clone, PartialEq, Eq)]
pub struct EnvironmentBytes {
    pub output: Vec<u8>,
}

/// Whether an environment is read on, after what the last read brought.
pub open spec fn reads_on(output: Seq<u8>, chunk: Seq<u8>) -> bool {
    chunk.len() >= ENVIRONMENT_CHUNK_BYTES && !has_block_end(output) && output.len()
        < MAX_ENVIRONMENT_BYTES
}

impl EnvironmentBytes {
    pub fn new() -> (r: EnvironmentBytes)
        ensures
            r.output@ == Seq::<u8>::empty(),
    {
        EnvironmentBytes { output: Vec::new() }
    }

    /// Where the next read begins, from the start of the environment.
    pub fn offset(&self) -> (r: usize)
        ensures
            r == self.output@.len(),
    {
        self.output.len()
    }

    /// Takes in what a read brought; returns whether to read on. The end of
    /// the block, a read that brought less than was asked for, and the limit
    /// each end it.
    pub fn read_environment_bytes(&mut self, chunk: &Vec<u8>) -> (r: bool)
        ensures
            final(self).output@ == old(self).output@ + chunk@,
            r == reads_on(final(self).output@, chunk@),
    {
        self.output.extend_from_slice(chunk.as_slice());
        if chunk.len() < ENVIRONMENT_CHUNK_BYTES {
            return false;
        }
        if has_double_utf16_nul(self.output.as_slice()) {
            return false;
        }
        self.output.len() < MAX_ENVIRONMENT_BYTES
    }
}

// ----- what the environment says --------------------------------------------------

/// The sixteen-bit units that bytes hold, the low byte first; an odd byte at
/// the end is dropped.
pub open spec fn units_of(bytes: Seq<u8>) -> Seq<u16> {
    Seq::new(
        (bytes.len() / 2) as nat,
        |i: int| (bytes[2 * i] as int + 256 * (bytes[2 * i + 1] as int)) as u16,
    )
}

/// The entries of a block: each ends at a zero, an empty one ends the block,
/// and what no zero ends is none.
pub open spec fn entries_of(units: Seq<u16>) -> Seq<Seq<char>>
    decreases units.len(),
{
    let n = span(units, equal_to(0u16));
    if n == 0 || n >= units.len() {
        Seq::empty()
    } else {
        seq![decoded(units.take(n as int))] + entries_of(units.skip(n as int + 1))
    }
}

fn wide_units(bytes: &[u8]) -> (r: Vec<u16>)
    ensures
        r@ == units_of(bytes@),
{
    let ghost all = units_of(bytes@);
    let mut r: Vec<u16> = Vec::new();
    let mut i: usize = 0;
    while bytes.len() - i >= 2
        invariant
            i <= bytes@.len(),
            i == 2 * r@.len(),
            all == units_of(bytes@),
            r@ == all.take(r@.len() as int),
            r@.len() <= all.len(),
        decreases bytes.len() - i,
    {
        let unit: u16 = bytes[i] as u16 + 256 * (bytes[i + 1] as u16);
        r.push(unit);
        i += 2;
    }
    r
}

/// The entries of an environment block.
pub fn parse_environment_block(bytes: &[u8]) -> (r: Vec<String>)
    ensures
        views(r@) == entries_of(units_of(bytes@)),
{
    let wide = wide_units(bytes);
    let mut r: Vec<String> = Vec::new();
    let mut start: usize = 0;
    assert(wide@.skip(0) =~= wide@);
    loop
        invariant
            start <= wide@.len(),
            wide@ == units_of(bytes@),
            entries_of(wide@) == views(r@) + entries_of(wide@.skip(start as int)),
        decreases wide.len() - start,
    {
        let ghost rest = wide@.skip(start as int);
        let end = zero_index(wide.as_slice(), start);
        if end == start || end == wide.len() {
            return r;
        }
        let entry = vstd::slice::slice_subrange(wide.as_slice(), start, end);
        assert(entry@ =~= rest.take(end - start));
        r.push(decode(entry).0);
        assert(rest.skip(end - start + 1) =~= wide@.skip(end + 1));
        start = end + 1;
    }
}

/// A block of entries: each with a zero behind it, and one more zero.
pub open spec fn block_of(entries: Seq<Seq<char>>) -> Seq<u16>
    decreases entries.len(),
{
    if entries.len() == 0 {
        seq![0u16]
    } else {
        encoded(entries[0]) + seq![0u16] + block_of(entries.drop_first())
    }
}

/// The bytes of sixteen-bit units, the low byte first.
pub open spec fn bytes_of(units: Seq<u16>) -> Seq<u8> {
    Seq::new(
        2 * units.len(),
        |i: int|
            if i % 2 == 0 {
                (units[i / 2] % 256) as u8
            } else {
                (units[i / 2] / 256) as u8
            },
    )
}

proof fn lemma_units_of_bytes(units: Seq<u16>, tail: Seq<u8>)
    ensures
        units_of(bytes_of(units) + tail) == units + units_of(tail),
{
    let bytes = bytes_of(units) + tail;
    let all = units + units_of(tail);
    assert forall|i: int| 0 <= i < all.len() implies #[trigger] units_of(bytes)[i] == all[i] by {
        if i < units.len() {
            assert(bytes[2 * i] == (units[i] % 256) as u8);
            assert(bytes[2 * i + 1] == (units[i] / 256) as u8);
        } else {
            assert(bytes[2 * i] == tail[2 * (i - units.len())]);
            assert(bytes[2 * i + 1] == tail[2 * (i - units.len()) + 1]);
        }
    }
    assert(units_of(bytes) =~= all);
}

proof fn lemma_entries_of_block(entries: Seq<Seq<char>>, tail: Seq<u16>)
    requires
        forall|i: int|
            0 <= i < entries.len() ==> (#[trigger] entries[i]).len() > 0 && !entries[i].contains(
                '\0',
            ),
    ensures
        entries_of(block_of(entries) + tail) == entries,
    decreases entries.len(),
{
    let units = block_of(entries) + tail;
    if entries.len() == 0 {
        lemma_span_is(units, equal_to(0u16), 0);
    } else {
        let first = encoded(entries[0]);
        let rest = entries.drop_first();
        lemma_encoded_zero(entries[0]);
        law_decoding_undoes_encoding(entries[0]);
        assert forall|k: int| 0 <= k < first.len() implies !equal_to(0u16)(#[trigger] units[k]) by {
            assert(units[k] == first[k]);
        }
        lemma_span_is(units, equal_to(0u16), first.len() as int);
        assert(units.take(first.len() as int) =~= first);
        assert(units.skip(first.len() as int + 1) =~= block_of(rest) + tail);
        lemma_entries_of_block(rest, tail);
        assert(seq![entries[0]] + rest =~= entries);
    }
}

/// Reading a block undoes writing it: of the bytes of a block come its entries,
/// all of them and in order, and nothing of what follows the block.
pub proof fn law_parsing_undoes_encoding(entries: Seq<Seq<char>>, tail: Seq<u8>)
    requires
        forall|i: int|
            0 <= i < entries.len() ==> (#[trigger] entries[i]).len() > 0 && !entries[i].contains(
                '\0',
            ),
    ensures
        entries_of(units_of(bytes_of(block_of(entries)) + tail)) == entries,
{
    lemma_units_of_bytes(block_of(entries), tail);
    lemma_entries_of_block(entries, units_of(tail));
}

/// The name and the value of an entry: what stands before and after its first `=`.
pub open spec fn entry_parts(entry: Seq<char>) -> Option<(Seq<char>, Seq<char>)> {
    let n = span(entry, equal_to('='));
    if n >= entry.len() {
        None
    } else {
        Some((entry.take(n as int), entry.skip(n as int + 1)))
    }
}

/// The value of a variable among the entries: that of the first entry with the
/// name, whatever the case.
pub open spec fn value_among(entries: Seq<Seq<char>>, name: Seq<char>) -> Option<Seq<char>>
    decreases entries.len(),
{
    if entries.len() == 0 {
        None
    } else {
        match entry_parts(entries[0]) {
            Some(parts) => if lower(parts.0) == lower(name) {
                Some(parts.1)
            } else {
                value_among(entries.drop_first(), name)
            },
            None => value_among(entries.drop_first(), name),
        }
    }
}

fn split_entry(entry: &str) -> (r: Option<(String, String)>)
    ensures
        match r {
            Some(parts) => entry_parts(entry@) == Some((parts.0@, parts.1@)),
            None => entry_parts(entry@) is None,
        },
{
    let v = chars_of(entry);
    let mut n: usize = 0;
    while n < v.len() && v[n] != '='
        invariant
            n <= v@.len(),
            v@ == entry@,
            forall|k: int| 0 <= k < n ==> entry@[k] != '=',
        decreases v.len() - n,
    {
        n += 1;
    }
    proof {
        assert forall|k: int| 0 <= k < n implies !equal_to('=')(#[trigger] entry@[k]) by {}
        lemma_span_is(entry@, equal_to('='), n as int);
    }
    if n == v.len() {
        return None;
    }
    let name = vstd::slice::slice_subrange(v.as_slice(), 0, n);
    let value = vstd::slice::slice_subrange(v.as_slice(), n + 1, v.len());
    Some((string_of(name), string_of(value)))
}

/// The value of a variable in an environment block.
pub fn process_environment_value(environment: &[u8], name: &str) -> (r: Option<String>)
    ensures
        opt_view(r) == value_among(entries_of(units_of(environment@)), name@),
{
    let entries = parse_environment_block(environment);
    let ghost all = entries_of(units_of(environment@));
    let mut i: usize = 0;
    assert(all.skip(0) =~= all);
    while i < entries.len()
        invariant
            i <= entries@.len(),
            views(entries@) == all,
            all == entries_of(units_of(environment@)),
            value_among(all, name@) == value_among(all.skip(i as int), name@),
        decreases entries.len() - i,
    {
        assert(all.skip(i as int).drop_first() =~= all.skip(i + 1));
        if let Some((entry_name, value)) = split_entry(entries[i].as_str()) {
            if eq_ignore_ascii_case(entry_name.as_str(), name) {
                return Some(value);
            }
        }
        i += 1;
    }
    None
}

} // verus!
