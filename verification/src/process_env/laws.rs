//! What the search for processes is for: laws on which of them are found, and
//! what is said of each.

use vstd::prelude::*;
use vstd::utf8::{encode_utf8, encode_utf8_decode_utf8, encode_utf8_valid_utf8};

use crate::numerals::{decimal, law_decimal_reads_back};
use crate::process_env::linux::{
    after_last_bracket, base_name, comm_of, entry_matches, entry_value, environ_of,
    environment_value, first_argument, law_environment_reads_back, parent_in_stat, parent_of,
    same_program, ProcEntry,
};
use crate::process_env::windows::{
    ends_block_at, has_block_end, next_environment_step, reads_on, EnvironmentStep,
    InspectionError, SnapshotEntry,
};
use crate::process_env::{linux, windows};
use crate::text::{
    equal_to, has_at, lemma_span_is, lower, opt_view, separator, trim, white_space, words,
};
use crate::text_laws::{law_split_first, law_without_suffix, law_words};
use crate::utf16::{before_zero, encoded, law_decoding_undoes_encoding, lemma_encoded_zero};

verus! {

// ----- names ----------------------------------------------------------------------

/// Two names are of the same program exactly where they agree in lower case, a
/// final `.exe` aside.
pub proof fn law_same_program(a: Seq<char>, b: Seq<char>)
    ensures
        lower(a) == lower(b) ==> same_program(a, b),
        lower(a) == lower(b) + ".exe"@ && !has_at(lower(b), ".exe"@, lower(b).len() - 4)
            ==> same_program(a, b) && same_program(b, a),
        same_program(a, b) ==> lower(a) == lower(b) || lower(a) == lower(b) + ".exe"@ || lower(b)
            == lower(a) + ".exe"@,
{
    reveal_strlit(".exe");
    law_without_suffix(lower(a), ".exe"@);
    law_without_suffix(lower(b), ".exe"@);
    assert(".exe"@.len() == 4);
}

/// The program of a path, of either style, is what follows the last separator.
pub proof fn law_base_name(dir: Seq<char>, sep: char, name: Seq<char>)
    requires
        sep == '/' || sep == '\\',
        !name.contains('/') && !name.contains('\\'),
    ensures
        base_name(dir + seq![sep] + name) == name,
        base_name(name) == name,
    decreases name.len(),
{
    let path = dir + seq![sep] + name;
    if name.len() == 0 {
        assert(path.last() == sep);
        assert(base_name(path) =~= name);
    } else {
        let rest = name.drop_last();
        assert forall|c: char| rest.contains(c) implies name.contains(c) by {
            let i = choose|i: int| 0 <= i < rest.len() && rest[i] == c;
            assert(name[i] == c);
        }
        law_base_name(dir, sep, rest);
        assert(name.contains(name.last())) by {
            assert(name[name.len() - 1] == name.last());
        }
        assert(path.drop_last() =~= dir + seq![sep] + rest);
        assert(path.last() == name.last());
        assert(rest.push(name.last()) =~= name);
    }
}

// ----- Linux ----------------------------------------------------------------------

/// A process is the program's where any one of three says so: the name that it
/// gave itself, its file, or the program that it was started as.
pub proof fn law_any_name_will_do(entry: ProcEntry, name: Seq<char>)
    ensures
        entry.comm matches Some(comm) ==> (same_program(name, trim(comm@)) ==> entry_matches(
            entry,
            name,
        )),
        entry.exe_name matches Some(exe) ==> (same_program(name, exe@) ==> entry_matches(
            entry,
            name,
        )),
        entry.cmdline matches Some(cmdline) ==> (first_argument(cmdline@) matches Some(path) ==> (
        same_program(name, base_name(trim(path))) ==> entry_matches(entry, name))),
{
}

/// Nothing else makes it the program's.
pub proof fn law_no_name_no_match(entry: ProcEntry, name: Seq<char>)
    requires
        !same_program(name, comm_of(entry)),
        entry.exe_name matches Some(exe) ==> !same_program(name, exe@),
        entry.cmdline matches Some(cmdline) ==> (first_argument(cmdline@) matches Some(path)
            ==> !same_program(name, base_name(trim(path)))),
    ensures
        !entry_matches(entry, name),
        linux::process_of(entry, name) is None,
{
}

/// What a program was started as is the text before the first zero byte.
pub proof fn law_first_argument(argument: Seq<char>, rest: Seq<u8>)
    requires
        argument.len() > 0,
        !encode_utf8(argument).contains(0u8),
        encode_utf8(argument).len() > 0,
    ensures
        first_argument(encode_utf8(argument) + seq![0u8] + rest) == Some(argument),
        first_argument(encode_utf8(argument)) == Some(argument),
        first_argument(seq![0u8] + rest) is None,
{
    let bytes = encode_utf8(argument);
    encode_utf8_decode_utf8(argument);
    encode_utf8_valid_utf8(argument);
    law_split_first(bytes, 0u8, rest);
    let none = Seq::<u8>::empty();
    law_split_first(none, 0u8, rest);
    assert(none + seq![0u8] + rest =~= seq![0u8] + rest);
}

/// Each process of the program is found, whatever stands before or behind it,
/// with its number, its parent, its name and its file; entries that are no
/// process of the program add nothing.
pub proof fn law_linux_processes_in_order(
    entries: Seq<ProcEntry>,
    entry: ProcEntry,
    name: Seq<char>,
    pid: u32,
)
    ensures
        linux::processes_of(Seq::empty(), name).len() == 0,
        !entry_matches(entry, name) || entry.dir_name is None ==> linux::processes_of(
            entries.push(entry),
            name,
        ) == linux::processes_of(entries, name),
        entry_matches(entry, name) && (entry.dir_name matches Some(dir) && dir@ == decimal(
            pid as nat,
        )) ==> ({
            let all = linux::processes_of(entries.push(entry), name);
            &&& all.drop_last() == linux::processes_of(entries, name)
            &&& all.last().pid == pid
            &&& all.last().executable_path == opt_view(entry.exe)
            &&& all.last().name == if comm_of(entry).len() > 0 {
                comm_of(entry)
            } else {
                name
            }
        }),
{
    assert(entries.push(entry).drop_last() =~= entries);
    law_decimal_reads_back(pid as nat, u32::MAX as nat);
    let before = linux::processes_of(entries, name);
    if let Some(process) = linux::process_of(entry, name) {
        assert(before.push(process).drop_last() =~= before);
    }
}

proof fn lemma_after_last_bracket(head: Seq<char>, tail: Seq<char>)
    requires
        !tail.contains(')'),
    ensures
        after_last_bracket(head + seq![')'] + tail) == Some(tail),
    decreases tail.len(),
{
    let s = head + seq![')'] + tail;
    if tail.len() == 0 {
        assert(s.last() == ')');
        assert(tail =~= Seq::<char>::empty());
    } else {
        let rest = tail.drop_last();
        assert forall|c: char| rest.contains(c) implies tail.contains(c) by {
            let i = choose|i: int| 0 <= i < rest.len() && rest[i] == c;
            assert(tail[i] == c);
        }
        lemma_after_last_bracket(head, rest);
        assert(tail.contains(tail.last())) by {
            assert(tail[tail.len() - 1] == tail.last());
        }
        assert(s.drop_last() =~= head + seq![')'] + rest);
        assert(s.last() == tail.last());
        assert(rest.push(tail.last()) =~= tail);
    }
}

proof fn lemma_decimal_is_plain(n: nat)
    ensures
        decimal(n).len() > 0,
        forall|i: int| 0 <= i < decimal(n).len() ==> '0' <= #[trigger] decimal(n)[i] <= '9',
    decreases n,
{
    if n >= 10 {
        lemma_decimal_is_plain(n / 10);
    }
}

/// The parent is the number behind the state, whatever the name in brackets
/// holds: spaces and brackets among it.
pub proof fn law_parent_follows_the_name(
    head: Seq<char>,
    state: char,
    parent: u32,
    rest: Seq<char>,
)
    requires
        !white_space(state),
        state != ')',
        !rest.contains(')'),
    ensures
        parent_in_stat(
            head + seq![')', ' ', state, ' '] + decimal(parent as nat) + seq![' '] + rest,
        ) == Some(parent as nat),
{
    let number = decimal(parent as nat);
    lemma_decimal_is_plain(parent as nat);
    let tail = seq![' ', state, ' '] + number + seq![' '] + rest;
    let stat = head + seq![')', ' ', state, ' '] + number + seq![' '] + rest;
    assert(stat =~= head + seq![')'] + tail);
    assert(!tail.contains(')')) by {
        if tail.contains(')') {
            let i = choose|i: int| 0 <= i < tail.len() && tail[i] == ')';
            if i >= 3 && i < 3 + number.len() {
                assert(tail[i] == number[i - 3]);
            } else if i > 3 + number.len() {
                assert(tail[i] == rest[i - 4 - number.len()]);
                assert(rest.contains(')'));
            }
        }
    }
    lemma_after_last_bracket(head, tail);
    let word = seq![state];
    let after = number + seq![' '] + rest;
    assert forall|i: int| 0 <= i < number.len() implies !white_space(#[trigger] number[i]) by {
        assert('0' <= number[i] <= '9');
    }
    law_words(number, ' ', rest);
    law_words(word, ' ', after);
    let body = word + seq![' '] + after;
    law_words(word, ' ', body);
    assert(seq![' '] + body =~= tail);
    assert(words(tail) == seq![word] + (seq![number] + words(rest)));
    assert(words(tail)[1] == number);
    law_decimal_reads_back(parent as nat, u32::MAX as nat);
}

/// A process without a parent that can be read has none.
pub proof fn law_unknown_parent_is_zero(entry: ProcEntry)
    ensures
        entry.stat is None ==> parent_of(entry) == 0,
        entry.stat matches Some(stat) ==> (parent_in_stat(stat@) matches Some(pid) ==> parent_of(
            entry,
        ) == pid),
{
}

/// A variable has the value of the first entry with its name, and none where no
/// entry has it; a name that only begins an entry's name does not count.
pub proof fn law_environment_value(
    before: Seq<Seq<char>>,
    name: Seq<char>,
    value: Seq<char>,
    after: Seq<Seq<char>>,
)
    requires
        forall|i: int|
            0 <= i < before.len() ==> !(#[trigger] before[i]).contains('\0') && !has_at(
                before[i],
                name + "="@,
                0,
            ),
        forall|i: int| 0 <= i < after.len() ==> !(#[trigger] after[i]).contains('\0'),
        !(name + "="@ + value).contains('\0'),
    ensures
        environment_value(Some(environ_of(before + seq![name + "="@ + value] + after)), name)
            == Some(value),
        environment_value(Some(environ_of(before)), name) is None,
        environment_value(None, name) is None,
{
    let entry = name + "="@ + value;
    let all = before + seq![entry] + after;
    assert forall|i: int| 0 <= i < all.len() implies !(#[trigger] all[i]).contains('\0') by {
        if i < before.len() {
            assert(all[i] == before[i]);
        } else if i > before.len() {
            assert(all[i] == after[i - before.len() - 1]);
        }
    }
    law_environment_reads_back(all, name);
    law_environment_reads_back(before, name);
    lemma_entry_value(before, name, value, after);
}

proof fn lemma_entry_value(
    before: Seq<Seq<char>>,
    name: Seq<char>,
    value: Seq<char>,
    after: Seq<Seq<char>>,
)
    requires
        forall|i: int| 0 <= i < before.len() ==> !has_at(#[trigger] before[i], name + "="@, 0),
    ensures
        entry_value(before + seq![name + "="@ + value] + after, name) == Some(value),
        entry_value(before, name) is None,
    decreases before.len(),
{
    let prefix = name + "="@;
    let entry = prefix + value;
    let all = before + seq![entry] + after;
    if before.len() == 0 {
        assert(all[0] == entry);
        assert(entry.subrange(0, prefix.len() as int) =~= prefix);
        assert(entry.skip(prefix.len() as int) =~= value);
    } else {
        let rest = before.drop_first();
        assert(all[0] == before[0]);
        assert(all.drop_first() =~= rest + seq![entry] + after);
        assert forall|i: int| 0 <= i < rest.len() implies !has_at(#[trigger] rest[i], prefix, 0) by {
            assert(rest[i] == before[i + 1]);
        }
        lemma_entry_value(rest, name, value, after);
    }
}

// ----- Windows --------------------------------------------------------------------

/// Each process of the name is found, whatever its case and whatever stands
/// before or behind it, with its number, its parent, its name and its path;
/// others add nothing.
pub proof fn law_windows_processes_in_order(
    entries: Seq<SnapshotEntry>,
    entry: SnapshotEntry,
    file: Seq<char>,
    tail: Seq<u16>,
    name: Seq<char>,
)
    requires
        !file.contains('\0'),
        entry.exe_file@ == encoded(file) + seq![0u16] + tail,
    ensures
        windows::processes_of(Seq::empty(), name).len() == 0,
        lower(file) != lower(name) ==> windows::processes_of(entries.push(entry), name)
            == windows::processes_of(entries, name),
        lower(file) == lower(name) ==> ({
            let all = windows::processes_of(entries.push(entry), name);
            &&& all.drop_last() == windows::processes_of(entries, name)
            &&& all.last().pid == entry.pid
            &&& all.last().parent_pid == entry.parent_pid
            &&& all.last().name == file
            &&& all.last().executable_path == opt_view(entry.path)
        }),
{
    assert(entries.push(entry).drop_last() =~= entries);
    let units = entry.exe_file@;
    lemma_encoded_zero(file);
    assert forall|i: int| 0 <= i < encoded(file).len() implies !equal_to(0u16)(
        #[trigger] units[i],
    ) by {
        assert(units[i] == encoded(file)[i]);
    }
    lemma_span_is(units, equal_to(0u16), encoded(file).len() as int);
    assert(before_zero(units) =~= encoded(file));
    law_decoding_undoes_encoding(file);
    let before = windows::processes_of(entries, name);
    if let Some(process) = windows::process_of(entry, name) {
        assert(before.push(process).drop_last() =~= before);
    }
}

/// An environment is found by way of the process parameters: each address leads
/// to the next, at its offset, and an address that is null ends the way.
pub proof fn law_environment_is_found_step_by_step(at: usize, value: usize)
    requires
        value < 0x7fff_ffff,
    ensures
        value > 0 ==> next_environment_step(EnvironmentStep::QueryBlock, value)
            == EnvironmentStep::ReadParametersPointer((value + 0x20) as usize),
        value > 0 ==> next_environment_step(EnvironmentStep::ReadParametersPointer(at), value)
            == EnvironmentStep::ReadEnvironmentPointer((value + 0x80) as usize),
        value > 0 ==> next_environment_step(EnvironmentStep::ReadEnvironmentPointer(at), value)
            == EnvironmentStep::ReadEnvironment(value),
        value == 0 ==> next_environment_step(EnvironmentStep::QueryBlock, value)
            == EnvironmentStep::Fail(InspectionError::NoBlock),
        value == 0 ==> next_environment_step(EnvironmentStep::ReadParametersPointer(at), value)
            == EnvironmentStep::Fail(InspectionError::NoParameters),
        value == 0 ==> next_environment_step(EnvironmentStep::ReadEnvironmentPointer(at), value)
            == EnvironmentStep::NoEnvironment,
{
}

/// An environment is read on while whole chunks come, it has not ended, and it
/// is under half a megabyte.
pub proof fn law_environment_is_read_to_its_end(output: Seq<u8>, chunk: Seq<u8>)
    ensures
        reads_on(output, chunk) <==> {
            &&& chunk.len() >= 4096
            &&& output.len() < 512 * 1024
            &&& forall|i: int| !#[trigger] ends_block_at(output, i)
        },
        has_block_end(output) <==> exists|i: int| #[trigger] ends_block_at(output, i),
{
}

/// The end of a block is two zero units in a row, at whatever even index.
pub proof fn law_block_end(bytes: Seq<u8>, i: int)
    ensures
        ends_block_at(bytes, i) <==> 0 <= i && i + 4 <= bytes.len() && i % 2 == 0 && bytes.subrange(
            i,
            i + 4,
        ) == seq![0u8, 0u8, 0u8, 0u8],
{
    if 0 <= i && i + 4 <= bytes.len() {
        let four = bytes.subrange(i, i + 4);
        assert(four[0] == bytes[i] && four[1] == bytes[i + 1] && four[2] == bytes[i + 2] && four[3]
            == bytes[i + 3]);
        if ends_block_at(bytes, i) {
            assert(four =~= seq![0u8, 0u8, 0u8, 0u8]);
        }
    }
}

/// A variable of a block has the value behind the first `=` of the first entry
/// with its name, in whatever case.
pub proof fn law_windows_environment_value(
    before: Seq<Seq<char>>,
    key: Seq<char>,
    name: Seq<char>,
    value: Seq<char>,
    after: Seq<Seq<char>>,
)
    requires
        !key.contains('='),
        lower(key) == lower(name),
        forall|i: int|
            0 <= i < before.len() ==> !((#[trigger] windows::entry_parts(before[i])) matches Some(
                parts,
            ) && lower(parts.0) == lower(name)),
    ensures
        windows::value_among(before + seq![key + seq!['='] + value] + after, name) == Some(value),
        windows::value_among(before, name) is None,
    decreases before.len(),
{
    let entry = key + seq!['='] + value;
    let all = before + seq![entry] + after;
    if before.len() == 0 {
        assert(all[0] == entry);
        assert forall|i: int| 0 <= i < key.len() implies !equal_to('=')(#[trigger] entry[i]) by {
            assert(key.contains(key[i]));
        }
        lemma_span_is(entry, equal_to('='), key.len() as int);
        assert(entry.take(key.len() as int) =~= key);
        assert(entry.skip(key.len() as int + 1) =~= value);
    } else {
        let rest = before.drop_first();
        assert(all[0] == before[0]);
        assert(all.drop_first() =~= rest + seq![entry] + after);
        assert forall|i: int| 0 <= i < rest.len() implies !((
        #[trigger] windows::entry_parts(rest[i])) matches Some(parts) && lower(parts.0) == lower(
            name,
        )) by {
            assert(rest[i] == before[i + 1]);
            assert(windows::entry_parts(before[i + 1]) == windows::entry_parts(rest[i]));
        }
        assert(windows::entry_parts(before[0]) == windows::entry_parts(all[0]));
        law_windows_environment_value(rest, key, name, value, after);
    }
}

/// Only a 64-bit process is looked into.
pub proof fn law_only_wide_processes(is_wow64: bool)
    ensures
        is_wow64 ==> windows::first_environment_step(is_wow64) == EnvironmentStep::Fail(
            InspectionError::ThirtyTwoBit,
        ),
        !is_wow64 ==> windows::first_environment_step(is_wow64) == EnvironmentStep::QueryBlock,
{
}

} // verus!
