//! Processes as `/proc` describes them.

use vstd::prelude::*;
use vstd::utf8::{
    char_is_scalar, char_u32_cast, decode_utf8, encode_scalar, encode_utf8,
    encode_utf8_decode_utf8, encode_utf8_valid_utf8, has_width_1_encoding,
    last_continuation_byte, leading_byte_width_1, leading_byte_width_2, leading_byte_width_3,
    leading_byte_width_4, second_last_continuation_byte, third_last_continuation_byte,
    valid_utf8,
};

use crate::numerals::parse_u64;
use crate::process_env::LauncherProcess;
use crate::text::{
    cat2, chars_of, copy_opt, is_separator_char, string_of, strip_prefix, strip_suffix_or_same,
    to_lower, trimmed, words_of,
};
use crate::numerals::parse_number;
use crate::process_env::{process_views, ProcessModel};
use crate::text::{
    equal_to, has_at, lemma_span_is, lower, opt_view, separator, span, split, trim,
    without_suffix, words,
};

verus! {

// ----- names ----------------------------------------------------------------------

/// A process name as it is compared: in lower case, without a final `.exe`.
pub open spec fn bare_name(name: Seq<char>) -> Seq<char> {
    without_suffix(lower(name), ".exe"@)
}

/// Two names are of the same program.
pub open spec fn same_program(query: Seq<char>, candidate: Seq<char>) -> bool {
    bare_name(query) == bare_name(candidate)
}

fn strip(name: &str) -> (r: String)
    ensures
        r@ == bare_name(name@),
{
    strip_suffix_or_same(to_lower(name).as_str(), ".exe")
}

/// Matches a Windows-style name against what a process reports, ignoring case
/// and a trailing `.exe` on either side: native Steam reports `steam`, the
/// copy that Proton runs reports `steam.exe`, and callers ask for the latter.
pub fn names_match(query: &str, candidate: &str) -> (r: bool)
    ensures
        r == same_program(query@, candidate@),
{
    strip(query) == strip(candidate)
}

/// A final `.exe` makes no difference.
pub proof fn law_exe_suffix_is_ignored(name: Seq<char>)
    requires
        bare_name(name) == lower(name),
    ensures
        same_program(name, name + ".exe"@),
        same_program(name + ".exe"@, name),
{
    reveal_strlit(".exe");
    let long = lower(name + ".exe"@);
    assert(long.subrange(name.len() as int, long.len() as int) =~= ".exe"@);
    assert(long.take(long.len() - 4) =~= lower(name));
}

/// Case makes no difference.
pub proof fn law_case_is_ignored(name: Seq<char>)
    ensures
        same_program(name, lower(name)),
{
    assert(lower(lower(name)) =~= lower(name));
}

/// What follows the last path separator.
pub open spec fn base_name(path: Seq<char>) -> Seq<char>
    decreases path.len(),
{
    if path.len() == 0 || separator(path.last()) {
        Seq::empty()
    } else {
        base_name(path.drop_last()).push(path.last())
    }
}

proof fn lemma_base_name(path: Seq<char>, i: int)
    requires
        0 <= i <= path.len(),
        i > 0 ==> separator(path[i - 1]),
        forall|k: int| i <= k < path.len() ==> !separator(path[k]),
    ensures
        base_name(path) == path.skip(i),
    decreases path.len() - i,
{
    if i < path.len() {
        lemma_base_name(path.drop_last(), i);
    }
}

/// Final component of a path that may use either separator: a program under
/// Wine reports its Windows path.
pub fn windows_basename(path: &str) -> (r: String)
    ensures
        r@ == base_name(path@),
{
    let v = chars_of(path);
    let mut i: usize = v.len();
    while i > 0 && !is_separator_char(v[i - 1])
        invariant
            i <= v@.len(),
            v@ == path@,
            forall|k: int| i <= k < v@.len() ==> !separator(path@[k]),
        decreases i,
    {
        i -= 1;
    }
    proof {
        lemma_base_name(path@, i as int);
    }
    let tail = vstd::slice::slice_subrange(v.as_slice(), i, v.len());
    string_of(tail)
}

// ----- bytes ----------------------------------------------------------------------

/// What `String::from_utf8_lossy` makes of bytes.
pub uninterp spec fn utf8_lossy(bytes: Seq<u8>) -> Seq<char>;

/// `String::from_utf8_lossy` decodes UTF-8. Valid text comes out as it is;
/// elsewhere what comes out is named by `utf8_lossy`.
#[verifier::external_body]
fn decode_lossy(bytes: &[u8]) -> (r: String)
    ensures
        r@ == utf8_lossy(bytes@),
        valid_utf8(bytes@) ==> encode_utf8(r@) == bytes@,
{
    String::from_utf8_lossy(bytes).into_owned()
}

/// What bytes spell: the text whose UTF-8 they are, and where they are not
/// UTF-8, what `String::from_utf8_lossy` puts in its place.
pub open spec fn text_of(bytes: Seq<u8>) -> Seq<char> {
    if valid_utf8(bytes) {
        decode_utf8(bytes)
    } else {
        utf8_lossy(bytes)
    }
}

fn decode_text(bytes: &[u8]) -> (r: String)
    ensures
        r@ == text_of(bytes@),
{
    let r = decode_lossy(bytes);
    proof {
        encode_utf8_decode_utf8(r@);
    }
    r
}

/// The index of the first zero byte from `from` on, or the end.
fn zero_byte(bytes: &[u8], from: usize) -> (r: usize)
    requires
        from <= bytes@.len(),
    ensures
        from <= r <= bytes@.len(),
        r - from == span(bytes@.skip(from as int), equal_to(0u8)),
{
    let mut r: usize = from;
    while r < bytes.len() && bytes[r] != 0
        invariant
            from <= r <= bytes@.len(),
            forall|k: int| from <= k < r ==> bytes@[k] != 0,
        decreases bytes.len() - r,
    {
        r += 1;
    }
    proof {
        let rest = bytes@.skip(from as int);
        assert forall|k: int| 0 <= k < r - from implies !equal_to(0u8)(#[trigger] rest[k]) by {}
        lemma_span_is(rest, equal_to(0u8), r - from);
    }
    r
}

/// The first argument on a command line whose arguments zeros end.
pub open spec fn first_argument(cmdline: Seq<u8>) -> Option<Seq<char>> {
    let first = split(cmdline, 0u8)[0];
    if first.len() == 0 {
        None
    } else {
        Some(text_of(first))
    }
}

/// `argv[0]` of a command line: for a program under Wine, the Windows path of
/// what it runs.
pub fn argv0(cmdline: &[u8]) -> (r: Option<String>)
    ensures
        opt_view(r) == first_argument(cmdline@),
{
    let n = zero_byte(cmdline, 0);
    assert(cmdline@.skip(0) =~= cmdline@);
    let first = vstd::slice::slice_subrange(cmdline, 0, n);
    if n == 0 {
        None
    } else {
        Some(decode_text(first))
    }
}

/// The value of a variable among the entries of an environment: what follows
/// `NAME=` in the first entry that begins so.
pub open spec fn value_among(entries: Seq<Seq<u8>>, name: Seq<char>) -> Option<Seq<char>>
    decreases entries.len(),
{
    if entries.len() == 0 {
        None
    } else {
        let text = text_of(entries[0]);
        let prefix = name + "="@;
        if has_at(text, prefix, 0) {
            Some(text.skip(prefix.len() as int))
        } else {
            value_among(entries.drop_first(), name)
        }
    }
}

/// The value of a variable in an environment whose entries zeros end; `None`
/// where the environment could not be read, too.
pub open spec fn environment_value(environ: Option<Seq<u8>>, name: Seq<char>) -> Option<Seq<char>> {
    match environ {
        Some(bytes) => value_among(split(bytes, 0u8), name),
        None => None,
    }
}

/// The value of a variable in the bytes of an environment.
fn value_in(bytes: &[u8], name: &str) -> (r: Option<String>)
    ensures
        opt_view(r) == value_among(split(bytes@, 0u8), name@),
{
    let prefix = cat2(name, "=");
    let mut i: usize = 0;
    assert(bytes@.skip(0) =~= bytes@);
    loop
        invariant
            i <= bytes@.len(),
            prefix@ == name@ + "="@,
            value_among(split(bytes@, 0u8), name@) == value_among(
                split(bytes@.skip(i as int), 0u8),
                name@,
            ),
        decreases bytes.len() - i,
    {
        let ghost rest = bytes@.skip(i as int);
        let n = zero_byte(bytes, i);
        let entry = vstd::slice::slice_subrange(bytes, i, n);
        assert(split(rest, 0u8)[0] == entry@);
        let text = decode_text(entry);
        if let Some(value) = strip_prefix(text.as_str(), prefix.as_str()) {
            return Some(value);
        }
        if n == bytes.len() {
            assert(split(rest, 0u8).drop_first() =~= Seq::<Seq<u8>>::empty());
            assert(value_among(Seq::<Seq<u8>>::empty(), name@) is None);
            return None;
        }
        assert(rest.skip(n - i + 1) =~= bytes@.skip(n + 1));
        assert(split(rest, 0u8).drop_first() =~= split(bytes@.skip(n + 1), 0u8));
        i = n + 1;
    }
}

/// The value of a variable in the bytes of a process's `environ`, which are
/// missing where another user's process, or one that is gone, was asked for.
pub fn process_environment_value(environ: Option<&[u8]>, name: &str) -> (r: Option<String>)
    ensures
        opt_view(r) == environment_value(
            match environ {
                Some(bytes) => Some(bytes@),
                None => None,
            },
            name@,
        ),
{
    match environ {
        Some(bytes) => value_in(bytes, name),
        None => None,
    }
}

/// An environment of entries: each as UTF-8, with a zero behind it.
pub open spec fn environ_of(entries: Seq<Seq<char>>) -> Seq<u8>
    decreases entries.len(),
{
    if entries.len() == 0 {
        Seq::empty()
    } else {
        encode_utf8(entries[0]) + seq![0u8] + environ_of(entries.drop_first())
    }
}

/// The value of a variable: what follows `NAME=` in the first of the entries
/// that begins so.
pub open spec fn entry_value(entries: Seq<Seq<char>>, name: Seq<char>) -> Option<Seq<char>>
    decreases entries.len(),
{
    let prefix = name + "="@;
    if entries.len() == 0 {
        None
    } else if has_at(entries[0], prefix, 0) {
        Some(entries[0].skip(prefix.len() as int))
    } else {
        entry_value(entries.drop_first(), name)
    }
}

/// No byte is zero in the UTF-8 of a character that is not.
proof fn lemma_scalar_bytes(n: u32)
    by (bit_vector)
    requires
        0 < n <= 0x10ffff,
    ensures
        has_width_1_encoding(n) ==> leading_byte_width_1(n) != 0,
        leading_byte_width_2(n) != 0,
        leading_byte_width_3(n) != 0,
        leading_byte_width_4(n) != 0,
        last_continuation_byte(n) != 0,
        second_last_continuation_byte(n) != 0,
        third_last_continuation_byte(n) != 0,
{
}

proof fn lemma_utf8_zero(s: Seq<char>)
    requires
        !s.contains('\0'),
    ensures
        forall|i: int| 0 <= i < encode_utf8(s).len() ==> #[trigger] encode_utf8(s)[i] != 0,
    decreases s.len(),
{
    if s.len() > 0 {
        assert forall|i: int| 0 <= i < s.drop_first().len() implies s.drop_first()[i] != '\0' by {
            assert(s.contains(s[i + 1]));
        }
        lemma_utf8_zero(s.drop_first());
        assert(s.contains(s[0]));
        let c = s[0];
        char_is_scalar(c);
        char_u32_cast(c, c as u32);
        assert(c as u32 != 0) by {
            assert(0u32 as char == '\0');
        }
        lemma_scalar_bytes(c as u32);
        assert forall|i: int| 0 <= i < encode_utf8(s).len() implies #[trigger] encode_utf8(s)[i]
            != 0 by {
            let n = encode_scalar(c as u32).len();
            if i >= n {
                assert(encode_utf8(s)[i] == encode_utf8(s.drop_first())[i - n]);
            }
        }
    }
}

/// Reading an environment undoes writing it: a variable has the value that the
/// first entry with its name gives it.
pub proof fn law_environment_reads_back(entries: Seq<Seq<char>>, name: Seq<char>)
    requires
        forall|i: int| 0 <= i < entries.len() ==> !(#[trigger] entries[i]).contains('\0'),
    ensures
        environment_value(Some(environ_of(entries)), name) == entry_value(entries, name),
    decreases entries.len(),
{
    let bytes = environ_of(entries);
    reveal_strlit("=");
    if entries.len() == 0 {
        lemma_span_is(bytes, equal_to(0u8), 0);
        let pieces = split(bytes, 0u8);
        assert(pieces[0] =~= bytes);
        assert(pieces.drop_first() =~= Seq::<Seq<u8>>::empty());
        encode_utf8_decode_utf8(Seq::<char>::empty());
        assert(encode_utf8(Seq::<char>::empty()) =~= bytes);
        encode_utf8_valid_utf8(Seq::<char>::empty());
        assert(value_among(Seq::<Seq<u8>>::empty(), name) is None);
    } else {
        let first = encode_utf8(entries[0]);
        let rest = entries.drop_first();
        lemma_utf8_zero(entries[0]);
        encode_utf8_decode_utf8(entries[0]);
        encode_utf8_valid_utf8(entries[0]);
        assert forall|k: int| 0 <= k < first.len() implies !equal_to(0u8)(#[trigger] bytes[k]) by {
            assert(bytes[k] == first[k]);
        }
        lemma_span_is(bytes, equal_to(0u8), first.len() as int);
        assert(bytes.take(first.len() as int) =~= first);
        assert(bytes.skip(first.len() as int + 1) =~= environ_of(rest));
        assert(split(bytes, 0u8).drop_first() =~= split(environ_of(rest), 0u8));
        law_environment_reads_back(rest, name);
    }
}

// ----- the parent -----------------------------------------------------------------

/// What follows the last closing bracket.
pub open spec fn after_last_bracket(s: Seq<char>) -> Option<Seq<char>>
    decreases s.len(),
{
    if s.len() == 0 {
        None
    } else if s.last() == ')' {
        Some(Seq::empty())
    } else {
        match after_last_bracket(s.drop_last()) {
            Some(tail) => Some(tail.push(s.last())),
            None => None,
        }
    }
}

proof fn lemma_after_last_bracket(s: Seq<char>, i: int)
    requires
        0 <= i <= s.len(),
        i > 0 ==> s[i - 1] == ')',
        forall|k: int| i <= k < s.len() ==> s[k] != ')',
    ensures
        after_last_bracket(s) == (if i > 0 {
            Some(s.skip(i))
        } else {
            None
        }),
    decreases s.len() - i,
{
    if i < s.len() {
        lemma_after_last_bracket(s.drop_last(), i);
    }
}

/// The parent's number in a `stat` line: the second word after the name, which
/// is in brackets and may hold spaces and brackets itself.
pub open spec fn parent_in_stat(stat: Seq<char>) -> Option<nat> {
    match after_last_bracket(stat) {
        Some(tail) => if words(tail).len() > 1 {
            parse_number(words(tail)[1], 10, u32::MAX as nat)
        } else {
            None
        },
        None => None,
    }
}

/// The parent of a process, from its `stat` line.
pub fn read_ppid(stat: &str) -> (r: Option<u32>)
    ensures
        match r {
            Some(pid) => parent_in_stat(stat@) == Some(pid as nat),
            None => parent_in_stat(stat@) is None,
        },
{
    let v = chars_of(stat);
    let mut i: usize = v.len();
    while i > 0 && v[i - 1] != ')'
        invariant
            i <= v@.len(),
            v@ == stat@,
            forall|k: int| i <= k < v@.len() ==> stat@[k] != ')',
        decreases i,
    {
        i -= 1;
    }
    proof {
        lemma_after_last_bracket(stat@, i as int);
    }
    if i == 0 {
        return None;
    }
    let tail = vstd::slice::slice_subrange(v.as_slice(), i, v.len());
    let fields = words_of(string_of(tail).as_str());
    if fields.len() < 2 {
        return None;
    }
    match parse_u64(fields[1].as_str(), 10, u32::MAX as u64) {
        Some(n) => Some(n as u32),
        None => None,
    }
}

// ----- the search -----------------------------------------------------------------

/// What `/proc` says of one process; what could not be read is missing.
#[derive(Debug, Clone, PartialEq, Eq)]
pub struct ProcEntry {
    /// The name of the directory: a number, for a process.
    pub dir_name: Option<String>,
    /// What `comm` holds.
    pub comm: Option<String>,
    /// What `exe` links to.
    pub exe: Option<String>,
    /// The file name in what `exe` links to.
    pub exe_name: Option<String>,
    /// What `cmdline` holds.
    pub cmdline: Option<Vec<u8>>,
    /// What `stat` holds.
    pub stat: Option<String>,
}

/// The name that a process gave itself.
pub open spec fn comm_of(entry: ProcEntry) -> Seq<char> {
    match entry.comm {
        Some(comm) => trim(comm@),
        None => Seq::empty(),
    }
}

/// The entry is of the program: by the name it gave itself, by its file, or
/// by the path it was started with. The last is what tells of a program under
/// Wine, whose file is Wine's and which names itself as it likes.
pub open spec fn entry_matches(entry: ProcEntry, name: Seq<char>) -> bool {
    ||| same_program(name, comm_of(entry))
    ||| (entry.exe_name matches Some(exe) && same_program(name, exe@))
    ||| (entry.cmdline matches Some(cmdline) && (first_argument(cmdline@) matches Some(path)
        && same_program(name, base_name(trim(path)))))
}

/// The number of the process.
pub open spec fn pid_of(entry: ProcEntry) -> Option<nat> {
    match entry.dir_name {
        Some(name) => parse_number(name@, 10, u32::MAX as nat),
        None => None,
    }
}

/// The number of the parent, zero where it is not known.
pub open spec fn parent_of(entry: ProcEntry) -> nat {
    match entry.stat {
        Some(stat) => match parent_in_stat(stat@) {
            Some(pid) => pid,
            None => 0,
        },
        None => 0,
    }
}

/// The process that an entry describes, if it is one of the program.
pub open spec fn process_of(entry: ProcEntry, name: Seq<char>) -> Option<ProcessModel> {
    if pid_of(entry) is Some && entry_matches(entry, name) {
        Some(
            ProcessModel {
                pid: pid_of(entry)->0 as u32,
                parent_pid: parent_of(entry) as u32,
                name: if comm_of(entry).len() == 0 {
                    name
                } else {
                    comm_of(entry)
                },
                executable_path: opt_view(entry.exe),
            },
        )
    } else {
        None
    }
}

/// The processes of the program among the entries, in order.
pub open spec fn processes_of(entries: Seq<ProcEntry>, name: Seq<char>) -> Seq<ProcessModel>
    decreases entries.len(),
{
    if entries.len() == 0 {
        Seq::empty()
    } else {
        let before = processes_of(entries.drop_last(), name);
        match process_of(entries.last(), name) {
            Some(process) => before.push(process),
            None => before,
        }
    }
}

fn comm_text(entry: &ProcEntry) -> (r: String)
    ensures
        r@ == comm_of(*entry),
{
    match &entry.comm {
        Some(comm) => trimmed(comm.as_str()),
        None => String::new(),
    }
}

/// Whether the path a program was started with is the program's.
pub fn argv0_matches(process_name: &str, path: &str) -> (r: bool)
    ensures
        r == same_program(process_name@, base_name(trim(path@))),
{
    let bare = trimmed(path);
    names_match(process_name, windows_basename(bare.as_str()).as_str())
}

fn matches_entry(entry: &ProcEntry, process_name: &str) -> (r: bool)
    ensures
        r == entry_matches(*entry, process_name@),
{
    if names_match(process_name, comm_text(entry).as_str()) {
        return true;
    }
    if let Some(exe) = &entry.exe_name {
        if names_match(process_name, exe.as_str()) {
            return true;
        }
    }
    if let Some(cmdline) = &entry.cmdline {
        if let Some(path) = argv0(cmdline.as_slice()) {
            return argv0_matches(process_name, path.as_str());
        }
    }
    false
}

fn process_from_entry(entry: &ProcEntry, process_name: &str) -> (r: Option<LauncherProcess>)
    ensures
        match r {
            Some(process) => process_of(*entry, process_name@) == Some(process@),
            None => process_of(*entry, process_name@) is None,
        },
{
    let pid: u32 = match &entry.dir_name {
        Some(name) => match parse_u64(name.as_str(), 10, u32::MAX as u64) {
            Some(pid) => pid as u32,
            None => return None,
        },
        None => return None,
    };
    if !matches_entry(entry, process_name) {
        return None;
    }
    let parent_pid: u32 = match &entry.stat {
        Some(stat) => match read_ppid(stat.as_str()) {
            Some(pid) => pid,
            None => 0,
        },
        None => 0,
    };
    let comm = comm_text(entry);
    let name = if comm.as_str().is_empty() {
        process_name.to_owned()
    } else {
        comm
    };
    Some(LauncherProcess { pid, parent_pid, name, executable_path: copy_opt(&entry.exe) })
}

/// The processes of a program among what `/proc` lists.
pub fn find_processes(process_name: &str, entries: &Vec<ProcEntry>) -> (r: Vec<LauncherProcess>)
    ensures
        process_views(r@) == processes_of(entries@, process_name@),
{
    let mut r: Vec<LauncherProcess> = Vec::new();
    let mut i: usize = 0;
    while i < entries.len()
        invariant
            i <= entries@.len(),
            process_views(r@) == processes_of(entries@.take(i as int), process_name@),
        decreases entries.len() - i,
    {
        assert(entries@.take(i + 1).drop_last() =~= entries@.take(i as int));
        if let Some(process) = process_from_entry(&entries[i], process_name) {
            r.push(process);
        }
        i += 1;
    }
    assert(entries@.take(i as int) =~= entries@);
    r
}

} // verus!
