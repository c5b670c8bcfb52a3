//! The list of running processes, made from what the process table of the
//! system shows.

use crate::detector::{DetectionError, DetectionErrorView};
use crate::text::{
    contains, contains_text, from_chars, is_char, is_space, lowercase, starts_with, subrange, texts,
    to_chars, trim, trimmed,
};
use crate::types::ProcessInfo;
use vstd::prelude::*;

verus! {

/// One entry of the process table, as it was read.
#[derive(Debug)]
pub struct ProcEntry {
    /// The name of the entry; that of a process is its identifier.
    pub name: String,
    /// The short name of the command, if it could be read.
    pub comm: Option<String>,
    /// The command line, its arguments each ended by a NUL, if it could be
    /// read.
    pub cmdline: Option<String>,
    /// The path of the executable, if it could be read.
    pub exe: Option<String>,
}

/// The title of a window and the process that owns it.
#[derive(Debug)]
pub struct WindowTitle {
    pub pid: u32,
    pub title: String,
}

/// Whether `c` is a decimal digit.
pub open spec fn is_digit(c: char) -> bool {
    '0' <= c && c <= '9'
}

/// Whether `s` holds decimal digits only.
pub open spec fn all_digits(s: Seq<char>) -> bool {
    forall|i: int| 0 <= i < s.len() ==> is_digit(#[trigger] s[i])
}

/// The number that the decimal digits `s` denote.
pub open spec fn number_of(s: Seq<char>) -> int
    decreases s.len(),
{
    if s.len() == 0 {
        0
    } else {
        number_of(s.drop_last()) * 10 + (s.last() as u8 - '0' as u8)
    }
}

/// The identifier that `s` denotes: decimal digits, at least one, after an
/// optional `+`, that denote a number within `u32`.
pub open spec fn pid_of(s: Seq<char>) -> Option<u32> {
    let digits = if s.len() > 0 && s.first() == '+' {
        s.skip(1)
    } else {
        s
    };
    if digits.len() > 0 && all_digits(digits) && number_of(digits) <= u32::MAX {
        Some(number_of(digits) as u32)
    } else {
        None
    }
}

/// A number is at least the number that its first digits denote.
pub proof fn lemma_number_grows(s: Seq<char>, n: int)
    requires
        0 <= n <= s.len(),
        all_digits(s),
    ensures
        0 <= number_of(s.take(n)) <= number_of(s),
    decreases s.len() - n,
{
    if n == s.len() {
        assert(s.take(n) == s);
        lemma_number_not_negative(s);
    } else {
        assert(s.take(n + 1).drop_last() == s.take(n));
        assert(is_digit(s[n]));
        lemma_number_grows(s, n + 1);
        lemma_number_not_negative(s.take(n));
    }
}

/// The number that digits denote is not negative.
pub proof fn lemma_number_not_negative(s: Seq<char>)
    requires
        all_digits(s),
    ensures
        0 <= number_of(s),
    decreases s.len(),
{
    if s.len() > 0 {
        assert(is_digit(s[s.len() - 1]));
        lemma_number_not_negative(s.drop_last());
    }
}

/// The identifier that `s` denotes.
pub fn parse_pid(s: &str) -> (r: Option<u32>)
    ensures
        r == pid_of(s@),
{
    let chars = to_chars(s);
    let start: usize = if chars.len() > 0 && chars[0] == '+' {
        1
    } else {
        0
    };
    let ghost digits = chars@.skip(start as int);
    assert(chars@.skip(0) == chars@);
    if start >= chars.len() {
        return None;
    }
    let mut value: u64 = 0;
    let mut i: usize = start;
    assert(digits.take(0) == Seq::<char>::empty());
    while i < chars.len()
        invariant
            start <= i <= chars.len(),
            chars@ == s@,
            start == (if s@.len() > 0 && s@.first() == '+' {
                1int
            } else {
                0int
            }),
            start < chars.len(),
            digits == chars@.skip(start as int),
            all_digits(digits.take(i - start)),
            value == number_of(digits.take(i - start)),
            value <= u32::MAX,
        decreases chars.len() - i,
    {
        let c = chars[i];
        assert(digits[i - start] == c);
        assert(digits.take(i - start + 1).drop_last() == digits.take(i - start));
        if !(c >= '0' && c <= '9') {
            assert(!is_digit(digits[i - start]));
            return None;
        }
        value = value * 10 + ((c as u8 - '0' as u8) as u64);
        assert(digits.take(i - start + 1).last() == c);
        assert(value == number_of(digits.take(i - start + 1)));
        if value > 0xffff_ffff {
            proof {
                if all_digits(digits) {
                    lemma_number_grows(digits, i - start + 1);
                }
                assert(s@.skip(0) == s@);
                assert(!(all_digits(digits) && number_of(digits) <= u32::MAX));
            }
            return None;
        }
        i += 1;
    }
    assert(digits.take(digits.len() as int) == digits);
    Some(value as u32)
}

/// `s` with a space in the place of each NUL.
pub open spec fn spaced(s: Seq<char>) -> Seq<char> {
    s.map_values(|c: char| if c == '\0' { ' ' } else { c })
}

/// The title of the first window of process `pid` at or after `from`.
pub open spec fn title_from(titles: Seq<WindowTitle>, pid: u32, from: int) -> Option<Seq<char>>
    decreases titles.len() - from,
{
    if from < 0 || from >= titles.len() {
        None
    } else if titles[from].pid == pid {
        Some(titles[from].title@)
    } else {
        title_from(titles, pid, from + 1)
    }
}

/// The text of an optional string; empty where there is none.
pub open spec fn text_or_empty(s: Option<String>) -> Seq<char> {
    match s {
        Some(s) => s@,
        None => Seq::empty(),
    }
}

/// The process that an entry of the process table stands for, if its name
/// is an identifier and its command could be read. Its title is that of
/// its window, and for want of one its command line.
pub open spec fn process_of(
    entry: ProcEntry,
    titles: Seq<WindowTitle>,
) -> Option<ProcessInfoFacts> {
    match (pid_of(entry.name@), entry.comm) {
        (Some(pid), Some(comm)) => Some(
            ProcessInfoFacts {
                pid,
                name: trimmed(comm@),
                window_title: match title_from(titles, pid, 0) {
                    Some(title) => title,
                    None => trimmed(spaced(text_or_empty(entry.cmdline))),
                },
                executable_path: text_or_empty(entry.exe),
            },
        ),
        _ => None,
    }
}

/// What a [`ProcessInfo`] holds.
pub struct ProcessInfoFacts {
    pub pid: u32,
    pub name: Seq<char>,
    pub window_title: Seq<char>,
    pub executable_path: Seq<char>,
}

/// What a process holds.
pub open spec fn facts_of(process: ProcessInfo) -> ProcessInfoFacts {
    ProcessInfoFacts {
        pid: process.pid,
        name: process.name@,
        window_title: process.window_title@,
        executable_path: process.executable_path@,
    }
}

/// The processes that the entries of the process table stand for, in
/// order.
pub open spec fn processes_of(entries: Seq<ProcEntry>, titles: Seq<WindowTitle>) -> Seq<
    ProcessInfoFacts,
>
    decreases entries.len(),
{
    if entries.len() == 0 {
        Seq::empty()
    } else {
        match process_of(entries.last(), titles) {
            Some(process) => processes_of(entries.drop_last(), titles).push(process),
            None => processes_of(entries.drop_last(), titles),
        }
    }
}

/// `s` with a space in the place of each NUL.
pub fn replace_nul(s: &Vec<char>) -> (r: Vec<char>)
    ensures
        r@ == spaced(s@),
{
    let mut r: Vec<char> = Vec::new();
    let mut i: usize = 0;
    while i < s.len()
        invariant
            i <= s.len(),
            r@ == spaced(s@).take(i as int),
        decreases s.len() - i,
    {
        r.push(if s[i] == '\0' { ' ' } else { s[i] });
        i += 1;
        assert(spaced(s@).take(i as int) == spaced(s@).take(i - 1).push(spaced(s@)[i - 1]));
    }
    assert(spaced(s@).take(s.len() as int) == spaced(s@));
    r
}

/// The title of the first window of process `pid`.
pub fn window_title_of(titles: &Vec<WindowTitle>, pid: u32) -> (r: Option<String>)
    ensures
        match r {
            Some(title) => title_from(titles@, pid, 0) == Some(title@),
            None => title_from(titles@, pid, 0) is None,
        },
{
    let mut i: usize = 0;
    while i < titles.len()
        invariant
            i <= titles.len(),
            title_from(titles@, pid, 0) == title_from(titles@, pid, i as int),
        decreases titles.len() - i,
    {
        if titles[i].pid == pid {
            return Some(titles[i].title.clone());
        }
        i += 1;
    }
    None
}

/// The process that an entry of the process table stands for.
pub fn process_of_entry(entry: &ProcEntry, titles: &Vec<WindowTitle>) -> (r: Option<ProcessInfo>)
    ensures
        match r {
            Some(process) => process_of(*entry, titles@) == Some(facts_of(process)),
            None => process_of(*entry, titles@) is None,
        },
{
    let pid = match parse_pid(entry.name.as_str()) {
        Some(pid) => pid,
        None => {
            return None;
        },
    };
    let comm = match &entry.comm {
        Some(comm) => comm,
        None => {
            return None;
        },
    };
    let window_title = match window_title_of(titles, pid) {
        Some(title) => title,
        None => {
            let line = match &entry.cmdline {
                Some(line) => to_chars(line.as_str()),
                None => Vec::new(),
            };
            from_chars(&trim(&replace_nul(&line)))
        },
    };
    let executable_path = match &entry.exe {
        Some(exe) => exe.clone(),
        None => String::new(),
    };
    Some(
        ProcessInfo {
            pid,
            name: from_chars(&trim(&to_chars(comm.as_str()))),
            window_title,
            executable_path,
        },
    )
}

/// What listing the processes returns: the failure to read the process
/// table, with the reason, or the processes that its entries stand for.
pub open spec fn all_processes(
    listing: Result<Vec<ProcEntry>, String>,
    titles: Seq<WindowTitle>,
) -> Result<
    Seq<ProcessInfoFacts>,
    DetectionErrorView,
> {
    match listing {
        Ok(entries) => Ok(processes_of(entries@, titles)),
        Err(reason) => Err(
            DetectionErrorView::SystemError { message: "Failed to read /proc: "@ + reason@ },
        ),
    }
}

/// What a list of processes holds.
pub open spec fn facts_of_all(processes: Seq<ProcessInfo>) -> Seq<ProcessInfoFacts> {
    processes.map_values(|p: ProcessInfo| facts_of(p))
}

/// The running processes, from the entries of the process table and the
/// titles of the windows. It fails with `SystemError` where the process
/// table could not be read.
pub fn find_all_processes(
    listing: &Result<Vec<ProcEntry>, String>,
    titles: &Vec<WindowTitle>,
) -> (r:
    Result<Vec<ProcessInfo>, DetectionError>)
    ensures
        match r {
            Ok(processes) => all_processes(*listing, titles@) == Ok::<
                Seq<ProcessInfoFacts>,
                DetectionErrorView,
            >(facts_of_all(processes@)),
            Err(e) => all_processes(*listing, titles@) == Err::<
                Seq<ProcessInfoFacts>,
                DetectionErrorView,
            >(e@),
        },
{
    let entries = match listing {
        Ok(entries) => entries,
        Err(reason) => {
            let mut message = String::from_str("Failed to read /proc: ");
            message.append(reason.as_str());
            return Err(DetectionError::SystemError { message });
        },
    };
    let mut processes: Vec<ProcessInfo> = Vec::new();
    let mut i: usize = 0;
    assert(entries@.take(0) == Seq::<ProcEntry>::empty());
    assert(facts_of_all(processes@) == Seq::<ProcessInfoFacts>::empty());
    while i < entries.len()
        invariant
            i <= entries.len(),
            facts_of_all(processes@) == processes_of(entries@.take(i as int), titles@),
        decreases entries.len() - i,
    {
        assert(entries@.take(i + 1).drop_last() == entries@.take(i as int));
        match process_of_entry(&entries[i], titles) {
            Some(process) => {
                assert(facts_of_all(processes@.push(process)) == facts_of_all(processes@).push(
                    facts_of(process),
                ));
                processes.push(process);
            },
            None => {},
        }
        i += 1;
    }
    assert(entries@.take(entries.len() as int) == entries@);
    Ok(processes)
}

/// The processes among `processes` whose name, in lower case, contains
/// `name` in lower case.
pub open spec fn named(processes: Seq<ProcessInfo>, name: Seq<char>) -> Seq<ProcessInfo>
    decreases processes.len(),
{
    if processes.len() == 0 {
        processes
    } else if contains_text(lowercase(processes.last().name@), lowercase(name)) {
        named(processes.drop_last(), name).push(processes.last())
    } else {
        named(processes.drop_last(), name)
    }
}

/// The processes among `processes` whose name contains `name`, whatever
/// the case of the letters.
pub fn find_processes_by_name(processes: &[ProcessInfo], name: &str) -> (r: Vec<ProcessInfo>)
    ensures
        r@ == named(processes@, name@),
{
    let wanted = to_chars(name.to_lowercase().as_str());
    let mut r: Vec<ProcessInfo> = Vec::new();
    let mut i: usize = 0;
    assert(processes@.take(0) == Seq::<ProcessInfo>::empty());
    while i < processes.len()
        invariant
            i <= processes.len(),
            wanted@ == lowercase(name@),
            r@ == named(processes@.take(i as int), name@),
        decreases processes.len() - i,
    {
        assert(processes@.take(i + 1).drop_last() == processes@.take(i as int));
        let own = to_chars(processes[i].name.as_str().to_lowercase().as_str());
        if contains(&own, &wanted) {
            r.push(processes[i].clone());
        }
        i += 1;
    }
    assert(processes@.take(processes.len() as int) == processes@);
    r
}

/// `done`, and behind it the pieces of `s[from..]` between the characters
/// that satisfy `cuts`, those that are not empty, the first of them
/// continuing `piece`.
pub open spec fn pieces_from(
    s: Seq<char>,
    cuts: spec_fn(char) -> bool,
    from: int,
    piece: Seq<char>,
    done: Seq<Seq<char>>,
) -> Seq<Seq<char>>
    decreases s.len() - from,
{
    if from < 0 || from >= s.len() {
        if piece.len() > 0 {
            done.push(piece)
        } else {
            done
        }
    } else if cuts(s[from]) {
        pieces_from(
            s,
            cuts,
            from + 1,
            Seq::empty(),
            if piece.len() > 0 {
                done.push(piece)
            } else {
                done
            },
        )
    } else {
        pieces_from(s, cuts, from + 1, piece.push(s[from]), done)
    }
}

/// The pieces of `s` between the characters that satisfy `cuts`, those
/// that are not empty.
pub open spec fn pieces(s: Seq<char>, cuts: spec_fn(char) -> bool) -> Seq<Seq<char>> {
    pieces_from(s, cuts, 0, Seq::empty(), Seq::empty())
}

/// The arguments in the command line of a process as the process table
/// holds it: the pieces between the NULs that are not empty.
pub fn command_line_of_proc(content: &str) -> (r: Vec<String>)
    ensures
        texts(r@) == pieces(content@, is_char('\0')),
{
    let chars = to_chars(content);
    let mut done: Vec<String> = Vec::new();
    let mut start: usize = 0;
    let mut i: usize = 0;
    assert(texts(done@) == Seq::<Seq<char>>::empty());
    assert(chars@.subrange(0, 0) == Seq::<char>::empty());
    while i < chars.len()
        invariant
            start <= i <= chars.len(),
            pieces(chars@, is_char('\0')) == pieces_from(
                chars@,
                is_char('\0'),
                i as int,
                chars@.subrange(start as int, i as int),
                texts(done@),
            ),
        decreases chars.len() - i,
    {
        if chars[i] == '\0' {
            if i > start {
                let piece = from_chars(&subrange(&chars, start, i));
                assert(texts(done@.push(piece)) == texts(done@).push(piece@));
                done.push(piece);
            }
            start = i + 1;
            assert(chars@.subrange(start as int, start as int) == Seq::<char>::empty());
        } else {
            assert(chars@.subrange(start as int, i + 1) == chars@.subrange(
                start as int,
                i as int,
            ).push(chars@[i as int]));
        }
        i += 1;
    }
    if i > start {
        let piece = from_chars(&subrange(&chars, start, i));
        assert(texts(done@.push(piece)) == texts(done@).push(piece@));
        done.push(piece);
    }
    done
}

/// The arguments in the command line of a process as a listing of
/// processes prints it: the pieces between white space that are not empty.
pub fn command_line_of_ps(output: &str) -> (r: Vec<String>)
    ensures
        texts(r@) == pieces(output@, is_space()),
{
    let chars = to_chars(output);
    let mut done: Vec<String> = Vec::new();
    let mut start: usize = 0;
    let mut i: usize = 0;
    assert(texts(done@) == Seq::<Seq<char>>::empty());
    assert(chars@.subrange(0, 0) == Seq::<char>::empty());
    while i < chars.len()
        invariant
            start <= i <= chars.len(),
            pieces(chars@, is_space()) == pieces_from(
                chars@,
                is_space(),
                i as int,
                chars@.subrange(start as int, i as int),
                texts(done@),
            ),
        decreases chars.len() - i,
    {
        if chars[i].is_whitespace() {
            if i > start {
                let piece = from_chars(&subrange(&chars, start, i));
                assert(texts(done@.push(piece)) == texts(done@).push(piece@));
                done.push(piece);
            }
            start = i + 1;
            assert(chars@.subrange(start as int, start as int) == Seq::<char>::empty());
        } else {
            assert(chars@.subrange(start as int, i + 1) == chars@.subrange(
                start as int,
                i as int,
            ).push(chars@[i as int]));
        }
        i += 1;
    }
    if i > start {
        let piece = from_chars(&subrange(&chars, start, i));
        assert(texts(done@.push(piece)) == texts(done@).push(piece@));
        done.push(piece);
    }
    done
}

/// The words into which the `shell-words` crate splits a line by the rules
/// of a Unix shell; `None` where the line ends inside a quotation.
pub uninterp spec fn shell_words(line: Seq<char>) -> Option<Seq<Seq<char>>>;

/// `shell_words::split`. The contract claims that the answer depends on
/// `line` alone, and names it.
#[verifier::external_body]
pub(crate) fn split_shell_words(line: &str) -> (r: Option<Vec<String>>)
    ensures
        match r {
            Some(words) => shell_words(line@) == Some(texts(words@)),
            None => shell_words(line@) is None,
        },
{
    shell_words::split(line).ok()
}

/// `s` without `prefix` at its start, as often as it stands there.
pub open spec fn without_leading(s: Seq<char>, prefix: Seq<char>) -> Seq<char>
    decreases s.len(),
{
    if prefix.len() > 0 && prefix.is_prefix_of(s) {
        without_leading(s.skip(prefix.len() as int), prefix)
    } else {
        s
    }
}

/// The end of the line that begins at `from`: the position of the next
/// line feed, or the end of `s`.
pub open spec fn line_end(s: Seq<char>, from: int) -> int
    decreases s.len() - from,
{
    if from < 0 || from >= s.len() || s[from] == '\n' {
        from
    } else {
        line_end(s, from + 1)
    }
}

/// The line of `s[from..to]` without the carriage return that may stand
/// before its line feed.
pub open spec fn line_between(s: Seq<char>, from: int, to: int) -> Seq<char> {
    if to < s.len() && from < to && s[to - 1] == '\r' {
        s.subrange(from, to - 1)
    } else {
        s.subrange(from, to)
    }
}

/// The command line in the lines of `s` at and after position `from`: what
/// follows `CommandLine=` in the first line that begins so, split into
/// words, and no word where it cannot be split.
pub open spec fn wmic_command_line_from(s: Seq<char>, from: int) -> Option<Seq<Seq<char>>>
    decreases s.len() - from,
{
    if from < 0 || from >= s.len() {
        None
    } else {
        let to = line_end(s, from);
        let line = line_between(s, from, to);
        if "CommandLine="@.is_prefix_of(line) {
            match shell_words(without_leading(line, "CommandLine="@)) {
                Some(words) => Some(words),
                None => Some(Seq::empty()),
            }
        } else if from <= to < s.len() {
            wmic_command_line_from(s, to + 1)
        } else {
            None
        }
    }
}

/// The end of the line that begins at `from`.
pub fn end_of_line(s: &Vec<char>, from: usize) -> (r: usize)
    requires
        from <= s.len(),
    ensures
        r == line_end(s@, from as int),
        from <= r <= s.len(),
{
    let mut i: usize = from;
    while i < s.len() && s[i] != '\n'
        invariant
            from <= i <= s.len(),
            line_end(s@, from as int) == line_end(s@, i as int),
        decreases s.len() - i,
    {
        i += 1;
    }
    i
}

/// `s` without `prefix` at its start, as often as it stands there.
pub fn strip_leading(s: &Vec<char>, prefix: &Vec<char>) -> (r: Vec<char>)
    ensures
        r@ == without_leading(s@, prefix@),
{
    let mut start: usize = 0;
    assert(s@.skip(0) == s@);
    if prefix.len() > 0 {
        while prefix.len() <= s.len() - start && crate::text::matches_at(s, prefix, start)
            invariant
                start <= s.len(),
                prefix.len() > 0,
                without_leading(s@, prefix@) == without_leading(s@.skip(start as int), prefix@),
            decreases s.len() - start,
        {
            assert(s@.skip(start as int).subrange(0, prefix.len() as int) == s@.subrange(
                start as int,
                start + prefix.len(),
            ));
            assert(s@.skip(start as int).skip(prefix.len() as int) == s@.skip(
                start + prefix.len(),
            ));
            start += prefix.len();
        }
        assert(!prefix@.is_prefix_of(s@.skip(start as int))) by {
            if start + prefix.len() <= s.len() {
                assert(s@.skip(start as int).subrange(0, prefix.len() as int) == s@.subrange(
                    start as int,
                    start + prefix.len(),
                ));
            }
        }
    }
    assert(s@.skip(start as int) == s@.subrange(start as int, s.len() as int));
    subrange(s, start, s.len())
}

/// The arguments in the command line of a process as the management tool
/// of Windows prints it: what follows `CommandLine=` in the first line that
/// begins so, split into words. `None` where no line begins so.
pub fn command_line_of_wmic(output: &str) -> (r: Option<Vec<String>>)
    ensures
        match r {
            Some(words) => wmic_command_line_from(output@, 0) == Some(texts(words@)),
            None => wmic_command_line_from(output@, 0) is None,
        },
{
    let chars = to_chars(output);
    let prefix = to_chars("CommandLine=");
    let mut from: usize = 0;
    while from < chars.len()
        invariant
            from <= chars.len(),
            chars@ == output@,
            prefix@ == "CommandLine="@,
            wmic_command_line_from(output@, 0) == wmic_command_line_from(output@, from as int),
        decreases chars.len() - from,
    {
        let to = end_of_line(&chars, from);
        let line = if to < chars.len() && from < to && chars[to - 1] == '\r' {
            subrange(&chars, from, to - 1)
        } else {
            subrange(&chars, from, to)
        };
        if starts_with(&line, &prefix) {
            let rest = from_chars(&strip_leading(&line, &prefix));
            return match split_shell_words(rest.as_str()) {
                Some(words) => Some(words),
                None => {
                    let words: Vec<String> = Vec::new();
                    assert(texts(words@) == Seq::<Seq<char>>::empty());
                    Some(words)
                },
            };
        }
        if to >= chars.len() {
            return None;
        }
        from = to + 1;
    }
    None
}

} // verus!
