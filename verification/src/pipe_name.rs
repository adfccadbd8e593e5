//! How a pipe is named.
//!
//! Pipes are found where Windows runs, so a path that names one is taken apart as
//! Windows does it, wherever this is built: it may begin with a drive or a share, and
//! slashes as well as backslashes set its components apart.

use crate::error::IoError;
use crate::wide::{law_utf16_comes_back, lemma_utf16_concat, push_wide, utf16};
use vstd::prelude::*;

verus! {

/// Whether `c` sets components apart. In a verbatim path only backslashes do.
pub open spec fn is_separator(c: char, verbatim: bool) -> bool {
    c == '\\' || (c == '/' && !verbatim)
}

/// Whether a drive stands in `path` at `at`: a letter and a colon.
pub open spec fn has_drive(path: Seq<char>, at: int) -> bool {
    &&& at + 1 < path.len()
    &&& ('a' <= path[at] && path[at] <= 'z') || ('A' <= path[at] && path[at] <= 'Z')
    &&& path[at + 1] == ':'
}

/// Whether `path` begins with two separators: what follows is a share or a device.
pub open spec fn is_remote(path: Seq<char>) -> bool {
    path.len() >= 2 && is_separator(path[0], false) && is_separator(path[1], false)
}

/// Whether `path` is to be taken literally: it begins with `\\?\`.
pub open spec fn is_verbatim(path: Seq<char>) -> bool {
    path.len() >= 4 && path[0] == '\\' && path[1] == '\\' && path[2] == '?' && path[3] == '\\'
}

/// Whether `path` names a share, and is to be taken literally: it begins with
/// `\\?\UNC\`.
pub open spec fn is_verbatim_share(path: Seq<char>) -> bool {
    is_verbatim(path) && path.len() >= 8 && path[4] == 'U' && path[5] == 'N' && path[6] == 'C'
        && is_separator(path[7], false)
}

/// Whether `path` begins with a device: `\\.\`, with any separators.
pub open spec fn is_device(path: Seq<char>) -> bool {
    is_remote(path) && path.len() >= 4 && path[2] == '.' && is_separator(path[3], false)
}

/// Where the component that starts at `from` ends.
pub open spec fn component_end(path: Seq<char>, from: int, verbatim: bool) -> int
    decreases path.len() - from,
{
    if from < 0 || from >= path.len() || is_separator(path[from], verbatim) {
        from
    } else {
        component_end(path, from + 1, verbatim)
    }
}

/// Where a server and its share end that start at `from`; at the end of the server if
/// there is no share.
pub open spec fn share_end(path: Seq<char>, from: int, verbatim: bool) -> int {
    let server = component_end(path, from, verbatim);
    let share = component_end(path, server + 1, verbatim);
    if share > server + 1 {
        share
    } else {
        server
    }
}

/// How long the part of `path` is that says on which drive, share or device the rest
/// is found.
pub open spec fn prefix_len(path: Seq<char>) -> int {
    if is_verbatim_share(path) {
        share_end(path, 8, true)
    } else if is_verbatim(path) {
        if has_drive(path, 4) && (path.len() == 6 || is_separator(path[6], false)) {
            6
        } else {
            component_end(path, 4, true)
        }
    } else if is_device(path) {
        component_end(path, 4, false)
    } else if is_remote(path) {
        let server = component_end(path, 2, false);
        if server > 2 && share_end(path, 2, false) > server {
            share_end(path, 2, false)
        } else {
            0
        }
    } else if has_drive(path, 0) {
        2
    } else {
        0
    }
}

/// Where the names in `path` start: behind the prefix, and behind the root directory.
pub open spec fn body_start(path: Seq<char>) -> int {
    let prefix = prefix_len(path);
    if prefix < path.len() && is_separator(path[prefix], false) {
        prefix + 1
    } else {
        prefix
    }
}

/// Where the component that ends at `end` starts, at `start` at the earliest.
pub open spec fn component_start(path: Seq<char>, start: int, end: int, verbatim: bool) -> int
    decreases end - start,
{
    if end <= start || is_separator(path[end - 1], verbatim) {
        end
    } else {
        component_start(path, start, end - 1, verbatim)
    }
}

/// The last name in `path` from `start` to `end`. Separators at the end count for
/// nothing, nor does a `.` there, unless it is to be taken literally. There is no name
/// where the last component is `..`.
pub open spec fn last_name(path: Seq<char>, start: int, end: int, verbatim: bool) -> Option<
    Seq<char>,
>
    decreases end - start,
{
    proof {
        lemma_component_start(path, start, end, verbatim);
    }
    let from = component_start(path, start, end, verbatim);
    let name = path.subrange(from, end);
    if end <= start {
        None
    } else if is_separator(path[end - 1], verbatim) {
        last_name(path, start, end - 1, verbatim)
    } else if name == seq!['.'] {
        if verbatim {
            None
        } else {
            last_name(path, start, from, verbatim)
        }
    } else if name == seq!['.', '.'] {
        None
    } else {
        Some(name)
    }
}

/// The final component of `path`, if it ends in the name of a file or a directory.
pub open spec fn final_component(path: Seq<char>) -> Option<Seq<char>> {
    last_name(path, body_start(path), path.len() as int, is_verbatim(path))
}

/// A component starts within what is looked at.
pub proof fn lemma_component_start(path: Seq<char>, start: int, end: int, verbatim: bool)
    ensures
        start <= end ==> start <= component_start(path, start, end, verbatim) <= end,
        start < end && !is_separator(path[end - 1], verbatim) ==> component_start(
            path,
            start,
            end,
            verbatim,
        ) < end,
    decreases end - start,
{
    if end > start && !is_separator(path[end - 1], verbatim) {
        lemma_component_start(path, start, end - 1, verbatim);
    }
}

/// A component ends behind its start, and within the path.
proof fn lemma_component_end(path: Seq<char>, from: int, verbatim: bool)
    requires
        0 <= from,
    ensures
        from <= component_end(path, from, verbatim),
        from <= path.len() ==> component_end(path, from, verbatim) <= path.len(),
        from > path.len() ==> component_end(path, from, verbatim) == from,
    decreases path.len() - from,
{
    if from < path.len() && !is_separator(path[from], verbatim) {
        lemma_component_end(path, from + 1, verbatim);
    }
}

/// The names start within the path.
proof fn lemma_body_start(path: Seq<char>)
    ensures
        0 <= prefix_len(path) <= path.len(),
        prefix_len(path) <= body_start(path) <= path.len(),
{
    if is_verbatim_share(path) {
        lemma_component_end(path, 8, true);
        lemma_component_end(path, component_end(path, 8, true) + 1, true);
    } else if is_verbatim(path) {
        lemma_component_end(path, 4, true);
    } else if is_device(path) {
        lemma_component_end(path, 4, false);
    } else if is_remote(path) {
        lemma_component_end(path, 2, false);
        lemma_component_end(path, component_end(path, 2, false) + 1, false);
    }
}

/// Whether `c` sets components apart.
fn separates(c: char, verbatim: bool) -> (yes: bool)
    ensures
        yes == is_separator(c, verbatim),
{
    c == '\\' || (c == '/' && !verbatim)
}

/// Whether a drive stands in `path` at `at`.
fn drive_at(path: &Vec<char>, at: usize) -> (yes: bool)
    requires
        at <= 4,
    ensures
        yes == has_drive(path@, at as int),
{
    if at + 1 >= path.len() {
        return false;
    }
    let c = path[at];
    (('a' <= c && c <= 'z') || ('A' <= c && c <= 'Z')) && path[at + 1] == ':'
}

/// Where the component that starts at `from` ends.
fn find_component_end(path: &Vec<char>, from: usize, verbatim: bool) -> (end: usize)
    requires
        from <= path@.len(),
    ensures
        end == component_end(path@, from as int, verbatim),
        from <= end <= path@.len(),
{
    let mut end: usize = from;
    while end < path.len() && !separates(path[end], verbatim)
        invariant
            from <= end <= path@.len(),
            component_end(path@, end as int, verbatim) == component_end(
                path@,
                from as int,
                verbatim,
            ),
        decreases path@.len() - end,
    {
        end += 1;
    }
    end
}

/// Where a server and its share end that start at `from`.
fn find_share_end(path: &Vec<char>, from: usize, verbatim: bool) -> (end: usize)
    requires
        from <= path@.len(),
    ensures
        end == share_end(path@, from as int, verbatim),
        from <= end <= path@.len(),
{
    let server: usize = find_component_end(path, from, verbatim);
    proof {
        lemma_component_end(path@, server + 1, verbatim);
    }
    if server == path.len() {
        return server;
    }
    let share: usize = find_component_end(path, server + 1, verbatim);
    if share > server + 1 {
        share
    } else {
        server
    }
}

/// How long the prefix of `path` is.
fn find_prefix_len(path: &Vec<char>) -> (len: usize)
    ensures
        len == prefix_len(path@),
        len <= path@.len(),
{
    let count: usize = path.len();
    if count < 2 || !separates(path[0], false) || !separates(path[1], false) {
        return if drive_at(path, 0) {
            2
        } else {
            0
        };
    }
    let verbatim = count >= 4 && path[0] == '\\' && path[1] == '\\' && path[2] == '?' && path[3]
        == '\\';
    if verbatim {
        if count >= 8 && path[4] == 'U' && path[5] == 'N' && path[6] == 'C' && separates(
            path[7],
            false,
        ) {
            return find_share_end(path, 8, true);
        }
        if drive_at(path, 4) && (count == 6 || separates(path[6], false)) {
            return 6;
        }
        return find_component_end(path, 4, true);
    }
    if count >= 4 && path[2] == '.' && separates(path[3], false) {
        return find_component_end(path, 4, false);
    }
    let server: usize = find_component_end(path, 2, false);
    let share: usize = find_share_end(path, 2, false);
    if server > 2 && share > server {
        share
    } else {
        0
    }
}

/// Where the component that ends at `end` starts.
fn find_component_start(path: &Vec<char>, start: usize, end: usize, verbatim: bool) -> (from: usize)
    requires
        start <= end <= path@.len(),
    ensures
        from == component_start(path@, start as int, end as int, verbatim),
        start <= from <= end,
{
    let mut from: usize = end;
    while from > start && !separates(path[from - 1], verbatim)
        invariant
            start <= from <= end <= path@.len(),
            component_start(path@, start as int, from as int, verbatim) == component_start(
                path@,
                start as int,
                end as int,
                verbatim,
            ),
        decreases from,
    {
        from -= 1;
    }
    from
}

/// Where the final component of `path` starts and ends.
fn find_final_component(path: &Vec<char>) -> (found: Option<(usize, usize)>)
    ensures
        match found {
            Some((from, end)) => from <= end <= path@.len() && final_component(path@) == Some(
                path@.subrange(from as int, end as int),
            ),
            None => final_component(path@) is None,
        },
{
    let verbatim = path.len() >= 4 && path[0] == '\\' && path[1] == '\\' && path[2] == '?'
        && path[3] == '\\';
    let prefix: usize = find_prefix_len(path);
    let start: usize = if prefix < path.len() && separates(path[prefix], false) {
        prefix + 1
    } else {
        prefix
    };
    let mut end: usize = path.len();
    while end > start
        invariant
            start <= end <= path@.len(),
            start == body_start(path@),
            verbatim == is_verbatim(path@),
            last_name(path@, start as int, end as int, verbatim) == final_component(path@),
        decreases end,
    {
        if separates(path[end - 1], verbatim) {
            end -= 1;
        } else {
            let from: usize = find_component_start(path, start, end, verbatim);
            let ghost name = path@.subrange(from as int, end as int);
            proof {
                lemma_component_start(path@, start as int, end as int, verbatim);
            }
            if end - from == 1 && path[from] == '.' {
                assert(name =~= seq!['.']);
                if verbatim {
                    return None;
                }
                end = from;
            } else if end - from == 2 && path[from] == '.' && path[from + 1] == '.' {
                assert(name =~= seq!['.', '.']);
                return None;
            } else {
                proof {
                    if name == seq!['.'] {
                        assert(name.len() == 1 && name[0] == path@[from as int]);
                    }
                    if name == seq!['.', '.'] {
                        assert(name.len() == 2 && name[0] == path@[from as int] && name[1]
                            == path@[from + 1]);
                    }
                }
                return Some((from, end));
            }
        }
    }
    None
}

/// The path of the pipe that is called `stem`, in UTF-16 with a zero at its end.
pub open spec fn pipe_path_of(stem: Seq<char>) -> Seq<u16> {
    utf16("\\\\.\\pipe\\"@ + stem).push(0)
}

/// The path of the pipe that is called `stem`; there is none without a name.
pub fn pipe_path(stem: Option<&str>) -> (path: Result<Vec<u16>, IoError>)
    ensures
        match stem {
            Some(s) => path matches Ok(p) && p@ == pipe_path_of(s@),
            None => path == Err::<Vec<u16>, IoError>(IoError::InvalidPipeName),
        },
{
    match stem {
        Some(s) => {
            let prefix = "\\\\.\\pipe\\";
            let mut path: Vec<u16> = Vec::new();
            push_wide(&mut path, prefix);
            push_wide(&mut path, s);
            path.push(0);
            proof {
                lemma_utf16_concat(prefix@, s@);
                assert(path@ =~= pipe_path_of(s@));
            }
            Ok(path)
        },
        None => Err(IoError::InvalidPipeName),
    }
}

/// The path of the pipe that `path` names: only the final component of `path`
/// counts, so that it can be a file path as well as a bare name.
pub fn pipe_path_from(path: &str) -> (pipe: Result<Vec<u16>, IoError>)
    ensures
        match final_component(path@) {
            Some(stem) => pipe matches Ok(p) && p@ == pipe_path_of(stem),
            None => pipe == Err::<Vec<u16>, IoError>(IoError::InvalidPipeName),
        },
{
    let mut chars: Vec<char> = Vec::new();
    for c in it: path.chars()
        invariant
            it.seq() == path@,
            chars@ == path@.take(it.index()),
    {
        chars.push(c);
        proof {
            assert(path@.take(it.index() + 1) =~= path@.take(it.index()).push(c));
        }
    }
    assert(chars@ =~= path@);
    match find_final_component(&chars) {
        Some((from, end)) => pipe_path(Some(path.substring_char(from, end))),
        None => pipe_path(None),
    }
}

/// Whether `name` is one component: it has no separators in it, and is neither empty
/// nor `.` nor `..`.
pub open spec fn is_component(name: Seq<char>) -> bool {
    name.len() > 0 && !name.contains('/') && !name.contains('\\') && name != seq!['.'] && name
        != seq!['.', '.']
}

/// In a path that ends in one component, behind `start`, that is the last name.
proof fn lemma_last_name(path: Seq<char>, start: int, name: Seq<char>, verbatim: bool)
    requires
        is_component(name),
        0 <= start <= path.len() - name.len(),
        path.skip(path.len() - name.len()) == name,
        start == path.len() - name.len() || is_separator(
            path[path.len() - name.len() - 1],
            verbatim,
        ),
    ensures
        last_name(path, start, path.len() as int, verbatim) == Some(name),
{
    let before = path.len() - name.len();
    assert forall|i: int| before <= i < path.len() implies !is_separator(
        #[trigger] path[i],
        verbatim,
    ) by {
        assert(name[i - before] == path[i]);
        assert(name.contains(path[i]));
    }
    lemma_component_start_at(path, start, path.len() as int, before, verbatim);
    assert(path.subrange(before, path.len() as int) =~= name);
}

/// Where a component starts, if nothing in it is a separator.
proof fn lemma_component_start_at(
    path: Seq<char>,
    start: int,
    end: int,
    before: int,
    verbatim: bool,
)
    requires
        0 <= start <= before <= end <= path.len(),
        forall|i: int| before <= i < end ==> !is_separator(#[trigger] path[i], verbatim),
        before == start || is_separator(path[before - 1], verbatim),
    ensures
        component_start(path, start, end, verbatim) == before,
    decreases end,
{
    if end > before {
        assert(!is_separator(path[end - 1], verbatim));
        lemma_component_start_at(path, start, end - 1, before, verbatim);
    }
}

/// A pipe can be named by a file path or by a bare name: the directory in front of the
/// name makes no difference, whichever separator stands between them, nor does a drive.
/// A directory on a share or a device holds the whole name of that, and where paths are
/// taken literally the separator is a backslash. A bare name that begins with a letter
/// and a colon is one on a drive.
pub proof fn law_only_the_final_component_counts(dir: Seq<char>, separator: char, name: Seq<char>)
    requires
        is_component(name),
        is_separator(separator, is_verbatim(dir.push(separator) + name)),
        is_remote(dir.push(separator) + name) ==> body_start(dir.push(separator) + name)
            <= dir.len() + 1,
    ensures
        final_component(dir.push(separator) + name) == Some(name),
        !has_drive(name, 0) ==> final_component(name) == Some(name),
        forall|letter: char|
            has_drive(#[trigger] seq![letter, ':'], 0) ==> final_component(
                seq![letter, ':'] + name,
            ) == Some(name),
{
    let path = dir.push(separator) + name;
    lemma_body_start(path);
    assert(path.skip(dir.len() as int + 1) =~= name);
    assert(path[dir.len() as int] == separator);
    lemma_last_name(path, body_start(path), name, is_verbatim(path));
    lemma_not_remote(name);
    if !has_drive(name, 0) {
        assert(name.skip(0) =~= name);
        lemma_last_name(name, 0, name, false);
    }
    assert forall|letter: char| has_drive(#[trigger] seq![letter, ':'], 0) implies final_component(
        seq![letter, ':'] + name,
    ) == Some(name) by {
        let drive = seq![letter, ':'];
        let full = drive + name;
        assert(full[0] == drive[0] && full[1] == drive[1]);
        assert(full[2] == name[0]);
        assert(name.contains(name[0]));
        assert(full.skip(2) =~= name);
        lemma_last_name(full, 2, name, false);
    }
}

/// A component does not begin as a share or a device does, nor with the root.
proof fn lemma_not_remote(name: Seq<char>)
    requires
        is_component(name),
    ensures
        !is_remote(name),
        !is_separator(name[0], false),
{
    assert(name.contains(name[0]));
}

/// Pipes with different names have different paths.
pub proof fn law_names_have_pipes_of_their_own(one: Seq<char>, other: Seq<char>)
    requires
        pipe_path_of(one) == pipe_path_of(other),
    ensures
        one == other,
{
    let prefix = "\\\\.\\pipe\\"@;
    assert(pipe_path_of(one).drop_last() =~= utf16(prefix + one));
    assert(pipe_path_of(other).drop_last() =~= utf16(prefix + other));
    law_utf16_comes_back(prefix + one);
    law_utf16_comes_back(prefix + other);
    assert((prefix + one).skip(prefix.len() as int) =~= one);
    assert((prefix + other).skip(prefix.len() as int) =~= other);
}

/// The path of a pipe is the place where pipes are found, and behind that its name, in
/// UTF-16 and with a zero at the end.
pub proof fn law_pipe_path_in_full(stem: Seq<char>)
    ensures
        pipe_path_of(stem) == utf16(
            seq!['\\', '\\', '.', '\\', 'p', 'i', 'p', 'e', '\\'] + stem,
        ).push(0),
{
    reveal_strlit("\\\\.\\pipe\\");
    assert("\\\\.\\pipe\\"@ =~= seq!['\\', '\\', '.', '\\', 'p', 'i', 'p', 'e', '\\']);
}

/// Whether neither a slash nor a backslash is in `name`.
pub open spec fn is_whole(name: Seq<char>) -> bool {
    forall|i: int| 0 <= i < name.len() ==> #[trigger] name[i] != '/' && name[i] != '\\'
}

/// Whether `name` can be a name: it is whole, and neither empty nor `.` nor `..`.
pub open spec fn is_name(name: Seq<char>) -> bool {
    name.len() > 0 && is_whole(name) && name != seq!['.'] && name != seq!['.', '.']
}

/// Whether `c` is a slash or a backslash.
pub open spec fn is_slash(c: char) -> bool {
    c == '/' || c == '\\'
}

/// Whether `path` is neither on a share nor on a device: it does not begin with two slashes
/// or backslashes.
pub open spec fn is_local(path: Seq<char>) -> bool {
    path.len() < 2 || !is_slash(path[0]) || !is_slash(path[1])
}

/// A name is a component.
proof fn lemma_name_is_component(name: Seq<char>)
    requires
        is_name(name),
    ensures
        is_component(name),
{
    if name.contains('/') {
        let i = choose|i: int| 0 <= i < name.len() && name[i] == '/';
        assert(name[i] != '/');
    }
    if name.contains('\\') {
        let i = choose|i: int| 0 <= i < name.len() && name[i] == '\\';
        assert(name[i] != '\\');
    }
}

/// What is looked at of a path, when a name is looked for from its end, is what is in front
/// of that end.
proof fn lemma_last_name_looks_back(
    path: Seq<char>,
    other: Seq<char>,
    start: int,
    end: int,
    verbatim: bool,
)
    requires
        0 <= start,
        end <= path.len(),
        end <= other.len(),
        forall|i: int| 0 <= i < end ==> path[i] == other[i],
    ensures
        component_start(path, start, end, verbatim) == component_start(
            other,
            start,
            end,
            verbatim,
        ),
        last_name(path, start, end, verbatim) == last_name(other, start, end, verbatim),
    decreases end - start,
{
    if end > start {
        lemma_component_start(path, start, end, verbatim);
        lemma_last_name_looks_back(path, other, start, end - 1, verbatim);
        if !is_separator(path[end - 1], verbatim) {
            let from = component_start(path, start, end, verbatim);
            assert(path.subrange(from, end) =~= other.subrange(from, end));
            lemma_last_name_looks_back(path, other, start, from, verbatim);
        }
    }
}

/// On this machine a path names what stands behind its last slash or backslash, whatever
/// stands in front of that. A bare name names itself, unless it begins with a drive: a letter
/// from A to Z, in either case, and a colon. What names itself on a drive is what stands
/// behind that, and a bare drive names nothing.
pub proof fn law_local_paths(dir: Seq<char>, slash: char, name: Seq<char>, letter: char)
    requires
        is_name(name),
        is_slash(slash),
        is_local(dir.push(slash) + name),
    ensures
        final_component(dir.push(slash) + name) == Some(name),
        name.len() < 2 || name[1] != ':' || !('a' <= name[0] <= 'z' || 'A' <= name[0] <= 'Z')
            ==> final_component(name) == Some(name),
        'a' <= letter <= 'z' || 'A' <= letter <= 'Z' ==> {
            &&& final_component(seq![letter, ':'] + name) == Some(name)
            &&& final_component(seq![letter, ':']) is None
        },
{
    lemma_name_is_component(name);
    law_only_the_final_component_counts(dir, slash, name);
    let drive = seq![letter, ':'];
    if 'a' <= letter <= 'z' || 'A' <= letter <= 'Z' {
        assert(has_drive(drive, 0));
        assert(final_component(drive + name) == Some(name));
    }
}

/// On this machine a slash or a backslash at the end of a path makes no difference, nor does
/// a component `.` there. A path that ends in `..` names nothing, and so do the empty path
/// and the root.
pub proof fn law_ends_of_local_paths(path: Seq<char>, slash: char)
    requires
        is_slash(slash),
        is_local(path.push(slash)),
    ensures
        final_component(path.push(slash)) == final_component(path),
        final_component(path.push(slash).push('.')) == final_component(path),
        final_component(path.push(slash).push('.').push('.')) is None,
        final_component(Seq::empty()) is None,
        final_component(seq![slash]) is None,
        final_component(seq!['.', '.']) is None,
{
    let with_slash = path.push(slash);
    let with_dot = with_slash.push('.');
    let with_dots = with_dot.push('.');
    let len = path.len() as int;
    assert(!is_remote(path) && !is_remote(with_slash) && !is_remote(with_dot) && !is_remote(
        with_dots,
    )) by {
        assert(len >= 1 ==> with_slash[0] == path[0] && with_dot[0] == path[0] && with_dots[0]
            == path[0]);
        assert(len >= 2 ==> with_slash[1] == path[1] && with_dot[1] == path[1] && with_dots[1]
            == path[1]);
        if len == 0 {
            assert(with_dot[1] == '.' && with_dots[1] == '.');
        }
        if len == 1 {
            assert(with_slash[1] == slash && with_dot[1] == slash && with_dots[1] == slash);
        }
    }
    assert(has_drive(path, 0) == has_drive(with_slash, 0));
    assert(has_drive(path, 0) == has_drive(with_dot, 0));
    assert(has_drive(path, 0) == has_drive(with_dots, 0));
    let start = body_start(with_slash);
    assert(with_slash[len] == slash);
    assert(body_start(with_dot) == start && body_start(with_dots) == start);
    // Behind the directory there is one separator more.
    if start <= len {
        assert(start == body_start(path));
        lemma_last_name_looks_back(with_slash, path, start, len, false);
        assert(last_name(with_slash, start, len + 1, false) == last_name(
            with_slash,
            start,
            len,
            false,
        ));
    } else {
        assert(start == len + 1);
        assert(last_name(with_slash, start, len + 1, false) is None);
        assert(final_component(path) is None);
    }
    // A dot behind it counts for nothing.
    lemma_component_start_at(with_dot, start, len + 2, len + 1, false);
    assert(with_dot.subrange(len + 1, len + 2) =~= seq!['.']);
    lemma_last_name_looks_back(with_dot, with_slash, start, len + 1, false);
    // Two dots are no name.
    lemma_component_start_at(with_dots, start, len + 3, len + 1, false);
    assert(with_dots.subrange(len + 1, len + 3) =~= seq!['.', '.']);
    let up = seq!['.', '.'];
    lemma_component_start_at(up, 0, 2, 0, false);
    assert(up.subrange(0, 2) =~= up);
    assert(seq!['.', '.'] != seq!['.']) by {
        assert(up.len() == 2);
    }
    assert(with_dots.subrange(len + 1, len + 3).len() == 2);
}

/// Where a component ends, if nothing in it is a separator.
proof fn lemma_component_end_at(path: Seq<char>, from: int, end: int, verbatim: bool)
    requires
        0 <= from <= end <= path.len(),
        forall|i: int| from <= i < end ==> !is_separator(#[trigger] path[i], verbatim),
        end == path.len() || is_separator(path[end], verbatim),
    ensures
        component_end(path, from, verbatim) == end,
    decreases end - from,
{
    if from < end {
        assert(!is_separator(path[from], verbatim));
        lemma_component_end_at(path, from + 1, end, verbatim);
    }
}

/// What stands at the beginning of a longer path.
proof fn lemma_front(root: Seq<char>, slash: char, name: Seq<char>)
    ensures
        root.take(root.len() as int) == root,
        root.push(slash).take(root.len() as int) == root,
        (root.push(slash) + name).take(root.len() as int) == root,
        root.push(slash)[root.len() as int] == slash,
        (root.push(slash) + name)[root.len() as int] == slash,
{
    assert(root.take(root.len() as int) =~= root);
    assert(root.push(slash).take(root.len() as int) =~= root);
    assert((root.push(slash) + name).take(root.len() as int) =~= root);
}

/// A path on a share, which is two slashes or backslashes, a server, one more and the share,
/// names nothing but what stands behind its last slash or backslash, behind that.
pub proof fn law_paths_on_a_share(
    server: Seq<char>,
    share: Seq<char>,
    slash: char,
    name: Seq<char>,
)
    requires
        is_slash(slash),
        is_name(server),
        server != seq!['?'],
        is_whole(share),
        share.len() > 0,
        is_name(name),
    ensures
        ({
            let root = seq![slash, slash] + server + seq![slash] + share;
            &&& final_component(root) is None
            &&& final_component(root.push(slash)) is None
            &&& final_component(root.push(slash) + name) == Some(name)
        }),
{
    let root = seq![slash, slash] + server + seq![slash] + share;
    lemma_front(root, slash, name);
    lemma_share(root, server, share, slash);
    lemma_share(root.push(slash), server, share, slash);
    lemma_share(root.push(slash) + name, server, share, slash);
    lemma_name_is_component(name);
    law_only_the_final_component_counts(root, slash, name);
}

/// How long the prefix of a path on a share is.
proof fn lemma_share(path: Seq<char>, server: Seq<char>, share: Seq<char>, slash: char)
    requires
        is_slash(slash),
        is_name(server),
        server != seq!['?'],
        is_whole(share),
        share.len() > 0,
        ({
            let root = seq![slash, slash] + server + seq![slash] + share;
            &&& root.len() <= path.len()
            &&& path.take(root.len() as int) == root
            &&& path.len() > root.len() ==> path[root.len() as int] == slash
        }),
    ensures
        prefix_len(path) == server.len() + share.len() + 3,
        is_remote(path),
        !is_verbatim(path),
{
    let root = seq![slash, slash] + server + seq![slash] + share;
    let n = 2 + server.len() as int;
    assert forall|i: int| 0 <= i < root.len() implies path[i] == root[i] by {
        assert(path.take(root.len() as int)[i] == path[i]);
    }
    assert(path[0] == slash && path[1] == slash);
    assert forall|i: int| 2 <= i < n implies #[trigger] path[i] == server[i - 2] by {
        assert(root[i] == server[i - 2]);
    }
    assert(root[n] == slash);
    assert(path[n] == slash);
    assert forall|i: int| n < i < root.len() implies #[trigger] path[i] == share[i - n - 1] by {
        assert(root[i] == share[i - n - 1]);
    }
    assert(path[2] == server[0]);
    if server.len() == 1 {
        assert(server != seq!['.'] && server != seq!['?']);
        assert(server[0] != '.') by {
            if server[0] == '.' {
                assert(server =~= seq!['.']);
            }
        }
        assert(server[0] != '?') by {
            if server[0] == '?' {
                assert(server =~= seq!['?']);
            }
        }
    } else {
        assert(path[3] == server[1]);
        assert(server[1] != '/' && server[1] != '\\');
    }
    assert(!is_device(path) && !is_verbatim(path));
    assert forall|i: int| 2 <= i < n implies !is_separator(#[trigger] path[i], false) by {
        assert(server[i - 2] != '/' && server[i - 2] != '\\');
    }
    lemma_component_end_at(path, 2, n, false);
    assert forall|i: int| n + 1 <= i < root.len() implies !is_separator(
        #[trigger] path[i],
        false,
    ) by {
        assert(share[i - n - 1] != '/' && share[i - n - 1] != '\\');
    }
    lemma_component_end_at(path, n + 1, root.len() as int, false);
}

/// A path on a device, which is two slashes or backslashes, a dot, one more and the device,
/// names nothing but what stands behind its last slash or backslash, behind that. So it is
/// with a path that is taken literally, which has a question mark for the dot, and only
/// backslashes.
pub proof fn law_paths_on_a_device(device: Seq<char>, slash: char, mark: char, name: Seq<char>)
    requires
        mark == '.' || mark == '?',
        is_slash(slash),
        mark == '?' ==> slash == '\\',
        is_whole(device),
        is_name(name),
        mark == '?' ==> device != seq!['U', 'N', 'C'],
    ensures
        ({
            let root = seq![slash, slash, mark, slash] + device;
            &&& final_component(root) is None
            &&& final_component(root.push(slash)) is None
            &&& final_component(root.push(slash) + name) == Some(name)
        }),
{
    let root = seq![slash, slash, mark, slash] + device;
    lemma_front(root, slash, name);
    lemma_device(root, device, slash, mark);
    lemma_device(root.push(slash), device, slash, mark);
    lemma_device(root.push(slash) + name, device, slash, mark);
    lemma_name_is_component(name);
    law_only_the_final_component_counts(root, slash, name);
}

/// How long the prefix of a path on a device is.
proof fn lemma_device(path: Seq<char>, device: Seq<char>, slash: char, mark: char)
    requires
        mark == '.' || mark == '?',
        is_slash(slash),
        mark == '?' ==> slash == '\\',
        is_whole(device),
        mark == '?' ==> device != seq!['U', 'N', 'C'],
        ({
            let root = seq![slash, slash, mark, slash] + device;
            &&& root.len() <= path.len()
            &&& path.take(root.len() as int) == root
            &&& path.len() > root.len() ==> path[root.len() as int] == slash
        }),
    ensures
        prefix_len(path) == device.len() + 4,
        is_remote(path),
        is_verbatim(path) <==> mark == '?',
{
    let root = seq![slash, slash, mark, slash] + device;
    assert forall|i: int| 0 <= i < root.len() implies path[i] == root[i] by {
        assert(path.take(root.len() as int)[i] == path[i]);
    }
    assert(path[0] == slash && path[1] == slash && path[2] == mark && path[3] == slash);
    assert forall|i: int| 4 <= i < root.len() implies #[trigger] path[i] == device[i - 4]
        && !is_separator(path[i], false) by {
        assert(root[i] == device[i - 4]);
        assert(device[i - 4] != '/' && device[i - 4] != '\\');
    }
    lemma_component_end_at(path, 4, root.len() as int, mark == '?');
    if mark == '?' {
        if is_verbatim_share(path) {
            if device.len() >= 4 {
                assert(path[7] == device[3]);
            } else if device.len() == 3 {
                assert(path[4] == device[0] && path[5] == device[1] && path[6] == device[2]);
                assert(device =~= seq!['U', 'N', 'C']);
            } else if device.len() == 2 {
                assert(path[6] == slash);
            } else if device.len() == 1 {
                assert(path[5] == slash);
            } else {
                assert(path[4] == slash);
            }
        }
        if has_drive(path, 4) && (path.len() == 6 || is_separator(path[6], false)) {
            if device.len() > 2 {
                assert(path[6] == device[2]);
            } else if device.len() == 1 {
                assert(path[5] == slash);
            } else if device.len() == 0 {
                assert(path[4] == slash);
            }
        }
    }
}

/// A path on a share that is taken literally names nothing but what stands behind its last
/// backslash, behind the server and the share.
pub proof fn law_literal_paths_on_a_share(server: Seq<char>, share: Seq<char>, name: Seq<char>)
    requires
        is_whole(server),
        is_whole(share),
        share.len() > 0,
        is_name(name),
    ensures
        ({
            let root = seq!['\\', '\\', '?', '\\', 'U', 'N', 'C', '\\'] + server + seq!['\\']
                + share;
            &&& final_component(root) is None
            &&& final_component(root.push('\\')) is None
            &&& final_component(root.push('\\') + name) == Some(name)
        }),
{
    let root = seq!['\\', '\\', '?', '\\', 'U', 'N', 'C', '\\'] + server + seq!['\\'] + share;
    lemma_front(root, '\\', name);
    lemma_literal_share(root, server, share);
    lemma_literal_share(root.push('\\'), server, share);
    lemma_literal_share(root.push('\\') + name, server, share);
    lemma_name_is_component(name);
    law_only_the_final_component_counts(root, '\\', name);
}

/// How long the prefix of a path on a share is that is taken literally.
proof fn lemma_literal_share(path: Seq<char>, server: Seq<char>, share: Seq<char>)
    requires
        is_whole(server),
        is_whole(share),
        share.len() > 0,
        ({
            let root = seq!['\\', '\\', '?', '\\', 'U', 'N', 'C', '\\'] + server + seq!['\\']
                + share;
            &&& root.len() <= path.len()
            &&& path.take(root.len() as int) == root
            &&& path.len() > root.len() ==> path[root.len() as int] == '\\'
        }),
    ensures
        prefix_len(path) == server.len() + share.len() + 9,
        is_remote(path),
        is_verbatim(path),
{
    let start = seq!['\\', '\\', '?', '\\', 'U', 'N', 'C', '\\'];
    let root = start + server + seq!['\\'] + share;
    let n = 8 + server.len() as int;
    assert forall|i: int| 0 <= i < root.len() implies path[i] == root[i] by {
        assert(path.take(root.len() as int)[i] == path[i]);
    }
    assert forall|i: int| 0 <= i < 8 implies path[i] == start[i] by {
        assert(root[i] == start[i]);
    }
    assert(path[0] == start[0] && path[1] == start[1] && path[2] == start[2] && path[3] == start[3]
        && path[4] == start[4] && path[5] == start[5] && path[6] == start[6] && path[7]
        == start[7]);
    assert(is_verbatim_share(path));
    assert(root[n] == '\\');
    assert forall|i: int| 8 <= i < n implies !is_separator(#[trigger] path[i], true) by {
        assert(root[i] == server[i - 8]);
        assert(server[i - 8] != '/' && server[i - 8] != '\\');
    }
    lemma_component_end_at(path, 8, n, true);
    assert forall|i: int| n + 1 <= i < root.len() implies !is_separator(
        #[trigger] path[i],
        true,
    ) by {
        assert(root[i] == share[i - n - 1]);
        assert(share[i - n - 1] != '/' && share[i - n - 1] != '\\');
    }
    lemma_component_end_at(path, n + 1, root.len() as int, true);
}

/// In a path that is taken literally a slash is part of a name, and neither `.` nor `..` is
/// anything that could be left out, nor a name.
pub proof fn law_literal_names(device: Seq<char>, name: Seq<char>)
    requires
        is_whole(device),
        device != seq!['U', 'N', 'C'],
        name.len() > 0,
        forall|i: int| 0 <= i < name.len() ==> #[trigger] name[i] != '\\',
    ensures
        final_component(seq!['\\', '\\', '?', '\\'] + device + seq!['\\'] + name) == if name == seq![
            '.',
        ] || name == seq!['.', '.'] {
            None
        } else {
            Some(name)
        },
{
    let root = seq!['\\', '\\', '?', '\\'] + device;
    let path = root.push('\\') + name;
    assert(seq!['\\', '\\', '?', '\\'] + device + seq!['\\'] + name =~= path);
    lemma_front(root, '\\', name);
    lemma_device(path, device, '\\', '?');
    let start = root.len() as int + 1;
    assert(body_start(path) == start);
    assert forall|i: int| start <= i < path.len() implies !is_separator(#[trigger] path[i], true) by {
        assert(path[i] == name[i - start]);
    }
    lemma_component_start_at(path, start, path.len() as int, start, true);
    assert(path.subrange(start, path.len() as int) =~= name);
}

/// Two slashes or backslashes and a name, without a share behind it, are on no share: they
/// name just that.
pub proof fn law_server_without_a_share(server: Seq<char>, slash: char)
    requires
        is_slash(slash),
        is_name(server),
    ensures
        final_component(seq![slash, slash] + server) == Some(server),
{
    let path = seq![slash, slash] + server;
    let len = path.len() as int;
    assert forall|i: int| 2 <= i < len implies !is_separator(#[trigger] path[i], false) by {
        assert(path[i] == server[i - 2]);
        assert(server[i - 2] != '/' && server[i - 2] != '\\');
    }
    assert(path[0] == slash && path[1] == slash);
    if len >= 4 {
        assert(!is_separator(path[3], false));
    }
    lemma_component_end_at(path, 2, len, false);
    assert(component_end(path, len + 1, false) == len + 1);
    lemma_name_is_component(server);
    assert(seq![slash].push(slash) + server =~= path);
    law_only_the_final_component_counts(seq![slash], slash, server);
}

} // verus!
