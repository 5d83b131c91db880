//! Output paths: the file name of a path, its extension, and the extensions
//! that an output may have.
//!
//! A path is a sequence of components separated by `/`. Empty components and
//! components that are a single dot do not count.

use vstd::prelude::*;

verus! {

/// The characters of a string, in order.
pub fn chars_of(s: &str) -> (v: Vec<char>)
    ensures
        v@ == s@,
{
    broadcast use vstd::string::group_string_axioms;

    let mut v: Vec<char> = Vec::new();
    for c in it: s.chars()
        invariant
            it.seq() == s@,
            v@ == it.seq().take(it.index() as int),
    {
        v.push(c);
    }
    v
}

/// End of the last component that counts in `p[..end]`: trailing separators
/// and trailing single-dot components are passed over. 0 if nothing counts.
pub open spec fn name_end(p: Seq<char>, end: int) -> int
    decreases end,
{
    if end <= 0 {
        0
    } else if p[end - 1] == '/' {
        name_end(p, end - 1)
    } else if p[end - 1] == '.' && (end == 1 || p[end - 2] == '/') {
        name_end(p, end - 1)
    } else {
        end
    }
}

/// Start of the component that ends at `end`: just behind the last separator
/// before `end`, or 0.
pub open spec fn component_start(p: Seq<char>, end: int) -> int
    decreases end,
{
    if end <= 0 {
        0
    } else if p[end - 1] == '/' {
        end
    } else {
        component_start(p, end - 1)
    }
}

/// The final component of a path, if it names a file or a directory: none
/// for a path without components and for one that ends in `..`.
pub open spec fn file_name(p: Seq<char>) -> Option<Seq<char>> {
    let end = name_end(p, p.len() as int);
    let name = p.subrange(component_start(p, end), end);
    if end == 0 || name == seq!['.', '.'] {
        None
    } else {
        Some(name)
    }
}

/// Index of the last dot in `name[..end]`, or -1.
pub open spec fn last_dot(name: Seq<char>, end: int) -> int
    decreases end,
{
    if end <= 0 {
        -1
    } else if name[end - 1] == '.' {
        end - 1
    } else {
        last_dot(name, end - 1)
    }
}

/// What follows the last dot of a file name; none if the name has no dot, or
/// only one at its start.
pub open spec fn extension_of_name(name: Seq<char>) -> Option<Seq<char>> {
    let dot = last_dot(name, name.len() as int);
    if dot <= 0 {
        None
    } else {
        Some(name.subrange(dot + 1, name.len() as int))
    }
}

/// The extension of a path: that of its file name.
pub open spec fn extension(p: Seq<char>) -> Option<Seq<char>> {
    match file_name(p) {
        None => None,
        Some(name) => extension_of_name(name),
    }
}

/// An ASCII capital as its small letter; any other character as it is.
pub open spec fn ascii_lower(c: char) -> char {
    if 'A' <= c && c <= 'Z' {
        ((c as u8) + 32) as char
    } else {
        c
    }
}

/// A string with its ASCII capitals made small.
pub open spec fn lowered(s: Seq<char>) -> Seq<char> {
    Seq::new(s.len(), |i: int| ascii_lower(s[i]))
}

/// An extension that an output file may have, whatever the case of its
/// letters: jpg, jpeg, png or webp.
pub open spec fn allowed_extension(ext: Seq<char>) -> bool {
    let low = lowered(ext);
    ||| low == seq!['j', 'p', 'g']
    ||| low == seq!['j', 'p', 'e', 'g']
    ||| low == seq!['p', 'n', 'g']
    ||| low == seq!['w', 'e', 'b', 'p']
}

/// The path has an extension, and it is an allowed one.
pub open spec fn output_path_allowed(p: Seq<char>) -> bool {
    match extension(p) {
        None => false,
        Some(ext) => allowed_extension(ext),
    }
}

fn lower_exec(c: char) -> (l: char)
    ensures
        l == ascii_lower(c),
{
    if 'A' <= c && c <= 'Z' {
        ((c as u8) + 32) as char
    } else {
        c
    }
}

fn name_end_exec(p: &Vec<char>) -> (end: usize)
    ensures
        end == name_end(p@, p@.len() as int),
        end <= p@.len(),
{
    let mut end: usize = p.len();
    while end > 0
        invariant
            end <= p@.len(),
            name_end(p@, p@.len() as int) == name_end(p@, end as int),
        decreases end,
    {
        let c = p[end - 1];
        if c == '/' || (c == '.' && (end == 1 || p[end - 2] == '/')) {
            end = end - 1;
        } else {
            return end;
        }
    }
    end
}

fn component_start_exec(p: &Vec<char>, end: usize) -> (start: usize)
    requires
        end <= p@.len(),
    ensures
        start == component_start(p@, end as int),
        start <= end,
{
    let mut start: usize = end;
    while start > 0 && p[start - 1] != '/'
        invariant
            start <= end <= p@.len(),
            component_start(p@, end as int) == component_start(p@, start as int),
        decreases start,
    {
        start = start - 1;
    }
    start
}

/// Position in `p` of the last dot of `p[start..end]`, if it has one.
fn last_dot_exec(p: &Vec<char>, start: usize, end: usize) -> (dot: Option<usize>)
    requires
        start <= end <= p@.len(),
    ensures
        match dot {
            Some(d) => start <= d < end && d - start == last_dot(
                p@.subrange(start as int, end as int),
                end - start,
            ),
            None => last_dot(p@.subrange(start as int, end as int), end - start) == -1,
        },
{
    let ghost name = p@.subrange(start as int, end as int);
    let mut at: usize = end;
    while at > start
        invariant
            start <= at <= end <= p@.len(),
            name == p@.subrange(start as int, end as int),
            last_dot(name, end - start) == last_dot(name, at - start),
        decreases at,
    {
        assert(name[at - start - 1] == p@[at - 1]);
        if p[at - 1] == '.' {
            return Some(at - 1);
        }
        at = at - 1;
    }
    None
}

/// Whether `p[start..end]`, its ASCII capitals made small, is `word`.
fn is_word(p: &Vec<char>, start: usize, end: usize, word: &Vec<char>) -> (same: bool)
    requires
        start <= end <= p@.len(),
    ensures
        same == (lowered(p@.subrange(start as int, end as int)) == word@),
{
    let ghost low = lowered(p@.subrange(start as int, end as int));
    if end - start != word.len() {
        return false;
    }
    let mut i: usize = 0;
    while i < word.len()
        invariant
            start <= end <= p@.len(),
            end - start == word@.len(),
            i <= word@.len(),
            low == lowered(p@.subrange(start as int, end as int)),
            forall|k: int| 0 <= k < i ==> low[k] == word@[k],
        decreases word@.len() - i,
    {
        assert(low[i as int] == ascii_lower(p@[start + i]));
        if lower_exec(p[start + i]) != word[i] {
            return false;
        }
        i = i + 1;
    }
    assert(low =~= word@);
    true
}

/// Whether the path ends in a file name with an allowed extension.
pub fn has_allowed_extension(path: &str) -> (ok: bool)
    ensures
        ok == output_path_allowed(path@),
{
    let p = chars_of(path);
    let end = name_end_exec(&p);
    if end == 0 {
        return false;
    }
    let start = component_start_exec(&p, end);
    let ghost name = p@.subrange(start as int, end as int);
    if end - start == 2 && p[start] == '.' && p[start + 1] == '.' {
        assert(name =~= seq!['.', '.']);
        return false;
    }
    assert(name != seq!['.', '.']) by {
        if name == seq!['.', '.'] {
            assert(name.len() == 2);
            assert(name[0] == '.' && name[1] == '.');
        }
    }
    match last_dot_exec(&p, start, end) {
        None => false,
        Some(dot) => {
            if dot == start {
                return false;
            }
            let ghost ext = name.subrange(dot - start + 1, name.len() as int);
            assert(ext =~= p@.subrange(dot + 1, end as int));
            assert(extension(path@) == Some(ext));
            let jpg: Vec<char> = vec!['j', 'p', 'g'];
            let jpeg: Vec<char> = vec!['j', 'p', 'e', 'g'];
            let png: Vec<char> = vec!['p', 'n', 'g'];
            let webp: Vec<char> = vec!['w', 'e', 'b', 'p'];
            assert(jpg@ =~= seq!['j', 'p', 'g']);
            assert(jpeg@ =~= seq!['j', 'p', 'e', 'g']);
            assert(png@ =~= seq!['p', 'n', 'g']);
            assert(webp@ =~= seq!['w', 'e', 'b', 'p']);
            is_word(&p, dot + 1, end, &jpg) || is_word(&p, dot + 1, end, &jpeg) || is_word(
                &p,
                dot + 1,
                end,
                &png,
            ) || is_word(&p, dot + 1, end, &webp)
        },
    }
}

/// The last four characters of `p`, ASCII capitals made small, are `word`.
pub open spec fn ends_in(p: Seq<char>, word: Seq<char>) -> bool {
    p.len() >= 4 && lowered(p.subrange(p.len() - 4, p.len() as int)) == word
}

/// The path ends, in any case, in one of the extensions of sensor captures:
/// `.arw`, `.cr2`, `.nef` or `.dng`.
pub open spec fn raw_path(p: Seq<char>) -> bool {
    ||| ends_in(p, seq!['.', 'a', 'r', 'w'])
    ||| ends_in(p, seq!['.', 'c', 'r', '2'])
    ||| ends_in(p, seq!['.', 'n', 'e', 'f'])
    ||| ends_in(p, seq!['.', 'd', 'n', 'g'])
}

/// Whether the input at this path is a sensor capture, to be demosaiced, and
/// no ordinary image.
pub fn is_raw_path(path: &str) -> (raw: bool)
    ensures
        raw == raw_path(path@),
{
    let p = chars_of(path);
    let n = p.len();
    if n < 4 {
        return false;
    }
    let arw: Vec<char> = vec!['.', 'a', 'r', 'w'];
    let cr2: Vec<char> = vec!['.', 'c', 'r', '2'];
    let nef: Vec<char> = vec!['.', 'n', 'e', 'f'];
    let dng: Vec<char> = vec!['.', 'd', 'n', 'g'];
    assert(arw@ =~= seq!['.', 'a', 'r', 'w']);
    assert(cr2@ =~= seq!['.', 'c', 'r', '2']);
    assert(nef@ =~= seq!['.', 'n', 'e', 'f']);
    assert(dng@ =~= seq!['.', 'd', 'n', 'g']);
    is_word(&p, n - 4, n, &arw) || is_word(&p, n - 4, n, &cr2) || is_word(&p, n - 4, n, &nef)
        || is_word(&p, n - 4, n, &dng)
}

} // verus!
