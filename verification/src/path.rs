//! What a catalogued path is called: the title and the extension that an
//! item gets from its path.
//!
//! A path is read as text. Both `/` and `\` separate its components, so that
//! a path names the same file wherever it was written.

use crate::text::chars_of;
use vstd::prelude::*;

verus! {

/// The characters that separate the components of a path.
pub open spec fn is_separator(c: char) -> bool {
    c == '/' || c == '\\'
}

/// Where the component that ends at `end` begins: the least index from which
/// no separator stands before `end`.
pub open spec fn component_start(path: Seq<char>, end: int) -> int
    decreases end,
{
    if 0 < end <= path.len() && !is_separator(path[end - 1]) {
        component_start(path, end - 1)
    } else {
        end
    }
}

/// Where the last component of `path[..end]` that names something ends.
/// Empty components (a doubled or trailing separator) and the component `.`
/// name nothing and are passed over; 0 when nothing is left.
pub open spec fn name_end(path: Seq<char>, end: int) -> int
    decreases end,
{
    if end <= 0 || end > path.len() {
        0
    } else {
        let start = component_start(path, end);
        if start == end {
            name_end(path, end - 1)
        } else if end - start == 1 && path[start] == '.' {
            if start == 0 {
                0
            } else {
                name_end(path, start - 1)
            }
        } else {
            end
        }
    }
}

/// The file name of `path`: its last component that names something, or the
/// empty text when there is none or when that component is `..`.
pub open spec fn file_name(path: Seq<char>) -> Seq<char> {
    let end = name_end(path, path.len() as int);
    let name = path.subrange(component_start(path, end), end);
    if name == seq!['.', '.'] {
        Seq::empty()
    } else {
        name
    }
}

/// The index of the last `.` of `name[..end]`, or -1 when it has none.
pub open spec fn last_dot(name: Seq<char>, end: int) -> int
    decreases end,
{
    if end <= 0 || end > name.len() {
        -1
    } else if name[end - 1] == '.' {
        end - 1
    } else {
        last_dot(name, end - 1)
    }
}

/// Where the extension parts from the rest of `name`: the index of its last
/// `.`, or -1 when `name` has none or begins with its only one.
pub open spec fn extension_dot(name: Seq<char>) -> int {
    let dot = last_dot(name, name.len() as int);
    if dot <= 0 {
        -1
    } else {
        dot
    }
}

/// The title of the item at `path`: its file name without the extension.
pub open spec fn title(path: Seq<char>) -> Seq<char> {
    let name = file_name(path);
    let dot = extension_dot(name);
    if dot < 0 {
        name
    } else {
        name.take(dot)
    }
}

/// The extension of the item at `path`: what follows the last `.` of its
/// file name, or the empty text.
pub open spec fn extension(path: Seq<char>) -> Seq<char> {
    let name = file_name(path);
    let dot = extension_dot(name);
    if dot < 0 {
        Seq::empty()
    } else {
        name.skip(dot + 1)
    }
}

/// Tells whether `c` separates components.
fn separator(c: char) -> (r: bool)
    ensures
        r == is_separator(c),
{
    c == '/' || c == '\\'
}

/// Computes [`component_start`].
fn find_component_start(path: &Vec<char>, end: usize) -> (start: usize)
    requires
        end <= path.len(),
    ensures
        start == component_start(path@, end as int),
        start <= end,
{
    let mut start: usize = end;
    while start > 0 && !separator(path[start - 1])
        invariant
            start <= end <= path.len(),
            component_start(path@, start as int) == component_start(path@, end as int),
        decreases start,
    {
        start -= 1;
    }
    start
}

/// Computes [`name_end`] and the start of the component that ends there.
fn find_name(path: &Vec<char>) -> (r: (usize, usize))
    ensures
        r.1 == name_end(path@, path.len() as int),
        r.0 == component_start(path@, r.1 as int),
        r.0 <= r.1 <= path.len(),
{
    let mut end: usize = path.len();
    while end > 0
        invariant
            end <= path.len(),
            name_end(path@, end as int) == name_end(path@, path.len() as int),
        decreases end,
    {
        let start = find_component_start(path, end);
        if start == end {
            end -= 1;
        } else if end - start == 1 && path[start] == '.' {
            if start == 0 {
                return (0, 0);
            }
            end = start - 1;
        } else {
            return (start, end);
        }
    }
    (0, 0)
}

/// Computes [`extension_dot`] for `path[start..end]`; `None` stands for -1.
fn find_extension_dot(path: &Vec<char>, start: usize, end: usize) -> (r: Option<usize>)
    requires
        start <= end <= path.len(),
    ensures
        match r {
            Some(dot) => dot == extension_dot(path@.subrange(start as int, end as int)) && 0 < dot
                < end - start,
            None => extension_dot(path@.subrange(start as int, end as int)) == -1,
        },
{
    let ghost name = path@.subrange(start as int, end as int);
    let mut k: usize = end;
    while k > start
        invariant
            start <= k <= end <= path.len(),
            name == path@.subrange(start as int, end as int),
            last_dot(name, k - start) == last_dot(name, name.len() as int),
        decreases k,
    {
        if path[k - 1] == '.' {
            assert(name[k - 1 - start] == '.');
            if k - 1 == start {
                return None;
            }
            return Some(k - 1 - start);
        }
        assert(name[k - 1 - start] != '.');
        k -= 1;
    }
    None
}

/// Copies the characters `from..to` of `text`.
fn slice_of(text: &str, from: usize, to: usize) -> (r: String)
    requires
        from <= to <= text@.len(),
    ensures
        r@ == text@.subrange(from as int, to as int),
{
    let mut r = String::new();
    r.append(text.substring_char(from, to));
    assert(r@ =~= text@.subrange(from as int, to as int));
    r
}

/// The title and the extension that the item at `path` gets.
pub fn title_and_extension(path: &str) -> (r: (String, String))
    ensures
        r.0@ == title(path@),
        r.1@ == extension(path@),
{
    let chars = chars_of(path);
    let (start, end) = find_name(&chars);
    let ghost name = path@.subrange(start as int, end as int);
    if end - start == 2 && chars[start] == '.' && chars[start + 1] == '.' {
        assert(name =~= seq!['.', '.']);
        return (String::new(), String::new());
    }
    assert(name != seq!['.', '.']) by {
        if name == seq!['.', '.'] {
            assert(name.len() == 2);
            assert(name[0] == '.' && name[1] == '.');
        }
    }
    match find_extension_dot(&chars, start, end) {
        Some(dot) => {
            let title = slice_of(path, start, start + dot);
            let extension = slice_of(path, start + dot + 1, end);
            assert(title@ =~= name.take(dot as int));
            assert(extension@ =~= name.skip(dot + 1));
            (title, extension)
        },
        None => (slice_of(path, start, end), String::new()),
    }
}

} // verus!
