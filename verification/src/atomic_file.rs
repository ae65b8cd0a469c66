//! Naming for atomic file replacement: the directory a replacement is staged
//! in and the reserved temporary names tried there, in order.
use vstd::prelude::*;

use crate::paths::{components, file_name_of, is_absolute, path_components, path_file_name, render_path};
use crate::text::{decimal, push_decimal, push_str, string_from_chars};

verus! {

/// Temporary names tried before giving up.
pub const RESERVATION_ATTEMPTS: u8 = 32;

/// The directory a replacement of `path` is staged in: the path's parent,
/// or `.` when it has none or the parent is empty.
pub open spec fn staging_dir(path: Seq<char>) -> Seq<char> {
    let c = components(path);
    if c.len() >= 2 || (c.len() == 1 && is_absolute(path)) {
        render_path(is_absolute(path), c.take(c.len() - 1))
    } else {
        "."@
    }
}

/// Where the temporary file for `path` is created.
pub fn staging_directory(path: &str) -> (dir: String)
    ensures
        dir@ == staging_dir(path@),
{
    let parts = path_components(path);
    let chars = crate::text::str_chars(path);
    let absolute = chars.len() > 0 && chars[0] == '/';
    let n = parts.len();
    if n >= 2 || (n == 1 && absolute) {
        let rendered = crate::paths::render(absolute, &parts, n - 1);
        string_from_chars(rendered.as_slice())
    } else {
        crate::text::owned(".")
    }
}

/// The temporary name of attempt `attempt` for file `name` in process `pid`.
pub open spec fn temporary_name(name: Seq<char>, pid: u32, attempt: u8) -> Seq<char> {
    "."@ + name + "."@ + decimal(pid as nat) + "."@ + decimal(attempt as nat) + ".tmp"@
}

/// `.{name}.{pid}.{attempt}.tmp`, a hidden name unique to the process and
/// attempt.
pub fn temporary_file_name(name: &str, pid: u32, attempt: u8) -> (s: String)
    ensures
        s@ == temporary_name(name@, pid, attempt),
{
    let mut out: Vec<char> = Vec::new();
    push_str(&mut out, ".");
    push_str(&mut out, name);
    push_str(&mut out, ".");
    push_decimal(&mut out, pid as u64);
    push_str(&mut out, ".");
    push_decimal(&mut out, attempt as u64);
    push_str(&mut out, ".tmp");
    string_from_chars(out.as_slice())
}

/// The file name replaced at `path`, or `None` when the path names no file
/// (it is empty, the root, or ends in `..`).
pub fn replaced_file_name(path: &str) -> (r: Option<String>)
    ensures
        match file_name_of(path@) {
            Some(name) => r matches Some(s) && s@ == name,
            None => r is None,
        },
{
    match path_file_name(path) {
        Some(name) => Some(string_from_chars(name.as_slice())),
        None => None,
    }
}

/// Distinct attempts of one process get distinct temporary names.
pub proof fn law_attempts_use_distinct_names(name: Seq<char>, pid: u32, a: u8, b: u8)
    requires
        a != b,
    ensures
        temporary_name(name, pid, a) != temporary_name(name, pid, b),
{
    let prefix = "."@ + name + "."@ + decimal(pid as nat) + "."@;
    crate::text::lemma_decimal_injective(a as nat, b as nat);
    let ta = temporary_name(name, pid, a);
    let tb = temporary_name(name, pid, b);
    assert(ta == prefix + decimal(a as nat) + ".tmp"@);
    assert(tb == prefix + decimal(b as nat) + ".tmp"@);
    if ta == tb {
        reveal_strlit(".tmp");
        let da = decimal(a as nat);
        let db = decimal(b as nat);
        assert(ta.len() == tb.len());
        assert(da.len() == db.len());
        assert forall|i: int| 0 <= i < da.len() implies da[i] == db[i] by {
            assert(ta[prefix.len() + i] == da[i]);
            assert(tb[prefix.len() + i] == db[i]);
        }
        assert(da =~= db);
    }
}

} // verus!
