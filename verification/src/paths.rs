//! Lexical path handling: `/`-separated components, file names and
//! extensions, and the bundle layout checks built on them. Empty and `.`
//! components are ignored, as path comparison does.
use vstd::prelude::*;

use crate::text::{chars_eq, push_str, str_chars, string_from_chars};

verus! {

/// A segment that names something: neither empty nor `.`.
pub open spec fn is_component(segment: Seq<char>) -> bool {
    segment.len() > 0 && segment != seq!['.']
}

/// Components completed so far and the segment being read, after scanning `s`.
pub open spec fn scan_components(s: Seq<char>) -> (Seq<Seq<char>>, Seq<char>)
    decreases s.len(),
{
    if s.len() == 0 {
        (Seq::empty(), Seq::empty())
    } else {
        let (done, current) = scan_components(s.drop_last());
        if s.last() == '/' {
            (if is_component(current) {
                done.push(current)
            } else {
                done
            }, Seq::empty())
        } else {
            (done, current.push(s.last()))
        }
    }
}

/// The components of a path, in order.
pub open spec fn components(s: Seq<char>) -> Seq<Seq<char>> {
    let (done, current) = scan_components(s);
    if is_component(current) {
        done.push(current)
    } else {
        done
    }
}

/// The path starts at the root.
pub open spec fn is_absolute(s: Seq<char>) -> bool {
    s.len() > 0 && s[0] == '/'
}

/// `a/b/c` from components.
pub open spec fn join_components(parts: Seq<Seq<char>>) -> Seq<char>
    decreases parts.len(),
{
    if parts.len() == 0 {
        Seq::empty()
    } else if parts.len() == 1 {
        parts[0]
    } else {
        join_components(parts.drop_last()) + seq!['/'] + parts.last()
    }
}

/// The spelling of a path with the given root and components.
pub open spec fn render_path(absolute: bool, parts: Seq<Seq<char>>) -> Seq<char> {
    (if absolute {
        seq!['/']
    } else {
        Seq::empty()
    }) + join_components(parts)
}

/// The final component, unless the path is empty, the root, or ends in `..`.
pub open spec fn file_name_of(s: Seq<char>) -> Option<Seq<char>> {
    let c = components(s);
    if c.len() == 0 || c.last() == seq!['.', '.'] {
        None
    } else {
        Some(c.last())
    }
}

/// Position of the last `.` of a name, if any.
pub open spec fn last_dot(name: Seq<char>) -> Option<int>
    decreases name.len(),
{
    if name.len() == 0 {
        None
    } else if name.last() == '.' {
        Some(name.len() - 1)
    } else {
        last_dot(name.drop_last())
    }
}

/// The extension of a file name: the text after its last `.`, for a name
/// that has text before that dot and is not `..`.
pub open spec fn extension_of(name: Seq<char>) -> Option<Seq<char>> {
    if name == seq!['.', '.'] {
        None
    } else {
        match last_dot(name) {
            Some(i) if i > 0 => Some(name.subrange(i + 1, name.len() as int)),
            _ => None,
        }
    }
}

fn is_component_chars(segment: &Vec<char>) -> (b: bool)
    ensures
        b == is_component(segment@),
{
    if segment.len() == 0 {
        return false;
    }
    if segment.len() == 1 && segment[0] == '.' {
        assert(segment@ =~= seq!['.']);
        return false;
    }
    assert(segment@.len() != 1 || segment@[0] != '.');
    assert(segment@ != seq!['.']) by {
        if segment@ == seq!['.'] {
            assert(segment@[0] == '.');
        }
    }
    true
}

/// Splits a path into its components.
pub fn path_components(path: &str) -> (parts: Vec<Vec<char>>)
    ensures
        parts@.map_values(|p: Vec<char>| p@) == components(path@),
{
    let chars = str_chars(path);
    let mut parts: Vec<Vec<char>> = Vec::new();
    let mut current: Vec<char> = Vec::new();
    let mut i: usize = 0;
    while i < chars.len()
        invariant
            i <= chars@.len(),
            chars@ == path@,
            (parts@.map_values(|p: Vec<char>| p@), current@) == scan_components(
                chars@.take(i as int),
            ),
        decreases chars@.len() - i,
    {
        let c = chars[i];
        let ghost prefix = chars@.take(i as int);
        assert(chars@.take(i + 1).drop_last() =~= prefix);
        assert(chars@.take(i + 1).last() == c);
        if c == '/' {
            if is_component_chars(&current) {
                let finished = current;
                parts.push(finished);
                assert(parts@.map_values(|p: Vec<char>| p@) =~= scan_components(prefix).0.push(
                    scan_components(prefix).1,
                ));
            }
            current = Vec::new();
            assert(current@ =~= Seq::<char>::empty());
        } else {
            current.push(c);
        }
        i = i + 1;
    }
    assert(chars@.take(chars@.len() as int) =~= chars@);
    if is_component_chars(&current) {
        let ghost before = parts@.map_values(|p: Vec<char>| p@);
        parts.push(current);
        assert(parts@.map_values(|p: Vec<char>| p@) =~= before.push(scan_components(path@).1));
    }
    parts
}

fn push_chars(out: &mut Vec<char>, s: &Vec<char>)
    ensures
        final(out)@ == old(out)@ + s@,
{
    let mut i: usize = 0;
    while i < s.len()
        invariant
            i <= s@.len(),
            out@ == old(out)@ + s@.take(i as int),
        decreases s@.len() - i,
    {
        out.push(s[i]);
        i = i + 1;
        assert(out@ =~= old(out)@ + s@.take(i as int));
    }
    assert(s@.take(s@.len() as int) =~= s@);
}

/// Spells a path from a root flag and the first `count` components.
pub fn render(absolute: bool, parts: &Vec<Vec<char>>, count: usize) -> (s: Vec<char>)
    requires
        count <= parts@.len(),
    ensures
        s@ == render_path(absolute, parts@.map_values(|p: Vec<char>| p@).take(count as int)),
{
    let ghost views = parts@.map_values(|p: Vec<char>| p@);
    let mut out: Vec<char> = Vec::new();
    if absolute {
        out.push('/');
    }
    let ghost root = out@;
    let mut i: usize = 0;
    while i < count
        invariant
            i <= count <= parts@.len(),
            views == parts@.map_values(|p: Vec<char>| p@),
            root == (if absolute {
                seq!['/']
            } else {
                Seq::<char>::empty()
            }),
            out@ == root + join_components(views.take(i as int)),
        decreases count - i,
    {
        if i > 0 {
            out.push('/');
        }
        push_chars(&mut out, &parts[i]);
        proof {
            let next = views.take(i + 1);
            assert(next.drop_last() =~= views.take(i as int));
            assert(next.last() == parts@[i as int]@);
            if i == 0 {
                assert(join_components(next) == next[0]);
                assert(out@ =~= root + join_components(next));
            } else {
                assert(out@ =~= root + join_components(next));
            }
        }
        i = i + 1;
    }
    out
}

fn is_literal(part: &Vec<char>, literal: &str) -> (b: bool)
    ensures
        b == (part@ == literal@),
{
    let l = str_chars(literal);
    chars_eq(part.as_slice(), l.as_slice())
}

/// The final component of a path, as `Path::file_name` reads it.
pub fn path_file_name(path: &str) -> (r: Option<Vec<char>>)
    ensures
        match file_name_of(path@) {
            Some(name) => r matches Some(n) && n@ == name,
            None => r is None,
        },
{
    let parts = path_components(path);
    let ghost views = parts@.map_values(|p: Vec<char>| p@);
    if parts.len() == 0 {
        return None;
    }
    let last = parts.len() - 1;
    assert(views.last() == parts@[last as int]@);
    if is_literal(&parts[last], "..") {
        proof {
            reveal_strlit("..");
        }
        assert(views.last() =~= seq!['.', '.']);
        return None;
    }
    proof {
        reveal_strlit("..");
        assert(".."@ =~= seq!['.', '.']);
    }
    Some(parts[last].clone())
}

/// The position of the last `.` of a name, if it has one.
fn last_dot_position(name: &Vec<char>) -> (r: Option<usize>)
    ensures
        match last_dot(name@) {
            Some(i) => r matches Some(j) && j == i,
            None => r is None,
        },
        r matches Some(j) ==> j < name@.len(),
{
    let mut k: usize = name.len();
    assert(name@.take(k as int) =~= name@);
    while k > 0
        invariant
            k <= name@.len(),
            last_dot(name@) == last_dot(name@.take(k as int)),
        decreases k,
    {
        assert(name@.take(k as int).drop_last() =~= name@.take(k - 1));
        if name[k - 1] == '.' {
            return Some(k - 1);
        }
        k = k - 1;
    }
    assert(name@.take(0) =~= Seq::<char>::empty());
    None
}

/// Whether a file name has exactly the extension `ext`.
fn has_extension(name: &Vec<char>, ext: &str) -> (b: bool)
    ensures
        b == (extension_of(name@) == Some(ext@)),
{
    proof {
        reveal_strlit("..");
    }
    assert(".."@ =~= seq!['.', '.']);
    if is_literal(name, "..") {
        return false;
    }
    match last_dot_position(name) {
        Some(i) => {
            if i == 0 {
                return false;
            }
            let len = name.len();
            assert(i < len);
            let tail = crate::text::chars_slice(name.as_slice(), i + 1, len);
            let e = str_chars(ext);
            chars_eq(tail.as_slice(), e.as_slice())
        },
        None => false,
    }
}

/// The `.app` bundle that contains an executable at
/// `<bundle>.app/Contents/MacOS/<name>`.
pub open spec fn app_bundle_of(exe: Seq<char>) -> Option<Seq<char>> {
    let c = components(exe);
    let n = c.len();
    if n >= 4 && c[n - 2] == "MacOS"@ && c[n - 3] == "Contents"@ && extension_of(c[n - 4]) == Some(
        "app"@,
    ) {
        Some(render_path(is_absolute(exe), c.take(n - 3)))
    } else {
        None
    }
}

/// The `Info.plist` of the bundle whose executable is at
/// `<bundle>/Contents/MacOS/<name>`.
pub open spec fn bundle_info_of(exe: Seq<char>) -> Option<Seq<char>> {
    let c = components(exe);
    let n = c.len();
    if n >= 3 && c[n - 2] == "MacOS"@ && c[n - 3] == "Contents"@ {
        Some(render_path(is_absolute(exe), c.take(n - 2)) + "/Info.plist"@)
    } else {
        None
    }
}

/// The path lies under `/Applications`.
pub open spec fn under_applications(path: Seq<char>) -> bool {
    is_absolute(path) && components(path).len() >= 1 && components(path)[0] == "Applications"@
}

/// The bundle directory of an executable inside a `.app` bundle, or `None`
/// for a bare binary.
pub fn app_bundle_path_for_executable(exe: &str) -> (r: Option<String>)
    ensures
        match app_bundle_of(exe@) {
            Some(b) => r matches Some(s) && s@ == b,
            None => r is None,
        },
{
    let parts = path_components(exe);
    let ghost c = parts@.map_values(|p: Vec<char>| p@);
    let n = parts.len();
    if n < 4 {
        return None;
    }
    assert(c[n - 2] == parts@[n - 2]@ && c[n - 3] == parts@[n - 3]@ && c[n - 4] == parts@[n - 4]@);
    if !is_literal(&parts[n - 2], "MacOS") || !is_literal(&parts[n - 3], "Contents")
        || !has_extension(&parts[n - 4], "app") {
        return None;
    }
    let absolute = exe_is_absolute(exe);
    let rendered = render(absolute, &parts, n - 3);
    Some(string_from_chars(rendered.as_slice()))
}

/// Whether a path starts at the root.
fn exe_is_absolute(path: &str) -> (b: bool)
    ensures
        b == is_absolute(path@),
{
    let chars = str_chars(path);
    chars.len() > 0 && chars[0] == '/'
}

/// The `Info.plist` path of the bundle that contains an executable at
/// `Contents/MacOS/<name>`, or `None` for a bare binary.
pub fn bundle_info_path_for_executable(executable: &str) -> (r: Option<String>)
    ensures
        match bundle_info_of(executable@) {
            Some(p) => r matches Some(s) && s@ == p,
            None => r is None,
        },
{
    let parts = path_components(executable);
    let ghost c = parts@.map_values(|p: Vec<char>| p@);
    let n = parts.len();
    if n < 3 {
        return None;
    }
    assert(c[n - 2] == parts@[n - 2]@ && c[n - 3] == parts@[n - 3]@);
    if !is_literal(&parts[n - 2], "MacOS") || !is_literal(&parts[n - 3], "Contents") {
        return None;
    }
    let absolute = exe_is_absolute(executable);
    let mut rendered = render(absolute, &parts, n - 2);
    push_str(&mut rendered, "/Info.plist");
    Some(string_from_chars(rendered.as_slice()))
}

/// A bundle can activate its system extension only from `/Applications`.
pub fn app_bundle_has_activation_location(bundle: &str) -> (b: bool)
    ensures
        b == under_applications(bundle@),
{
    if !exe_is_absolute(bundle) {
        return false;
    }
    let parts = path_components(bundle);
    if parts.len() == 0 {
        return false;
    }
    assert(parts@.map_values(|p: Vec<char>| p@)[0] == parts@[0]@);
    is_literal(&parts[0], "Applications")
}

/// `base` with `part` appended as `PathBuf::push` does: an absolute part
/// replaces the path, otherwise a separator is added unless `base` is empty
/// or already ends in one.
pub open spec fn pushed(base: Seq<char>, part: Seq<char>) -> Seq<char> {
    if is_absolute(part) {
        part
    } else if base.len() == 0 || base.last() == '/' {
        base + part
    } else {
        base + seq!['/'] + part
    }
}

/// Appends one path component to `base`.
pub fn push_component(base: &str, part: &str) -> (s: String)
    ensures
        s@ == pushed(base@, part@),
{
    let part_chars = str_chars(part);
    if part_chars.len() > 0 && part_chars[0] == '/' {
        return string_from_chars(part_chars.as_slice());
    }
    let mut out = str_chars(base);
    if out.len() > 0 && out[out.len() - 1] != '/' {
        out.push('/');
    }
    push_str(&mut out, part);
    string_from_chars(out.as_slice())
}

} // verus!
