//! Names and paths of stored files.
//!
//! A stored file is never named after user-supplied text: the only thing
//! taken from the uploaded file's own name is its extension, which by
//! construction holds neither a `.` nor a `/`.
//!
//! Paths are read as `std::path` reads them on Unix: `/` separates
//! components, and trailing `/` and `/.` do not count.

use vstd::prelude::*;
use vstd::string::*;
use crate::ident::{is_identifier, is_safe_char};

verus! {

/// The last character of `s` does not count towards its final component:
/// it is a trailing `/`, or the `.` of a trailing `/.`.
pub open spec fn drops_last(s: Seq<char>) -> bool {
    &&& s.len() > 0
    &&& (s.last() == '/' || (s.len() >= 2 && s.last() == '.' && s[s.len() - 2] == '/'))
}

/// `s` without its trailing `/` and `/.`.
pub open spec fn trimmed(s: Seq<char>) -> Seq<char>
    decreases s.len(),
{
    if drops_last(s) {
        trimmed(s.drop_last())
    } else {
        s
    }
}

/// `k` is where the last `/`-free stretch of `path` starts: just after the
/// last `/`, or at 0 when there is none.
pub open spec fn is_base_start(path: Seq<char>, k: int) -> bool {
    &&& 0 <= k <= path.len()
    &&& k > 0 ==> path[k - 1] == '/'
    &&& forall|j: int| k <= j < path.len() ==> #[trigger] path[j] != '/'
}

/// The final component of `path`: what follows the last `/` once trailing
/// `/` and `/.` are dropped.
pub open spec fn final_component(path: Seq<char>) -> Seq<char> {
    let t = trimmed(path);
    let k = choose|k: int| is_base_start(t, k);
    t.subrange(k, t.len() as int)
}

/// A final component that names nothing: empty, `.` or `..`.
pub open spec fn is_blank_component(c: Seq<char>) -> bool {
    ||| c.len() == 0
    ||| c =~= seq!['.']
    ||| c =~= seq!['.', '.']
}

/// The file-name component of `path`, when it has one.
pub open spec fn spec_file_name(path: Seq<char>) -> Option<Seq<char>> {
    if is_blank_component(final_component(path)) {
        None
    } else {
        Some(final_component(path))
    }
}

/// `k` is the position of the last `.` of `c`.
pub open spec fn is_last_dot(c: Seq<char>, k: int) -> bool {
    &&& 0 <= k < c.len()
    &&& c[k] == '.'
    &&& forall|j: int| k < j < c.len() ==> #[trigger] c[j] != '.'
}

/// The extension of the file name `c`: what follows its last `.`, unless
/// that `.` is its first character or it has none. It may be empty.
pub open spec fn component_extension(c: Seq<char>) -> Option<Seq<char>> {
    if exists|k: int| k > 0 && is_last_dot(c, k) {
        let k = choose|k: int| k > 0 && is_last_dot(c, k);
        Some(c.subrange(k + 1, c.len() as int))
    } else {
        None
    }
}

/// The extension of `name`: that of its file-name component.
pub open spec fn extension(name: Seq<char>) -> Option<Seq<char>> {
    match spec_file_name(name) {
        Some(c) => component_extension(c),
        None => None,
    }
}

/// The view of an optional string slice.
pub open spec fn opt_view(s: Option<&str>) -> Option<Seq<char>> {
    match s {
        Some(t) => Some(t@),
        None => None,
    }
}

/// What the stored name takes from the uploaded file's name: its extension
/// when it has a non-empty one, else nothing.
pub open spec fn kept_extension(uploaded: Option<Seq<char>>) -> Option<Seq<char>> {
    match uploaded {
        Some(name) => match extension(name) {
            Some(ext) => if ext.len() > 0 {
                Some(ext)
            } else {
                None
            },
            None => None,
        },
        None => None,
    }
}

/// The name under which a file is stored: the identifier, followed by
/// `.<extension>` when the uploaded file's name has a non-empty extension.
pub open spec fn spec_stored_name(id: Seq<char>, uploaded: Option<Seq<char>>) -> Seq<char> {
    match kept_extension(uploaded) {
        Some(ext) => id + seq!['.'] + ext,
        None => id,
    }
}

/// `name` appended to `dir` with exactly one `/` between them. An empty
/// `dir` contributes nothing, and a `name` that starts at the root stands
/// alone.
pub open spec fn spec_join(dir: Seq<char>, name: Seq<char>) -> Seq<char> {
    if name.len() > 0 && name[0] == '/' {
        name
    } else if dir.len() == 0 {
        name
    } else if dir.last() == '/' {
        dir + name
    } else {
        dir + seq!['/'] + name
    }
}

/// No character of `s` is a `/`.
pub open spec fn no_slash(s: Seq<char>) -> bool {
    forall|i: int| 0 <= i < s.len() ==> #[trigger] s[i] != '/'
}

/// No character of `s` is a `.`.
pub open spec fn no_dot(s: Seq<char>) -> bool {
    forall|i: int| 0 <= i < s.len() ==> #[trigger] s[i] != '.'
}

/// Every text has a place where its last `/`-free stretch starts.
pub proof fn lemma_base_start_exists(path: Seq<char>)
    ensures
        exists|k: int| is_base_start(path, k),
    decreases path.len(),
{
    if path.len() == 0 {
        assert(is_base_start(path, 0));
    } else if path.last() == '/' {
        assert(is_base_start(path, path.len() as int));
    } else {
        lemma_base_start_exists(path.drop_last());
        let k = choose|k: int| is_base_start(path.drop_last(), k);
        assert forall|j: int| k <= j < path.len() implies #[trigger] path[j] != '/' by {
            if j < path.len() - 1 {
                assert(path.drop_last()[j] != '/');
            }
        }
        assert(is_base_start(path, k));
    }
}

/// The final component of a text that is already trimmed starts at its one
/// base start.
pub proof fn lemma_final_component_at(path: Seq<char>, k: int)
    requires
        !drops_last(path),
        is_base_start(path, k),
    ensures
        final_component(path) == path.subrange(k, path.len() as int),
{
}

/// The extension of a file name is what follows its last `.`.
pub proof fn lemma_component_extension_at(c: Seq<char>, k: int)
    requires
        k > 0,
        is_last_dot(c, k),
    ensures
        component_extension(c) == Some(c.subrange(k + 1, c.len() as int)),
{
}

/// A final component holds no `/`.
pub proof fn lemma_final_component_has_no_slash(path: Seq<char>)
    ensures
        no_slash(final_component(path)),
{
    let t = trimmed(path);
    lemma_base_start_exists(t);
}

/// An extension holds neither `.` nor `/`.
pub proof fn lemma_extension_is_plain(name: Seq<char>)
    requires
        extension(name) is Some,
    ensures
        no_slash(extension(name)->0),
        no_dot(extension(name)->0),
{
    lemma_final_component_has_no_slash(name);
}

/// Whether the first `i` characters of `path` end in a character that does
/// not count.
fn drops_at(path: &str, i: usize) -> (b: bool)
    requires
        i <= path@.len(),
    ensures
        b == drops_last(path@.subrange(0, i as int)),
{
    if i == 0 {
        return false;
    }
    let c = path.get_char(i - 1);
    if c == '/' {
        return true;
    }
    c == '.' && i >= 2 && path.get_char(i - 2) == '/'
}

/// The file-name component of `path`: its final component, with trailing
/// `/` and `/.` left aside. There is none when nothing is left, or when
/// that component is `.` or `..`.
pub fn file_name_of(path: &str) -> (name: Option<String>)
    ensures
        match name {
            Some(f) => spec_file_name(path@) == Some(f@),
            None => spec_file_name(path@) is None,
        },
{
    let n: usize = path.unicode_len();
    let mut end: usize = n;
    assert(path@.subrange(0, n as int) =~= path@);
    while drops_at(path, end)
        invariant
            n == path@.len(),
            end <= n,
            trimmed(path@) == trimmed(path@.subrange(0, end as int)),
        decreases end,
    {
        assert(path@.subrange(0, end as int).drop_last() =~= path@.subrange(0, end - 1));
        end -= 1;
    }
    let ghost t = path@.subrange(0, end as int);
    let mut start: usize = end;
    while start > 0 && path.get_char(start - 1) != '/'
        invariant
            end <= path@.len(),
            start <= end,
            forall|j: int| start <= j < end ==> #[trigger] path@[j] != '/',
        decreases start,
    {
        start -= 1;
    }
    proof {
        lemma_final_component_at(t, start as int);
    }
    let base = path.substring_char(start, end);
    let len: usize = end - start;
    if len == 0 {
        None
    } else if len == 1 && base.get_char(0) == '.' {
        None
    } else if len == 2 && base.get_char(0) == '.' && base.get_char(1) == '.' {
        None
    } else {
        assert(!is_blank_component(base@));
        Some(String::from_str(base))
    }
}

/// The extension of a file name that is a single component.
fn extension_of_component(c: &str) -> (ext: Option<String>)
    ensures
        match ext {
            Some(e) => component_extension(c@) == Some(e@),
            None => component_extension(c@) is None,
        },
{
    let n: usize = c.unicode_len();
    let mut i: usize = n;
    while i > 0 && c.get_char(i - 1) != '.'
        invariant
            n == c@.len(),
            i <= n,
            forall|j: int| i <= j < n ==> #[trigger] c@[j] != '.',
        decreases i,
    {
        i -= 1;
    }
    if i <= 1 {
        None
    } else {
        proof {
            lemma_component_extension_at(c@, i - 1);
        }
        Some(String::from_str(c.substring_char(i, n)))
    }
}

/// The extension of an uploaded file's name: what follows the last `.` of
/// its file-name component, e.g. `png` for `photo.png` and for `photo.png/`.
/// Names such as `README`, `.profile` or `..` have none; `archive.` has an
/// empty one.
pub fn extension_of(name: &str) -> (ext: Option<String>)
    ensures
        match ext {
            Some(e) => extension(name@) == Some(e@),
            None => extension(name@) is None,
        },
{
    match file_name_of(name) {
        Some(c) => extension_of_component(c.as_str()),
        None => None,
    }
}

/// Builds the name of a stored file from its identifier and the name the
/// uploaded file had, if any.
pub fn stored_name(id: &str, uploaded: Option<&str>) -> (name: String)
    ensures
        name@ == spec_stored_name(id@, opt_view(uploaded)),
{
    let base = String::from_str(id);
    match uploaded {
        Some(o) => match extension_of(o) {
            Some(ext) => {
                if ext.as_str().unicode_len() > 0 {
                    proof {
                        reveal_strlit(".");
                    }
                    base.concat(".").concat(ext.as_str())
                } else {
                    base
                }
            },
            None => base,
        },
        None => base,
    }
}

/// Appends `name` to `dir` with a single `/` between them; a `name` that
/// starts with `/` replaces `dir`.
pub fn join_path(dir: &str, name: &str) -> (path: String)
    ensures
        path@ == spec_join(dir@, name@),
{
    let n: usize = dir.unicode_len();
    if name.unicode_len() > 0 && name.get_char(0) == '/' {
        String::from_str(name)
    } else if n == 0 {
        String::from_str(name)
    } else if dir.get_char(n - 1) == '/' {
        String::from_str(dir).concat(name)
    } else {
        proof {
            reveal_strlit("/");
        }
        String::from_str(dir).concat("/").concat(name)
    }
}

/// Where a new upload is written: the storage directory joined with the
/// stored name.
pub fn stored_path(storage_dir: &str, id: &str, uploaded: Option<&str>) -> (path: String)
    ensures
        path@ == spec_join(storage_dir@, spec_stored_name(id@, opt_view(uploaded))),
{
    let name = stored_name(id, uploaded);
    join_path(storage_dir, name.as_str())
}

/// A stored name is a file name of its own: it holds no `/`, starts with a
/// character of the identifier and does not end in `.`.
pub proof fn lemma_stored_name_is_plain(id: Seq<char>, uploaded: Option<Seq<char>>)
    requires
        is_identifier(id),
    ensures
        no_slash(spec_stored_name(id, uploaded)),
        spec_stored_name(id, uploaded).len() >= id.len(),
        spec_stored_name(id, uploaded).subrange(0, id.len() as int) == id,
        spec_stored_name(id, uploaded).last() != '.',
        spec_file_name(spec_stored_name(id, uploaded)) == Some(spec_stored_name(id, uploaded)),
{
    let stored = spec_stored_name(id, uploaded);
    if kept_extension(uploaded) is Some {
        lemma_extension_is_plain(uploaded->0);
    }
    lemma_final_component_at(stored, 0);
}

/// The stored name carries exactly the non-empty extension of the uploaded
/// file's name: the same one if it has one, none if it has none.
pub proof fn lemma_stored_name_keeps_extension(id: Seq<char>, uploaded: Option<Seq<char>>)
    requires
        is_identifier(id),
    ensures
        extension(spec_stored_name(id, uploaded)) == kept_extension(uploaded),
{
    let stored = spec_stored_name(id, uploaded);
    lemma_stored_name_is_plain(id, uploaded);
    if kept_extension(uploaded) is Some {
        lemma_extension_is_plain(uploaded->0);
        let k = id.len() as int;
        lemma_component_extension_at(stored, k);
    }
}

/// Of the uploaded file's name only the extension reaches the stored name:
/// two names with the same extension are stored under the same name.
pub proof fn lemma_stored_name_depends_on_extension_only(
    id: Seq<char>,
    first: Seq<char>,
    second: Seq<char>,
)
    requires
        extension(first) == extension(second),
    ensures
        spec_stored_name(id, Some(first)) == spec_stored_name(id, Some(second)),
{
}

/// The file name of a stored file's path is its stored name, whatever the
/// storage directory.
pub proof fn lemma_stored_path_file_name(dir: Seq<char>, id: Seq<char>, uploaded: Option<Seq<char>>)
    requires
        is_identifier(id),
    ensures
        spec_file_name(spec_join(dir, spec_stored_name(id, uploaded))) == Some(
            spec_stored_name(id, uploaded),
        ),
{
    let stored = spec_stored_name(id, uploaded);
    lemma_stored_name_is_plain(id, uploaded);
    let path = spec_join(dir, stored);
    let k = path.len() - stored.len();
    lemma_final_component_at(path, k);
}

/// Two different identifiers never share a stored path.
pub proof fn lemma_distinct_identifiers_distinct_paths(
    dir: Seq<char>,
    first: Seq<char>,
    second: Seq<char>,
    uploaded_first: Option<Seq<char>>,
    uploaded_second: Option<Seq<char>>,
)
    requires
        is_identifier(first),
        is_identifier(second),
        first != second,
    ensures
        spec_join(dir, spec_stored_name(first, uploaded_first)) != spec_join(
            dir,
            spec_stored_name(second, uploaded_second),
        ),
{
    let a = spec_stored_name(first, uploaded_first);
    let b = spec_stored_name(second, uploaded_second);
    lemma_stored_name_is_plain(first, uploaded_first);
    lemma_stored_name_is_plain(second, uploaded_second);
    let pa = spec_join(dir, a);
    let pb = spec_join(dir, b);
    if pa == pb {
        let k = pa.len() - a.len();
        assert forall|i: int| 0 <= i < first.len() implies first[i] == second[i] by {
            assert(pa[k + i] == a[i]);
        }
        assert(first =~= second);
    }
}

} // verus!
