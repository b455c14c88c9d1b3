//! Derivation of artifact and log locations from a source identifier: the
//! base filename, the extension swap that turns a source name into its
//! artifact or log name, and joining a directory with a filename.

use crate::strutil::{push_char, str_eq, str_tail};
use vstd::prelude::*;

verus! {

/// The position of the last occurrence of `c` in `s`, or -1 when `c` does not
/// occur.
pub open spec fn last_index_of(s: Seq<char>, c: char) -> int
    decreases s.len(),
{
    if s.len() == 0 {
        -1
    } else if s.last() == c {
        s.len() - 1
    } else {
        last_index_of(s.drop_last(), c)
    }
}

proof fn lemma_last_index_of_bounds(s: Seq<char>, c: char)
    ensures
        -1 <= last_index_of(s, c) < s.len(),
    decreases s.len(),
{
    if s.len() > 0 && s.last() != c {
        lemma_last_index_of_bounds(s.drop_last(), c);
    }
}

/// The final path component: everything after the last `/`, or the whole
/// string when there is no `/`.
pub open spec fn spec_base_name(p: Seq<char>) -> Seq<char> {
    p.subrange(last_index_of(p, '/') + 1, p.len() as int)
}

/// The filename without its extension. A filename has an extension when a
/// `.` occurs past its first character; a lone leading `.` marks a hidden
/// file, not an extension.
pub open spec fn spec_stem(name: Seq<char>) -> Seq<char> {
    let d = last_index_of(name, '.');
    if d >= 1 {
        name.take(d)
    } else {
        name
    }
}

/// The path with the extension of its final component replaced by `ext`
/// (appended when the component has none); directories are untouched.
pub open spec fn spec_with_extension(p: Seq<char>, ext: Seq<char>) -> Seq<char> {
    p.take(p.len() - spec_base_name(p).len()) + spec_stem(spec_base_name(p)) + seq!['.'] + ext
}

/// `dir` and `name` joined with a single `/` between them.
pub open spec fn spec_join(dir: Seq<char>, name: Seq<char>) -> Seq<char> {
    if dir.len() == 0 {
        name
    } else if dir.last() == '/' {
        dir + name
    } else {
        dir + seq!['/'] + name
    }
}

/// An identifier taken from a request path is safe to use as a filename only
/// if it names a plain file: nonempty, free of path separators, and not a
/// relative directory component.
pub open spec fn spec_id_is_safe(id: Seq<char>) -> bool {
    &&& id.len() > 0
    &&& forall|i: int| 0 <= i < id.len() ==> id[i] != '/' && id[i] != '\\'
    &&& id != "."@
    &&& id != ".."@
}

/// The position just past the last `/` of `s`, or `None` when `s` holds no
/// `/`.
fn find_last_char(s: &str, c: char) -> (r: Option<usize>)
    ensures
        match r {
            Some(i) => last_index_of(s@, c) == i && i < s@.len(),
            None => last_index_of(s@, c) == -1,
        },
{
    let mut i = s.unicode_len();
    proof {
        assert(s@.take(i as int) =~= s@);
    }
    while i > 0
        invariant
            i <= s@.len(),
            last_index_of(s@, c) == last_index_of(s@.take(i as int), c),
        decreases i,
    {
        i = i - 1;
        let ghost pre = s@.take(i + 1);
        proof {
            assert(pre.last() == s@[i as int]);
        }
        if s.get_char(i) == c {
            proof {
                lemma_last_index_of_bounds(s@, c);
            }
            return Some(i);
        }
        proof {
            assert(pre.drop_last() =~= s@.take(i as int));
        }
    }
    proof {
        assert(s@.take(0) =~= Seq::<char>::empty());
    }
    None
}

/// The final path component of `p`, as an owned string.
pub fn base_name(p: &str) -> (r: String)
    ensures
        r@ == spec_base_name(p@),
{
    let n = p.unicode_len();
    match find_last_char(p, '/') {
        Some(i) => {
            proof {
                assert(i < n);
            }
            str_tail(p, i + 1)
        },
        None => str_tail(p, 0),
    }
}

/// `p` with the extension of its final component replaced by `ext`.
pub fn with_extension(p: &str, ext: &str) -> (r: String)
    ensures
        r@ == spec_with_extension(p@, ext@),
{
    let n = p.unicode_len();
    let b = match find_last_char(p, '/') {
        Some(i) => i + 1,
        None => 0,
    };
    let base = p.substring_char(b, n);
    proof {
        assert(base@ == spec_base_name(p@));
    }
    let cut = match find_last_char(base, '.') {
        Some(d) => {
            if d >= 1 {
                b + d
            } else {
                n
            }
        },
        None => n,
    };
    proof {
        let d = last_index_of(base@, '.');
        if d >= 1 {
            assert(p@.take(b as int) + base@.take(d) =~= p@.take(b + d));
        } else {
            assert(p@.take(b as int) + base@ =~= p@);
            assert(p@.take(n as int) =~= p@);
        }
    }
    let mut out = String::from_str(p.substring_char(0, cut));
    push_char(&mut out, '.');
    out.append(ext);
    proof {
        assert(p@.take(cut as int).push('.') + ext@ =~= p@.take(cut as int) + seq!['.'] + ext@);
        assert(p@.take(b as int) == p@.take(p@.len() - spec_base_name(p@).len()));
    }
    out
}

/// The artifact filename for a source: its extension replaced by `pdf`.
pub fn pdf_name(tex_name: &str) -> (r: String)
    ensures
        r@ == spec_with_extension(tex_name@, "pdf"@),
{
    with_extension(tex_name, "pdf")
}

/// `dir` and `name` joined with a single `/` between them.
pub fn join_path(dir: &str, name: &str) -> (r: String)
    ensures
        r@ == spec_join(dir@, name@),
{
    let n = dir.unicode_len();
    if n == 0 {
        return String::from_str(name);
    }
    let mut out = String::from_str(dir);
    if dir.get_char(n - 1) != '/' {
        push_char(&mut out, '/');
        proof {
            assert(dir@.push('/') + name@ =~= dir@ + seq!['/'] + name@);
        }
    }
    out.append(name);
    out
}

/// Where the build log of a source lives: the source's base filename with its
/// extension replaced by `log`, inside the intermediate directory.
pub fn log_file(intermediates_dir: &str, tex_name: &str) -> (r: String)
    ensures
        r@ == spec_join(intermediates_dir@, spec_base_name(spec_with_extension(tex_name@, "log"@))),
{
    let with_log = with_extension(tex_name, "log");
    let name = base_name(with_log.as_str());
    join_path(intermediates_dir, name.as_str())
}

/// Where one build's artifact appears and where it is published: the same
/// derived filename inside the intermediate directory and inside the public
/// output directory.
pub struct ArtifactPlan {
    /// The artifact the compiler writes into the intermediate directory.
    pub intermediate: String,
    /// Where a successful build's artifact is copied for serving.
    pub destination: String,
}

/// The artifact locations for one source: its base filename with the
/// extension replaced by `pdf`, under the intermediate directory and under
/// the public output directory.
pub fn artifact_paths(intermediates_dir: &str, out_dir: &str, source: &str) -> (r: ArtifactPlan)
    ensures
        ({
            let name = spec_base_name(spec_with_extension(source@, "pdf"@));
            &&& r.intermediate@ == spec_join(intermediates_dir@, name)
            &&& r.destination@ == spec_join(out_dir@, name)
        }),
{
    let with_pdf = with_extension(source, "pdf");
    let name = base_name(with_pdf.as_str());
    ArtifactPlan {
        intermediate: join_path(intermediates_dir, name.as_str()),
        destination: join_path(out_dir, name.as_str()),
    }
}

/// Whether an identifier from a request path may be used as a filename.
pub fn id_is_safe(id: &str) -> (r: bool)
    ensures
        r == spec_id_is_safe(id@),
{
    proof {
        reveal_strlit(".");
        reveal_strlit("..");
    }
    let n = id.unicode_len();
    if n == 0 {
        return false;
    }
    if str_eq(id, ".") || str_eq(id, "..") {
        return false;
    }
    let mut i: usize = 0;
    while i < n
        invariant
            n == id@.len(),
            i <= n,
            forall|j: int| 0 <= j < i ==> id@[j] != '/' && id@[j] != '\\',
        decreases n - i,
    {
        let c = id.get_char(i);
        if c == '/' || c == '\\' {
            return false;
        }
        i += 1;
    }
    true
}

} // verus!
