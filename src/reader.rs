//! Which paths name markdown files, and the decisions of the file reader:
//! what the filesystem reports about the target decides whether it may be
//! read, and the size of what was read decides whether it is handed out.
use vstd::prelude::*;

use crate::error::{MarkdownError, MarkdownResult, MAX_FILE_SIZE};
use crate::text::to_chars;

verus! {

/// `s` without trailing separators and trailing `.` components, which do
/// not change the final component of a path (`docs/a.md/./` ends in `a.md`).
pub open spec fn strip_tail(s: Seq<char>) -> Seq<char>
    decreases s.len(),
{
    if s.len() == 0 {
        s
    } else if s.last() == '/' {
        strip_tail(s.drop_last())
    } else if s == seq!['.'] {
        Seq::empty()
    } else if s.len() >= 2 && s.last() == '.' && s[s.len() - 2] == '/' {
        strip_tail(s.drop_last())
    } else {
        s
    }
}

/// Where the last component of `t` starts: just after its last `/`, or 0.
pub open spec fn component_start(t: Seq<char>) -> int
    decreases t.len(),
{
    if t.len() == 0 {
        0
    } else if t.last() == '/' {
        t.len() as int
    } else {
        component_start(t.drop_last())
    }
}

/// The index of the last `.` in `n`, or -1 when there is none.
pub open spec fn last_dot(n: Seq<char>) -> int
    decreases n.len(),
{
    if n.len() == 0 {
        -1
    } else if n.last() == '.' {
        n.len() - 1
    } else {
        last_dot(n.drop_last())
    }
}

/// The final component of a path: none for a path that is empty, the root,
/// or ends in `..`.
pub open spec fn file_name(s: Seq<char>) -> Option<Seq<char>> {
    let t = strip_tail(s);
    let name = t.subrange(component_start(t), t.len() as int);
    if name.len() == 0 || name == seq!['.', '.'] {
        None
    } else {
        Some(name)
    }
}

/// The extension of a path: what follows the last `.` of its final
/// component, where that `.` is not the component's first character
/// (`.md` alone is a hidden file without extension).
pub open spec fn extension_of(s: Seq<char>) -> Option<Seq<char>> {
    match file_name(s) {
        Some(name) => if last_dot(name) > 0 {
            Some(name.subrange(last_dot(name) + 1, name.len() as int))
        } else {
            None
        },
        None => None,
    }
}

/// Every character of `s` is ASCII.
pub open spec fn ascii_text(s: Seq<char>) -> bool {
    forall|i: int| 0 <= i < s.len() ==> (#[trigger] s[i] as u32) < 128
}

/// The code of `c` with an ASCII capital letter taken to its small letter.
pub open spec fn fold_code(c: char) -> u32 {
    if 0x41 <= c as u32 && c as u32 <= 0x5a {
        (c as u32 + 32) as u32
    } else {
        c as u32
    }
}

/// `a` and `b` are equal up to the case of ASCII letters.
pub open spec fn same_letters(a: Seq<char>, b: Seq<char>) -> bool {
    &&& a.len() == b.len()
    &&& forall|i: int| 0 <= i < a.len() ==> fold_code(#[trigger] a[i]) == fold_code(b[i])
}

/// What `str::to_lowercase` returns for the characters `s`.
pub uninterp spec fn lower_of(s: Seq<char>) -> Seq<char>;

/// Relies on `str::to_lowercase`: the lowercase form of the text, by the
/// Unicode `Lowercase` mapping, which on ASCII text only takes `A`..`Z` to
/// `a`..`z`, character for character.
#[verifier::external_body]
fn lowercase(s: &str) -> (r: String)
    ensures
        r@ == lower_of(s@),
        ascii_text(s@) ==> r@.len() == s@.len() && forall|i: int|
            0 <= i < s@.len() ==> (#[trigger] r@[i]) as u32 == fold_code(s@[i]),
{
    s.to_lowercase()
}

/// The recognised extensions, in lower case.
pub open spec fn markdown_extension(lowered: Seq<char>) -> bool {
    lowered == seq!['m', 'd'] || lowered == seq!['m', 'a', 'r', 'k', 'd', 'o', 'w', 'n']
}

/// A path names a markdown file when its extension, in lower case, is `md`
/// or `markdown`.
pub open spec fn markdown_path(s: Seq<char>) -> bool {
    match extension_of(s) {
        Some(e) => markdown_extension(lower_of(e)),
        None => false,
    }
}

/// The path has an extension, all of it ASCII.
pub open spec fn has_ascii_extension(s: Seq<char>) -> bool {
    extension_of(s) matches Some(e) && ascii_text(e)
}

/// The extension is `md` or `markdown` up to the case of its letters.
pub open spec fn ascii_markdown_extension(e: Seq<char>) -> bool {
    same_letters(e, seq!['m', 'd']) || same_letters(e, seq!['m', 'a', 'r', 'k', 'd', 'o', 'w', 'n'])
}

/// The extension a path is reported with: its extension, or `none`.
pub open spec fn reported_extension(s: Seq<char>) -> Seq<char> {
    match extension_of(s) {
        Some(e) => e,
        None => seq!['n', 'o', 'n', 'e'],
    }
}

/// The extension of `path` (see `extension_of`).
pub fn path_extension(path: &str) -> (r: Option<String>)
    ensures
        r is None <==> extension_of(path@) is None,
        r matches Some(e) ==> extension_of(path@) == Some(e@),
{
    let cs = to_chars(path);
    // Drop trailing separators and `.` components: `cs[..j]` is what remains.
    let mut j: usize = cs.len();
    assert(cs@.take(j as int) =~= cs@);
    loop
        invariant
            cs@ == path@,
            j <= cs.len(),
            strip_tail(cs@) == strip_tail(cs@.take(j as int)),
        ensures
            j <= cs.len(),
            strip_tail(cs@) == cs@.take(j as int),
        decreases j,
    {
        if j > 0 && cs[j - 1] == '/' {
            assert(cs@.take(j as int).drop_last() =~= cs@.take(j - 1));
            j = j - 1;
        } else if j == 1 && cs[0] == '.' {
            assert(cs@.take(1) =~= seq!['.']);
            assert(cs@.take(0) =~= Seq::<char>::empty());
            j = 0;
        } else if j >= 2 && cs[j - 1] == '.' && cs[j - 2] == '/' {
            assert(cs@.take(j as int).drop_last() =~= cs@.take(j - 1));
            j = j - 1;
        } else {
            break;
        }
    }
    // The final component is `cs[k..j]`.
    let ghost t = cs@.take(j as int);
    let mut k: usize = j;
    while k > 0 && cs[k - 1] != '/'
        invariant
            k <= j <= cs.len(),
            t == cs@.take(j as int),
            component_start(t) == component_start(cs@.take(k as int)),
        decreases k,
    {
        assert(cs@.take(k as int).drop_last() =~= cs@.take(k - 1));
        k = k - 1;
    }
    assert(cs@.subrange(k as int, j as int) =~= t.subrange(component_start(t), t.len() as int));
    if k == j || (j - k == 2 && cs[k] == '.' && cs[k + 1] == '.') {
        if k < j {
            assert(cs@.subrange(k as int, j as int) =~= seq!['.', '.']);
        }
        return None;
    }
    // The extension starts at `m`, after the component's last dot.
    let ghost name = cs@.subrange(k as int, j as int);
    let mut m: usize = j;
    while m > k && cs[m - 1] != '.'
        invariant
            k <= m <= j <= cs.len(),
            name == cs@.subrange(k as int, j as int),
            last_dot(name) == last_dot(cs@.subrange(k as int, m as int)),
        decreases m,
    {
        assert(cs@.subrange(k as int, m as int).drop_last() =~= cs@.subrange(k as int, m - 1));
        m = m - 1;
    }
    if m <= k + 1 {
        return None;
    }
    let ext = path.substring_char(m, j);
    assert(ext@ =~= name.subrange(last_dot(name) + 1, name.len() as int));
    Some(String::from_str(ext))
}

/// Whether `lowered`, an extension already in lower case, is `md` or
/// `markdown`.
pub fn is_markdown_extension(lowered: &str) -> (r: bool)
    ensures
        r == markdown_extension(lowered@),
{
    let cs = to_chars(lowered);
    let md = cs.len() == 2 && cs[0] == 'm' && cs[1] == 'd';
    let long = cs.len() == 8 && cs[0] == 'm' && cs[1] == 'a' && cs[2] == 'r' && cs[3] == 'k'
        && cs[4] == 'd' && cs[5] == 'o' && cs[6] == 'w' && cs[7] == 'n';
    if md {
        assert(cs@ =~= seq!['m', 'd']);
    }
    if long {
        assert(cs@ =~= seq!['m', 'a', 'r', 'k', 'd', 'o', 'w', 'n']);
    }
    md || long
}

/// Whether `path` names a markdown file: its extension, compared without
/// regard to case, is `md` or `markdown`. The filesystem is not asked.
pub fn is_markdown_file(path: &str) -> (r: bool)
    ensures
        r == markdown_path(path@),
        extension_of(path@) is None ==> !r,
        has_ascii_extension(path@) ==> r == ascii_markdown_extension(reported_extension(path@)),
{
    match path_extension(path) {
        None => false,
        Some(ext) => {
            let lowered = lowercase(ext.as_str());
            let r = is_markdown_extension(lowered.as_str());
            proof {
                if ascii_text(ext@) {
                    lemma_lowered_is_letters(lowered@, ext@, seq!['m', 'd']);
                    lemma_lowered_is_letters(
                        lowered@,
                        ext@,
                        seq!['m', 'a', 'r', 'k', 'd', 'o', 'w', 'n'],
                    );
                }
            }
            r
        },
    }
}

/// Changing the case of ASCII letters in a path's extension does not change
/// whether the path names a markdown file.
pub proof fn lemma_markdown_check_ignores_case(p: Seq<char>, q: Seq<char>)
    requires
        has_ascii_extension(p),
        extension_of(q) is Some,
        same_letters(reported_extension(p), reported_extension(q)),
    ensures
        has_ascii_extension(q),
        ascii_markdown_extension(reported_extension(p)) == ascii_markdown_extension(
            reported_extension(q),
        ),
{
    let e = reported_extension(p);
    let f = reported_extension(q);
    assert forall|i: int| 0 <= i < f.len() implies (#[trigger] f[i] as u32) < 128 by {
        assert(fold_code(e[i]) == fold_code(f[i]));
        assert((e[i] as u32) < 128);
    }
    lemma_same_letters_agree(e, f, seq!['m', 'd']);
    lemma_same_letters_agree(e, f, seq!['m', 'a', 'r', 'k', 'd', 'o', 'w', 'n']);
}

/// Text that matches `t` up to case maps every third text alike.
proof fn lemma_same_letters_agree(a: Seq<char>, b: Seq<char>, t: Seq<char>)
    requires
        same_letters(a, b),
    ensures
        same_letters(a, t) == same_letters(b, t),
{
    if same_letters(a, t) {
        assert forall|i: int| 0 <= i < b.len() implies fold_code(#[trigger] b[i]) == fold_code(
            t[i],
        ) by {
            assert(fold_code(a[i]) == fold_code(b[i]));
        }
    }
    if same_letters(b, t) {
        assert forall|i: int| 0 <= i < a.len() implies fold_code(#[trigger] a[i]) == fold_code(
            t[i],
        ) by {
            assert(fold_code(a[i]) == fold_code(b[i]));
        }
    }
}

/// A character is determined by its code.
proof fn lemma_same_code_same_char(a: char, b: char)
    requires
        a as u32 == b as u32,
    ensures
        a == b,
{
}

/// Where `l` is `e` with its ASCII capitals made small, `l` equals a text
/// `t` in small letters exactly when `e` matches `t` up to case.
proof fn lemma_lowered_is_letters(l: Seq<char>, e: Seq<char>, t: Seq<char>)
    requires
        l.len() == e.len(),
        forall|i: int| 0 <= i < e.len() ==> (#[trigger] l[i]) as u32 == fold_code(e[i]),
        forall|i: int| 0 <= i < t.len() ==> fold_code(#[trigger] t[i]) == t[i] as u32,
    ensures
        l == t <==> same_letters(e, t),
{
    if same_letters(e, t) {
        assert forall|i: int| 0 <= i < t.len() implies l[i] == t[i] by {
            assert((l[i]) as u32 == fold_code(e[i]));
            assert(fold_code(e[i]) == fold_code(t[i]));
            assert(fold_code(t[i]) == t[i] as u32);
            lemma_same_code_same_char(l[i], t[i]);
        }
        assert(l =~= t);
    }
    if l == t {
        assert forall|i: int| 0 <= i < e.len() implies fold_code(#[trigger] e[i]) == fold_code(
            t[i],
        ) by {
            assert((l[i]) as u32 == fold_code(e[i]));
        }
    }
}

/// Decides, from what the filesystem reports about `path`, whether it may be
/// read. The checks run in order and the first failure is the answer: the
/// path must exist, be a regular file, and name a markdown file.
pub fn check_target(path: &str, exists: bool, is_file: bool) -> (r: MarkdownResult<()>)
    ensures
        !exists ==> (r matches Err(MarkdownError::FileNotFound(p)) && p@ == path@),
        exists && !is_file ==> (r matches Err(MarkdownError::NotAFile(p)) && p@ == path@),
        exists && is_file && !markdown_path(path@) ==> (r matches Err(
            MarkdownError::InvalidExtension(p, x),
        ) && p@ == path@ && x@ == reported_extension(path@)),
        exists && is_file && markdown_path(path@) ==> r is Ok,
{
    if !exists {
        return Err(MarkdownError::FileNotFound(String::from_str(path)));
    }
    if !is_file {
        return Err(MarkdownError::NotAFile(String::from_str(path)));
    }
    if !is_markdown_file(path) {
        let ext = match path_extension(path) {
            Some(e) => e,
            None => {
                proof {
                    reveal_strlit("none");
                }
                let none = String::from_str("none");
                assert(none@ =~= seq!['n', 'o', 'n', 'e']);
                none
            },
        };
        return Err(MarkdownError::InvalidExtension(String::from_str(path), ext));
    }
    Ok(())
}

/// The number of bytes of the UTF-8 encoding of `s`.
pub open spec fn byte_size(s: Seq<char>) -> nat {
    vstd::utf8::encode_utf8(s).len()
}

/// Decides whether the text read from `path` is handed out: content over the
/// size ceiling is refused with its size; any other comes back unchanged.
pub fn check_content(path: &str, content: String) -> (r: MarkdownResult<String>)
    requires
        byte_size(content@) <= usize::MAX,
    ensures
        byte_size(content@) > MAX_FILE_SIZE ==> (r matches Err(MarkdownError::FileTooLarge(p, n))
            && p@ == path@ && n == byte_size(content@)),
        byte_size(content@) <= MAX_FILE_SIZE ==> r == Ok::<String, MarkdownError>(content),
{
    let size = content.as_str().len();
    if size > MAX_FILE_SIZE {
        return Err(MarkdownError::FileTooLarge(String::from_str(path), size));
    }
    Ok(content)
}

} // verus!
