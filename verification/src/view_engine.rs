//! The view engine's verifiable core: the wrapper handed to request
//! handlers, the naming of reusable view components by their path, the
//! wrapping of raw HTML components, and the debounce rule of the
//! template watcher. Template rendering itself is outside work done by
//! the enclosing service.

use vstd::prelude::*;
use vstd::string::{StrSliceExecFns, StringExecFns};

use crate::text::str_eq;

verus! {

/// Wraps a rendering engine for extraction in request handlers.
#[derive(Debug, PartialEq, Eq, Clone)]
pub struct ViewEngine<E>(pub E);

impl<E> ViewEngine<E> {
    /// Wraps the given engine.
    pub fn new(engine: E) -> (r: Self)
        ensures
            r.0 == engine,
    {
        ViewEngine(engine)
    }
}

/// A path separator.
pub open spec fn is_sep(c: char) -> bool {
    c == '/' || c == '\\'
}

/// The index of the last `'.'`, or -1.
pub open spec fn last_dot(s: Seq<char>) -> int
    decreases s.len(),
{
    if s.len() == 0 {
        -1
    } else if s.last() == '.' {
        s.len() - 1
    } else {
        last_dot(s.drop_last())
    }
}

/// The index of the last path separator, or -1.
pub open spec fn last_sep(s: Seq<char>) -> int
    decreases s.len(),
{
    if s.len() == 0 {
        -1
    } else if is_sep(s.last()) {
        s.len() - 1
    } else {
        last_sep(s.drop_last())
    }
}

/// Extending a prefix moves the last-dot index exactly when the new
/// character is a dot.
pub proof fn lemma_last_dot_step(s: Seq<char>, i: int)
    requires
        0 <= i < s.len(),
    ensures
        last_dot(s.subrange(0, i + 1)) == if s[i] == '.' {
            i
        } else {
            last_dot(s.subrange(0, i))
        },
{
    assert(s.subrange(0, i + 1).drop_last() =~= s.subrange(0, i));
    assert(s.subrange(0, i + 1).last() == s[i]);
}

/// Extending a prefix moves the last-separator index exactly when the
/// new character is a separator.
pub proof fn lemma_last_sep_step(s: Seq<char>, i: int)
    requires
        0 <= i < s.len(),
    ensures
        last_sep(s.subrange(0, i + 1)) == if is_sep(s[i]) {
            i
        } else {
            last_sep(s.subrange(0, i))
        },
{
    assert(s.subrange(0, i + 1).drop_last() =~= s.subrange(0, i));
    assert(s.subrange(0, i + 1).last() == s[i]);
}

/// The index of the dot starting the extension, or -1: the last dot,
/// provided it comes after the last separator and does not begin the
/// file name (a leading dot hides a file, it opens no extension).
pub open spec fn ext_dot(s: Seq<char>) -> int {
    if last_dot(s) > last_sep(s) + 1 {
        last_dot(s)
    } else {
        -1
    }
}

/// The path without its extension.
pub open spec fn stem_of(s: Seq<char>) -> Seq<char> {
    if ext_dot(s) >= 0 {
        s.subrange(0, ext_dot(s))
    } else {
        s
    }
}

/// The extension after its dot, or empty.
pub open spec fn ext_of(s: Seq<char>) -> Seq<char> {
    if ext_dot(s) >= 0 {
        s.subrange(ext_dot(s) + 1, s.len() as int)
    } else {
        Seq::empty()
    }
}

/// The component key of a relative path: the path without its
/// extension, separators replaced by `'-'` — so `a/b/card.html`
/// renders as the element `a-b-card`.
pub open spec fn key_of(s: Seq<char>) -> Seq<char> {
    stem_of(s).map_values(
        |c: char|
            if is_sep(c) {
                '-'
            } else {
                c
            },
    )
}

/// The index of the extension dot of `s`, or `None`.
fn find_ext_dot(s: &str) -> (r: Option<usize>)
    ensures
        match r {
            Some(d) => ext_dot(s@) == d && d < s@.len() && ext_of(s@) == s@.subrange(
                d as int + 1,
                s@.len() as int,
            ) && stem_of(s@) == s@.subrange(0, d as int),
            None => ext_dot(s@) == -1 && ext_of(s@) == Seq::<char>::empty() && stem_of(s@) == s@,
        },
{
    let n = s.unicode_len();
    let mut dot: Option<usize> = None;
    let mut sep: Option<usize> = None;
    let mut i: usize = 0;
    while i < n
        invariant
            n == s@.len(),
            0 <= i <= n,
            match dot {
                None => last_dot(s@.subrange(0, i as int)) == -1,
                Some(d) => last_dot(s@.subrange(0, i as int)) == d && d < i,
            },
            match sep {
                None => last_sep(s@.subrange(0, i as int)) == -1,
                Some(p) => last_sep(s@.subrange(0, i as int)) == p && p < i,
            },
        decreases n - i,
    {
        proof {
            lemma_last_dot_step(s@, i as int);
            lemma_last_sep_step(s@, i as int);
        }
        let c = s.get_char(i);
        if c == '.' {
            dot = Some(i);
        } else if c == '/' || c == '\\' {
            sep = Some(i);
        }
        i = i + 1;
    }
    proof {
        assert(s@.subrange(0, n as int) =~= s@);
    }
    match (dot, sep) {
        (Some(d), Some(p)) => if d > p + 1 {
            Some(d)
        } else {
            None
        },
        (Some(d), None) => if d >= 1 {
            Some(d)
        } else {
            None
        },
        _ => None,
    }
}

/// The component key of a relative path, per [`key_of`].
pub fn component_key(rel_path: &str) -> (r: String)
    ensures
        r@ == key_of(rel_path@),
{
    let stem_end: usize = match find_ext_dot(rel_path) {
        Some(d) => d,
        None => rel_path.unicode_len(),
    };
    let mut out = String::new();
    let mut i: usize = 0;
    while i < stem_end
        invariant
            stem_end <= rel_path@.len(),
            0 <= i <= stem_end,
            out@ == rel_path@.subrange(0, i as int).map_values(
                |c: char|
                    if is_sep(c) {
                        '-'
                    } else {
                        c
                    },
            ),
        decreases stem_end - i,
    {
        let ghost prev = out@;
        let c = rel_path.get_char(i);
        if c == '/' || c == '\\' {
            out.push('-');
        } else {
            out.push(c);
        }
        proof {
            assert(out@ =~= rel_path@.subrange(0, i + 1).map_values(
                |c: char|
                    if is_sep(c) {
                        '-'
                    } else {
                        c
                    },
            ));
        }
        i = i + 1;
    }
    proof {
        if ext_dot(rel_path@) >= 0 {
            assert(rel_path@.subrange(0, stem_end as int) =~= stem_of(rel_path@));
        } else {
            assert(rel_path@.subrange(0, stem_end as int) =~= rel_path@);
        }
    }
    out
}

/// The wrapper that turns a raw HTML component file into a component
/// function for server-side rendering.
pub open spec fn html_component_fn(content: Seq<char>) -> Seq<char> {
    "function ({html, state}){return html`"@ + content + "`}"@
}

/// Wraps raw HTML component content per [`html_component_fn`].
pub fn wrap_html_component(content: &str) -> (r: String)
    ensures
        r@ == html_component_fn(content@),
{
    let mut s = String::from_str("function ({html, state}){return html`");
    s.append(content);
    s.append("`}");
    proof {
        assert(s@ =~= html_component_fn(content@));
    }
    s
}

/// Minimum quiet time between accepted reloads of one path, in
/// milliseconds.
pub const RELOAD_DEBOUNCE_MS: u64 = 300;

/// An editor temp or backup file, which never triggers a reload: a
/// name ending in `'~'`, or with extension `swp`, `swx` or `bak`.
pub open spec fn is_temp_path(s: Seq<char>) -> bool {
    ||| (s.len() > 0 && s.last() == '~')
    ||| ext_of(s) == "swp"@
    ||| ext_of(s) == "swx"@
    ||| ext_of(s) == "bak"@
}

/// Enough quiet time has passed since the last accepted reload of
/// this path (or there was none).
pub open spec fn reload_due(now_ms: u64, last_ms: Option<u64>) -> bool {
    match last_ms {
        None => true,
        Some(t) => t + RELOAD_DEBOUNCE_MS <= now_ms,
    }
}

/// Whether the path carries one of the editor temp extensions.
fn has_temp_ext(path: &str) -> (r: bool)
    ensures
        r == (ext_of(path@) == "swp"@ || ext_of(path@) == "swx"@ || ext_of(path@) == "bak"@),
{
    let n = path.unicode_len();
    match find_ext_dot(path) {
        Some(d) => {
            let ext = path.substring_char(d + 1, n);
            let r = str_eq(ext, "swp") || str_eq(ext, "swx") || str_eq(ext, "bak");
            return r;
        },
        None => {
            proof {
                reveal_strlit("swp");
                reveal_strlit("swx");
                reveal_strlit("bak");
                assert("swp"@.len() == 3);
                assert("swx"@.len() == 3);
                assert("bak"@.len() == 3);
                assert(ext_of(path@) != "swp"@);
                assert(ext_of(path@) != "swx"@);
                assert(ext_of(path@) != "bak"@);
            }
            return false;
        },
    }
}

/// The watcher's decision for a changed file: reload the browser
/// exactly when the file is no temp or backup file and the path's
/// debounce window has passed.
pub fn should_reload(path: &str, now_ms: u64, last_ms: Option<u64>) -> (r: bool)
    ensures
        r == (!is_temp_path(path@) && reload_due(now_ms, last_ms)),
{
    let n = path.unicode_len();
    if n > 0 && path.get_char(n - 1) == '~' {
        return false;
    }
    if has_temp_ext(path) {
        return false;
    }
    match last_ms {
        None => true,
        Some(t) => now_ms >= RELOAD_DEBOUNCE_MS && t <= now_ms - RELOAD_DEBOUNCE_MS,
    }
}

} // verus!

