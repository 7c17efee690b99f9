use vstd::prelude::*;
use vstd::string::*;
use crate::errors::HeatmapError;

verus! {

/// Length of the path without its trailing separators. Path parsing ignores
/// them, so `dir/` names the same file as `dir`.
pub open spec fn content_len(s: Seq<char>) -> int
    decreases s.len(),
{
    if s.len() == 0 {
        0
    } else if s[s.len() - 1] == '/' {
        content_len(s.drop_last())
    } else {
        s.len() as int
    }
}

/// Length of the directory part of a path: everything up to and including
/// the last separator, 0 when there is none.
pub open spec fn dir_len(s: Seq<char>) -> int
    decreases s.len(),
{
    if s.len() == 0 {
        0
    } else if s[s.len() - 1] == '/' {
        s.len() as int
    } else {
        dir_len(s.drop_last())
    }
}

/// The filename part of a path: what stands after the last separator, once
/// trailing separators are dropped.
pub open spec fn filename_of(s: Seq<char>) -> Seq<char> {
    let t = s.take(content_len(s));
    t.subrange(dir_len(t), t.len() as int)
}

/// The index of the last `.` of the filename that lies in `[1, k)`, or the
/// filename's length as a sentinel when there is none. A leading dot never
/// separates an extension, so a dotfile keeps its whole name as its stem.
pub open spec fn last_dot_in(f: Seq<char>, k: int) -> int
    decreases k,
{
    if k <= 1 {
        f.len() as int
    } else if f[k - 1] == '.' {
        k - 1
    } else {
        last_dot_in(f, k - 1)
    }
}

/// The index of the `.` that separates the filename's stem from its
/// extension, or the filename's length when it has no extension.
pub open spec fn split_idx(f: Seq<char>) -> int {
    last_dot_in(f, f.len() as int)
}

/// Whether a path has a valid filename stem: a nonempty filename that is
/// neither `.` nor `..`.
pub open spec fn has_valid_stem(s: Seq<char>) -> bool {
    let f = filename_of(s);
    f.len() > 0 && f != seq!['.'] && f != seq!['.', '.']
}

/// The sibling output path: the directory part kept, `-heatmap` appended to
/// the filename stem, and the extension preserved (`png` when the filename
/// has none). Trailing separators are dropped with the rest of what follows
/// the filename.
pub open spec fn derived_path(s: Seq<char>) -> Seq<char> {
    let t = s.take(content_len(s));
    let d = dir_len(t);
    let f = filename_of(s);
    let j = split_idx(f);
    let stem = if j == f.len() {
        f
    } else {
        f.subrange(0, j)
    };
    let ext = if j == f.len() {
        "png"@
    } else {
        f.subrange(j + 1, f.len() as int)
    };
    t.subrange(0, d) + stem + "-heatmap."@ + ext
}

/// The sentinel-or-dot-index is always within the filename.
proof fn lemma_last_dot_in_range(f: Seq<char>, k: int)
    requires
        k <= f.len(),
    ensures
        1 <= last_dot_in(f, k) || last_dot_in(f, k) == f.len(),
        last_dot_in(f, k) <= f.len(),
    decreases k,
{
    if k > 1 && f[k - 1] != '.' {
        lemma_last_dot_in_range(f, k - 1);
    }
}

/// Derive the output path for an input path: a sibling file with `-heatmap`
/// appended to the stem and the extension preserved, `png` when there is
/// none. Trailing separators are ignored, so `dir/` derives the same path
/// as `dir`. Fails with `InvalidPath` exactly when the input has no valid
/// filename stem (an empty filename, `.`, or `..`).
pub fn derive_output_path(input: &str) -> (r: Result<String, HeatmapError>)
    ensures
        r is Ok <==> has_valid_stem(input@),
        r matches Ok(p) ==> p@ == derived_path(input@),
        r matches Err(e) ==> e == HeatmapError::InvalidPath,
{
    let n = input.unicode_len();
    let ghost s = input@;
    proof {
        assert(s.take(n as int) =~= s);
    }
    let mut e: usize = n;
    loop
        invariant_except_break
            e <= n,
            n == s.len(),
            s == input@,
            content_len(s) == content_len(s.take(e as int)),
        ensures
            e <= n,
            n == s.len(),
            content_len(s) == e,
        decreases e,
    {
        if e == 0 {
            break ;
        }
        if input.get_char(e - 1) != '/' {
            proof {
                assert(s.take(e as int).len() == e);
                assert(s.take(e as int)[e - 1] != '/');
            }
            break ;
        }
        proof {
            assert(s.take(e as int).drop_last() =~= s.take(e as int - 1));
        }
        e = e - 1;
    }
    let ghost t = s.take(content_len(s));
    proof {
        assert(t.len() == e);
        assert(forall|i: int| 0 <= i < e ==> t[i] == s[i]);
        assert(t.take(e as int) =~= t);
    }
    let mut d: usize = e;
    loop
        invariant_except_break
            d <= e,
            e <= n,
            n == s.len(),
            s == input@,
            t == s.take(content_len(s)),
            content_len(s) == e,
            t.len() == e,
            dir_len(t) == dir_len(t.take(d as int)),
        ensures
            d <= e <= n,
            n == s.len(),
            t.len() == e,
            dir_len(t) == d,
        decreases d,
    {
        if d == 0 {
            break ;
        }
        proof {
            assert(t.take(d as int).len() == d);
            assert(t.take(d as int)[d - 1] == t[d - 1]);
            assert(t[d - 1] == s[d - 1]);
        }
        if input.get_char(d - 1) == '/' {
            break ;
        }
        proof {
            assert(t.take(d as int).drop_last() =~= t.take(d as int - 1));
        }
        d = d - 1;
    }
    let m = e - d;
    let ghost f = filename_of(s);
    proof {
        assert(f =~= s.subrange(d as int, e as int));
        assert(f.len() == m);
    }
    if m == 0 {
        proof {
            assert(!has_valid_stem(s));
        }
        return Err(HeatmapError::InvalidPath);
    }
    if m == 1 && input.get_char(d) == '.' {
        proof {
            assert(f =~= seq!['.']);
        }
        return Err(HeatmapError::InvalidPath);
    }
    if m == 2 && input.get_char(d) == '.' && input.get_char(d + 1) == '.' {
        proof {
            assert(f =~= seq!['.', '.']);
        }
        return Err(HeatmapError::InvalidPath);
    }
    proof {
        if f == seq!['.'] {
            assert(f.len() == 1 && f[0] == '.');
            assert(s[d as int] == '.');
        }
        if f == seq!['.', '.'] {
            assert(f.len() == 2 && f[0] == '.' && f[1] == '.');
            assert(s[d as int] == '.' && s[d + 1] == '.');
        }
        assert(has_valid_stem(s));
    }
    let mut k: usize = m;
    let mut j: usize = m;
    loop
        invariant_except_break
            1 <= k <= m,
            m == f.len(),
            n == s.len(),
            d + m == e,
            e <= n,
            s == input@,
            f == filename_of(s),
            f == s.subrange(d as int, e as int),
            t == s.take(content_len(s)),
            content_len(s) == e,
            t.len() == e,
            split_idx(f) == last_dot_in(f, k as int),
            dir_len(t) == d,
        ensures
            m == f.len(),
            n == s.len(),
            d + m == e,
            e <= n,
            t.len() == e,
            dir_len(t) == d,
            j == split_idx(f),
            j <= m,
        decreases k,
    {
        if k == 1 {
            proof {
                lemma_last_dot_in_range(f, k as int);
            }
            j = m;
            break ;
        }
        if input.get_char(d + k - 1) == '.' {
            proof {
                assert(f[k - 1] == s[(d + k - 1) as int]);
            }
            j = k - 1;
            break ;
        }
        proof {
            assert(f[k - 1] == s[(d + k - 1) as int]);
        }
        k = k - 1;
    }
    let dir_part = input.substring_char(0, d);
    let stem_end = if j == m {
        e
    } else {
        d + j
    };
    let stem_part = input.substring_char(d, stem_end);
    let mut out = String::from_str(dir_part);
    out.append(stem_part);
    out.append("-heatmap.");
    if j == m {
        out.append("png");
    } else {
        let ext_part = input.substring_char(d + j + 1, e);
        out.append(ext_part);
    }
    proof {
        let ff = filename_of(s);
        assert(t.subrange(0, d as int) =~= s.subrange(0, d as int));
        if j == m {
            assert(ff =~= s.subrange(d as int, e as int));
            assert(out@ =~= derived_path(s));
        } else {
            assert(ff.subrange(0, j as int) =~= s.subrange(d as int, (d + j) as int));
            assert(ff.subrange(j + 1, ff.len() as int) =~= s.subrange((d + j + 1) as int, e as int));
            assert(out@ =~= derived_path(s));
        }
    }
    Ok(out)
}

} // verus!
