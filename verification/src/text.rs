//! String and path-segment helpers. Filesystem paths cross the library
//! boundary as vectors of segments; these helpers give the joins and
//! comparisons that derive file names and match reported paths.

use vstd::prelude::*;

verus! {

/// View of a vector of owned segments as a sequence of character sequences.
pub open spec fn segs_view(v: Seq<String>) -> Seq<Seq<char>> {
    v.map_values(|s: String| s@)
}

/// `parts` interleaved with `sep`: `join_with([a, b, c], s) == a + s + b + s + c`.
pub open spec fn join_with(parts: Seq<Seq<char>>, sep: Seq<char>) -> Seq<char>
    decreases parts.len(),
{
    if parts.len() == 0 {
        Seq::<char>::empty()
    } else if parts.len() == 1 {
        parts[0]
    } else {
        parts[0] + sep + join_with(parts.drop_first(), sep)
    }
}

/// Appending one more part extends the join on the right.
pub proof fn lemma_join_push(parts: Seq<Seq<char>>, sep: Seq<char>, x: Seq<char>)
    ensures
        parts.len() == 0 ==> join_with(parts.push(x), sep) == x,
        parts.len() > 0 ==> join_with(parts.push(x), sep) == join_with(parts, sep) + sep + x,
    decreases parts.len(),
{
    if parts.len() == 0 {
        assert(parts.push(x)[0] == x);
        assert(join_with(parts.push(x), sep) == x);
    } else if parts.len() == 1 {
        assert(parts.push(x).drop_first() =~= seq![x]);
        assert(parts.push(x)[0] == parts[0]);
        assert(join_with(seq![x], sep) == x);
        assert(join_with(parts.push(x), sep) == parts[0] + sep + x);
    } else {
        lemma_join_push(parts.drop_first(), sep, x);
        assert(parts.push(x).drop_first() =~= parts.drop_first().push(x));
        assert(join_with(parts.drop_first().push(x), sep) == join_with(parts.drop_first(), sep)
            + sep + x);
        assert(join_with(parts.push(x), sep) == parts[0] + sep + join_with(
            parts.drop_first().push(x),
            sep,
        ));
        assert(join_with(parts, sep) + sep + x =~= parts[0] + sep + (join_with(
            parts.drop_first(),
            sep,
        ) + sep + x));
    }
}

/// Joins owned segments with a separator.
pub fn join_strs(parts: &Vec<String>, sep: &str) -> (r: String)
    ensures
        r@ == join_with(segs_view(parts@), sep@),
{
    let mut r = String::new();
    let mut i: usize = 0;
    while i < parts.len()
        invariant
            i <= parts.len(),
            i == 0 ==> r@ == Seq::<char>::empty(),
            i > 0 ==> r@ == join_with(segs_view(parts@).take(i as int), sep@),
        decreases parts.len() - i,
    {
        if i > 0 {
            r.append(sep);
        }
        r.append(parts[i].as_str());
        proof {
            let full = segs_view(parts@);
            assert(full.take(i + 1) =~= full.take(i as int).push(full[i as int]));
            lemma_join_push(full.take(i as int), sep@, full[i as int]);
        }
        i = i + 1;
    }
    proof {
        assert(segs_view(parts@).take(parts@.len() as int) =~= segs_view(parts@));
    }
    r
}

/// Appends clones of all segments of `src` to `dst`.
pub fn append_cloned(dst: &mut Vec<String>, src: &Vec<String>)
    ensures
        final(dst)@.len() == old(dst)@.len() + src@.len(),
        segs_view(final(dst)@) == segs_view(old(dst)@) + segs_view(src@),
{
    let mut i: usize = 0;
    while i < src.len()
        invariant
            i <= src.len(),
            dst@.len() == old(dst)@.len() + i,
            segs_view(dst@) =~= segs_view(old(dst)@) + segs_view(src@).take(i as int),
        decreases src.len() - i,
    {
        let ghost pre = dst@;
        dst.push(src[i].clone());
        proof {
            let j = i as int;
            assert(segs_view(dst@) =~= segs_view(pre).push(src@[j]@));
            assert(segs_view(src@).take(j + 1) =~= segs_view(src@).take(j).push(src@[j]@));
            assert(segs_view(dst@) =~= segs_view(old(dst)@) + segs_view(src@).take(j + 1));
        }
        i = i + 1;
    }
    proof {
        assert(segs_view(src@).take(src@.len() as int) =~= segs_view(src@));
        assert(segs_view(dst@) =~= segs_view(old(dst)@) + segs_view(src@));
    }
}

/// Joins borrowed segments with a separator.
pub fn join_str_refs(parts: &Vec<&str>, sep: &str) -> (r: String)
    ensures
        r@ == join_with(parts@.map_values(|s: &str| s@), sep@),
{
    let mut r = String::new();
    let mut i: usize = 0;
    while i < parts.len()
        invariant
            i <= parts.len(),
            i == 0 ==> r@ == Seq::<char>::empty(),
            i > 0 ==> r@ == join_with(parts@.map_values(|s: &str| s@).take(i as int), sep@),
        decreases parts.len() - i,
    {
        if i > 0 {
            r.append(sep);
        }
        r.append(parts[i]);
        proof {
            let full = parts@.map_values(|s: &str| s@);
            assert(full.take(i + 1) =~= full.take(i as int).push(full[i as int]));
            lemma_join_push(full.take(i as int), sep@, full[i as int]);
        }
        i = i + 1;
    }
    proof {
        let full = parts@.map_values(|s: &str| s@);
        assert(full.take(parts@.len() as int) =~= full);
    }
    r
}

/// First position of the working-copy marker segment `tmp` in a path, or
/// the path's length when the marker does not occur at or after `i`.
pub open spec fn marker_index_from(ss: Seq<Seq<char>>, i: int) -> int
    decreases ss.len() - i,
{
    if i < 0 || i >= ss.len() {
        ss.len() as int
    } else if ss[i] == "tmp"@ {
        i
    } else {
        marker_index_from(ss, i + 1)
    }
}

/// A path snipped after the working-copy marker: everything up to the first
/// `tmp` segment is dropped, and `skips` further segments with it. A path
/// without the marker snips to nothing.
pub open spec fn snip_segs(ss: Seq<Seq<char>>, skips: int) -> Seq<Seq<char>> {
    let cut = marker_index_from(ss, 0) + skips;
    if cut >= ss.len() {
        Seq::<Seq<char>>::empty()
    } else {
        ss.skip(cut)
    }
}

/// Path segments with every parent-directory segment replaced by a plain
/// underscore.
pub open spec fn cleaned_segs(ss: Seq<Seq<char>>) -> Seq<Seq<char>> {
    ss.map_values(
        |s: Seq<char>|
            if s == ".."@ {
                "_"@
            } else {
                s
            },
    )
}

/// `suffix` is a suffix of `ss`.
pub open spec fn is_suffix_of(suffix: Seq<Seq<char>>, ss: Seq<Seq<char>>) -> bool {
    suffix.len() <= ss.len() && ss.skip(ss.len() - suffix.len()) == suffix
}

/// A scan that saw no marker before `i`, and the marker (or the end) at
/// `i`, found the first marker position.
proof fn lemma_marker_index(ss: Seq<Seq<char>>, from: int, i: int)
    requires
        0 <= from <= i <= ss.len(),
        forall|j: int| from <= j < i ==> ss[j] != "tmp"@,
        i < ss.len() ==> ss[i] == "tmp"@,
    ensures
        marker_index_from(ss, from) == i,
    decreases i - from,
{
    if from < i {
        lemma_marker_index(ss, from + 1, i);
    }
}

/// Trims a path after the working-copy marker directory: drops everything
/// up to and including the first `tmp` segment plus `skips - 1` more.
pub fn snip_path(path: &Vec<String>, skips: usize) -> (r: Vec<String>)
    requires
        skips >= 1,
    ensures
        segs_view(r@) == snip_segs(segs_view(path@), skips as int),
{
    let marker = String::from_str("tmp");
    let mut i: usize = 0;
    while i < path.len() && !(path[i] == marker)
        invariant
            i <= path.len(),
            marker@ == "tmp"@,
            forall|j: int| 0 <= j < i ==> segs_view(path@)[j] != "tmp"@,
        decreases path.len() - i,
    {
        i = i + 1;
    }
    proof {
        lemma_marker_index(segs_view(path@), 0, i as int);
    }
    let mut r: Vec<String> = Vec::new();
    if path.len() - i <= skips {
        proof {
            assert(segs_view(r@) =~= snip_segs(segs_view(path@), skips as int));
        }
        return r;
    }
    let cut = i + skips;
    let mut j = cut;
    while j < path.len()
        invariant
            cut <= j <= path.len(),
            cut < path.len(),
            segs_view(r@) =~= segs_view(path@).subrange(cut as int, j as int),
        decreases path.len() - j,
    {
        let ghost pre = r@;
        r.push(path[j].clone());

        proof {
            assert(segs_view(r@) =~= segs_view(pre).push(path@[j as int]@));
            assert(segs_view(r@) =~= segs_view(path@).subrange(cut as int, j + 1));
        }
        j = j + 1;
    }
    proof {
        assert(segs_view(path@).subrange(cut as int, path@.len() as int) =~= segs_view(
            path@,
        ).skip(cut as int));
        assert(segs_view(r@) =~= snip_segs(segs_view(path@), skips as int));
    }
    r
}

/// Segment-wise suffix test: whether `path` ends with all of `suffix`.
pub fn ends_with_segs(path: &Vec<String>, suffix: &Vec<String>) -> (r: bool)
    ensures
        r == is_suffix_of(segs_view(suffix@), segs_view(path@)),
{
    if suffix.len() > path.len() {
        return false;
    }
    let off = path.len() - suffix.len();
    let mut i: usize = 0;
    while i < suffix.len()
        invariant
            i <= suffix.len(),
            off == path.len() - suffix.len(),
            suffix.len() <= path.len(),
            forall|j: int| 0 <= j < i ==> segs_view(path@)[off + j] == segs_view(suffix@)[j],
        decreases suffix.len() - i,
    {
        if !(path[off + i] == suffix[i]) {
            proof {
                let tail = segs_view(path@).skip(off as int);
                assert(tail[i as int] != segs_view(suffix@)[i as int]);
            }
            return false;
        }
        i = i + 1;
    }
    proof {
        assert(segs_view(path@).skip(off as int) =~= segs_view(suffix@));
    }
    true
}

/// First position of `sep` in `s` at or after `i`, or the length of `s`
/// when the separator does not occur there.
pub open spec fn sep_index_from(s: Seq<char>, sep: char, i: int) -> int
    decreases s.len() - i,
{
    if i < 0 || i >= s.len() {
        s.len() as int
    } else if s[i] == sep {
        i
    } else {
        sep_index_from(s, sep, i + 1)
    }
}

/// The first separator position lies between the scan start and the end.
pub proof fn lemma_sep_index_bounds(s: Seq<char>, sep: char, i: int)
    requires
        0 <= i <= s.len(),
    ensures
        i <= sep_index_from(s, sep, i) <= s.len(),
    decreases s.len() - i,
{
    if i < s.len() && s[i] != sep {
        lemma_sep_index_bounds(s, sep, i + 1);
    }
}

/// `s` split at every occurrence of `sep`: `n` separators give `n + 1`
/// pieces, empty pieces kept.
pub open spec fn split_by(s: Seq<char>, sep: char) -> Seq<Seq<char>>
    decreases s.len(),
    when true
    via split_by_decreases
{
    let i = sep_index_from(s, sep, 0);
    if i == s.len() {
        seq![s]
    } else {
        seq![s.take(i)] + split_by(s.skip(i + 1), sep)
    }
}

#[via_fn]
proof fn split_by_decreases(s: Seq<char>, sep: char) {
    lemma_sep_index_bounds(s, sep, 0);
}

/// A scan that saw no separator before `i`, and a separator (or the end)
/// at `i`, found the first separator position.
proof fn lemma_sep_index(s: Seq<char>, sep: char, from: int, i: int)
    requires
        0 <= from <= i <= s.len(),
        forall|j: int| from <= j < i ==> s[j] != sep,
        i < s.len() ==> s[i] == sep,
    ensures
        sep_index_from(s, sep, from) == i,
    decreases i - from,
{
    if from < i {
        lemma_sep_index(s, sep, from + 1, i);
    }
}

/// Splits a string at every occurrence of `sep`.
pub fn split_char(s: &str, sep: char) -> (r: Vec<String>)
    ensures
        segs_view(r@) == split_by(s@, sep),
    decreases s@.len(),
{
    let n = s.unicode_len();
    let mut i: usize = 0;
    while i < n && !(s.get_char(i) == sep)
        invariant
            i <= n,
            n == s@.len(),
            forall|j: int| 0 <= j < i ==> s@[j] != sep,
        decreases n - i,
    {
        i = i + 1;
    }
    proof {
        lemma_sep_index(s@, sep, 0, i as int);
    }
    if i == n {
        let mut r: Vec<String> = Vec::new();
        r.push(s.to_owned());
        proof {
            assert(segs_view(r@) =~= seq![s@]);
        }
        r
    } else {
        let head = s.substring_char(0, i).to_owned();
        let rest = s.substring_char(i + 1, n);
        let mut r = split_char(rest, sep);
        r.insert(0, head);
        proof {
            assert(segs_view(r@) =~= seq![s@.take(i as int)] + split_by(s@.skip(i + 1), sep));
            assert(segs_view(r@) =~= split_by(s@, sep));
        }
        r
    }
}

} // verus!
