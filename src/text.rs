//! Character-level helpers on strings and slash-separated paths.
use vstd::prelude::*;

use crate::common::{push_text, strings_view};

verus! {

/// `part` appended to `base` with one separator between them, the way a
/// relative path component is joined onto a directory.
pub open spec fn path_join(base: Seq<char>, part: Seq<char>) -> Seq<char> {
    if base.len() == 0 {
        part
    } else if base.last() == '/' {
        base + part
    } else {
        base + seq!['/'] + part
    }
}

/// Joins the relative component `part` onto the directory `base`.
pub fn join_path(base: &str, part: &str) -> (r: String)
    ensures
        r@ == path_join(base@, part@),
{
    let n = base.unicode_len();
    if n == 0 {
        return String::from_str(part);
    }
    let mut r = String::from_str(base);
    if base.get_char(n - 1) != '/' {
        r.append("/");
        proof {
            reveal_strlit("/");
        }
    }
    r.append(part);
    r
}


/// Whether `t` holds `p` starting at position `i`.
pub open spec fn occurs_at(t: Seq<char>, i: int, p: Seq<char>) -> bool {
    0 <= i && i + p.len() <= t.len() && t.subrange(i, i + p.len()) == p
}

/// `t` with every occurrence of the non-empty `p` replaced by `r`, scanning from the
/// left and never matching inside a replaced occurrence.
pub open spec fn replaced(t: Seq<char>, p: Seq<char>, r: Seq<char>) -> Seq<char>
    decreases t.len(),
{
    if t.len() == 0 || p.len() == 0 {
        t
    } else if occurs_at(t, 0, p) {
        r + replaced(t.subrange(p.len() as int, t.len() as int), p, r)
    } else {
        seq![t[0]] + replaced(t.subrange(1, t.len() as int), p, r)
    }
}

/// Whether `t` holds `p` starting at character position `i`.
pub fn matches_at(t: &str, i: usize, p: &str) -> (r: bool)
    ensures
        r == occurs_at(t@, i as int, p@),
{
    let n = t.unicode_len();
    let m = p.unicode_len();
    if i > n || m > n - i {
        return false;
    }
    let mut k: usize = 0;
    while k < m
        invariant
            n == t@.len(),
            m == p@.len(),
            i + m <= n,
            k <= m,
            forall|j: int| 0 <= j < k ==> t@[i + j] == p@[j],
        decreases m - k,
    {
        if t.get_char(i + k) != p.get_char(k) {
            assert(t@.subrange(i as int, i + m)[k as int] != p@[k as int]);
            return false;
        }
        k += 1;
    }
    assert(t@.subrange(i as int, i + m) =~= p@);
    true
}

/// Whether `a` and `b` hold the same characters.
pub fn same_text(a: &str, b: &str) -> (r: bool)
    ensures
        r == (a@ == b@),
{
    if a.unicode_len() != b.unicode_len() {
        return false;
    }
    let r = matches_at(a, 0, b);
    assert(a@.subrange(0, a@.len() as int) =~= a@);
    r
}

/// Whether the character `c` occurs in `s`.
pub fn contains_char(s: &str, c: char) -> (r: bool)
    ensures
        r == s@.contains(c),
{
    let n = s.unicode_len();
    let mut i: usize = 0;
    while i < n
        invariant
            n == s@.len(),
            i <= n,
            forall|j: int| 0 <= j < i ==> s@[j] != c,
        decreases n - i,
    {
        if s.get_char(i) == c {
            return true;
        }
        i += 1;
    }
    false
}

/// Replaces every occurrence of the non-empty `pat` in `text` by `rep`.
pub fn replace_all(text: &str, pat: &str, rep: &str) -> (r: String)
    requires
        pat@.len() > 0,
    ensures
        r@ == replaced(text@, pat@, rep@),
{
    let n = text.unicode_len();
    let m = pat.unicode_len();
    let mut out = String::new();
    let mut i: usize = 0;
    assert(out@ + text@.subrange(0, n as int) =~= text@);
    while i < n
        invariant
            n == text@.len(),
            m == pat@.len(),
            m > 0,
            i <= n,
            out@ + replaced(text@.subrange(i as int, n as int), pat@, rep@) == replaced(
                text@,
                pat@,
                rep@,
            ),
        decreases n - i,
    {
        let ghost rest = text@.subrange(i as int, n as int);
        if matches_at(text, i, pat) {
            assert(occurs_at(rest, 0, pat@)) by {
                assert(rest.subrange(0, m as int) =~= text@.subrange(i as int, i + m));
            }
            assert(rest.subrange(m as int, rest.len() as int) =~= text@.subrange(
                i + m,
                n as int,
            ));
            out.append(rep);
            i += m;
        } else {
            assert(!occurs_at(rest, 0, pat@)) by {
                if occurs_at(rest, 0, pat@) {
                    assert(rest.subrange(0, m as int) =~= text@.subrange(i as int, i + m));
                }
            }
            assert(rest.subrange(1, rest.len() as int) =~= text@.subrange(i + 1, n as int));
            let c = text.substring_char(i, i + 1);
            assert(c@ =~= seq![rest[0]]);
            out.append(c);
            i += 1;
        }
        assert(out@ + replaced(text@.subrange(i as int, n as int), pat@, rep@) =~= replaced(
            text@,
            pat@,
            rep@,
        ));
    }
    assert(out@ =~= out@ + replaced(text@.subrange(n as int, n as int), pat@, rep@));
    out
}

/// Whether the path `p` starts at the root directory.
pub open spec fn is_absolute(p: Seq<char>) -> bool {
    p.len() > 0 && p[0] == '/'
}

/// `done` with the finished component `cur` added, unless `cur` is empty (from a
/// doubled or trailing separator) or a `.` that is not the first component of a
/// relative path.
pub open spec fn keep_part(done: Seq<Seq<char>>, cur: Seq<char>, absolute: bool) -> Seq<Seq<char>> {
    if cur.len() == 0 || (cur == seq!['.'] && (absolute || done.len() > 0)) {
        done
    } else {
        done.push(cur)
    }
}

/// The finished components of `p` and the component still being read, scanning
/// from the left.
pub open spec fn scan_parts(p: Seq<char>, absolute: bool) -> (Seq<Seq<char>>, Seq<char>)
    decreases p.len(),
{
    if p.len() == 0 {
        (Seq::empty(), Seq::empty())
    } else {
        let (done, cur) = scan_parts(p.drop_last(), absolute);
        if p.last() == '/' {
            (keep_part(done, cur, absolute), Seq::empty())
        } else {
            (done, cur.push(p.last()))
        }
    }
}

/// The components of the path `p`, as std's `Path::components` gives them: `/` for
/// the root, then the parts between separators, leaving out empty parts and `.`
/// parts (but for a leading `.` of a relative path).
pub open spec fn path_components(p: Seq<char>) -> Seq<Seq<char>> {
    let (done, cur) = scan_parts(p, is_absolute(p));
    (if is_absolute(p) {
        seq![seq!['/']]
    } else {
        Seq::empty()
    }) + keep_part(done, cur, is_absolute(p))
}

/// The components of `p` after those of `root`, if `root`'s components begin `p`'s
/// (as std's `Path::strip_prefix` decides it).
pub open spec fn components_below(root: Seq<char>, p: Seq<char>) -> Option<Seq<Seq<char>>> {
    let rc = path_components(root);
    let pc = path_components(p);
    if rc.len() <= pc.len() && pc.subrange(0, rc.len() as int) == rc {
        Some(pc.subrange(rc.len() as int, pc.len() as int))
    } else {
        None
    }
}

/// Components joined by single separators.
pub open spec fn join_parts(s: Seq<Seq<char>>) -> Seq<char>
    decreases s.len(),
{
    if s.len() == 0 {
        Seq::empty()
    } else if s.len() == 1 {
        s[0]
    } else {
        join_parts(s.drop_last()) + seq!['/'] + s.last()
    }
}

/// The path `rest` joined onto the directory `base`; a `rest` that starts at the root
/// stands alone.
pub open spec fn join_components(base: Seq<char>, rest: Seq<Seq<char>>) -> Seq<char> {
    if rest.len() > 0 && rest[0] == seq!['/'] {
        seq!['/'] + join_parts(rest.drop_first())
    } else {
        path_join(base, join_parts(rest))
    }
}

/// Whether the component list `b` begins with `a`.
pub open spec fn begins_with(b: Seq<Seq<char>>, a: Seq<Seq<char>>) -> bool {
    a.len() <= b.len() && forall|i: int| 0 <= i < a.len() ==> b[i] == a[i]
}

proof fn lemma_scan_extends(q: Seq<char>, x: Seq<char>, absolute: bool)
    ensures
        begins_with(scan_parts(q + x, absolute).0, scan_parts(q, absolute).0),
    decreases x.len(),
{
    if x.len() == 0 {
        assert(q + x =~= q);
    } else {
        lemma_scan_extends(q, x.drop_last(), absolute);
        assert((q + x).drop_last() =~= q + x.drop_last());
    }
}

/// A separator at the end does not change a non-empty path's components.
pub proof fn lemma_trailing_separator(p: Seq<char>)
    requires
        p.len() > 0,
    ensures
        path_components(p + seq!['/']) == path_components(p),
{
    let q = p + seq!['/'];
    assert(q.drop_last() =~= p);
    assert(q[0] == p[0]);
}

/// A directory given with a final separator has its components at the start of the
/// components of every path written below it.
pub proof fn lemma_below_directory(q: Seq<char>, x: Seq<char>)
    requires
        q.len() > 0,
        q.last() == '/',
    ensures
        components_below(q, q + x) is Some,
{
    let p = q + x;
    let abs = is_absolute(q);
    assert(p[0] == q[0]);
    assert(q.drop_last() + seq!['/'] =~= q);
    assert(scan_parts(q, abs).1.len() == 0);
    lemma_scan_extends(q, x, abs);
    let rc = path_components(q);
    let pc = path_components(p);
    assert(pc.subrange(0, rc.len() as int) =~= rc);
}

fn keep_part_of(done: &mut Vec<String>, cur: String, absolute: bool)
    ensures
        strings_view(final(done)@) == keep_part(strings_view(old(done)@), cur@, absolute),
{
    proof {
        reveal_strlit(".");
        assert("."@ =~= seq!['.']);
    }
    let n = cur.as_str().unicode_len();
    if n == 0 || (same_text(cur.as_str(), ".") && (absolute || done.len() > 0)) {
        return;
    }
    done.push(cur);
    assert(strings_view(done@) =~= strings_view(old(done)@).push(cur@));
}

/// The components of the path `p`.
pub fn path_components_of(p: &str) -> (r: Vec<String>)
    ensures
        strings_view(r@) == path_components(p@),
{
    let n = p.unicode_len();
    let absolute = n > 0 && p.get_char(0) == '/';
    let mut done: Vec<String> = Vec::new();
    let mut cur = String::new();
    let mut i: usize = 0;
    assert(strings_view(done@) =~= Seq::<Seq<char>>::empty());
    assert(p@.subrange(0, 0) =~= Seq::<char>::empty());
    while i < n
        invariant
            n == p@.len(),
            i <= n,
            absolute == is_absolute(p@),
            strings_view(done@) == scan_parts(p@.subrange(0, i as int), absolute).0,
            cur@ == scan_parts(p@.subrange(0, i as int), absolute).1,
        decreases n - i,
    {
        assert(p@.subrange(0, i + 1).drop_last() =~= p@.subrange(0, i as int));
        if p.get_char(i) == '/' {
            keep_part_of(&mut done, cur, absolute);
            cur = String::new();
        } else {
            let c = p.substring_char(i, i + 1);
            cur.append(c);
            assert(cur@ =~= scan_parts(p@.subrange(0, i as int), absolute).1.push(p@[i as int]));
        }
        i += 1;
    }
    assert(p@.subrange(0, n as int) =~= p@);
    keep_part_of(&mut done, cur, absolute);
    let mut r: Vec<String> = Vec::new();
    if absolute {
        push_text(&mut r, "/");
        proof {
            reveal_strlit("/");
            assert("/"@ =~= seq!['/']);
            assert(strings_view(r@) =~= seq![seq!['/']]);
        }
    } else {
        assert(strings_view(r@) =~= Seq::<Seq<char>>::empty());
    }
    let ghost start = strings_view(r@);
    assert(start =~= (if is_absolute(p@) {
        seq![seq!['/']]
    } else {
        Seq::<Seq<char>>::empty()
    }));
    let mut j: usize = 0;
    while j < done.len()
        invariant
            j <= done@.len(),
            strings_view(r@) == start + strings_view(done@).subrange(0, j as int),
        decreases done@.len() - j,
    {
        push_text(&mut r, done[j].as_str());
        assert(strings_view(r@) =~= start + strings_view(done@).subrange(0, j + 1));
        j += 1;
    }
    assert(strings_view(done@).subrange(0, done@.len() as int) =~= strings_view(done@));
    r
}

/// The components of `p` below the directory `root`, if `p` is `root` or lies inside it.
pub fn components_below_of(root: &str, p: &str) -> (r: Option<Vec<String>>)
    ensures
        match components_below(root@, p@) {
            Some(rest) => r matches Some(v) && strings_view(v@) == rest,
            None => r is None,
        },
{
    let rc = path_components_of(root);
    let pc = path_components_of(p);
    assert(strings_view(rc@).len() == rc@.len() && strings_view(pc@).len() == pc@.len());
    if rc.len() > pc.len() {
        return None;
    }
    let mut j: usize = 0;
    while j < rc.len()
        invariant
            j <= rc@.len(),
            rc@.len() <= pc@.len(),
            strings_view(rc@) == path_components(root@),
            strings_view(pc@) == path_components(p@),
            forall|k: int| 0 <= k < j ==> strings_view(rc@)[k] == strings_view(pc@)[k],
        decreases rc@.len() - j,
    {
        if !same_text(rc[j].as_str(), pc[j].as_str()) {
            proof {
                let a = strings_view(pc@).subrange(0, rc@.len() as int);
                let b = strings_view(rc@);
                assert(a[j as int] == pc@[j as int]@);
                assert(b[j as int] == rc@[j as int]@);
                assert(a != b);
            }
            return None;
        }
        j += 1;
    }
    assert(strings_view(pc@).subrange(0, rc@.len() as int) =~= strings_view(rc@));
    let mut rest: Vec<String> = Vec::new();
    let mut k: usize = rc.len();
    assert(strings_view(rest@) =~= strings_view(pc@).subrange(rc@.len() as int, k as int));
    while k < pc.len()
        invariant
            rc@.len() <= k <= pc@.len(),
            strings_view(rc@) == path_components(root@),
            strings_view(pc@) == path_components(p@),
            strings_view(rest@) == strings_view(pc@).subrange(rc@.len() as int, k as int),
        decreases pc@.len() - k,
    {
        push_text(&mut rest, pc[k].as_str());
        assert(strings_view(rest@) =~= strings_view(pc@).subrange(rc@.len() as int, k + 1));
        k += 1;
    }
    Some(rest)
}

/// `parts[from..]` joined by single separators.
fn join_parts_from(parts: &Vec<String>, from: usize) -> (r: String)
    requires
        from <= parts@.len(),
    ensures
        r@ == join_parts(strings_view(parts@).subrange(from as int, parts@.len() as int)),
{
    let ghost v = strings_view(parts@);
    let mut out = String::new();
    let mut j: usize = from;
    assert(v.subrange(from as int, from as int) =~= Seq::<Seq<char>>::empty());
    while j < parts.len()
        invariant
            from <= j <= parts@.len(),
            v == strings_view(parts@),
            out@ == join_parts(v.subrange(from as int, j as int)),
        decreases parts@.len() - j,
    {
        assert(v.subrange(from as int, j + 1).drop_last() =~= v.subrange(from as int, j as int));
        if j > from {
            out.append("/");
            proof {
                reveal_strlit("/");
            }
        } else {
            assert(out@ =~= Seq::<char>::empty());
        }
        out.append(parts[j].as_str());
        j += 1;
    }
    out
}

/// The path made of `rest` joined onto the directory `base`.
pub fn join_components_of(base: &str, rest: &Vec<String>) -> (r: String)
    ensures
        r@ == join_components(base@, strings_view(rest@)),
{
    proof {
        reveal_strlit("/");
        assert("/"@ =~= seq!['/']);
    }
    let ghost v = strings_view(rest@);
    if rest.len() > 0 && same_text(rest[0].as_str(), "/") {
        let mut r = String::from_str("/");
        let tail = join_parts_from(rest, 1);
        r.append(tail.as_str());
        assert(v.subrange(1, v.len() as int) =~= v.drop_first());
        return r;
    }
    let joined = join_parts_from(rest, 0);
    assert(v.subrange(0, v.len() as int) =~= v);
    join_path(base, joined.as_str())
}

/// The decimal digits of `n`, most significant first, without leading zeros.
pub open spec fn decimal(n: nat) -> Seq<char>
    decreases n,
{
    if n < 10 {
        seq!["0123456789"@[n as int]]
    } else {
        decimal(n / 10) + seq!["0123456789"@[(n % 10) as int]]
    }
}

/// Writes `n` in decimal.
pub fn decimal_text(n: u32) -> (r: String)
    ensures
        r@ == decimal(n as nat),
    decreases n,
{
    let digits = "0123456789";
    proof {
        reveal_strlit("0123456789");
    }
    let d = (n % 10) as usize;
    let last = digits.substring_char(d, d + 1);
    assert(last@ =~= seq!["0123456789"@[d as int]]);
    if n < 10 {
        String::from_str(last)
    } else {
        let mut r = decimal_text(n / 10);
        r.append(last);
        r
    }
}

} // verus!
