use vstd::prelude::*;

verus! {

/// An absolute filesystem path, held as its segments below the root.
/// The empty sequence is the root itself.
pub struct AbsPath {
    pub segments: Vec<String>,
}

/// A relative path: `ups` parent steps, then the segments of `tail`.
pub struct RelPath {
    pub ups: usize,
    pub tail: Vec<String>,
}

pub open spec fn segs_view(v: Seq<String>) -> Seq<Seq<char>> {
    v.map_values(|s: String| s@)
}

impl View for AbsPath {
    type V = Seq<Seq<char>>;

    open spec fn view(&self) -> Seq<Seq<char>> {
        segs_view(self.segments@)
    }
}

impl View for RelPath {
    type V = (nat, Seq<Seq<char>>);

    open spec fn view(&self) -> (nat, Seq<Seq<char>>) {
        (self.ups as nat, segs_view(self.tail@))
    }
}

/// A plain path component: not empty, without `/`, and neither `.` nor `..`.
pub open spec fn is_component(s: Seq<char>) -> bool {
    s.len() > 0 && !s.contains('/') && s != seq!['.'] && s != seq!['.', '.']
}

/// Every segment is a plain path component.
pub open spec fn all_components(segs: Seq<Seq<char>>) -> bool {
    forall|i: int| 0 <= i < segs.len() ==> is_component(#[trigger] segs[i])
}

impl AbsPath {
    /// The segments name a path exactly: each is a plain component.
    pub open spec fn wf(&self) -> bool {
        all_components(self@)
    }
}

impl RelPath {
    /// Each segment after the parent steps is a plain component.
    pub open spec fn wf(&self) -> bool {
        all_components(self@.1)
    }
}

/// `k` segments form a common prefix of `a` and `b`.
pub open spec fn is_common(a: Seq<Seq<char>>, b: Seq<Seq<char>>, k: int) -> bool {
    0 <= k <= a.len() && k <= b.len() && a.take(k) == b.take(k)
}

/// Number of leading segments that `a` and `b` share.
pub open spec fn common_len(a: Seq<Seq<char>>, b: Seq<Seq<char>>) -> nat
    decreases a.len(),
{
    if a.len() == 0 || b.len() == 0 || a[0] != b[0] {
        0
    } else {
        1 + common_len(a.drop_first(), b.drop_first())
    }
}

/// The path from `dest` to `src`: one parent step per segment of `dest`
/// below the common root, then the segments of `src` below it.
pub open spec fn relativize(src: Seq<Seq<char>>, dest: Seq<Seq<char>>) -> (nat, Seq<Seq<char>>) {
    let k = common_len(src, dest);
    ((dest.len() - k) as nat, src.skip(k as int))
}

/// Follows a relative path from the directory `base`; parent steps past
/// the root stay at the root.
pub open spec fn resolve(base: Seq<Seq<char>>, rel: (nat, Seq<Seq<char>>)) -> Seq<Seq<char>> {
    let keep = if rel.0 <= base.len() { base.len() - rel.0 } else { 0 };
    base.take(keep) + rel.1
}

/// The common length is a common prefix, and no longer one exists.
pub proof fn lemma_common_len(a: Seq<Seq<char>>, b: Seq<Seq<char>>)
    ensures
        is_common(a, b, common_len(a, b) as int),
        forall|j: int| is_common(a, b, j) ==> j <= common_len(a, b),
    decreases a.len(),
{
    if a.len() == 0 || b.len() == 0 || a[0] != b[0] {
        assert(a.take(0) =~= b.take(0));
        assert forall|j: int| is_common(a, b, j) implies j <= 0 by {
            if j > 0 {
                assert(a.take(j)[0] == b.take(j)[0]);
            }
        }
    } else {
        let (a1, b1) = (a.drop_first(), b.drop_first());
        lemma_common_len(a1, b1);
        let k = common_len(a1, b1) as int;
        assert(a.take(k + 1) =~= seq![a[0]] + a1.take(k));
        assert(b.take(k + 1) =~= seq![b[0]] + b1.take(k));
        assert forall|j: int| is_common(a, b, j) implies j <= common_len(a, b) by {
            if j > 0 {
                assert(a1.take(j - 1) =~= a.take(j).drop_first());
                assert(b1.take(j - 1) =~= b.take(j).drop_first());
                assert(is_common(a1, b1, j - 1));
            }
        }
    }
}

/// Resolving `relativize(src, dest)` from `dest` gives back `src`.
pub proof fn lemma_relativize_round_trip(src: Seq<Seq<char>>, dest: Seq<Seq<char>>)
    ensures
        resolve(dest, relativize(src, dest)) == src,
{
    lemma_common_len(src, dest);
    let k = common_len(src, dest) as int;
    assert(dest.take(k) + src.skip(k) =~= src);
}

/// A path relative to itself has no parent steps and no segments.
pub proof fn lemma_relativize_self(p: Seq<Seq<char>>)
    ensures
        relativize(p, p) == (0nat, Seq::<Seq<char>>::empty()),
{
    lemma_common_len(p, p);
    assert(is_common(p, p, p.len() as int));
    assert(p.skip(p.len() as int) =~= Seq::<Seq<char>>::empty());
}

/// Whether the first `k` segments of `dest` are a prefix of `src`.
fn prefix_matches(src: &AbsPath, dest: &AbsPath, k: usize) -> (r: bool)
    requires
        k <= dest.segments.len(),
    ensures
        r == is_common(src@, dest@, k as int),
{
    if k > src.segments.len() {
        return false;
    }
    let mut i: usize = 0;
    while i < k
        invariant
            i <= k,
            k <= src.segments.len(),
            k <= dest.segments.len(),
            src@.take(i as int) == dest@.take(i as int),
        decreases k - i,
    {
        if src.segments[i] != dest.segments[i] {
            assert(src@.take(k as int)[i as int] != dest@.take(k as int)[i as int]);
            return false;
        }
        assert(src@.take(i + 1) =~= src@.take(i as int).push(src@[i as int]));
        assert(dest@.take(i + 1) =~= dest@.take(i as int).push(dest@[i as int]));
        i = i + 1;
    }
    true
}

/// Number of leading segments shared by `src` and `dest`, found by
/// dropping segments from the end of `dest` until it is a prefix of `src`.
fn common_root_len(abs_src: &AbsPath, abs_dest: &AbsPath) -> (r: usize)
    ensures
        r == common_len(abs_src@, abs_dest@),
{
    proof {
        lemma_common_len(abs_src@, abs_dest@);
    }
    let mut k: usize = abs_dest.segments.len();
    while !prefix_matches(abs_src, abs_dest, k)
        invariant
            k <= abs_dest.segments.len(),
            forall|j: int| k < j <= abs_dest@.len() ==> !is_common(abs_src@, abs_dest@, j),
            is_common(abs_src@, abs_dest@, common_len(abs_src@, abs_dest@) as int),
        decreases k,
    {
        if k == 0 {
            assert(abs_src@.take(0) =~= abs_dest@.take(0));
        }
        k = k - 1;
    }
    k
}

/// Clones the first `n` segments of `v`.
fn take_segments(v: &Vec<String>, n: usize) -> (r: Vec<String>)
    requires
        n <= v.len(),
    ensures
        segs_view(r@) == segs_view(v@).take(n as int),
{
    let mut r: Vec<String> = Vec::new();
    let mut i: usize = 0;
    while i < n
        invariant
            i <= n <= v.len(),
            segs_view(r@) == segs_view(v@).take(i as int),
        decreases n - i,
    {
        let s = v[i].clone();
        let ghost prev = r@;
        r.push(s);
        assert(segs_view(r@) =~= segs_view(prev).push(s@));
        assert(segs_view(r@) =~= segs_view(v@).take(i + 1));
        i = i + 1;
    }
    r
}

/// Clones the segments of `v` from index `n` on.
fn skip_segments(v: &Vec<String>, n: usize) -> (r: Vec<String>)
    requires
        n <= v.len(),
    ensures
        segs_view(r@) == segs_view(v@).skip(n as int),
{
    let mut r: Vec<String> = Vec::new();
    let mut i: usize = n;
    while i < v.len()
        invariant
            n <= i <= v.len(),
            segs_view(r@) == segs_view(v@).subrange(n as int, i as int),
        decreases v.len() - i,
    {
        let s = v[i].clone();
        let ghost prev = r@;
        r.push(s);
        assert(segs_view(r@) =~= segs_view(prev).push(s@));
        assert(segs_view(r@) =~= segs_view(v@).subrange(n as int, i + 1));
        i = i + 1;
    }
    assert(segs_view(v@).subrange(n as int, v.len() as int) =~= segs_view(v@).skip(n as int));
    r
}

/// The longest path that is an ancestor of (or equal to) both paths.
pub fn common_root(abs_src: &AbsPath, abs_dest: &AbsPath) -> (r: AbsPath)
    ensures
        r@ == abs_dest@.take(common_len(abs_src@, abs_dest@) as int),
        r@ == abs_src@.take(common_len(abs_src@, abs_dest@) as int),
        forall|j: int| is_common(abs_src@, abs_dest@, j) ==> j <= r@.len(),
        abs_dest.wf() ==> r.wf(),
{
    proof {
        lemma_common_len(abs_src@, abs_dest@);
    }
    let k = common_root_len(abs_src, abs_dest);
    AbsPath { segments: take_segments(&abs_dest.segments, k) }
}

/// The relative path that leads from the directory `abs_relative_to` to
/// `abs_path`.
pub fn relativize_path(abs_path: &AbsPath, abs_relative_to: &AbsPath) -> (r: RelPath)
    ensures
        r@ == relativize(abs_path@, abs_relative_to@),
        resolve(abs_relative_to@, r@) == abs_path@,
        abs_path.wf() ==> r.wf(),
{
    proof {
        lemma_common_len(abs_path@, abs_relative_to@);
        lemma_relativize_round_trip(abs_path@, abs_relative_to@);
    }
    let k = common_root_len(abs_path, abs_relative_to);
    let ups = abs_relative_to.segments.len() - k;
    let tail = skip_segments(&abs_path.segments, k);
    RelPath { ups, tail }
}

/// Segments joined with `/` between them.
pub open spec fn join(segs: Seq<Seq<char>>) -> Seq<char>
    decreases segs.len(),
{
    if segs.len() == 0 {
        Seq::empty()
    } else if segs.len() == 1 {
        segs[0]
    } else {
        join(segs.drop_last()) + seq!['/'] + segs.last()
    }
}

/// The segments of a relative path, each parent step written as `..`.
pub open spec fn rel_segments(rel: (nat, Seq<Seq<char>>)) -> Seq<Seq<char>> {
    Seq::new(rel.0, |i: int| seq!['.', '.']) + rel.1
}

/// A relative path as text, such as `../../b/c`; empty for no steps at all.
pub open spec fn rel_text(rel: (nat, Seq<Seq<char>>)) -> Seq<char> {
    join(rel_segments(rel))
}

/// An absolute path as text, such as `/a/b`; the root is `/`.
pub open spec fn abs_text(p: Seq<Seq<char>>) -> Seq<char> {
    seq!['/'] + join(p)
}

/// Joins the segments of `v` with `/`, appending to `out`.
fn push_joined(out: &mut String, v: &Vec<String>)
    ensures
        final(out)@ == old(out)@ + join(segs_view(v@)),
{
    let ghost start = out@;
    let mut i: usize = 0;
    while i < v.len()
        invariant
            i <= v.len(),
            out@ == start + join(segs_view(v@).take(i as int)),
        decreases v.len() - i,
    {
        let ghost segs = segs_view(v@);
        assert(segs.take(i + 1).drop_last() =~= segs.take(i as int));
        if i > 0 {
            proof {
                reveal_strlit("/");
            }
            out.append("/");
        } else {
            assert(segs.take(0) =~= Seq::<Seq<char>>::empty());
        }
        out.append(v[i].as_str());
        assert(out@ =~= start + join(segs.take(i + 1)));
        i = i + 1;
    }
    assert(segs_view(v@).take(v.len() as int) =~= segs_view(v@));
}

impl AbsPath {
    /// The path as text, starting with `/`.
    pub fn to_path_string(&self) -> (r: String)
        requires
            self.wf(),
        ensures
            r@ == abs_text(self@),
    {
        proof {
            reveal_strlit("/");
        }
        let mut r = String::from_str("/");
        push_joined(&mut r, &self.segments);
        r
    }
}

impl RelPath {
    /// The path as text, with `..` for each parent step.
    pub fn to_path_string(&self) -> (r: String)
        requires
            self.wf(),
        ensures
            r@ == rel_text(self@),
    {
        let mut segs: Vec<String> = Vec::new();
        let mut i: usize = 0;
        while i < self.ups
            invariant
                i <= self.ups,
                segs_view(segs@) == Seq::new(i as nat, |j: int| seq!['.', '.']),
            decreases self.ups - i,
        {
            proof {
                reveal_strlit("..");
            }
            let dots = String::from_str("..");
            assert(dots@ =~= seq!['.', '.']);
            let ghost prev = segs@;
            segs.push(dots);
            assert(segs_view(segs@) =~= segs_view(prev).push(seq!['.', '.']));
            assert(segs_view(segs@) =~= Seq::new((i + 1) as nat, |j: int| seq!['.', '.']));
            i = i + 1;
        }
        let mut k: usize = 0;
        let ghost ups_part = segs_view(segs@);
        while k < self.tail.len()
            invariant
                k <= self.tail.len(),
                ups_part == Seq::new(self.ups as nat, |j: int| seq!['.', '.']),
                segs_view(segs@) == ups_part + segs_view(self.tail@).take(k as int),
            decreases self.tail.len() - k,
        {
            let s = self.tail[k].clone();
            let ghost prev = segs@;
            segs.push(s);
            assert(segs_view(segs@) =~= segs_view(prev).push(s@));
            assert(segs_view(segs@) =~= ups_part + segs_view(self.tail@).take(k + 1));
            k = k + 1;
        }
        assert(segs_view(self.tail@).take(self.tail.len() as int) =~= segs_view(self.tail@));
        let mut r = String::new();
        push_joined(&mut r, &segs);
        assert(r@ =~= rel_text(self@));
        r
    }
}

} // verus!
