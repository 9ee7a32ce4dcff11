//! Paths as character sequences, with the three operations that project
//! resolution needs: telling an absolute path, finding whether a path ends in
//! a named segment, and appending one path to another.
use vstd::prelude::*;

verus! {

/// The segments of `s`: the runs of characters between separators, empty
/// ones included.
pub open spec fn segments(s: Seq<char>) -> Seq<Seq<char>>
    decreases s.len(),
{
    if s.len() == 0 {
        seq![Seq::empty()]
    } else {
        let p = segments(s.drop_last());
        if s.last() == '/' {
            p.push(Seq::empty())
        } else {
            p.update(p.len() - 1, p.last().push(s.last()))
        }
    }
}

/// A segment that can be a path's final segment: neither empty nor `.`.
pub open spec fn counts(seg: Seq<char>) -> bool {
    seg.len() > 0 && seg != seq!['.']
}

pub open spec fn counted(segs: Seq<Seq<char>>) -> Seq<Seq<char>> {
    segs.filter(|g: Seq<char>| counts(g))
}

/// The last of `segs` that counts is a name, not `..`.
pub open spec fn ends_in_name(segs: Seq<Seq<char>>) -> bool {
    let m = counted(segs);
    m.len() > 0 && m.last() != seq!['.', '.']
}

/// A path has a final segment when its last segment other than empty ones
/// and `.` is a name other than `..`.
pub open spec fn final_segment_exists(s: Seq<char>) -> bool {
    ends_in_name(segments(s))
}

/// What a segment read so far consists of.
#[derive(PartialEq, Eq, Structural, Clone, Copy)]
enum SegKind {
    Empty,
    Dot,
    DotDot,
    Name,
}

spec fn kind_of(g: Seq<char>) -> SegKind {
    if g.len() == 0 {
        SegKind::Empty
    } else if g == seq!['.'] {
        SegKind::Dot
    } else if g == seq!['.', '.'] {
        SegKind::DotDot
    } else {
        SegKind::Name
    }
}

spec fn kind_after(k: SegKind, c: char) -> SegKind {
    match k {
        SegKind::Empty => if c == '.' { SegKind::Dot } else { SegKind::Name },
        SegKind::Dot => if c == '.' { SegKind::DotDot } else { SegKind::Name },
        _ => SegKind::Name,
    }
}

/// Whether the last counting segment is a name once segment `k` closes.
spec fn close_segment(k: SegKind, last_is_name: bool) -> bool {
    match k {
        SegKind::DotDot => false,
        SegKind::Name => true,
        _ => last_is_name,
    }
}

proof fn lemma_kind_push(g: Seq<char>, c: char)
    ensures
        kind_of(g.push(c)) == kind_after(kind_of(g), c),
{
    let h = g.push(c);
    assert(h.drop_last() == g);
    if g.len() == 0 {
        assert(h =~= seq![c]);
        if c == '.' {
            assert(h =~= seq!['.']);
        } else {
            assert(h[0] != seq!['.'][0]);
        }
        assert(h.len() != seq!['.', '.'].len());
    } else if g == seq!['.'] {
        assert(h.len() != seq!['.'].len());
        if c == '.' {
            assert(h =~= seq!['.', '.']);
        } else {
            assert(h[1] != seq!['.', '.'][1]);
        }
    } else {
        assert(h.len() != seq!['.'].len());
        if h == seq!['.', '.'] {
            assert(seq!['.', '.'].drop_last() =~= seq!['.']);
        }
    }
}

proof fn lemma_close(segs: Seq<Seq<char>>)
    requires
        segs.len() > 0,
    ensures
        ends_in_name(segs) == close_segment(kind_of(segs.last()), ends_in_name(segs.drop_last())),
{
    let g = segs.last();
    reveal(Seq::filter);
    assert(counted(segs) == if counts(g) {
        counted(segs.drop_last()).push(g)
    } else {
        counted(segs.drop_last())
    });
    if g.len() > 0 && g != seq!['.'] && g != seq!['.', '.'] {
        assert(kind_of(g) == SegKind::Name);
    }
}

pub open spec fn is_absolute(s: Seq<char>) -> bool {
    s.len() > 0 && s[0] == '/'
}

/// `rel` appended to `base`: an absolute `rel` replaces `base`, an empty
/// `base` adds nothing, and one separator stands between the two.
pub open spec fn joined(base: Seq<char>, rel: Seq<char>) -> Seq<char> {
    if is_absolute(rel) {
        rel
    } else if base.len() == 0 || base.last() == '/' {
        base + rel
    } else {
        base + seq!['/'] + rel
    }
}

fn next_kind(k: SegKind, c: char) -> (r: SegKind)
    ensures
        r == kind_after(k, c),
{
    match k {
        SegKind::Empty => if c == '.' { SegKind::Dot } else { SegKind::Name },
        SegKind::Dot => if c == '.' { SegKind::DotDot } else { SegKind::Name },
        _ => SegKind::Name,
    }
}

fn close_kind(k: SegKind, last_is_name: bool) -> (r: bool)
    ensures
        r == close_segment(k, last_is_name),
{
    match k {
        SegKind::DotDot => false,
        SegKind::Name => true,
        _ => last_is_name,
    }
}

pub fn has_root(p: &str) -> (r: bool)
    ensures
        r == is_absolute(p@),
{
    p.unicode_len() > 0 && p.get_char(0) == '/'
}

pub fn has_final_segment(p: &str) -> (r: bool)
    ensures
        r == final_segment_exists(p@),
{
    let n = p.unicode_len();
    let mut k = SegKind::Empty;
    let mut last = false;
    let mut i: usize = 0;
    proof {
        reveal(Seq::filter);
    }
    assert(p@.subrange(0, 0) =~= Seq::<char>::empty());
    assert(counted(Seq::<Seq<char>>::empty()) =~= Seq::<Seq<char>>::empty());
    while i < n
        invariant
            n == p@.len(),
            i <= n,
            segments(p@.subrange(0, i as int)).len() > 0,
            k == kind_of(segments(p@.subrange(0, i as int)).last()),
            last == ends_in_name(segments(p@.subrange(0, i as int)).drop_last()),
        decreases n - i,
    {
        let c = p.get_char(i);
        let ghost pre = p@.subrange(0, i as int);
        let ghost segs = segments(pre);
        assert(p@.subrange(0, i + 1).drop_last() == pre);
        assert(p@.subrange(0, i + 1).last() == c);
        if c == '/' {
            proof {
                lemma_close(segs);
                assert(segments(p@.subrange(0, i + 1)).drop_last() == segs);
            }
            last = close_kind(k, last);
            k = SegKind::Empty;
        } else {
            proof {
                lemma_kind_push(segs.last(), c);
                assert(segments(p@.subrange(0, i + 1)).drop_last() =~= segs.drop_last());
            }
            k = next_kind(k, c);
        }
        i = i + 1;
    }
    assert(p@.subrange(0, n as int) == p@);
    proof {
        lemma_close(segments(p@));
    }
    close_kind(k, last)
}

pub fn join(base: &str, rel: &str) -> (r: String)
    ensures
        r@ == joined(base@, rel@),
{
    if has_root(rel) {
        return String::from_str(rel);
    }
    let mut out = String::from_str(base);
    let n = base.unicode_len();
    if n > 0 && base.get_char(n - 1) != '/' {
        proof {
            reveal_strlit("/");
        }
        out.append("/");
    }
    out.append(rel);
    out
}

} // verus!
