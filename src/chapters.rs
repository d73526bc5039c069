use vstd::prelude::*;
use crate::media_source::MediaSourceChapter;

verus! {

/// Whether `pos` lies within the chapter, both ends included.
pub open spec fn covers(c: MediaSourceChapter, pos: u64) -> bool {
    c.start <= pos && pos <= c.spec_end()
}

/// The least index from `k` on of a chapter that covers `pos`, or the length
/// when there is none.
pub open spec fn first_covering(cs: Seq<MediaSourceChapter>, pos: u64, k: int) -> int
    decreases cs.len() - k,
{
    if k < 0 || k >= cs.len() {
        cs.len() as int
    } else if covers(cs[k], pos) {
        k
    } else {
        first_covering(cs, pos, k + 1)
    }
}

/// The least index from `k` on of a chapter that starts after `pos`, or the
/// length when there is none.
pub open spec fn first_after(cs: Seq<MediaSourceChapter>, pos: u64, k: int) -> int
    decreases cs.len() - k,
{
    if k < 0 || k >= cs.len() {
        cs.len() as int
    } else if cs[k].start > pos {
        k
    } else {
        first_after(cs, pos, k + 1)
    }
}

/// An index as an optional position in a sequence of length `len`.
pub open spec fn found(i: int, len: int) -> Option<usize> {
    if 0 <= i < len {
        Some(i as usize)
    } else {
        None
    }
}

/// The chapter that playback at `pos` belongs to: the first that covers it.
pub open spec fn current_index(cs: Seq<MediaSourceChapter>, pos: u64) -> Option<usize> {
    found(first_covering(cs, pos, 0), cs.len() as int)
}

/// The first chapter that starts after `pos`.
pub open spec fn next_index(cs: Seq<MediaSourceChapter>, pos: u64) -> Option<usize> {
    found(first_after(cs, pos, 0), cs.len() as int)
}

/// The chapter before the current one; the last chapter when none covers
/// `pos`; none when the first chapter covers it.
pub open spec fn previous_index(cs: Seq<MediaSourceChapter>, pos: u64) -> Option<usize> {
    found(first_covering(cs, pos, 0) - 1, cs.len() as int)
}

proof fn lemma_first_covering_bounds(cs: Seq<MediaSourceChapter>, pos: u64, k: int)
    requires
        0 <= k <= cs.len(),
    ensures
        k <= first_covering(cs, pos, k) <= cs.len(),
    decreases cs.len() - k,
{
    if k < cs.len() && !covers(cs[k], pos) {
        lemma_first_covering_bounds(cs, pos, k + 1);
    }
}

proof fn lemma_first_covering_covers(cs: Seq<MediaSourceChapter>, pos: u64, k: int)
    requires
        0 <= k,
        first_covering(cs, pos, k) < cs.len(),
    ensures
        covers(cs[first_covering(cs, pos, k)], pos),
    decreases cs.len() - k,
{
    if k < cs.len() && !covers(cs[k], pos) {
        lemma_first_covering_covers(cs, pos, k + 1);
    }
}

/// Index of the chapter that covers `pos`, the first one if several do.
pub fn current_chapter(chapters: &Vec<MediaSourceChapter>, pos: u64) -> (r: Option<usize>)
    ensures
        r == current_index(chapters@, pos),
        r matches Some(i) ==> i < chapters@.len() && covers(chapters@[i as int], pos),
{
    proof {
        if first_covering(chapters@, pos, 0) < chapters@.len() {
            lemma_first_covering_covers(chapters@, pos, 0);
        }
    }
    let n = chapters.len();
    let mut i: usize = 0;
    while i < n
        invariant
            n == chapters@.len(),
            0 <= i <= n,
            first_covering(chapters@, pos, 0) == first_covering(chapters@, pos, i as int),
        decreases n - i,
    {
        let c = &chapters[i];
        if c.start <= pos && pos - c.start <= c.duration {
            return Some(i);
        }
        i = i + 1;
    }
    None
}

/// Index of the first chapter that starts after `pos`.
pub fn next_chapter(chapters: &Vec<MediaSourceChapter>, pos: u64) -> (r: Option<usize>)
    ensures
        r == next_index(chapters@, pos),
{
    let n = chapters.len();
    let mut i: usize = 0;
    while i < n
        invariant
            n == chapters@.len(),
            0 <= i <= n,
            first_after(chapters@, pos, 0) == first_after(chapters@, pos, i as int),
        decreases n - i,
    {
        if chapters[i].start > pos {
            return Some(i);
        }
        i = i + 1;
    }
    None
}

/// Index of the chapter before the one that covers `pos`.
pub fn previous_chapter(chapters: &Vec<MediaSourceChapter>, pos: u64) -> (r: Option<usize>)
    ensures
        r == previous_index(chapters@, pos),
{
    proof {
        lemma_first_covering_bounds(chapters@, pos, 0);
    }
    let n = chapters.len();
    let cur = current_chapter(chapters, pos);
    match cur {
        Some(i) => if i == 0 {
            None
        } else {
            Some(i - 1)
        },
        None => if n == 0 {
            None
        } else {
            Some(n - 1)
        },
    }
}

} // verus!
