use vstd::prelude::*;

use crate::text::{i64_to_text, int_text, owned};

verus! {

/// A split position that does not fit the strip.
#[derive(Clone, Copy, Debug, PartialEq, Eq, Structural)]
pub enum SpliceError {
    OutOfBounds { split: isize, size: usize },
}

/// The message that reports a split of `split` over `size` pixels that
/// does not fit: the valid range around the split.
pub open spec fn split_error_text(split: int, size: int) -> Seq<char> {
    "Splice split out of bounds: "@ + int_text(-size) + " <= "@ + int_text(split) + " <= "@ + int_text(size)
}

impl SpliceError {
    /// The message that reports the error.
    pub fn message(&self) -> (res: String)
        requires
            match self {
                SpliceError::OutOfBounds { size, .. } => *size <= isize::MAX,
            },
        ensures
            match self {
                SpliceError::OutOfBounds { split, size } => res@ == split_error_text(*split as int, *size as int),
            },
    {
        match self {
            SpliceError::OutOfBounds { split, size } => {
                let size = *size as i64;
                let mut res = owned("Splice split out of bounds: ");
                res.append(i64_to_text(-size).as_str());
                res.append(" <= ");
                res.append(i64_to_text(*split as i64).as_str());
                res.append(" <= ");
                res.append(i64_to_text(size).as_str());
                res
            },
        }
    }
}

/// Where a strip of `size` pixels is cut: a split in `0 ..= size` counts from
/// the start, one in `-size ..= 0` from the end; no other split is valid.
pub open spec fn split_point(split: int, size: int) -> Option<int> {
    if 0 <= split <= size {
        Some(split)
    } else if -size <= split <= 0 {
        Some(size + split)
    } else {
        None
    }
}

/// Computes the cut position of a splice over `size` pixels.
pub fn calculate_split(split: isize, size: usize) -> (res: Result<usize, SpliceError>)
    requires
        size <= isize::MAX,
    ensures
        match split_point(split as int, size as int) {
            Some(at) => res == Ok::<usize, SpliceError>(at as usize),
            None => res == Err::<usize, SpliceError>(SpliceError::OutOfBounds { split, size }),
        },
{
    let signed_size = size as isize;
    if 0 <= split && split <= signed_size {
        return Ok(split as usize);
    }
    if -signed_size <= split && split <= 0 {
        let at = signed_size + split;
        return Ok(at as usize);
    }
    Err(SpliceError::OutOfBounds { split, size })
}

/// The sizes of the two parts of a splice over `size` pixels: the first part
/// ends at the cut, the second takes the rest.
pub fn splice_sizes(split: isize, size: usize) -> (res: Result<(usize, usize), SpliceError>)
    requires
        size <= isize::MAX,
    ensures
        match split_point(split as int, size as int) {
            Some(at) => res == Ok::<(usize, usize), SpliceError>((at as usize, (size - at) as usize)),
            None => res == Err::<(usize, usize), SpliceError>(SpliceError::OutOfBounds { split, size }),
        },
        res matches Ok(parts) ==> parts.0 + parts.1 == size,
{
    match calculate_split(split, size) {
        Ok(at) => Ok((at, size - at)),
        Err(e) => Err(e),
    }
}

/// Fills `out` with the pixels of `first` followed by those of `second`.
pub fn splice_update<E: Copy>(first: &[E], second: &[E], out: &mut Vec<E>)
    requires
        old(out).len() <= first.len() + second.len(),
    ensures
        final(out).len() == old(out).len(),
        final(out)@ == (first@ + second@).take(old(out).len() as int),
{
    let n = out.len();
    let mut i: usize = 0;
    while i < n
        invariant
            n == out.len(),
            n <= first.len() + second.len(),
            i <= n,
            forall|j: int| 0 <= j < i ==> out@[j] == #[trigger] (first@ + second@)[j],
        decreases n - i,
    {
        if i < first.len() {
            out.set(i, first[i]);
        } else {
            out.set(i, second[i - first.len()]);
        }
        i = i + 1;
    }
    assert(out@ == (first@ + second@).take(n as int));
}

/// A split counted from the end cuts where the same distance counted from
/// the start would: `-k` and `size - k` name the same cut.
pub proof fn lemma_split_from_end(k: int, size: int)
    requires
        0 < k <= size,
    ensures
        split_point(-k, size) == split_point(size - k, size),
{
}

/// The two parts of a splice fill the strip exactly: where the parts have
/// the sizes that [`splice_sizes`] gives, the frame is the first part
/// followed by the second.
pub proof fn lemma_splice_fills_strip<E>(first: Seq<E>, second: Seq<E>, out: Seq<E>, size: int, at: int)
    requires
        split_point(at, size) matches Some(cut) && first.len() == cut && second.len() == size - cut,
        out.len() == size,
        out == (first + second).take(size),
    ensures
        out == first + second,
{
    assert((first + second).take(size) =~= first + second);
}

} // verus!
