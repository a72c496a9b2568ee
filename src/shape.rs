use vstd::prelude::*;

use crate::error::NetworkError;

verus! {

/// The dimensions of a matrix: `rows` by `cols`.
#[derive(Clone, Copy, Debug, PartialEq, Eq, Structural)]
pub struct Shape {
    pub rows: usize,
    pub cols: usize,
}

/// A single row of `cols` entries, the shape of every vector that flows
/// through the network.
pub open spec fn row_shape(cols: usize) -> Shape {
    Shape { rows: 1, cols }
}

/// The shape of the transposed matrix.
pub open spec fn transposed_shape(s: Shape) -> Shape {
    Shape { rows: s.cols, cols: s.rows }
}

/// The shape of the product `a · b`, defined when the inner dimensions agree.
pub open spec fn product_shape(a: Shape, b: Shape) -> Option<Shape> {
    if a.cols == b.rows {
        Some(Shape { rows: a.rows, cols: b.cols })
    } else {
        None
    }
}

/// The outcome of comparing `actual` with `expected` entry by entry, from
/// index `i` on: the first entry that differs, if any.
pub open spec fn mismatch_from(expected: Seq<Shape>, actual: Seq<Shape>, i: int) -> Result<
    (),
    NetworkError,
>
    decreases expected.len() - i,
{
    if i < 0 || i >= expected.len() {
        Ok(())
    } else if expected[i] != actual[i] {
        Err(NetworkError::DimensionMismatch { expected: expected[i], actual: actual[i] })
    } else {
        mismatch_from(expected, actual, i + 1)
    }
}

/// The outcome of checking a sequence of shapes against the expected one:
/// first the count, then the first entry that differs.
pub open spec fn shapes_check(expected: Seq<Shape>, actual: Seq<Shape>) -> Result<
    (),
    NetworkError,
> {
    if expected.len() != actual.len() {
        Err(
            NetworkError::CountMismatch {
                expected_len: expected.len() as usize,
                actual_len: actual.len() as usize,
            },
        )
    } else {
        mismatch_from(expected, actual, 0)
    }
}

/// `n` copies of one shape.
pub open spec fn repeated(shape: Shape, n: nat) -> Seq<Shape> {
    Seq::new(n, |_i: int| shape)
}

/// When no entry differs from index `i` on, the comparison succeeds exactly
/// when the two sequences agree there.
pub proof fn lemma_mismatch_from_ok(expected: Seq<Shape>, actual: Seq<Shape>, i: int)
    requires
        0 <= i <= expected.len(),
        expected.len() == actual.len(),
    ensures
        mismatch_from(expected, actual, i) is Ok <==> forall|j: int|
            i <= j < expected.len() ==> expected[j] == actual[j],
    decreases expected.len() - i,
{
    if i < expected.len() {
        lemma_mismatch_from_ok(expected, actual, i + 1);
    }
}

impl Shape {
    pub fn new(rows: usize, cols: usize) -> (r: Shape)
        ensures
            r.rows == rows,
            r.cols == cols,
    {
        Shape { rows, cols }
    }

    /// A single row of `cols` entries.
    pub fn row(cols: usize) -> (r: Shape)
        ensures
            r == row_shape(cols),
    {
        Shape { rows: 1, cols }
    }

    /// The shape of the transposed matrix.
    pub fn transposed(&self) -> (r: Shape)
        ensures
            r == transposed_shape(*self),
    {
        Shape { rows: self.cols, cols: self.rows }
    }

    /// The shape of `self · other`, or `None` where the inner dimensions differ.
    pub fn dot(&self, other: &Shape) -> (r: Option<Shape>)
        ensures
            r == product_shape(*self, *other),
    {
        if self.cols == other.rows {
            Some(Shape { rows: self.rows, cols: other.cols })
        } else {
            None
        }
    }
}

/// Checks `actual` against `expected`: their counts must agree, and then
/// each entry; the first entry that differs is reported.
pub fn check_shapes(expected: &Vec<Shape>, actual: &Vec<Shape>) -> (r: Result<(), NetworkError>)
    ensures
        r == shapes_check(expected@, actual@),
        r is Ok <==> expected@ == actual@,
{
    if expected.len() != actual.len() {
        return Err(
            NetworkError::CountMismatch {
                expected_len: expected.len(),
                actual_len: actual.len(),
            },
        );
    }
    let mut i: usize = 0;
    while i < expected.len()
        invariant
            expected.len() == actual.len(),
            i <= expected.len(),
            forall|j: int| 0 <= j < i ==> expected@[j] == actual@[j],
            mismatch_from(expected@, actual@, 0) == mismatch_from(expected@, actual@, i as int),
        decreases expected.len() - i,
    {
        if expected[i] != actual[i] {
            return Err(NetworkError::DimensionMismatch { expected: expected[i], actual: actual[i] });
        }
        i = i + 1;
    }
    proof {
        lemma_mismatch_from_ok(expected@, actual@, 0);
        assert(expected@ =~= actual@);
    }
    Ok(())
}

/// Checks that every entry of `actual` is `expected`; the first entry that
/// differs is reported.
pub fn check_all(expected: Shape, actual: &Vec<Shape>) -> (r: Result<(), NetworkError>)
    ensures
        r == shapes_check(repeated(expected, actual@.len()), actual@),
        r is Ok <==> forall|j: int| 0 <= j < actual@.len() ==> actual@[j] == expected,
{
    let ghost want = repeated(expected, actual@.len());
    let mut i: usize = 0;
    while i < actual.len()
        invariant
            want == repeated(expected, actual@.len()),
            i <= actual.len(),
            forall|j: int| 0 <= j < i ==> actual@[j] == expected,
            mismatch_from(want, actual@, 0) == mismatch_from(want, actual@, i as int),
        decreases actual.len() - i,
    {
        if actual[i] != expected {
            return Err(NetworkError::DimensionMismatch { expected, actual: actual[i] });
        }
        i = i + 1;
    }
    proof {
        lemma_mismatch_from_ok(want, actual@, 0);
    }
    Ok(())
}

} // verus!
