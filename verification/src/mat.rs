//! A model of the external vision library's dense 2-D matrix.
//!
//! The external library's own matrix cannot be reasoned about directly, so
//! the conversion layer works on this type, which holds exactly what the
//! logic reads of a matrix: row count, column count, element descriptor and
//! the backing bytes, stored contiguously in row-major order with no row
//! padding. `MatRef` is a borrowed view whose validity is bounded by the
//! lifetime of the storage it was built over; `Mat` owns an independent
//! copy.

use vstd::prelude::*;

use crate::format::{elem_wf, MatElem};

verus! {

/// What a failure of the matrix collaborator carries.
#[derive(Clone, Copy, Debug, PartialEq, Eq, Structural)]
pub enum MatError {
    /// A dimension is negative or the element descriptor is invalid.
    BadSize,
    /// The backing storage does not hold `rows * cols` elements.
    SizeMismatch,
}

/// The mathematical value of a matrix: its dimensions, its element
/// descriptor and its bytes.
pub struct SpecMat {
    pub rows: int,
    pub cols: int,
    pub elem: MatElem,
    pub data: Seq<u8>,
}

/// A matrix is well formed when its dimensions are non-negative, its
/// element descriptor is valid, and its storage holds exactly
/// `rows * cols` elements of `elem.channels` bytes each.
pub open spec fn mat_wf(m: SpecMat) -> bool {
    &&& 0 <= m.rows
    &&& 0 <= m.cols
    &&& elem_wf(m.elem)
    &&& m.data.len() == m.rows * m.cols * m.elem.channels
}

/// A borrowed matrix view over foreign-owned bytes.
#[derive(Debug)]
pub struct MatRef<'a> {
    rows: i32,
    cols: i32,
    elem: MatElem,
    data: &'a [u8],
}

/// An owned matrix with independently owned storage.
#[derive(Debug)]
pub struct Mat {
    rows: i32,
    cols: i32,
    elem: MatElem,
    data: Vec<u8>,
}

impl<'a> View for MatRef<'a> {
    type V = SpecMat;

    closed spec fn view(&self) -> SpecMat {
        SpecMat {
            rows: self.rows as int,
            cols: self.cols as int,
            elem: self.elem,
            data: self.data@,
        }
    }
}

impl View for Mat {
    type V = SpecMat;

    closed spec fn view(&self) -> SpecMat {
        SpecMat {
            rows: self.rows as int,
            cols: self.cols as int,
            elem: self.elem,
            data: self.data@,
        }
    }
}

impl<'a> MatRef<'a> {
    /// The type invariant: every matrix view this crate hands out is well
    /// formed.
    #[verifier::type_invariant]
    pub open spec fn wf(self) -> bool {
        mat_wf(self@)
    }

    /// Builds a borrowed matrix view over `data`, exactly as the external
    /// library builds a matrix header over foreign memory: it fails with
    /// `BadSize` when a dimension is negative or the descriptor invalid,
    /// and with `SizeMismatch` when `data` does not hold exactly
    /// `rows * cols` elements.
    pub fn new_rows_cols_with_data(rows: i32, cols: i32, elem: MatElem, data: &'a [u8]) -> (r:
        Result<MatRef<'a>, MatError>)
        ensures
            match r {
                Ok(m) => m@ == (SpecMat { rows: rows as int, cols: cols as int, elem, data: data@ })
                    && mat_wf(m@),
                Err(MatError::BadSize) => !(0 <= rows && 0 <= cols && elem_wf(elem)),
                Err(MatError::SizeMismatch) => 0 <= rows && 0 <= cols && elem_wf(elem) && data@.len()
                    != rows * cols * elem.channels,
            },
            r is Ok <==> 0 <= rows && 0 <= cols && elem_wf(elem) && data@.len() == rows * cols
                * elem.channels,
    {
        if rows < 0 || cols < 0 || elem.depth != crate::format::DEPTH_U8 || elem.channels < 1 {
            return Err(MatError::BadSize);
        }
        proof {
            assert(0 <= (rows as int) * (cols as int) <= 0x7fffffff * 0x7fffffff)
                by (nonlinear_arith)
                requires
                    0 <= rows <= 0x7fffffff,
                    0 <= cols <= 0x7fffffff,
            ;
            assert(0 <= (rows as int) * (cols as int) * (elem.channels as int) <= 0x7fffffff
                * 0x7fffffff * 0x7fffffff) by (nonlinear_arith)
                requires
                    0 <= (rows as int) * (cols as int) <= 0x7fffffff * 0x7fffffff,
                    1 <= elem.channels <= 0x7fffffff,
            ;
        }
        let total: u128 = (rows as u128) * (cols as u128) * (elem.channels as u128);
        if (data.len() as u128) != total {
            return Err(MatError::SizeMismatch);
        }
        Ok(MatRef { rows, cols, elem, data })
    }

    /// Number of rows.
    pub fn rows(&self) -> (r: i32)
        ensures
            r == self@.rows,
    {
        self.rows
    }

    /// Number of columns.
    pub fn cols(&self) -> (c: i32)
        ensures
            c == self@.cols,
    {
        self.cols
    }

    /// The element descriptor.
    pub fn elem(&self) -> (e: MatElem)
        ensures
            e == self@.elem,
    {
        self.elem
    }

    /// The backing bytes, row-major and contiguous. A matrix of this crate
    /// is always contiguous, so unlike the external library's accessor
    /// this cannot fail.
    pub fn data_bytes(&self) -> (d: &'a [u8])
        ensures
            d@ == self@.data,
    {
        self.data
    }

    /// Duplicates the viewed bytes into an independently owned matrix, as
    /// the external library's deep clone does.
    pub fn try_clone(&self) -> (r: Result<Mat, MatError>)
        ensures
            r matches Ok(m) && m@ == self@,
    {
        proof {
            use_type_invariant(self);
        }
        Ok(
            Mat {
                rows: self.rows,
                cols: self.cols,
                elem: self.elem,
                data: vstd::slice::slice_to_vec(self.data),
            },
        )
    }
}

impl Mat {
    /// The type invariant: every owned matrix this crate hands out is
    /// well formed.
    #[verifier::type_invariant]
    pub open spec fn wf(self) -> bool {
        mat_wf(self@)
    }

    /// Number of rows.
    pub fn rows(&self) -> (r: i32)
        ensures
            r == self@.rows,
    {
        self.rows
    }

    /// Number of columns.
    pub fn cols(&self) -> (c: i32)
        ensures
            c == self@.cols,
    {
        self.cols
    }

    /// The element descriptor.
    pub fn elem(&self) -> (e: MatElem)
        ensures
            e == self@.elem,
    {
        self.elem
    }

    /// The backing bytes, row-major and contiguous.
    pub fn data_bytes(&self) -> (d: &[u8])
        ensures
            d@ == self@.data,
    {
        self.data.as_slice()
    }
}

} // verus!
