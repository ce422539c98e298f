use vstd::prelude::*;

verus! {

/// The mathematical content of a matrix: its shape and its entries in
/// row-major order (`index = row * ncols + col`).
pub struct MatdView {
    pub nrows: nat,
    pub ncols: nat,
    pub data: Seq<u64>,
}

impl MatdView {
    /// The entry count agrees with the shape.
    pub open spec fn wf(self) -> bool {
        self.data.len() == self.nrows * self.ncols
    }

    pub open spec fn has_shape(self, nrows: nat, ncols: nat) -> bool {
        self.nrows == nrows && self.ncols == ncols
    }

    pub open spec fn entry(self, row: int, col: int) -> u64 {
        self.data[row * self.ncols + col]
    }
}

/// A dense matrix of doubles stored row-major. Each entry holds the
/// IEEE-754 bit pattern of the double, so the matrix can be moved and
/// compared without interpreting the numbers.
pub struct Matd {
    nrows: usize,
    ncols: usize,
    data: Vec<u64>,
}

impl View for Matd {
    type V = MatdView;

    closed spec fn view(&self) -> MatdView {
        MatdView { nrows: self.nrows as nat, ncols: self.ncols as nat, data: self.data@ }
    }
}

impl Matd {
    #[verifier::type_invariant]
    spec fn inv(self) -> bool {
        self.data@.len() == self.nrows * self.ncols
    }

    /// Builds a matrix from its shape and its row-major entries; `None`
    /// when the number of entries is not `nrows * ncols`.
    pub fn new(nrows: usize, ncols: usize, data: Vec<u64>) -> (r: Option<Matd>)
        ensures
            r is Some <==> data@.len() == nrows * ncols,
            r matches Some(m) ==> m@ == (MatdView { nrows: nrows as nat, ncols: ncols as nat, data: data@ }),
    {
        let n: usize = data.len();
        if ncols == 0 {
            if n == 0 {
                Some(Matd { nrows, ncols, data })
            } else {
                None
            }
        } else if n % ncols == 0 && n / ncols == nrows {
            proof {
                assert(n == ncols * (n / ncols) + n % ncols) by (nonlinear_arith)
                    requires ncols > 0;
                assert(n == nrows * ncols) by (nonlinear_arith)
                    requires n == ncols * (n / ncols), n / ncols == nrows;
            }
            Some(Matd { nrows, ncols, data })
        } else {
            proof {
                if n == nrows * ncols {
                    assert(n % ncols == 0 && n / ncols == nrows) by (nonlinear_arith)
                        requires n == nrows * ncols, ncols > 0;
                }
            }
            None
        }
    }

    pub fn nrows(&self) -> (r: usize)
        ensures
            r == self@.nrows,
            self@.wf(),
    {
        proof {
            use_type_invariant(self);
        }
        self.nrows
    }

    pub fn ncols(&self) -> (r: usize)
        ensures
            r == self@.ncols,
            self@.wf(),
    {
        proof {
            use_type_invariant(self);
        }
        self.ncols
    }

    /// The entries in row-major order, borrowed from the matrix.
    pub fn data(&self) -> (r: &[u64])
        ensures
            r@ == self@.data,
            self@.wf(),
    {
        proof {
            use_type_invariant(self);
        }
        self.data.as_slice()
    }

    /// The entry at `row`, `col`.
    pub fn get(&self, row: usize, col: usize) -> (r: u64)
        requires
            row < self@.nrows,
            col < self@.ncols,
        ensures
            r == self@.entry(row as int, col as int),
    {
        let len: usize = self.data.len();
        proof {
            use_type_invariant(self);
            let (nr, nc) = (self.nrows as int, self.ncols as int);
            assert(nr * nc == len);
            assert(0 <= row * nc && row * nc + col < nr * nc) by (nonlinear_arith)
                requires 0 <= row < nr, 0 <= col < nc;
        }
        self.data[row * self.ncols + col]
    }
}

} // verus!
