//! The matrix type: a flat row-major buffer with its shape and a pending
//! element-wise activation, with dimension-checked multiplication.
use vstd::prelude::*;
use vstd::string::StringExecFns;
use crate::error::{decimal, push_decimal, DimensionError};
use crate::node::Node;
use vstd::std_specs::cmp::PartialEqSpec;

verus! {

/// The element-wise function a matrix applies when it is activated.
#[derive(Debug, Clone, Copy, PartialEq, Eq, Structural)]
pub enum Activation {
    /// Leaves every element as it is.
    Identity,
    /// `max(0, x)`.
    Relu,
}

impl Activation {
    pub open spec fn spec_apply<T: Node>(self, x: T) -> T {
        match self {
            Activation::Identity => x,
            Activation::Relu => if T::spec_lt(x, T::spec_zero()) {
                T::spec_zero()
            } else {
                x
            },
        }
    }

    pub fn apply<T: Node>(&self, x: T) -> (r: T)
        ensures
            r == self.spec_apply(x),
    {
        match self {
            Activation::Identity => x,
            Activation::Relu => {
                let z = T::zero();
                if x.less_than(&z) {
                    z
                } else {
                    x
                }
            },
        }
    }
}

/// What went wrong when building or multiplying matrices.
#[derive(Debug, Clone, PartialEq, Eq)]
pub enum LayerErrorKind {
    /// The data does not have `rows * cols` elements.
    Shape { len: usize, rows: usize, cols: usize },
    /// The inner dimensions of a product disagree.
    Dimension(DimensionError),
    /// A product whose operands agree but leave a dimension empty, so that there is
    /// no dot product to reduce. Shapes are recorded columns first, as in
    /// `DimensionError`.
    EmptyReduction { dim_one: [usize; 2], dim_two: [usize; 2] },
}

/// The error of matrix construction and multiplication.
#[derive(Debug, Clone, PartialEq, Eq)]
pub struct LayerError {
    pub kind: LayerErrorKind,
}

/// "Incorrect data size {len} != {cols} * {rows}"
pub open spec fn shape_message(len: usize, rows: usize, cols: usize) -> Seq<char> {
    "Incorrect data size "@ + decimal(len as nat) + " != "@ + decimal(cols as nat) + " * "@
        + decimal(rows as nat)
}

/// "Matrix of {c1} x {r1} and matrix of {c2} x {r2} leave an empty dot product."
pub open spec fn empty_message(dim_one: [usize; 2], dim_two: [usize; 2]) -> Seq<char> {
    "Matrix of "@ + decimal(dim_one[0] as nat) + " x "@ + decimal(dim_one[1] as nat)
        + " and matrix of "@ + decimal(dim_two[0] as nat) + " x "@ + decimal(dim_two[1] as nat)
        + " leave an empty dot product."@
}

impl LayerError {
    pub fn new(kind: LayerErrorKind) -> (r: Self)
        ensures
            r.kind == kind,
    {
        LayerError { kind }
    }

    pub open spec fn spec_message(&self) -> Seq<char> {
        match self.kind {
            LayerErrorKind::Shape { len, rows, cols } => shape_message(len, rows, cols),
            LayerErrorKind::Dimension(d) => d.spec_message(),
            LayerErrorKind::EmptyReduction { dim_one, dim_two } => empty_message(dim_one, dim_two),
        }
    }

    /// The human-readable form of the error.
    pub fn message(&self) -> (r: String)
        ensures
            r@ == self.spec_message(),
    {
        match &self.kind {
            LayerErrorKind::Shape { len, rows, cols } => {
                let mut s = String::new();
                s.append("Incorrect data size ");
                push_decimal(&mut s, *len);
                s.append(" != ");
                push_decimal(&mut s, *cols);
                s.append(" * ");
                push_decimal(&mut s, *rows);
                assert(s@ =~= self.spec_message());
                s
            },
            LayerErrorKind::Dimension(d) => d.message(),
            LayerErrorKind::EmptyReduction { dim_one, dim_two } => {
                let mut s = String::new();
                s.append("Matrix of ");
                push_decimal(&mut s, dim_one[0]);
                s.append(" x ");
                push_decimal(&mut s, dim_one[1]);
                s.append(" and matrix of ");
                push_decimal(&mut s, dim_two[0]);
                s.append(" x ");
                push_decimal(&mut s, dim_two[1]);
                s.append(" leave an empty dot product.");
                assert(s@ =~= self.spec_message());
                s
            },
        }
    }
}

impl From<DimensionError> for LayerError {
    fn from(value: DimensionError) -> (r: Self) {
        LayerError { kind: LayerErrorKind::Dimension(value) }
    }
}

impl vstd::std_specs::convert::FromSpecImpl<DimensionError> for LayerError {
    open spec fn obeys_from_spec() -> bool {
        true
    }

    open spec fn from_spec(v: DimensionError) -> LayerError {
        LayerError { kind: LayerErrorKind::Dimension(v) }
    }
}

/// The mathematical value of a matrix.
pub struct LayerView<T> {
    pub data: Seq<T>,
    pub rows: nat,
    pub cols: nat,
    pub activation: Activation,
}

impl<T> LayerView<T> {
    /// The data holds exactly `rows * cols` elements.
    pub open spec fn valid(self) -> bool {
        self.data.len() == self.rows * self.cols
    }

    /// Equal shape and data; the activation does not count.
    pub open spec fn same_values(self, other: LayerView<T>) -> bool {
        &&& self.data == other.data
        &&& self.rows == other.rows
        &&& self.cols == other.cols
    }
}

pub open spec fn activation_or_identity(a: Option<Activation>) -> Activation {
    match a {
        Some(f) => f,
        None => Activation::Identity,
    }
}

/// What `Layer::new` yields for the given data and shape.
pub open spec fn spec_new<T>(data: Seq<T>, rows: usize, cols: usize, activation: Option<Activation>)
    -> Result<LayerView<T>, LayerError> {
    if data.len() == rows * cols {
        Ok(
            LayerView {
                data,
                rows: rows as nat,
                cols: cols as nat,
                activation: activation_or_identity(activation),
            },
        )
    } else {
        Err(LayerError { kind: LayerErrorKind::Shape { len: data.len() as usize, rows, cols } })
    }
}

/// The `k`-th pairwise product of the dot product for output cell (`r`, `c`) of `a * b`.
pub open spec fn term<T: Node>(a: LayerView<T>, b: LayerView<T>, r: int, c: int, k: int) -> T {
    T::spec_times(a.data[r * a.cols + k], b.data[k * b.cols + c])
}

/// Whether the `k`-th pairwise product of cell (`r`, `c`) is defined.
pub open spec fn term_fits<T: Node>(a: LayerView<T>, b: LayerView<T>, r: int, c: int, k: int) -> bool {
    T::times_ok(a.data[r * a.cols + k], b.data[k * b.cols + c])
}

/// The left fold of the first `k` pairwise products of cell (`r`, `c`), seeded by the
/// first product rather than by zero.
pub open spec fn partial_dot<T: Node>(a: LayerView<T>, b: LayerView<T>, r: int, c: int, k: nat) -> T
    decreases k,
{
    if k <= 1 {
        term(a, b, r, c, 0)
    } else {
        T::spec_plus(partial_dot(a, b, r, c, (k - 1) as nat), term(a, b, r, c, k - 1))
    }
}

/// Every product and every partial sum of cell (`r`, `c`) stays within the element type.
pub open spec fn dot_fits<T: Node>(a: LayerView<T>, b: LayerView<T>, r: int, c: int) -> bool {
    &&& forall|k: int| 0 <= k < a.cols ==> #[trigger] term_fits(a, b, r, c, k)
    &&& forall|k: nat|
        1 <= k < a.cols ==> T::plus_ok(#[trigger] partial_dot(a, b, r, c, k), term(a, b, r, c, k as int))
}

/// The arithmetic of `a * b` stays within the element type (vacuous when the
/// shapes do not fit together).
pub open spec fn product_fits<T: Node>(a: LayerView<T>, b: LayerView<T>) -> bool {
    a.cols == b.rows ==> forall|r: int, c: int|
        0 <= r < a.rows && 0 <= c < b.cols ==> #[trigger] dot_fits(a, b, r, c)
}

/// The element at row `r`, column `c` of `a * b`.
pub open spec fn product_entry<T: Node>(a: LayerView<T>, b: LayerView<T>, r: int, c: int) -> T {
    partial_dot(a, b, r, c, a.cols)
}

/// What `Layer::mult` yields: a dimension error when `a.cols != b.rows`, an
/// empty-reduction error when a dimension of the product is zero, and otherwise the
/// `a.rows x b.cols` product, which keeps the activation of `a`.
pub open spec fn spec_mult<T: Node>(a: LayerView<T>, b: LayerView<T>) -> Result<LayerView<T>, LayerError> {
    if a.cols != b.rows {
        Err(
            LayerError {
                kind: LayerErrorKind::Dimension(
                    DimensionError {
                        dim_one: [a.cols as usize, a.rows as usize],
                        dim_two: [b.cols as usize, b.rows as usize],
                    },
                ),
            },
        )
    } else if a.rows == 0 || a.cols == 0 || b.cols == 0 {
        Err(
            LayerError {
                kind: LayerErrorKind::EmptyReduction {
                    dim_one: [a.cols as usize, a.rows as usize],
                    dim_two: [b.cols as usize, b.rows as usize],
                },
            },
        )
    } else {
        Ok(
            LayerView {
                data: Seq::new(
                    a.rows * b.cols,
                    |i: int| product_entry(a, b, i / b.cols as int, i % b.cols as int),
                ),
                rows: a.rows,
                cols: b.cols,
                activation: a.activation,
            },
        )
    }
}

/// What `Layer::activate` yields: every element passed through the activation, and
/// the identity left in its place.
pub open spec fn spec_activate<T: Node>(a: LayerView<T>) -> LayerView<T> {
    LayerView {
        data: a.data.map_values(|x: T| a.activation.spec_apply(x)),
        rows: a.rows,
        cols: a.cols,
        activation: Activation::Identity,
    }
}

/// Row `i` of `a`.
pub open spec fn row_of<T>(a: LayerView<T>, i: int) -> Seq<T> {
    a.data.subrange(i * a.cols, (i + 1) * a.cols)
}

/// Column `j` of `a`.
pub open spec fn col_of<T>(a: LayerView<T>, j: int) -> Seq<T> {
    Seq::new(a.rows, |i: int| a.data[i * a.cols + j])
}

/// A product of operands with no empty dimension succeeds exactly when the left
/// operand has as many columns as the right one has rows, and then has the left
/// operand's rows and the right operand's columns, with `rows * cols` elements.
pub proof fn lemma_mult_shape<T: Node>(a: LayerView<T>, b: LayerView<T>)
    requires
        a.rows > 0,
        b.cols > 0,
        a.cols > 0 || b.rows > 0,
    ensures
        spec_mult(a, b) is Ok <==> a.cols == b.rows,
        spec_mult(a, b) is Ok ==> {
            let p = spec_mult(a, b)->Ok_0;
            &&& p.rows == a.rows
            &&& p.cols == b.cols
            &&& p.valid()
        },
{
}

/// Two matrices of equal shape and data are equal, whatever their activations.
pub proof fn lemma_equality_ignores_activation<T: Node>(a: &Layer<T>, b: &Layer<T>)
    requires
        a@.data == b@.data,
        a@.rows == b@.rows,
        a@.cols == b@.cols,
    ensures
        a.eq_spec(b),
{
}

/// A dense matrix stored row-major: the element at row `r`, column `c` is
/// `data[r * cols + c]`.
#[derive(Debug)]
pub struct Layer<T: Node> {
    data: Vec<T>,
    num_row: usize,
    num_col: usize,
    activation_func: Activation,
}

impl<T: Node> Clone for Layer<T> {
    fn clone(&self) -> (r: Self) {
        proof { use_type_invariant(self); }
        Layer {
            data: self.data.clone(),
            num_row: self.num_row,
            num_col: self.num_col,
            activation_func: self.activation_func,
        }
    }
}

impl<T: Node> PartialEq for Layer<T> {
    fn eq(&self, other: &Self) -> (r: bool) {
        if self.num_row != other.num_row || self.num_col != other.num_col
            || self.data.len() != other.data.len() {
            return false;
        }
        let mut i: usize = 0;
        while i < self.data.len()
            invariant
                i <= self.data.len(),
                self.data.len() == other.data.len(),
                self@.data.subrange(0, i as int) == other@.data.subrange(0, i as int),
            decreases self.data.len() - i,
        {
            if !self.data[i].same(&other.data[i]) {
                return false;
            }
            proof {
                assert(self@.data.subrange(0, i + 1) =~= self@.data.subrange(0, i as int).push(self@.data[i as int]));
                assert(other@.data.subrange(0, i + 1) =~= other@.data.subrange(0, i as int).push(other@.data[i as int]));
            }
            i = i + 1;
        }
        proof {
            assert(self@.data =~= self@.data.subrange(0, i as int));
            assert(other@.data =~= other@.data.subrange(0, i as int));
        }
        true
    }
}

impl<T: Node> vstd::std_specs::cmp::PartialEqSpecImpl for Layer<T> {
    open spec fn obeys_eq_spec() -> bool {
        true
    }

    open spec fn eq_spec(&self, other: &Layer<T>) -> bool {
        self@.same_values(other@)
    }
}

impl<T: Node> View for Layer<T> {
    type V = LayerView<T>;

    closed spec fn view(&self) -> LayerView<T> {
        LayerView {
            data: self.data@,
            rows: self.num_row as nat,
            cols: self.num_col as nat,
            activation: self.activation_func,
        }
    }
}

pub open spec fn view_result<T: Node>(r: Result<Layer<T>, LayerError>) -> Result<
    LayerView<T>,
    LayerError,
> {
    match r {
        Ok(l) => Ok(l@),
        Err(e) => Err(e),
    }
}

impl<T: Node> Layer<T> {
    #[verifier::type_invariant]
    spec fn well_shaped(&self) -> bool {
        self.data.len() == self.num_row * self.num_col
    }

    /// Builds a matrix from row-major data; fails unless `data` has exactly
    /// `num_row * num_col` elements. Without an activation the identity is used.
    pub fn new(data: Vec<T>, num_row: usize, num_col: usize, activation_func: Option<Activation>)
        -> (r: Result<Self, LayerError>)
        ensures
            view_result(r) == spec_new(data@, num_row, num_col, activation_func),
    {
        let len = data.len();
        let fits = match num_row.checked_mul(num_col) {
            Some(p) => p == len,
            None => false,
        };
        if !fits {
            return Err(
                LayerError::new(LayerErrorKind::Shape { len, rows: num_row, cols: num_col }),
            );
        }
        let activation_func = match activation_func {
            Some(f) => f,
            None => Activation::Identity,
        };
        Ok(Layer { data, num_row, num_col, activation_func })
    }

    /// The number of rows.
    pub fn rows_count(&self) -> (r: usize)
        ensures
            r == self@.rows,
            self@.valid(),
    {
        proof { use_type_invariant(self); }
        self.num_row
    }

    /// The number of columns.
    pub fn cols_count(&self) -> (r: usize)
        ensures
            r == self@.cols,
            self@.valid(),
    {
        proof { use_type_invariant(self); }
        self.num_col
    }

    /// The dot product of row `r` of `self` and column `c` of `other`, folded left
    /// from the first pairwise product.
    fn dot(&self, other: &Self, r: usize, c: usize) -> (res: T)
        requires
            self@.cols == other@.rows,
            self@.cols > 0,
            r < self@.rows,
            c < other@.cols,
            dot_fits(self@, other@, r as int, c as int),
        ensures
            res == product_entry(self@, other@, r as int, c as int),
    {
        proof {
            use_type_invariant(self);
            use_type_invariant(other);
        }
        let n = self.num_col;
        let m = other.num_col;
        proof {
            assert(r * n + n <= self.num_row * n) by (nonlinear_arith)
                requires r < self.num_row;
            assert(term_fits(self@, other@, r as int, c as int, 0));
            assert(0 * (m as int) + c == c);
            assert(c < n * m) by (nonlinear_arith)
                requires c < m, 1 <= n;
            assert(r * n + 0 == r * n);
        }
        let mut acc = self.data[r * n].times(other.data[c]);
        let mut k: usize = 1;
        while k < n
            invariant
                1 <= k <= n,
                n == self@.cols,
                m == other@.cols,
                r * n + n <= self.data.len(),
                other.data.len() == n * m,
                c < m,
                dot_fits(self@, other@, r as int, c as int),
                acc == partial_dot(self@, other@, r as int, c as int, k as nat),
            decreases n - k,
        {
            proof {
                assert(k * m + c < n * m) by (nonlinear_arith)
                    requires k < n, c < m;
                assert(k * m + c < other@.data.len());
                assert(r * n + k < self@.data.len());
                assert(term_fits(self@, other@, r as int, c as int, k as int));
                assert(T::plus_ok(
                    partial_dot(self@, other@, r as int, c as int, k as nat),
                    term(self@, other@, r as int, c as int, k as int),
                ));
            }
            let t = self.data[r * n + k].times(other.data[k * m + c]);
            acc = acc.plus(t);
            k = k + 1;
        }
        acc
    }

    /// The elements of row `idx`, left to right; `None` when `idx` is not a row.
    pub fn row(&self, idx: usize) -> (r: Option<Vec<T>>)
        ensures
            idx < self@.rows ==> r is Some && r->Some_0@ == row_of(self@, idx as int),
            idx >= self@.rows ==> r is None,
    {
        proof { use_type_invariant(self); }
        if idx >= self.num_row {
            return None;
        }
        let n = self.num_col;
        proof {
            assert(idx * n + n <= self.num_row * n) by (nonlinear_arith)
                requires idx < self.num_row;
        }
        let start = idx * n;
        let mut out: Vec<T> = Vec::new();
        let mut k: usize = 0;
        while k < n
            invariant
                k <= n,
                n == self@.cols,
                start == idx * n,
                start + n <= self.data.len(),
                out@ == self@.data.subrange(start as int, start + k),
            decreases n - k,
        {
            out.push(self.data[start + k]);
            proof {
                assert(out@ =~= self@.data.subrange(start as int, start + k + 1));
            }
            k = k + 1;
        }
        proof {
            assert((idx + 1) * n == idx * n + n) by (nonlinear_arith);
        }
        Some(out)
    }

    /// The elements of column `idx`, top to bottom; `None` when `idx` is not a
    /// column.
    pub fn col(&self, idx: usize) -> (r: Option<Vec<T>>)
        ensures
            idx < self@.cols ==> r is Some && r->Some_0@ == col_of(self@, idx as int),
            idx >= self@.cols ==> r is None,
    {
        proof { use_type_invariant(self); }
        if idx >= self.num_col {
            return None;
        }
        let n = self.num_col;
        let mut out: Vec<T> = Vec::new();
        let mut i: usize = 0;
        while i < self.num_row
            invariant
                i <= self.num_row,
                n == self@.cols,
                idx < n,
                self.data.len() == self.num_row * n,
                out@.len() == i,
                forall|j: int| 0 <= j < i ==> out@[j] == self@.data[j * n + idx],
            decreases self.num_row - i,
        {
            proof {
                assert(i * n + idx < self.num_row * n) by (nonlinear_arith)
                    requires i < self.num_row, idx < n;
            }
            out.push(self.data[i * n + idx]);
            i = i + 1;
        }
        proof {
            assert(out@ =~= col_of(self@, idx as int));
        }
        Some(out)
    }

    /// The matrix product `self * other`. Fails with a dimension error unless
    /// `self` has as many columns as `other` has rows, and with an empty-reduction
    /// error when the product has a zero dimension. The result keeps the activation
    /// of `self`.
    pub fn mult(&self, other: &Self) -> (r: Result<Self, LayerError>)
        requires
            product_fits(self@, other@),
        ensures
            view_result(r) == spec_mult(self@, other@),
    {
        proof {
            use_type_invariant(self);
            use_type_invariant(other);
        }
        if self.num_col != other.num_row {
            return Err(
                LayerError::from(
                    DimensionError::new(
                        [self.num_col, self.num_row],
                        [other.num_col, other.num_row],
                    ),
                ),
            );
        }
        if self.num_row == 0 || self.num_col == 0 || other.num_col == 0 {
            return Err(
                LayerError::new(
                    LayerErrorKind::EmptyReduction {
                        dim_one: [self.num_col, self.num_row],
                        dim_two: [other.num_col, other.num_row],
                    },
                ),
            );
        }
        let rows = self.num_row;
        let m = other.num_col;
        let ghost a = self@;
        let ghost b = other@;
        let mut out: Vec<T> = Vec::new();
        let mut r: usize = 0;
        while r < rows
            invariant
                r <= rows,
                rows == a.rows,
                m == b.cols,
                m > 0,
                a == self@,
                b == other@,
                a.cols == b.rows,
                a.cols > 0,
                product_fits(a, b),
                out@.len() == r * m,
                forall|i: int| 0 <= i < out@.len() ==> out@[i] == product_entry(a, b, i / m as int, i % m as int),
            decreases rows - r,
        {
            let mut c: usize = 0;
            while c < m
                invariant
                    r < rows,
                    c <= m,
                    rows == a.rows,
                    m == b.cols,
                    m > 0,
                    a == self@,
                    b == other@,
                    a.cols == b.rows,
                    a.cols > 0,
                    product_fits(a, b),
                    out@.len() == r * m + c,
                    forall|i: int| 0 <= i < out@.len() ==> out@[i] == product_entry(a, b, i / m as int, i % m as int),
                decreases m - c,
            {
                proof {
                    assert(dot_fits(a, b, r as int, c as int));
                    assert(r * m + c < rows * m) by (nonlinear_arith)
                        requires r < rows, c < m;
                }
                let v = self.dot(other, r, c);
                proof {
                    let i = r * m + c;
                    vstd::arithmetic::div_mod::lemma_fundamental_div_mod_converse_div(i as int, m as int, r as int, c as int);
                    vstd::arithmetic::div_mod::lemma_fundamental_div_mod_converse_mod(i as int, m as int, r as int, c as int);
                }
                out.push(v);
                c = c + 1;
            }
            proof {
                assert((r + 1) * m == r * m + m) by (nonlinear_arith);
            }
            r = r + 1;
        }
        let ghost want = spec_mult(a, b);
        proof {
            assert(out@ =~= want->Ok_0.data);
        }
        Ok(Layer { data: out, num_row: rows, num_col: m, activation_func: self.activation_func })
    }

    /// A new matrix of the same shape with the activation applied to every element;
    /// the new matrix's own activation is the identity.
    pub fn activate(&self) -> (r: Self)
        ensures
            r@ == spec_activate(self@),
    {
        proof { use_type_invariant(self); }
        let mut out: Vec<T> = Vec::new();
        let mut i: usize = 0;
        while i < self.data.len()
            invariant
                i <= self@.data.len(),
                out@ == self@.data.subrange(0, i as int).map_values(|x: T| self@.activation.spec_apply(x)),
            decreases self@.data.len() - i,
        {
            let v = self.activation_func.apply(self.data[i]);
            proof {
                assert(self@.data.subrange(0, i + 1) =~= self@.data.subrange(0, i as int).push(self@.data[i as int]));
            }
            out.push(v);
            proof {
                assert(out@ =~= self@.data.subrange(0, i + 1).map_values(|x: T| self@.activation.spec_apply(x)));
            }
            i = i + 1;
        }
        proof {
            assert(self@.data.subrange(0, self@.data.len() as int) =~= self@.data);
        }
        Layer {
            data: out,
            num_row: self.num_row,
            num_col: self.num_col,
            activation_func: Activation::Identity,
        }
    }

    /// The row-major data; it always holds exactly `rows * cols` elements.
    pub fn data_vec(&self) -> (r: &Vec<T>)
        ensures
            r@ == self@.data,
            self@.valid(),
    {
        proof { use_type_invariant(self); }
        &self.data
    }
}

} // verus!
