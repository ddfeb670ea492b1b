//! The forward pass: multiply-then-activate folded over a list of weight layers.
use vstd::prelude::*;
use crate::error::DimensionError;
use crate::layer::{
    product_fits, spec_activate, spec_mult, Layer, LayerError, LayerErrorKind, LayerView,
};
use crate::node::Node;

verus! {

/// The error of a forward pass: the matrix error of the first step that failed.
#[derive(Debug, Clone, PartialEq, Eq)]
pub struct FFError {
    pub cause: LayerError,
}

impl FFError {
    /// The human-readable form of the error, the same as that of its cause.
    pub fn message(&self) -> (r: String)
        ensures
            r@ == self.cause.spec_message(),
    {
        self.cause.message()
    }
}

impl From<DimensionError> for FFError {
    fn from(value: DimensionError) -> (r: Self) {
        FFError { cause: LayerError { kind: LayerErrorKind::Dimension(value) } }
    }
}

impl vstd::std_specs::convert::FromSpecImpl<DimensionError> for FFError {
    open spec fn obeys_from_spec() -> bool {
        true
    }

    open spec fn from_spec(v: DimensionError) -> FFError {
        FFError { cause: LayerError { kind: LayerErrorKind::Dimension(v) } }
    }
}

impl From<LayerError> for FFError {
    fn from(value: LayerError) -> (r: Self) {
        FFError { cause: value }
    }
}

impl vstd::std_specs::convert::FromSpecImpl<LayerError> for FFError {
    open spec fn obeys_from_spec() -> bool {
        true
    }

    open spec fn from_spec(v: LayerError) -> FFError {
        FFError { cause: v }
    }
}

/// The views of a list of matrices.
pub open spec fn views<T: Node>(ls: Seq<Layer<T>>) -> Seq<LayerView<T>> {
    ls.map_values(|l: Layer<T>| l@)
}

/// One step of the pass: `activate(acc * w)`.
pub open spec fn spec_step<T: Node>(acc: LayerView<T>, w: LayerView<T>) -> Result<
    LayerView<T>,
    LayerError,
> {
    match spec_mult(acc, w) {
        Ok(p) => Ok(spec_activate(p)),
        Err(e) => Err(e),
    }
}

/// The forward pass from `acc` through `weights`, in order, stopping at the first
/// step that fails.
pub open spec fn spec_forward<T: Node>(acc: LayerView<T>, weights: Seq<LayerView<T>>) -> Result<
    LayerView<T>,
    LayerError,
>
    decreases weights.len(),
{
    if weights.len() == 0 {
        Ok(acc)
    } else {
        match spec_step(acc, weights[0]) {
            Ok(next) => spec_forward(next, weights.drop_first()),
            Err(e) => Err(e),
        }
    }
}

/// The arithmetic of every step that the pass reaches stays within the element type.
pub open spec fn forward_fits<T: Node>(acc: LayerView<T>, weights: Seq<LayerView<T>>) -> bool
    decreases weights.len(),
{
    if weights.len() == 0 {
        true
    } else {
        &&& product_fits(acc, weights[0])
        &&& match spec_step(acc, weights[0]) {
            Ok(next) => forward_fits(next, weights.drop_first()),
            Err(_) => true,
        }
    }
}

/// A forward pass through no weights returns its input unchanged.
pub proof fn lemma_forward_empty<T: Node>(input: LayerView<T>)
    ensures
        spec_forward(input, Seq::<LayerView<T>>::empty()) == Ok::<LayerView<T>, LayerError>(input),
{
}

/// A forward pass through two weights is `activate(activate(input * w1) * w2)`,
/// failing with the error of the first product that fails.
pub proof fn lemma_forward_two<T: Node>(input: LayerView<T>, w1: LayerView<T>, w2: LayerView<T>)
    ensures
        spec_forward(input, seq![w1, w2]) == match spec_mult(input, w1) {
            Ok(p1) => match spec_mult(spec_activate(p1), w2) {
                Ok(p2) => Ok(spec_activate(p2)),
                Err(e) => Err(e),
            },
            Err(e) => Err(e),
        },
{
    reveal_with_fuel(spec_forward, 3);
    let ws = seq![w1, w2];
    assert(ws[0] == w1);
    assert(ws.drop_first() =~= seq![w2]);
    assert(seq![w2].drop_first() =~= Seq::<LayerView<T>>::empty());
}

/// When the first of three steps succeeds and the second fails, the pass fails with
/// the second step's error, whatever the third weight is.
pub proof fn lemma_forward_fail_fast<T: Node>(
    input: LayerView<T>,
    w1: LayerView<T>,
    w2: LayerView<T>,
    w3: LayerView<T>,
)
    requires
        spec_step(input, w1) is Ok,
        spec_step(spec_step(input, w1)->Ok_0, w2) is Err,
    ensures
        spec_forward(input, seq![w1, w2, w3]) == Err::<LayerView<T>, LayerError>(
            spec_step(spec_step(input, w1)->Ok_0, w2)->Err_0,
        ),
{
    reveal_with_fuel(spec_forward, 2);
    let ws = seq![w1, w2, w3];
    assert(ws[0] == w1);
    assert(ws.drop_first() =~= seq![w2, w3]);
    assert(seq![w2, w3][0] == w2);
}

/// Runs `input` through `weights` in order: each step multiplies the running matrix
/// by the next weight layer and activates the product. Stops at the first product
/// that fails and returns its error; with no weights, returns `input` unchanged.
pub fn lin_forward<T: Node>(input: Layer<T>, weights: Vec<Layer<T>>) -> (r: Result<
    Layer<T>,
    FFError,
>)
    requires
        forward_fits(input@, views(weights@)),
    ensures
        match r {
            Ok(l) => spec_forward(input@, views(weights@)) == Ok::<LayerView<T>, LayerError>(l@),
            Err(e) => spec_forward(input@, views(weights@)) == Err::<LayerView<T>, LayerError>(
                e.cause,
            ),
        },
{
    let ghost ws = views(weights@);
    let mut cache = input;
    let mut i: usize = 0;
    proof {
        assert(ws.skip(0) =~= ws);
    }
    while i < weights.len()
        invariant
            i <= weights.len(),
            ws == views(weights@),
            spec_forward(input@, ws) == spec_forward(cache@, ws.skip(i as int)),
            forward_fits(cache@, ws.skip(i as int)),
        decreases weights.len() - i,
    {
        let ghost rest = ws.skip(i as int);
        proof {
            assert(rest[0] == weights@[i as int]@);
            assert(rest.drop_first() =~= ws.skip(i + 1));
        }
        match cache.mult(&weights[i]) {
            Ok(p) => {
                cache = p.activate();
            },
            Err(e) => {
                return Err(FFError::from(e));
            },
        }
        i = i + 1;
    }
    proof {
        assert(ws.skip(i as int) =~= Seq::<LayerView<T>>::empty());
    }
    Ok(cache)
}

} // verus!
