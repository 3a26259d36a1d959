//! Shapes of the state that a recurrent model carries from one run to the next.
use vstd::prelude::*;

verus! {

/// A dimension as it is allocated: one that the model leaves open has size one.
pub open spec fn fixed_dim(d: i64) -> int {
    if d < 0 {
        1
    } else {
        d as int
    }
}

/// The product of the first dimensions.
pub open spec fn elements(shape: Seq<usize>) -> nat
    decreases shape.len(),
{
    if shape.len() == 0 {
        1
    } else {
        elements(shape.drop_last()) * shape.last() as nat
    }
}

/// The shape that is allocated for a state input; `[1]` where the model does not give one.
pub fn state_shape(dims: Option<&[i64]>) -> (shape: Vec<usize>)
    requires
        dims matches Some(d) ==> forall|i: int| 0 <= i < d@.len() ==> #[trigger] d@[i] <= usize::MAX,
    ensures
        match dims {
            Some(d) => {
                &&& shape@.len() == d@.len()
                &&& forall|i: int| 0 <= i < d@.len() ==> #[trigger] shape@[i] == fixed_dim(d@[i])
            },
            None => shape@ == seq![1usize],
        },
{
    let mut shape: Vec<usize> = Vec::new();
    match dims {
        Some(d) => {
            for i in 0..d.len()
                invariant
                    forall|k: int| 0 <= k < d@.len() ==> #[trigger] d@[k] <= usize::MAX,
                    shape@.len() == i,
                    forall|k: int| 0 <= k < i ==> #[trigger] shape@[k] == fixed_dim(d@[k]),
            {
                let dim: i64 = d[i];
                shape.push(
                    if dim < 0 {
                        1
                    } else {
                        dim as usize
                    },
                );
            }
        },
        None => {
            shape.push(1);
            assert(shape@ =~= seq![1usize]);
        },
    }
    shape
}

/// How many values a state of this shape holds; none where that is beyond what can be counted.
pub fn element_count(shape: &[usize]) -> (n: Option<usize>)
    ensures
        n matches Some(x) ==> x == elements(shape@),
        n is None <==> exists|i: int|
            0 <= i <= shape@.len() && #[trigger] elements(shape@.take(i)) > usize::MAX,
{
    let mut n: usize = 1;
    assert(shape@.take(0) =~= Seq::empty());
    for i in 0..shape.len()
        invariant
            n == elements(shape@.take(i as int)),
            forall|k: int| 0 <= k <= i ==> #[trigger] elements(shape@.take(k)) <= usize::MAX,
    {
        assert(shape@.take(i as int + 1).drop_last() =~= shape@.take(i as int));
        match n.checked_mul(shape[i]) {
            Some(m) => {
                n = m;
            },
            None => {
                assert(elements(shape@.take(i as int + 1)) > usize::MAX);
                return None;
            },
        }
    }
    assert(shape@.take(shape@.len() as int) =~= shape@);
    Some(n)
}

/// A dimension that the model gives is kept, and one that it leaves open has size one.
pub proof fn law_dimensions_are_kept(d: i64)
    ensures
        d >= 0 ==> fixed_dim(d) == d,
        d < 0 ==> fixed_dim(d) == 1,
{
}

/// A state of states holds the product of both, and the order of dimensions does not matter.
pub proof fn law_elements_multiply(a: Seq<usize>, b: Seq<usize>)
    ensures
        elements(a + b) == elements(a) * elements(b),
        elements(a + b) == elements(b + a),
    decreases b.len(),
{
    lemma_elements_multiply(a, b);
    lemma_elements_multiply(b, a);
    assert(elements(a) * elements(b) == elements(b) * elements(a)) by (nonlinear_arith);
}

proof fn lemma_elements_multiply(a: Seq<usize>, b: Seq<usize>)
    ensures
        elements(a + b) == elements(a) * elements(b),
    decreases b.len(),
{
    if b.len() == 0 {
        assert(a + b =~= a);
        assert(elements(b) == 1);
    } else {
        assert((a + b).drop_last() =~= a + b.drop_last());
        lemma_elements_multiply(a, b.drop_last());
        let x = elements(a);
        let y = elements(b.drop_last());
        let z = b.last() as nat;
        assert((x * y) * z == x * (y * z)) by (nonlinear_arith);
    }
}

/// One dimension holds as many values as it is long, and no dimension holds one value.
pub proof fn law_elements_of_a_line(n: usize)
    ensures
        elements(seq![n]) == n,
        elements(Seq::empty()) == 1,
{
    reveal_with_fuel(elements, 2);
    assert(seq![n].drop_last() =~= Seq::<usize>::empty());
}

} // verus!
