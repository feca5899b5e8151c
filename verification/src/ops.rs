//! Stages: the operations at the heart of a pipeline. A stage performs an
//! action on each item of the data and signs the runner it was applied to.

use crate::signatures::Signature;
use vstd::prelude::*;

verus! {

/// A stage: it turns each item of a runner's data into an item of the next
/// runner's data, and signs that runner.
///
/// `call` is meant to be a function of its argument, and to leave everything
/// else as it is: only then does an unchanged lineage stand for unchanged
/// data.
pub trait AbstractOp {
    type OpSignatureType: Signature + Clone;

    type InputDataType: Sized;

    type OutputDataType: Sized;

    /// Produces the signature of the stage.
    fn signature(&self) -> Self::OpSignatureType;

    /// Performs the stage on one item.
    fn call(&self, data: Self::InputDataType) -> Self::OutputDataType;
}

/// `output` is an item that `op` may give for `input`.
pub open spec fn yields<O: AbstractOp>(
    op: &O,
    input: O::InputDataType,
    output: O::OutputDataType,
) -> bool {
    call_ensures(O::call, (op, input), output)
}

/// `signature` is a signature that `op` may sign with.
pub open spec fn signs_with<O: AbstractOp>(op: &O, signature: O::OpSignatureType) -> bool {
    call_ensures(O::signature, (op,), signature)
}

/// `outputs` is what `op` may make of `inputs`: as many items, each of them
/// given by `op` for the item that stands at its place in `inputs`.
pub open spec fn maps_onto<O: AbstractOp>(
    op: &O,
    inputs: Seq<O::InputDataType>,
    outputs: Seq<O::OutputDataType>,
) -> bool {
    &&& outputs.len() == inputs.len()
    &&& forall|i: int| 0 <= i < inputs.len() ==> yields(op, inputs[i], #[trigger] outputs[i])
}

/// `op` computes `function`: whatever it gives for an item is the value of
/// `function` on that item.
pub open spec fn computes<O: AbstractOp>(
    op: &O,
    function: spec_fn(O::InputDataType) -> O::OutputDataType,
) -> bool {
    forall|input: O::InputDataType, output: O::OutputDataType| #[trigger]
        yields(op, input, output) ==> output == function(input)
}

/// A stage that computes a function makes of a sequence the sequence of the
/// function's values, item by item and in the same order.
pub proof fn stage_preserves_order<O: AbstractOp>(
    op: &O,
    function: spec_fn(O::InputDataType) -> O::OutputDataType,
    inputs: Seq<O::InputDataType>,
    outputs: Seq<O::OutputDataType>,
)
    requires
        computes(op, function),
        maps_onto(op, inputs, outputs),
    ensures
        outputs == inputs.map_values(function),
{
}

/// Two stages in a chain compose: where the first computes `first` and the
/// second computes `second`, the item at each place of the outcome is
/// `second(first(..))` of the item at that place of the source.
pub proof fn chained_stages_compose<
    F: AbstractOp,
    G: AbstractOp<InputDataType = F::OutputDataType>,
>(
    first_op: &F,
    second_op: &G,
    first: spec_fn(F::InputDataType) -> F::OutputDataType,
    second: spec_fn(G::InputDataType) -> G::OutputDataType,
    source: Seq<F::InputDataType>,
    between: Seq<F::OutputDataType>,
    outcome: Seq<G::OutputDataType>,
)
    requires
        computes(first_op, first),
        computes(second_op, second),
        maps_onto(first_op, source, between),
        maps_onto(second_op, between, outcome),
    ensures
        outcome.len() == source.len(),
        forall|i: int| 0 <= i < source.len() ==> outcome[i] == second(first(source[i])),
{
}

/// The value of `functions` applied to `item` one after another, the first
/// of them first.
pub open spec fn composed<T>(functions: Seq<spec_fn(T) -> T>, item: T) -> T
    decreases functions.len(),
{
    if functions.len() == 0 {
        item
    } else {
        functions.last()(composed(functions.drop_last(), item))
    }
}

/// Order is kept through a chain of any length. Where stages on items of one
/// type are applied one after another, each computing its function, and
/// `steps` holds the data before the first stage and after each one, the item
/// at each place of the last step is the composition of all the functions, in
/// the order of the chain, on the item at that place of the source.
pub proof fn chain_preserves_order<T, O: AbstractOp<InputDataType = T, OutputDataType = T>>(
    ops: Seq<O>,
    functions: Seq<spec_fn(T) -> T>,
    steps: Seq<Seq<T>>,
)
    requires
        functions.len() == ops.len(),
        steps.len() == ops.len() + 1,
        forall|k: int| 0 <= k < ops.len() ==> computes(&#[trigger] ops[k], functions[k]),
        forall|k: int| 0 <= k < ops.len() ==> maps_onto(&#[trigger] ops[k], steps[k], steps[k + 1]),
    ensures
        steps.last().len() == steps[0].len(),
        forall|i: int|
            0 <= i < steps[0].len() ==> #[trigger] steps.last()[i] == composed(
                functions,
                steps[0][i],
            ),
    decreases ops.len(),
{
    if ops.len() > 0 {
        let k = ops.len() - 1;
        let ops_before = ops.drop_last();
        let functions_before = functions.drop_last();
        let steps_before = steps.drop_last();
        // All stages but the last make up a chain of their own.
        assert forall|j: int| 0 <= j < ops_before.len() implies computes(
            &#[trigger] ops_before[j],
            functions_before[j],
        ) by {
            assert(computes(&ops[j], functions[j]));
        }
        assert forall|j: int| 0 <= j < ops_before.len() implies maps_onto(
            &#[trigger] ops_before[j],
            steps_before[j],
            steps_before[j + 1],
        ) by {
            assert(maps_onto(&ops[j], steps[j], steps[j + 1]));
        }
        chain_preserves_order(ops_before, functions_before, steps_before);
        // The last stage is applied to what that chain gives.
        assert(maps_onto(&ops[k], steps[k], steps[k + 1]));
        assert(computes(&ops[k], functions[k]));
    }
}

} // verus!
