//! The runner that is handed from stage to stage.

use crate::ops::maps_onto;
use crate::ops::signs_with;
use crate::ops::yields;
use crate::ops::AbstractOp;
use crate::runners::runner_data_batch::carried_items;
use crate::runners::runner_data_batch::carried_lineage;
use crate::runners::runner_data_batch::envelopes_of;
use crate::runners::runner_data_batch::is_first_stray_marker;
use crate::runners::runner_data_batch::is_sealed;
use crate::runners::runner_data_batch::sealed;
use crate::runners::runner_data_batch::sealed_has_one_marker;
use crate::runners::runner_data_batch::starts_with_marker;
use crate::runners::runner_data_batch::Envelope;
use crate::runners::runner_data_batch::RunnerDataBatch;
use crate::runners::runner_iterator::queue_of;
use crate::runners::runner_iterator::RunnerIterator;
use crate::runners::runner_metadata::blank;
use crate::runners::runner_metadata::merged;
use crate::runners::runner_metadata::signed;
use crate::runners::runner_metadata::Lineage;
use crate::runners::runner_metadata::RunnerMetaData;
use crate::runners::RunnerError;
use crate::signatures::Signature;
use std::rc::Rc;
use vstd::prelude::*;

verus! {

/// A sequence of items together with the lineage of the stages that produced
/// it.
pub struct Runner<DataType: Sized, OpSignatureType: Signature + Clone> {
    meta_data: Rc<RunnerMetaData<OpSignatureType>>,
    data: Vec<DataType>,
}

/// The items of two sequences paired by position. The pairing ends where the
/// shorter sequence ends.
pub open spec fn zipped<A, B>(left: Seq<A>, right: Seq<B>) -> Seq<(A, B)> {
    Seq::new(
        if left.len() <= right.len() {
            left.len()
        } else {
            right.len()
        },
        |i: int| (left[i], right[i]),
    )
}

/// Pairs the items of `left` and `right` by position, up to the end of the
/// shorter one.
pub fn zip<A, B>(left: Vec<A>, right: Vec<B>) -> (pairs: Vec<(A, B)>)
    ensures
        pairs@ == zipped(left@, right@),
{
    let mut left_queue = queue_of(left);
    let mut right_queue = queue_of(right);
    let mut pairs: Vec<(A, B)> = Vec::new();
    while left_queue.len() > 0 && right_queue.len() > 0
        invariant
            pairs@.len() + left_queue@.len() == left@.len(),
            pairs@.len() + right_queue@.len() == right@.len(),
            left_queue@ == left@.skip(pairs@.len() as int),
            right_queue@ == right@.skip(pairs@.len() as int),
            forall|i: int| 0 <= i < pairs@.len() ==> pairs@[i] == (left@[i], right@[i]),
        decreases left_queue@.len(),
    {
        let a = left_queue.pop_front().unwrap();
        let b = right_queue.pop_front().unwrap();
        pairs.push((a, b));
    }
    pairs
}

impl<DataType: Sized, OpSignatureType: Signature + Clone> Runner<DataType, OpSignatureType> {
    /// The lineage of the runner.
    pub closed spec fn lineage(&self) -> Lineage<OpSignatureType> {
        self.meta_data@
    }

    /// The data of the runner, in order.
    pub closed spec fn items(&self) -> Seq<DataType> {
        self.data@
    }

    /// The metadata of the runner, which holds its lineage.
    pub fn meta_data(&self) -> (meta_data: &Rc<RunnerMetaData<OpSignatureType>>)
        ensures
            meta_data@ == self.lineage(),
    {
        &self.meta_data
    }

    /// The data of the runner.
    pub fn data(&self) -> (data: &Vec<DataType>)
        ensures
            data@ == self.items(),
    {
        &self.data
    }

    /// Produces a new runner with blank metadata.
    pub fn new(data: Vec<DataType>) -> (runner: Self)
        ensures
            runner.lineage() == blank::<OpSignatureType>(),
            runner.items() == data@,
    {
        Runner { data, meta_data: RunnerMetaData::new() }
    }

    /// Signs the runner with the signature of a stage.
    pub fn sign(&mut self, signature: OpSignatureType)
        ensures
            final(self).lineage() == signed(old(self).lineage(), signature),
            final(self).items() == old(self).items(),
    {
        self.meta_data = RunnerMetaData::sign(&self.meta_data, signature);
    }

    /// Creates a new runner from existing metadata.
    fn new_with_meta(
        data: Vec<DataType>,
        meta_data: Rc<RunnerMetaData<OpSignatureType>>,
    ) -> (runner: Self)
        ensures
            runner.lineage() == meta_data@,
            runner.items() == data@,
    {
        Runner { data, meta_data }
    }

    /// Creates a runner from batches of which the first is the metadata and
    /// all others are data.
    ///
    /// Where the first batch is no metadata, or where there is no batch, the
    /// outcome is `NoMetaData`, whatever comes behind. Where metadata stands
    /// behind the first batch, the outcome is `DuplicateMetaData`, with the
    /// place of the first such batch.
    pub fn from_runner_iterator(iter: Vec<RunnerDataBatch<DataType, OpSignatureType>>) -> (res:
        Result<Runner<DataType, OpSignatureType>, RunnerError>)
        ensures
            match res {
                Ok(runner) => {
                    &&& is_sealed(envelopes_of(iter@))
                    &&& runner.lineage() == carried_lineage(envelopes_of(iter@))
                    &&& runner.items() == carried_items(envelopes_of(iter@))
                },
                Err(RunnerError::NoMetaData(_)) => !starts_with_marker(envelopes_of(iter@)),
                Err(RunnerError::DuplicateMetaData(duplicate)) => {
                    &&& starts_with_marker(envelopes_of(iter@))
                    &&& is_first_stray_marker(envelopes_of(iter@), duplicate.position as int)
                },
            },
    {
        let ghost envelopes = envelopes_of(iter@);
        let count = iter.len();
        let mut batches = queue_of(iter);
        let meta_data = match RunnerDataBatch::into_meta_data(batches.pop_front()) {
            Ok(meta) => meta,
            Err(missing) => {
                return Err(RunnerError::NoMetaData(missing));
            },
        };
        let mut data: Vec<DataType> = Vec::new();
        let mut position: usize = 1;
        while batches.len() > 0
            invariant
                envelopes == envelopes_of(iter@),
                starts_with_marker(envelopes),
                carried_lineage(envelopes) == meta_data@,
                count == iter@.len(),
                position + batches@.len() == count,
                batches@ == iter@.skip(position as int),
                data@.len() + 1 == position,
                forall|i: int|
                    1 <= i < position ==> #[trigger] envelopes[i] == Envelope::<
                        DataType,
                        OpSignatureType,
                    >::Item(data@[i - 1]),
            decreases batches@.len(),
        {
            match batches.pop_front().unwrap().into_batch(position) {
                Ok(item) => {
                    data.push(item);
                },
                Err(duplicate) => {
                    return Err(RunnerError::DuplicateMetaData(duplicate));
                },
            }
            position += 1;
        }
        Ok(Runner::new_with_meta(data, meta_data))
    }

    /// Applies a stage to the runner: signs its lineage with the signature of
    /// the stage and makes of each item of its data, in order, what the stage
    /// gives for it.
    ///
    /// The stage maps over the runner's batches, metadata included, and the
    /// outcome is made into a runner again. That never fails.
    ///
    /// The stage is applied to all items before `chain` returns. To apply it
    /// to an item only when that item is asked for, walk the runner and hand
    /// each batch to [`RunnerDataBatch::map`] as it comes.
    pub fn chain<O: AbstractOp<InputDataType = DataType, OpSignatureType = OpSignatureType>>(
        self,
        op: &mut O,
    ) -> (res: Result<Runner<O::OutputDataType, OpSignatureType>, RunnerError>)
        ensures
            *final(op) == *old(op),
            match res {
                Ok(runner) => {
                    &&& exists|signature: OpSignatureType|
                        signs_with(old(op), signature) && #[trigger] signed(
                            self.lineage(),
                            signature,
                        ) == runner.lineage()
                    &&& maps_onto(old(op), self.items(), runner.items())
                },
                Err(_) => false,
            },
    {
        let signature = op.signature();
        let ghost source = self.items();
        let ghost lineage = signed(self.lineage(), signature);
        let mut signed_runner = self;
        signed_runner.sign(signature);
        let mut batches = signed_runner.into_iter();
        let mut mapped: Vec<RunnerDataBatch<O::OutputDataType, OpSignatureType>> = Vec::new();
        loop
            invariant
                *op == *old(op),
                mapped@.len() <= source.len() + 1,
                batches.to_come() == sealed(lineage, source).skip(mapped@.len() as int),
                mapped@.len() > 0 ==> mapped@[0]@ == Envelope::<
                    O::OutputDataType,
                    OpSignatureType,
                >::Marker(lineage),
                forall|i: int|
                    1 <= i < mapped@.len() ==> (#[trigger] mapped@[i])@ is Item && yields(
                        op,
                        source[i - 1],
                        mapped@[i]@->Item_0,
                    ),
            ensures
                mapped@.len() == source.len() + 1,
            decreases source.len() + 1 - mapped@.len(),
        {
            match batches.next() {
                None => {
                    break ;
                },
                Some(batch) => {
                    mapped.push(batch.map(op));
                    assert(batches.to_come() =~= sealed(lineage, source).skip(
                        mapped@.len() as int,
                    ));
                },
            }
        }
        let ghost envelopes = envelopes_of(mapped@);
        let res = Runner::from_runner_iterator(mapped);
        proof {
            // The batches are sealed, so they make a runner, whose items are
            // the items behind the marker.
            let runner = res->Ok_0;
            assert forall|i: int| 0 <= i < source.len() implies yields(
                op,
                source[i],
                #[trigger] runner.items()[i],
            ) by {
                assert(runner.items()[i] == envelopes[i + 1]->Item_0);
            }
        }
        res
    }

    /// Brings two runners together, whose data may be of two types and whose
    /// lineages need have nothing in common. The items of the outcome are the
    /// pairs of the items that stand at the same place in both; there are as
    /// many as in the shorter of the two. Its lineage has the lineages of
    /// both as its parents.
    ///
    /// The metadata is taken off the batches of either runner as it is when a
    /// stage was applied. That never fails.
    pub fn merge<OtherDataType: Sized>(
        self,
        other: Runner<OtherDataType, OpSignatureType>,
    ) -> (res: Result<Runner<(DataType, OtherDataType), OpSignatureType>, RunnerError>)
        ensures
            match res {
                Ok(runner) => {
                    &&& runner.lineage() == merged(self.lineage(), other.lineage())
                    &&& runner.items() == zipped(self.items(), other.items())
                },
                Err(_) => false,
            },
    {
        let self_batches = self.into_iter().into_batches();
        let other_batches = other.into_iter().into_batches();
        proof {
            sealed_has_one_marker(self.lineage(), self.items());
            sealed_has_one_marker(other.lineage(), other.items());
        }
        let self_runner = match Runner::from_runner_iterator(self_batches) {
            Ok(runner) => runner,
            Err(e) => {
                return Err(e);
            },
        };
        let other_runner = match Runner::from_runner_iterator(other_batches) {
            Ok(runner) => runner,
            Err(e) => {
                return Err(e);
            },
        };
        Ok(
            Runner::new_with_meta(
                zip(self_runner.data, other_runner.data),
                RunnerMetaData::merge(self_runner.meta_data, other_runner.meta_data),
            ),
        )
    }
}

impl<DataType: Sized, OpSignatureType: Signature + Clone> IntoIterator for Runner<
    DataType,
    OpSignatureType,
> {
    type Item = RunnerDataBatch<DataType, OpSignatureType>;

    type IntoIter = RunnerIterator<DataType, OpSignatureType>;

    /// The iterator of the runner: it gives the metadata, then the data.
    fn into_iter(self) -> (iter: RunnerIterator<DataType, OpSignatureType>)
        ensures
            iter.to_come() == sealed(self.lineage(), self.items()),
    {
        RunnerIterator::new(self.meta_data, self.data)
    }
}

} // verus!
