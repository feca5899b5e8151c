//! The iterator of a runner, over which a stage maps its function.

use crate::runners::runner_data_batch::as_items;
use crate::runners::runner_data_batch::envelopes_of;
use crate::runners::runner_data_batch::sealed;
use crate::runners::runner_data_batch::Envelope;
use crate::runners::runner_data_batch::RunnerDataBatch;
use crate::runners::runner_metadata::share;
use crate::runners::runner_metadata::RunnerMetaData;
use crate::signatures::Signature;
use std::collections::VecDeque;
use std::rc::Rc;
use vstd::prelude::*;
use vstd::std_specs::iter::IteratorSpecImpl;

verus! {

/// Gives the metadata of a runner as its first batch and the items of its
/// data, in order, as the batches after it. It is walked once: a batch that
/// was given is not given again.
pub struct RunnerIterator<DataType: Sized, OpSignatureType: Signature + Clone> {
    meta_data: Rc<RunnerMetaData<OpSignatureType>>,
    data_iterator: VecDeque<DataType>,
    is_first_element: bool,
}

/// How far the walk over a runner has come. A walk only moves forward: from
/// fresh to consuming to exhausted, or from fresh to exhausted where the
/// runner has no data.
#[derive(Debug, PartialEq, Eq, Structural, Clone, Copy)]
pub enum RunnerState {
    /// No batch was given yet: the metadata is the batch to come.
    Fresh,
    /// The metadata was given, and data is still to come.
    Consuming,
    /// Every batch was given, and none is to come.
    Exhausted,
}

/// The state of a walk in which `remaining` is still to come.
pub open spec fn state_of<DataType, OpSignatureType>(
    remaining: Seq<Envelope<DataType, OpSignatureType>>,
) -> RunnerState {
    if remaining.len() == 0 {
        RunnerState::Exhausted
    } else if remaining[0] is Marker {
        RunnerState::Fresh
    } else {
        RunnerState::Consuming
    }
}

/// Whether a marker can only be the first of `remaining`: what holds of the
/// batches still to come at every point of every walk.
pub open spec fn marker_only_first<DataType, OpSignatureType>(
    remaining: Seq<Envelope<DataType, OpSignatureType>>,
) -> bool {
    forall|i: int| 1 <= i < remaining.len() ==> #[trigger] remaining[i] is Item
}

/// The place of a state in the order of a walk.
pub open spec fn rank(state: RunnerState) -> nat {
    match state {
        RunnerState::Fresh => 0,
        RunnerState::Consuming => 1,
        RunnerState::Exhausted => 2,
    }
}

/// A walk only moves forward: giving a batch never brings it to an earlier
/// state, and a walk that has left the fresh state has given its one marker
/// and gives no other.
pub proof fn walk_moves_forward<DataType, OpSignatureType>(
    remaining: Seq<Envelope<DataType, OpSignatureType>>,
)
    requires
        marker_only_first(remaining),
        remaining.len() > 0,
    ensures
        rank(state_of(remaining.drop_first())) >= rank(state_of(remaining)),
        state_of(remaining.drop_first()) != RunnerState::Fresh,
        marker_only_first(remaining.drop_first()),
{
    let rest = remaining.drop_first();
    assert forall|i: int| 0 <= i < rest.len() implies #[trigger] rest[i] is Item by {
        assert(rest[i] == remaining[i + 1]);
    }
}

/// Moves the items of `data` into a queue, the first item at its front.
pub(crate) fn queue_of<DataType>(data: Vec<DataType>) -> (queue: VecDeque<DataType>)
    ensures
        queue@ == data@,
{
    let mut data = data;
    let mut queue: VecDeque<DataType> = VecDeque::new();
    let ghost all = data@;
    while data.len() > 0
        invariant
            data@ + queue@ == all,
        decreases data@.len(),
    {
        let item = data.pop().unwrap();
        queue.push_front(item);
    }
    queue
}

impl<DataType: Sized, OpSignatureType: Signature + Clone> RunnerIterator<
    DataType,
    OpSignatureType,
> {
    /// The batches that are still to come, as mathematical values and in the
    /// order in which `next` gives them.
    pub closed spec fn to_come(&self) -> Seq<Envelope<DataType, OpSignatureType>> {
        if self.is_first_element {
            sealed(self.meta_data@, self.data_iterator@)
        } else {
            as_items(self.data_iterator@)
        }
    }

    /// The batches that are still to come, as they are.
    closed spec fn batches_to_come(&self) -> Seq<RunnerDataBatch<DataType, OpSignatureType>> {
        let data = Seq::new(
            self.data_iterator@.len(),
            |i: int| RunnerDataBatch::<DataType, OpSignatureType>::Batch(self.data_iterator@[i]),
        );
        if self.is_first_element {
            seq![RunnerDataBatch::MetaData(self.meta_data)] + data
        } else {
            data
        }
    }

    /// Produces the iterator of a runner with metadata `meta_data` and data
    /// `data_iterator`, of which no batch was given yet.
    pub fn new(
        meta_data: Rc<RunnerMetaData<OpSignatureType>>,
        data_iterator: Vec<DataType>,
    ) -> (iter: Self)
        ensures
            iter.to_come() == sealed(meta_data@, data_iterator@),
    {
        RunnerIterator { meta_data, data_iterator: queue_of(data_iterator), is_first_element: true }
    }

    /// Produces the same iterator from data in a box.
    pub fn new_form_box(
        meta_data: Rc<RunnerMetaData<OpSignatureType>>,
        data_iterator: Box<Vec<DataType>>,
    ) -> (iter: Self)
        ensures
            iter.to_come() == sealed(meta_data@, data_iterator@),
    {
        RunnerIterator::new(meta_data, *data_iterator)
    }

    /// The marker comes first or not at all: at every point of a walk, no
    /// batch behind the next one is metadata.
    pub proof fn marker_comes_first(&self)
        ensures
            marker_only_first(self.to_come()),
    {
    }

    /// How far the walk has come.
    pub fn state(&self) -> (state: RunnerState)
        ensures
            state == state_of(self.to_come()),
    {
        if self.is_first_element {
            RunnerState::Fresh
        } else if self.data_iterator.len() > 0 {
            RunnerState::Consuming
        } else {
            RunnerState::Exhausted
        }
    }

    /// Gives all batches that are still to come, in order, and leaves none.
    pub fn into_batches(self) -> (batches: Vec<RunnerDataBatch<DataType, OpSignatureType>>)
        ensures
            batches@.len() == self.to_come().len(),
            envelopes_of(batches@) == self.to_come(),
    {
        let mut iter = self;
        let mut batches: Vec<RunnerDataBatch<DataType, OpSignatureType>> = Vec::new();
        loop
            invariant
                batches@.len() <= self.to_come().len(),
                iter.to_come() == self.to_come().skip(batches@.len() as int),
                forall|i: int|
                    0 <= i < batches@.len() ==> (#[trigger] batches@[i])@ == self.to_come()[i],
            ensures
                batches@.len() == self.to_come().len(),
            decreases self.to_come().len() - batches@.len(),
        {
            match iter.next() {
                None => {
                    break ;
                },
                Some(batch) => {
                    batches.push(batch);
                },
            }
        }
        batches
    }
}

impl<DataType: Sized, OpSignatureType: Signature + Clone> Iterator for RunnerIterator<
    DataType,
    OpSignatureType,
> {
    type Item = RunnerDataBatch<DataType, OpSignatureType>;

    /// Gives the next batch, or `None` when all were given: then nothing
    /// changes, however often it is asked again.
    fn next(&mut self) -> (batch: Option<RunnerDataBatch<DataType, OpSignatureType>>)
        ensures
            match batch {
                Some(given) => {
                    &&& old(self).to_come().len() > 0
                    &&& given@ == old(self).to_come()[0]
                    &&& final(self).to_come() == old(self).to_come().drop_first()
                },
                None => {
                    &&& old(self).to_come().len() == 0
                    &&& final(self).to_come() == old(self).to_come()
                },
            },
    {
        if self.is_first_element {
            self.is_first_element = false;
            return Some(RunnerDataBatch::MetaData(share(&self.meta_data)));
        }
        match self.data_iterator.pop_front() {
            Some(data) => Some(RunnerDataBatch::Batch(data)),
            None => None,
        }
    }
}

impl<DataType: Sized, OpSignatureType: Signature + Clone> IteratorSpecImpl for RunnerIterator<
    DataType,
    OpSignatureType,
> {
    open spec fn obeys_prophetic_iter_laws(&self) -> bool {
        true
    }

    closed spec fn remaining(&self) -> Seq<Self::Item> {
        self.batches_to_come()
    }

    open spec fn will_return_none(&self) -> bool {
        true
    }

    closed spec fn decrease(&self) -> Option<nat> {
        Some(self.batches_to_come().len())
    }

    open spec fn initial_value_relation(&self, init: &Self) -> bool {
        true
    }

    closed spec fn peek(&self, index: int) -> Option<Self::Item> {
        if 0 <= index < self.batches_to_come().len() {
            Some(self.batches_to_come()[index])
        } else {
            None
        }
    }
}

} // verus!
