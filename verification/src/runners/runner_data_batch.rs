//! What travels through a stage: the data of a runner, item by item, behind
//! one element that carries its metadata.

use crate::ops::yields;
use crate::ops::AbstractOp;
use crate::runners::runner_metadata::Lineage;
use crate::runners::runner_metadata::RunnerMetaData;
use crate::runners::DuplicateMetaDataError;
use crate::runners::NoMetaDAtaError;
use crate::signatures::Signature;
use std::rc::Rc;
use vstd::prelude::*;

verus! {

/// A batch given by a runner's iterator: the first one is the metadata, every
/// other one is an item of the data.
#[derive(Debug)]
pub enum RunnerDataBatch<DataType: Sized, OpSignatureType: Signature + Clone> {
    MetaData(Rc<RunnerMetaData<OpSignatureType>>),
    Batch(DataType),
}

/// A batch as a mathematical value: the marker that carries a lineage, or an
/// item of the data.
pub enum Envelope<DataType, OpSignatureType> {
    Marker(Lineage<OpSignatureType>),
    Item(DataType),
}

impl<DataType: Sized, OpSignatureType: Signature + Clone> View for RunnerDataBatch<
    DataType,
    OpSignatureType,
> {
    type V = Envelope<DataType, OpSignatureType>;

    open spec fn view(&self) -> Envelope<DataType, OpSignatureType> {
        match self {
            RunnerDataBatch::MetaData(meta_data) => Envelope::Marker(meta_data@),
            RunnerDataBatch::Batch(data) => Envelope::Item(*data),
        }
    }
}

impl<DataType: Sized, OpSignatureType: Signature + Clone> RunnerDataBatch<
    DataType,
    OpSignatureType,
> {
    /// Takes the metadata out of the first batch of a sequence. Where the
    /// sequence has no batch, or its first batch is data, there is none.
    pub fn into_meta_data(first: Option<Self>) -> (res: Result<
        Rc<RunnerMetaData<OpSignatureType>>,
        NoMetaDAtaError,
    >)
        ensures
            match res {
                Ok(meta_data) => first matches Some(batch) && batch@ == Envelope::<
                    DataType,
                    OpSignatureType,
                >::Marker(meta_data@),
                Err(_) => first matches Some(batch) ==> batch@ is Item,
            },
    {
        match first {
            Some(RunnerDataBatch::MetaData(meta_data)) => Ok(meta_data),
            _ => Err(NoMetaDAtaError),
        }
    }

    /// Takes the data out of a batch that stands at `position`, behind the
    /// first batch of a sequence. Metadata has no place there.
    pub fn into_batch(self, position: usize) -> (res: Result<DataType, DuplicateMetaDataError>)
        ensures
            match res {
                Ok(data) => self@ == Envelope::<DataType, OpSignatureType>::Item(data),
                Err(duplicate) => self@ is Marker && duplicate.position == position,
            },
    {
        match self {
            RunnerDataBatch::Batch(data) => Ok(data),
            RunnerDataBatch::MetaData(_) => Err(DuplicateMetaDataError { position }),
        }
    }

    /// Hands the batch to a stage. Metadata passes as it is; of data the
    /// stage makes the data of the outcome.
    pub fn map<O: AbstractOp<InputDataType = DataType, OpSignatureType = OpSignatureType>>(
        self,
        op: &O,
    ) -> (mapped: RunnerDataBatch<O::OutputDataType, OpSignatureType>)
        ensures
            match self@ {
                Envelope::Marker(lineage) => mapped@ == Envelope::<
                    O::OutputDataType,
                    OpSignatureType,
                >::Marker(lineage),
                Envelope::Item(data) => mapped@ is Item && yields(op, data, mapped@->Item_0),
            },
    {
        match self {
            RunnerDataBatch::MetaData(meta_data) => RunnerDataBatch::MetaData(meta_data),
            RunnerDataBatch::Batch(data) => RunnerDataBatch::Batch(op.call(data)),
        }
    }
}

/// The batches of `batches` as mathematical values, in order.
pub open spec fn envelopes_of<DataType: Sized, OpSignatureType: Signature + Clone>(
    batches: Seq<RunnerDataBatch<DataType, OpSignatureType>>,
) -> Seq<Envelope<DataType, OpSignatureType>> {
    Seq::new(batches.len(), |i: int| batches[i]@)
}

/// The items of `items` as batches, in order.
pub open spec fn as_items<DataType, OpSignatureType>(items: Seq<DataType>) -> Seq<
    Envelope<DataType, OpSignatureType>,
> {
    Seq::new(items.len(), |i: int| Envelope::Item(items[i]))
}

/// What the iteration of a runner with lineage `lineage` and data `items`
/// gives: the marker, then the items in order.
pub open spec fn sealed<DataType, OpSignatureType>(
    lineage: Lineage<OpSignatureType>,
    items: Seq<DataType>,
) -> Seq<Envelope<DataType, OpSignatureType>> {
    seq![Envelope::Marker(lineage)] + as_items(items)
}

/// Whether `envelopes` starts with a marker.
pub open spec fn starts_with_marker<DataType, OpSignatureType>(
    envelopes: Seq<Envelope<DataType, OpSignatureType>>,
) -> bool {
    envelopes.len() > 0 && envelopes[0] is Marker
}

/// Whether `position` is where a marker stands in `envelopes` behind the
/// first element, with items only between the two.
pub open spec fn is_first_stray_marker<DataType, OpSignatureType>(
    envelopes: Seq<Envelope<DataType, OpSignatureType>>,
    position: int,
) -> bool {
    &&& 1 <= position < envelopes.len()
    &&& envelopes[position] is Marker
    &&& forall|i: int| 1 <= i < position ==> #[trigger] envelopes[i] is Item
}

/// Whether `envelopes` is what the iteration of some runner gives: one marker,
/// which comes first, and items behind it.
pub open spec fn is_sealed<DataType, OpSignatureType>(
    envelopes: Seq<Envelope<DataType, OpSignatureType>>,
) -> bool {
    &&& starts_with_marker(envelopes)
    &&& forall|i: int| 1 <= i < envelopes.len() ==> #[trigger] envelopes[i] is Item
}

/// The lineage that a sealed sequence carries.
pub open spec fn carried_lineage<DataType, OpSignatureType>(
    envelopes: Seq<Envelope<DataType, OpSignatureType>>,
) -> Lineage<OpSignatureType>
    recommends
        starts_with_marker(envelopes),
{
    envelopes[0]->Marker_0
}

/// The items that a sealed sequence carries, in order.
pub open spec fn carried_items<DataType, OpSignatureType>(
    envelopes: Seq<Envelope<DataType, OpSignatureType>>,
) -> Seq<DataType>
    recommends
        is_sealed(envelopes),
{
    Seq::new((envelopes.len() - 1) as nat, |i: int| envelopes[i + 1]->Item_0)
}

/// The marker comes first and comes once: in what the iteration of a runner
/// gives, whatever its lineage and its data, the first element is the marker
/// and no other element is. The sequence carries that lineage and that data.
pub proof fn sealed_has_one_marker<DataType, OpSignatureType>(
    lineage: Lineage<OpSignatureType>,
    items: Seq<DataType>,
)
    ensures
        sealed(lineage, items).len() == items.len() + 1,
        sealed(lineage, items)[0] == Envelope::<DataType, OpSignatureType>::Marker(lineage),
        forall|i: int|
            1 <= i < sealed(lineage, items).len() ==> (#[trigger] sealed(lineage, items)[i])
                == Envelope::<DataType, OpSignatureType>::Item(items[i - 1]),
        is_sealed(sealed(lineage, items)),
        carried_lineage(sealed(lineage, items)) == lineage,
        carried_items(sealed(lineage, items)) == items,
{
}

/// A sealed sequence is what the iteration of a runner gives: of the runner
/// with the lineage and the items that the sequence carries.
pub proof fn sealed_is_rebuilt<DataType, OpSignatureType>(
    envelopes: Seq<Envelope<DataType, OpSignatureType>>,
)
    requires
        is_sealed(envelopes),
    ensures
        envelopes == sealed(carried_lineage(envelopes), carried_items(envelopes)),
{
}

} // verus!
