//! The lineage of a runner: which signatures were applied, and on what.

use crate::signatures::Signature;
use crate::signatures::VersionedSignature;
use std::rc::Rc;
use vstd::prelude::*;
use vstd::std_specs::cmp::PartialEqSpec;
use vstd::std_specs::cmp::PartialEqSpecImpl;

verus! {

/// A lineage as a mathematical value: a node of a directed acyclic graph. It
/// records the lineages it was made from, in order, and the signature that was
/// applied to them last, if one was.
pub struct Lineage<S> {
    pub parents: Seq<Lineage<S>>,
    pub last: Option<S>,
}

/// The lineage of a runner nothing was applied to yet.
pub open spec fn blank<S>() -> Lineage<S> {
    Lineage { parents: Seq::empty(), last: None }
}

/// The lineage that `signature` makes of `parent`: a new node with `parent` as
/// its only parent.
pub open spec fn signed<S>(parent: Lineage<S>, signature: S) -> Lineage<S> {
    Lineage { parents: seq![parent], last: Some(signature) }
}

/// The lineage of two runners brought together: a new node with both as
/// parents, and no signature of its own.
pub open spec fn merged<S>(left: Lineage<S>, right: Lineage<S>) -> Lineage<S> {
    Lineage { parents: seq![left, right], last: None }
}

/// How many generations a lineage spans: one more than the longest of its
/// parents does, and one where it has no parent.
pub open spec fn generations<S>(lineage: Lineage<S>) -> nat
    decreases lineage,
{
    1 + deepest(lineage.parents, lineage.parents.len())
}

/// How many generations the longest of the first `count` lineages spans.
pub open spec fn deepest<S>(lineages: Seq<Lineage<S>>, count: nat) -> nat
    decreases lineages, count,
{
    if count == 0 || count > lineages.len() {
        0
    } else {
        let before = deepest(lineages, (count - 1) as nat);
        let this = generations(lineages[count - 1]);
        if before >= this {
            before
        } else {
            this
        }
    }
}

/// The signatures that a lineage records, in the order in which they were
/// applied: those of its parents, the first parent first, then its own. What
/// two parents have in common is told once for each of them.
pub open spec fn signatures_of<S>(lineage: Lineage<S>) -> Seq<S>
    decreases lineage,
{
    signatures_among(lineage.parents, lineage.parents.len()) + match lineage.last {
        None => Seq::empty(),
        Some(signature) => seq![signature],
    }
}

/// The signatures that the first `count` of `lineages` record, one lineage
/// after another.
pub open spec fn signatures_among<S>(lineages: Seq<Lineage<S>>, count: nat) -> Seq<S>
    decreases lineages, count,
{
    if count == 0 || count > lineages.len() {
        Seq::empty()
    } else {
        signatures_among(lineages, (count - 1) as nat) + signatures_of(lineages[count - 1])
    }
}

/// Whether two lineages are equal as `==` on the signatures sees it: node for
/// node they have as many parents, in the same order, and the same signature,
/// or both none.
pub open spec fn same_lineage<S: PartialEq>(a: Lineage<S>, b: Lineage<S>) -> bool
    decreases a,
{
    &&& a.parents.len() == b.parents.len()
    &&& forall|i: int|
        0 <= i < a.parents.len() ==> same_lineage(#[trigger] a.parents[i], b.parents[i])
    &&& same_signature(a.last, b.last)
}

/// Whether two nodes have the same signature, as `==` on the signatures sees
/// it, or both none.
pub open spec fn same_signature<S: PartialEq>(a: Option<S>, b: Option<S>) -> bool {
    match (a, b) {
        (None, None) => true,
        (Some(x), Some(y)) => x.eq_spec(&y),
        _ => false,
    }
}

/// The runner's metadata: a node of the lineage graph. A node is never
/// changed once it is made; nodes that come later hold it by a shared pointer.
#[derive(Debug)]
pub struct RunnerMetaData<OpSignatureType: Signature + Clone> {
    previous_meta_datas: Vec<Rc<RunnerMetaData<OpSignatureType>>>,
    last_op_signature: Option<OpSignatureType>,
}

/// Another pointer to the value that `pointer` points to.
///
/// Calls `Rc::clone`, which makes a new pointer to the same allocation and
/// copies nothing of what it holds: the result points to the value that
/// `pointer` points to.
#[verifier::external_body]
pub(crate) fn share<T>(pointer: &Rc<T>) -> (shared: Rc<T>)
    ensures
        shared == *pointer,
{
    Rc::clone(pointer)
}

impl<OpSignatureType: Signature + Clone> View for RunnerMetaData<OpSignatureType> {
    type V = Lineage<OpSignatureType>;

    closed spec fn view(&self) -> Lineage<OpSignatureType> {
        self.lineage()
    }
}

impl<OpSignatureType: Signature + Clone> RunnerMetaData<OpSignatureType> {
    /// The node and all it descends from, as a mathematical value.
    spec fn lineage(&self) -> Lineage<OpSignatureType>
        decreases self,
    {
        Lineage {
            parents: Seq::new(
                self.previous_meta_datas@.len(),
                |i: int|
                    if 0 <= i < self.previous_meta_datas@.len() {
                        self.previous_meta_datas@[i].lineage()
                    } else {
                        blank()
                    },
            ),
            last: self.last_op_signature,
        }
    }

    /// Produces the metadata of a runner nothing was applied to yet.
    pub fn new() -> (node: Rc<Self>)
        ensures
            node@ == blank::<OpSignatureType>(),
    {
        let node = RunnerMetaData { previous_meta_datas: Vec::new(), last_op_signature: None };
        assert(node@.parents =~= Seq::empty());
        Rc::new(node)
    }

    /// Produces the metadata that comes of applying `signature` to
    /// `metadata_reference`, which is left as it was and shared by the result.
    pub fn sign(metadata_reference: &Rc<Self>, signature: OpSignatureType) -> (node: Rc<
        RunnerMetaData<OpSignatureType>,
    >)
        ensures
            node@ == signed(metadata_reference@, signature),
    {
        let mut parents = Vec::new();
        parents.push(share(metadata_reference));
        let node = RunnerMetaData {
            previous_meta_datas: parents,
            last_op_signature: Some(signature),
        };
        assert(node@.parents =~= seq![metadata_reference@]);
        Rc::new(node)
    }

    /// The signature that was applied last, if one was.
    pub fn last_op_signature(&self) -> (last: Option<&OpSignatureType>)
        ensures
            match last {
                None => self@.last is None,
                Some(signature) => self@.last == Some(*signature),
            },
    {
        self.last_op_signature.as_ref()
    }

    /// The nodes this one was made from, in order.
    pub fn previous_meta_datas(&self) -> (parents: &Vec<Rc<RunnerMetaData<OpSignatureType>>>)
        ensures
            parents@.len() == self@.parents.len(),
            forall|i: int|
                0 <= i < parents@.len() ==> (#[trigger] parents@[i])@ == self@.parents[i],
    {
        &self.previous_meta_datas
    }

    /// Lists the signatures that the lineage records, in the order in which
    /// they were applied.
    pub fn signatures(&self) -> (trail: Vec<&OpSignatureType>)
        ensures
            trail@.len() == signatures_of(self@).len(),
            forall|i: int|
                0 <= i < trail@.len() ==> *(#[trigger] trail@[i]) == signatures_of(self@)[i],
        decreases self,
    {
        let count = self.previous_meta_datas.len();
        let mut trail: Vec<&OpSignatureType> = Vec::new();
        let mut i: usize = 0;
        while i < count
            invariant
                i <= count,
                count == self@.parents.len(),
                count == self.previous_meta_datas@.len(),
                trail@.len() == signatures_among(self@.parents, i as nat).len(),
                forall|j: int|
                    0 <= j < trail@.len() ==> *(#[trigger] trail@[j]) == signatures_among(
                        self@.parents,
                        i as nat,
                    )[j],
            decreases count - i,
        {
            let mut of_parent = self.previous_meta_datas[i].signatures();
            trail.append(&mut of_parent);
            i += 1;
        }
        match &self.last_op_signature {
            None => {},
            Some(signature) => {
                trail.push(signature);
            },
        }
        trail
    }

    /// Whether `self` and `other` record the same graph.
    fn same_as(&self, other: &RunnerMetaData<OpSignatureType>) -> (equal: bool) where
        OpSignatureType: PartialEq,

        ensures
            OpSignatureType::obeys_eq_spec() ==> equal == same_lineage(self@, other@),
        decreases self,
    {
        let same_last = match (&self.last_op_signature, &other.last_op_signature) {
            (None, None) => true,
            (Some(mine), Some(theirs)) => *mine == *theirs,
            _ => false,
        };
        let count = self.previous_meta_datas.len();
        if !same_last || count != other.previous_meta_datas.len() {
            return false;
        }
        let mut i: usize = 0;
        while i < count
            invariant
                i <= count,
                count == self@.parents.len(),
                count == other@.parents.len(),
                count == self.previous_meta_datas@.len(),
                count == other.previous_meta_datas@.len(),
                OpSignatureType::obeys_eq_spec() ==> same_signature(self@.last, other@.last),
                OpSignatureType::obeys_eq_spec() ==> forall|j: int|
                    0 <= j < i ==> same_lineage(#[trigger] self@.parents[j], other@.parents[j]),
            decreases count - i,
        {
            assert(self@.parents[i as int] == self.previous_meta_datas@[i as int]@);
            if !self.previous_meta_datas[i].same_as(&other.previous_meta_datas[i]) {
                return false;
            }
            i += 1;
        }
        true
    }

    /// Produces the metadata of two runners brought together. Both lineages
    /// are parents of the result, which has no signature of its own. The two
    /// are kept apart also where they are one lineage, or have ancestors in
    /// common.
    pub fn merge(left: Rc<Self>, right: Rc<Self>) -> (node: Rc<RunnerMetaData<OpSignatureType>>)
        ensures
            node@ == merged(left@, right@),
    {
        let mut parents = Vec::new();
        parents.push(left);
        parents.push(right);
        let node = RunnerMetaData { previous_meta_datas: parents, last_op_signature: None };
        assert(node@.parents =~= seq![left@, right@]);
        Rc::new(node)
    }
}

impl<OpSignatureType: Signature + Clone> Clone for RunnerMetaData<OpSignatureType> {
    /// A node with the same parents, which it shares with `self`, and with a
    /// clone of the signature.
    fn clone(&self) -> (copy: Self)
        ensures
            copy@.parents == self@.parents,
            match (self@.last, copy@.last) {
                (None, None) => true,
                (Some(mine), Some(theirs)) => cloned(mine, theirs),
                _ => false,
            },
    {
        let count = self.previous_meta_datas.len();
        let mut parents: Vec<Rc<RunnerMetaData<OpSignatureType>>> = Vec::new();
        let mut i: usize = 0;
        while i < count
            invariant
                i <= count,
                count == self.previous_meta_datas@.len(),
                parents@.len() == i,
                forall|j: int|
                    0 <= j < i ==> #[trigger] parents@[j] == self.previous_meta_datas@[j],
            decreases count - i,
        {
            parents.push(share(&self.previous_meta_datas[i]));
            i += 1;
        }
        let last_op_signature = match &self.last_op_signature {
            None => None,
            Some(signature) => Some(signature.clone()),
        };
        let copy = RunnerMetaData { previous_meta_datas: parents, last_op_signature };
        copy
    }
}

impl<OpSignatureType: Signature + Clone> Default for RunnerMetaData<OpSignatureType> {
    fn default() -> (node: Self)
        ensures
            node@ == blank::<OpSignatureType>(),
    {
        let node = RunnerMetaData { previous_meta_datas: Vec::new(), last_op_signature: None };
        assert(node@.parents =~= Seq::empty());
        node
    }
}

impl<OpSignatureType: Signature + Clone + PartialEq> PartialEq for RunnerMetaData<
    OpSignatureType,
> {
    fn eq(&self, other: &RunnerMetaData<OpSignatureType>) -> (equal: bool) {
        self.same_as(other)
    }
}

impl<OpSignatureType: Signature + Clone + PartialEq> PartialEqSpecImpl for RunnerMetaData<
    OpSignatureType,
> {
    open spec fn obeys_eq_spec() -> bool {
        OpSignatureType::obeys_eq_spec()
    }

    open spec fn eq_spec(&self, other: &RunnerMetaData<OpSignatureType>) -> bool {
        same_lineage(self@, other@)
    }
}

/// Signing appends and changes nothing: the lineage that a signature makes of
/// `parent` holds `parent` whole as its only parent, whatever was made of
/// `parent` before or is made of it later, and spans one generation more.
pub proof fn signing_appends<S>(parent: Lineage<S>, signature: S)
    ensures
        signed(parent, signature).parents == seq![parent],
        signed(parent, signature).last == Some(signature),
        generations(signed(parent, signature)) == generations(parent) + 1,
        signed(parent, signature) != parent,
{
    let child = signed(parent, signature);
    assert(deepest(child.parents, 0) == 0);
    assert(deepest(child.parents, 1) == generations(parent));
}

/// Merging appends and changes nothing: the lineage of two runners brought
/// together holds both lineages whole as its parents, the first before the
/// second, and has no signature. It is neither of the two.
pub proof fn merging_appends<S>(left: Lineage<S>, right: Lineage<S>)
    ensures
        merged(left, right).parents == seq![left, right],
        merged(left, right).last is None,
        generations(merged(left, right)) > generations(left),
        generations(merged(left, right)) > generations(right),
        merged(left, right) != left,
        merged(left, right) != right,
{
    let child = merged(left, right);
    assert(deepest(child.parents, 0) == 0);
    assert(deepest(child.parents, 1) == generations(left));
    assert(deepest(child.parents, 2) >= generations(right));
}

/// A lineage tells what it was made of: two signed lineages are the same only
/// if the same signature was applied to the same lineage, and two merged
/// lineages only if the same lineages were merged in the same order.
pub proof fn lineage_tells_its_history<S>(
    parent_a: Lineage<S>,
    signature_a: S,
    parent_b: Lineage<S>,
    signature_b: S,
    left_a: Lineage<S>,
    right_a: Lineage<S>,
    left_b: Lineage<S>,
    right_b: Lineage<S>,
)
    ensures
        signed(parent_a, signature_a) == signed(parent_b, signature_b) <==> (parent_a == parent_b
            && signature_a == signature_b),
        merged(left_a, right_a) == merged(left_b, right_b) <==> (left_a == left_b && right_a
            == right_b),
        signed(parent_a, signature_a) != merged(left_a, right_a),
        signed(parent_a, signature_a) != blank::<S>(),
        merged(left_a, right_a) != blank::<S>(),
{
    if signed(parent_a, signature_a) == signed(parent_b, signature_b) {
        assert(seq![parent_a][0] == seq![parent_b][0]);
    }
    if merged(left_a, right_a) == merged(left_b, right_b) {
        assert(seq![left_a, right_a][0] == seq![left_b, right_b][0]);
        assert(seq![left_a, right_a][1] == seq![left_b, right_b][1]);
    }
    // A blank lineage has no parent, a signed one has one, a merged one two.
    assert(seq![parent_a].len() == 1);
    assert(seq![left_a, right_a].len() == 2);
}

/// The list of signatures follows the history: a blank lineage records none,
/// signing adds the signature at the end, and merging puts the signatures of
/// the right lineage behind those of the left.
pub proof fn signatures_follow_history<S>(parent: Lineage<S>, signature: S, right: Lineage<S>)
    ensures
        signatures_of(blank::<S>()) == Seq::<S>::empty(),
        signatures_of(signed(parent, signature)) == signatures_of(parent).push(signature),
        signatures_of(merged(parent, right)) == signatures_of(parent) + signatures_of(right),
{
    let child = signed(parent, signature);
    assert(signatures_among(child.parents, 0) =~= Seq::<S>::empty());
    assert(signatures_among(child.parents, 1) =~= signatures_of(parent));
    let both = merged(parent, right);
    assert(signatures_among(both.parents, 0) =~= Seq::<S>::empty());
    assert(signatures_among(both.parents, 1) =~= signatures_of(parent));
    assert(signatures_among(both.parents, 2) =~= signatures_of(parent) + signatures_of(right));
}

/// Whether `==` on signatures of type `S` is an equivalence relation.
pub open spec fn signatures_compare_as_equals<S: PartialEq>() -> bool {
    &&& forall|x: S| #[trigger] x.eq_spec(&x)
    &&& forall|x: S, y: S| #[trigger] x.eq_spec(&y) ==> y.eq_spec(&x)
    &&& forall|x: S, y: S, z: S| #[trigger]
        x.eq_spec(&y) && #[trigger] y.eq_spec(&z) ==> x.eq_spec(&z)
}

/// Every lineage equals itself, where `==` on the signatures is an
/// equivalence relation.
pub proof fn lineage_equality_is_reflexive<S: PartialEq>(a: Lineage<S>)
    requires
        signatures_compare_as_equals::<S>(),
    ensures
        same_lineage(a, a),
    decreases a,
{
    assert forall|i: int| 0 <= i < a.parents.len() implies same_lineage(
        #[trigger] a.parents[i],
        a.parents[i],
    ) by {
        lineage_equality_is_reflexive(a.parents[i]);
    }
}

/// Equality of lineages does not depend on the side, where `==` on the
/// signatures is an equivalence relation.
pub proof fn lineage_equality_is_symmetric<S: PartialEq>(a: Lineage<S>, b: Lineage<S>)
    requires
        signatures_compare_as_equals::<S>(),
        same_lineage(a, b),
    ensures
        same_lineage(b, a),
    decreases a,
{
    assert forall|i: int| 0 <= i < b.parents.len() implies same_lineage(
        #[trigger] b.parents[i],
        a.parents[i],
    ) by {
        lineage_equality_is_symmetric(a.parents[i], b.parents[i]);
    }
}

/// Lineages equal to a common third are equal, where `==` on the signatures
/// is an equivalence relation.
pub proof fn lineage_equality_is_transitive<S: PartialEq>(
    a: Lineage<S>,
    b: Lineage<S>,
    c: Lineage<S>,
)
    requires
        signatures_compare_as_equals::<S>(),
        same_lineage(a, b),
        same_lineage(b, c),
    ensures
        same_lineage(a, c),
    decreases a,
{
    assert forall|i: int| 0 <= i < a.parents.len() implies same_lineage(
        #[trigger] a.parents[i],
        c.parents[i],
    ) by {
        lineage_equality_is_transitive(a.parents[i], b.parents[i], c.parents[i]);
    }
}

/// `==` on versioned signatures is an equivalence relation, so equality of
/// their lineages is one too.
pub proof fn versioned_signatures_compare_as_equals()
    ensures
        signatures_compare_as_equals::<VersionedSignature>(),
{
}

} // verus!
