//! A model of the builder that the emitted code declares: one slot per
//! field ({unset, set} for required and optional fields, a growing
//! sequence for repeated fields), setters as transitions, and `build` as
//! the guarded step that inspects required slots in declaration order.

use vstd::prelude::*;
use vstd::pervasive::arbitrary;

use crate::classify::{shape_ident, FieldShape};
use crate::diag::{req_msg, required_msg};

verus! {

/// One slot of the builder: an optional scalar or a sequence.
#[derive(Debug, PartialEq)]
pub enum SlotState<V> {
    Single(Option<V>),
    Multi(Vec<V>),
}

/// The slot at the specification level.
pub enum SlotModel<V> {
    SingleM(Option<V>),
    MultiM(Seq<V>),
}

/// What `build` extracts from one slot.
#[derive(Debug, PartialEq)]
pub enum BuiltValue<V> {
    One(V),
    Opt(Option<V>),
    Many(Vec<V>),
}

/// The extracted value at the specification level.
pub enum BuiltModel<V> {
    OneM(V),
    OptM(Option<V>),
    ManyM(Seq<V>),
}

/// The builder's whole state: one slot per field, in declaration order.
#[derive(Debug)]
pub struct BuilderState<V> {
    pub slots: Vec<SlotState<V>>,
}

impl<V> View for SlotState<V> {
    type V = SlotModel<V>;

    open spec fn view(&self) -> SlotModel<V> {
        match self {
            SlotState::Single(o) => SlotModel::SingleM(*o),
            SlotState::Multi(v) => SlotModel::MultiM(v@),
        }
    }
}

impl<V> View for BuiltValue<V> {
    type V = BuiltModel<V>;

    open spec fn view(&self) -> BuiltModel<V> {
        match self {
            BuiltValue::One(v) => BuiltModel::OneM(*v),
            BuiltValue::Opt(o) => BuiltModel::OptM(*o),
            BuiltValue::Many(v) => BuiltModel::ManyM(v@),
        }
    }
}

pub open spec fn slots_view<V>(s: Seq<SlotState<V>>) -> Seq<SlotModel<V>> {
    s.map_values(|x: SlotState<V>| x@)
}

pub open spec fn built_view<V>(s: Seq<BuiltValue<V>>) -> Seq<BuiltModel<V>> {
    s.map_values(|x: BuiltValue<V>| x@)
}

impl<V> View for BuilderState<V> {
    type V = Seq<SlotModel<V>>;

    open spec fn view(&self) -> Seq<SlotModel<V>> {
        slots_view(self.slots@)
    }
}

/// A slot has the kind its field's shape calls for.
pub open spec fn slot_fits<V>(sh: FieldShape, sl: SlotModel<V>) -> bool {
    match sh {
        FieldShape::Required { .. } => sl is SingleM,
        FieldShape::Optional { .. } => sl is SingleM,
        FieldShape::Repeated { .. } => sl is MultiM,
    }
}

/// Well-formedness of a builder state against its classified fields.
pub open spec fn slots_wf<V>(shapes: Seq<FieldShape>, slots: Seq<SlotModel<V>>) -> bool {
    &&& slots.len() == shapes.len()
    &&& forall|i: int| 0 <= i < shapes.len() ==> slot_fits(shapes[i], #[trigger] slots[i])
}

/// The freshly initialized state: every scalar slot empty, every sequence
/// slot the empty sequence.
pub open spec fn init_slots<V>(shapes: Seq<FieldShape>) -> Seq<SlotModel<V>> {
    Seq::new(
        shapes.len(),
        |i: int|
            match shapes[i] {
                FieldShape::Repeated { .. } => SlotModel::MultiM(Seq::<V>::empty()),
                _ => SlotModel::SingleM(None::<V>),
            },
    )
}

/// The effect of the setter of a required or optional field.
pub open spec fn set_slot<V>(slots: Seq<SlotModel<V>>, i: int, v: V) -> Seq<SlotModel<V>> {
    slots.update(i, SlotModel::SingleM(Some(v)))
}

/// The effect of the push-setter of a repeated field.
pub open spec fn push_slot<V>(slots: Seq<SlotModel<V>>, i: int, v: V) -> Seq<SlotModel<V>> {
    slots.update(i, SlotModel::MultiM(slots[i]->MultiM_0.push(v)))
}

/// A required field whose slot was never set.
pub open spec fn req_unset<V>(sh: FieldShape, sl: SlotModel<V>) -> bool {
    sh is Required && sl == SlotModel::SingleM(None::<V>)
}

/// What `build` extracts from one well-formed, non-missing slot.
pub open spec fn out_model<V>(sh: FieldShape, sl: SlotModel<V>) -> BuiltModel<V> {
    match sh {
        FieldShape::Required { .. } => match sl {
            SlotModel::SingleM(Some(v)) => BuiltModel::OneM(v),
            _ => arbitrary(),
        },
        FieldShape::Optional { .. } => match sl {
            SlotModel::SingleM(o) => BuiltModel::OptM(o),
            _ => arbitrary(),
        },
        FieldShape::Repeated { .. } => match sl {
            SlotModel::MultiM(s) => BuiltModel::ManyM(s),
            _ => arbitrary(),
        },
    }
}

/// `build`: walk the fields in declaration order; the first unset required
/// slot short-circuits with its message; otherwise every slot's value is
/// extracted.
pub open spec fn build_spec<V>(shapes: Seq<FieldShape>, slots: Seq<SlotModel<V>>) -> Result<
    Seq<BuiltModel<V>>,
    Seq<char>,
>
    decreases shapes.len(),
{
    if shapes.len() == 0 {
        Ok(Seq::empty())
    } else {
        match shapes[0] {
            FieldShape::Required { ident, .. } => match slots[0] {
                SlotModel::SingleM(opt) => match opt {
                    None => Err(req_msg(ident@)),
                    Some(v) => match build_spec(shapes.drop_first(), slots.drop_first()) {
                        Ok(os) => Ok(seq![BuiltModel::OneM(v)] + os),
                        Err(m) => Err(m),
                    },
                },
                SlotModel::MultiM(_) => Err(Seq::empty()),
            },
            FieldShape::Optional { .. } => match slots[0] {
                SlotModel::SingleM(opt) => match build_spec(
                    shapes.drop_first(),
                    slots.drop_first(),
                ) {
                    Ok(os) => Ok(seq![BuiltModel::OptM(opt)] + os),
                    Err(m) => Err(m),
                },
                SlotModel::MultiM(_) => Err(Seq::empty()),
            },
            FieldShape::Repeated { .. } => match slots[0] {
                SlotModel::MultiM(s) => match build_spec(shapes.drop_first(), slots.drop_first()) {
                    Ok(os) => Ok(seq![BuiltModel::ManyM(s)] + os),
                    Err(m) => Err(m),
                },
                SlotModel::SingleM(_) => Err(Seq::empty()),
            },
        }
    }
}

/// The initialized builder state for a classified field list.
pub fn init_state<V>(shapes: &Vec<FieldShape>) -> (st: BuilderState<V>)
    ensures
        st@ == init_slots::<V>(shapes@),
        slots_wf(shapes@, st@),
{
    let n = shapes.len();
    let mut slots: Vec<SlotState<V>> = Vec::new();
    proof {
        assert(slots_view(slots@) =~= init_slots::<V>(shapes@).take(0));
    }
    for i in 0..n
        invariant
            n == shapes@.len(),
            slots_view(slots@) == init_slots::<V>(shapes@).take(i as int),
            slots@.len() == i,
    {
        match &shapes[i] {
            FieldShape::Repeated { .. } => slots.push(SlotState::Multi(Vec::new())),
            _ => slots.push(SlotState::Single(None)),
        }
        proof {
            assert(slots_view(slots@) =~= init_slots::<V>(shapes@).take(i as int + 1));
        }
    }
    proof {
        assert(init_slots::<V>(shapes@).take(n as int) =~= init_slots::<V>(shapes@));
    }
    let st = BuilderState { slots };
    proof {
        assert forall|i: int| 0 <= i < shapes@.len() implies slot_fits(
            shapes@[i],
            #[trigger] st@[i],
        ) by {
            assert(st@[i] == init_slots::<V>(shapes@)[i]);
        }
    }
    st
}

impl<V> BuilderState<V> {
    /// The setter of a required or optional field: store the value.
    pub fn set_field(&mut self, i: usize, v: V)
        requires
            i < old(self)@.len(),
            old(self)@[i as int] is SingleM,
        ensures
            final(self)@ == set_slot(old(self)@, i as int, v),
    {
        let ghost s0 = self.slots@;
        let _ = self.slots.remove(i);
        self.slots.insert(i, SlotState::Single(Some(v)));
        proof {
            assert(self.slots@ =~= s0.update(i as int, SlotState::Single(Some(v))));
            assert(self@ =~= set_slot(old(self)@, i as int, v));
        }
    }

    /// The push-setter of a repeated field: append the element.
    pub fn push_value(&mut self, i: usize, v: V)
        requires
            i < old(self)@.len(),
            old(self)@[i as int] is MultiM,
        ensures
            final(self)@ == push_slot(old(self)@, i as int, v),
    {
        let ghost s0 = self.slots@;
        let slot = self.slots.remove(i);
        proof {
            assert(slot == s0[i as int]);
        }
        match slot {
            SlotState::Multi(mut vs) => {
                let ghost vs0 = vs@;
                vs.push(v);
                self.slots.insert(i, SlotState::Multi(vs));
                proof {
                    assert(old(self)@[i as int] == SlotModel::MultiM(vs0));
                    assert(self@ =~= push_slot(old(self)@, i as int, v));
                }
            },
            SlotState::Single(o) => {
                // dead arm: the slot at `i` is a sequence slot by the precondition
                proof {
                    assert(false);
                }
                self.slots.insert(i, SlotState::Single(o));
            },
        }
    }
}

/// A copy of a vector of copyable values.
fn copy_vec<V: Copy>(v: &Vec<V>) -> (r: Vec<V>)
    ensures
        r@ == v@,
{
    let mut r: Vec<V> = Vec::new();
    let n = v.len();
    for i in 0..n
        invariant
            n == v@.len(),
            r@ == v@.take(i as int),
    {
        r.push(v[i]);
        proof {
            assert(r@ =~= v@.take(i as int + 1));
        }
    }
    proof {
        assert(v@.take(n as int) =~= v@);
    }
    r
}

/// `build`: re-callable (the state is only read); the first unset required
/// field, in declaration order, aborts with its message.
pub fn build_values<V: Copy>(shapes: &Vec<FieldShape>, st: &BuilderState<V>) -> (r: Result<
    Vec<BuiltValue<V>>,
    String,
>)
    requires
        slots_wf(shapes@, st@),
    ensures
        match build_spec(shapes@, st@) {
            Ok(out) => r matches Ok(v) && built_view(v@) == out,
            Err(m) => r matches Err(e) && e@ == m,
        },
{
    let n = shapes.len();
    let mut out: Vec<BuiltValue<V>> = Vec::new();
    proof {
        assert(shapes@.subrange(0, n as int) =~= shapes@);
        assert(st@.subrange(0, n as int) =~= st@);
        assert(built_view(out@) + build_spec(shapes@, st@)->Ok_0 =~= build_spec(
            shapes@,
            st@,
        )->Ok_0);
    }
    for i in 0..n
        invariant
            n == shapes@.len(),
            st@.len() == n,
            slots_wf(shapes@, st@),
            out@.len() == i,
            match build_spec(
                shapes@.subrange(i as int, n as int),
                st@.subrange(i as int, n as int),
            ) {
                Ok(os) => build_spec(shapes@, st@) matches Ok(whole) && whole == built_view(out@)
                    + os,
                Err(m) => build_spec(shapes@, st@) == Err::<Seq<BuiltModel<V>>, Seq<char>>(m),
            },
    {
        let ghost si = shapes@.subrange(i as int, n as int);
        let ghost ti = st@.subrange(i as int, n as int);
        proof {
            assert(si[0] == shapes@[i as int]);
            assert(ti[0] == st@[i as int]);
            assert(si.drop_first() =~= shapes@.subrange(i as int + 1, n as int));
            assert(ti.drop_first() =~= st@.subrange(i as int + 1, n as int));
            assert(st@[i as int] == st.slots@[i as int]@);
            assert(slot_fits(shapes@[i as int], st@[i as int]));
        }
        let ghost out0 = out@;
        match (&shapes[i], &st.slots[i]) {
            (FieldShape::Required { ident, .. }, SlotState::Single(opt)) => match opt {
                Some(x) => {
                    out.push(BuiltValue::One(*x));
                    proof {
                        assert(built_view(out@) =~= built_view(out0).push(
                            BuiltModel::OneM(*x),
                        ));
                        if build_spec(si.drop_first(), ti.drop_first()) is Ok {
                            let os = build_spec(si.drop_first(), ti.drop_first())->Ok_0;
                            assert(build_spec(si, ti) == Ok::<Seq<BuiltModel<V>>, Seq<char>>(
                                seq![BuiltModel::OneM(*x)] + os,
                            ));
                            assert(built_view(out0) + (seq![BuiltModel::OneM(*x)] + os)
                                =~= built_view(out@) + os);
                        }
                    }
                },
                None => {
                    proof {
                        assert(build_spec(si, ti) == Err::<Seq<BuiltModel<V>>, Seq<char>>(
                            req_msg(ident@),
                        ));
                    }
                    return Err(required_msg(ident));
                },
            },
            (FieldShape::Optional { .. }, SlotState::Single(opt)) => {
                out.push(BuiltValue::Opt(*opt));
                proof {
                    assert(built_view(out@) =~= built_view(out0).push(BuiltModel::OptM(*opt)));
                    if build_spec(si.drop_first(), ti.drop_first()) is Ok {
                        let os = build_spec(si.drop_first(), ti.drop_first())->Ok_0;
                        assert(build_spec(si, ti) == Ok::<Seq<BuiltModel<V>>, Seq<char>>(
                            seq![BuiltModel::OptM(*opt)] + os,
                        ));
                        assert(built_view(out0) + (seq![BuiltModel::OptM(*opt)] + os)
                            =~= built_view(out@) + os);
                    }
                }
            },
            (FieldShape::Repeated { .. }, SlotState::Multi(vs)) => {
                out.push(BuiltValue::Many(copy_vec(vs)));
                proof {
                    assert(built_view(out@) =~= built_view(out0).push(BuiltModel::ManyM(vs@)));
                    if build_spec(si.drop_first(), ti.drop_first()) is Ok {
                        let os = build_spec(si.drop_first(), ti.drop_first())->Ok_0;
                        assert(build_spec(si, ti) == Ok::<Seq<BuiltModel<V>>, Seq<char>>(
                            seq![BuiltModel::ManyM(vs@)] + os,
                        ));
                        assert(built_view(out0) + (seq![BuiltModel::ManyM(vs@)] + os)
                            =~= built_view(out@) + os);
                    }
                }
            },
            _ => {
                // dead arm: well-formedness pairs every shape with its slot kind
                proof {
                    assert(false);
                }
                return Err(String::new());
            },
        }
    }
    proof {
        assert(shapes@.subrange(n as int, n as int).len() == 0);
        assert(built_view(out@) + Seq::<BuiltModel<V>>::empty() =~= built_view(out@));
    }
    Ok(out)
}

/// `build` succeeds exactly when no required slot is unset, and a
/// successful build extracts, in declaration order, the value of every
/// slot.
pub proof fn lemma_build_characterized<V>(shapes: Seq<FieldShape>, slots: Seq<SlotModel<V>>)
    requires
        slots_wf(shapes, slots),
    ensures
        (build_spec(shapes, slots) is Ok) <==> (forall|i: int|
            0 <= i < shapes.len() ==> !req_unset(shapes[i], #[trigger] slots[i])),
        build_spec(shapes, slots) matches Ok(out) ==> out.len() == shapes.len() && (forall|i: int|
            0 <= i < shapes.len() ==> out[i] == out_model(shapes[i], #[trigger] slots[i])),
    decreases shapes.len(),
{
    if shapes.len() == 0 {
    } else {
        let sh2 = shapes.drop_first();
        let sl2 = slots.drop_first();
        assert(slots_wf(sh2, sl2)) by {
            assert forall|j: int| 0 <= j < sh2.len() implies slot_fits(
                sh2[j],
                #[trigger] sl2[j],
            ) by {
                assert(slot_fits(shapes[j + 1], slots[j + 1]));
            }
        }
        lemma_build_characterized(sh2, sl2);
        if req_unset(shapes[0], slots[0]) {
            assert(build_spec(shapes, slots) is Err);
        } else {
            let head = out_model(shapes[0], slots[0]);
            match build_spec(sh2, sl2) {
                Ok(os) => {
                    assert(build_spec(shapes, slots) == Ok::<Seq<BuiltModel<V>>, Seq<char>>(
                        seq![head] + os,
                    ));
                    let out = seq![head] + os;
                    assert forall|i: int| 0 <= i < shapes.len() implies out[i] == out_model(
                        shapes[i],
                        #[trigger] slots[i],
                    ) by {
                        if i > 0 {
                            assert(os[i - 1] == out_model(sh2[i - 1], sl2[i - 1]));
                            assert(sh2[i - 1] == shapes[i]);
                            assert(sl2[i - 1] == slots[i]);
                        }
                    }
                    assert forall|i: int| 0 <= i < shapes.len() implies !req_unset(
                        shapes[i],
                        #[trigger] slots[i],
                    ) by {
                        if i > 0 {
                            assert(!req_unset(sh2[i - 1], sl2[i - 1]));
                        }
                    }
                },
                Err(_) => {
                    assert(build_spec(shapes, slots) is Err);
                    let j = choose|j: int|
                        0 <= j < sh2.len() && req_unset(sh2[j], #[trigger] sl2[j]);
                    assert(req_unset(shapes[j + 1], slots[j + 1]));
                },
            }
        }
    }
}

/// The error of a failing `build` names the first unset required field in
/// declaration order.
pub proof fn lemma_first_missing<V>(shapes: Seq<FieldShape>, slots: Seq<SlotModel<V>>, i: int)
    requires
        slots_wf(shapes, slots),
        0 <= i < shapes.len(),
        req_unset(shapes[i], slots[i]),
        forall|j: int| 0 <= j < i ==> !req_unset(shapes[j], #[trigger] slots[j]),
    ensures
        build_spec(shapes, slots) == Err::<Seq<BuiltModel<V>>, Seq<char>>(
            req_msg(shape_ident(shapes[i])@),
        ),
    decreases i,
{
    if i == 0 {
        assert(shapes[0] is Required && slots[0] == SlotModel::SingleM(None::<V>));
    } else {
        let sh2 = shapes.drop_first();
        let sl2 = slots.drop_first();
        assert(slots_wf(sh2, sl2)) by {
            assert forall|j: int| 0 <= j < sh2.len() implies slot_fits(
                sh2[j],
                #[trigger] sl2[j],
            ) by {
                assert(slot_fits(shapes[j + 1], slots[j + 1]));
            }
        }
        assert forall|j: int| 0 <= j < i - 1 implies !req_unset(sh2[j], #[trigger] sl2[j]) by {
            assert(!req_unset(shapes[j + 1], slots[j + 1]));
        }
        assert(req_unset(sh2[i - 1], sl2[i - 1]));
        lemma_first_missing(sh2, sl2, i - 1);
        assert(!req_unset(shapes[0], slots[0]));
        assert(sh2[i - 1] == shapes[i]);
    }
}

/// Setting the first `k` fields to `vals[0] .. vals[k-1]`, one setter call
/// each.
pub open spec fn set_all<V>(slots: Seq<SlotModel<V>>, vals: Seq<V>, k: int) -> Seq<SlotModel<V>>
    decreases k,
{
    if k <= 0 {
        slots
    } else {
        set_slot(set_all(slots, vals, k - 1), k - 1, vals[k - 1])
    }
}

pub proof fn lemma_set_all_at<V>(slots: Seq<SlotModel<V>>, vals: Seq<V>, k: int)
    requires
        0 <= k <= slots.len(),
    ensures
        set_all(slots, vals, k).len() == slots.len(),
        forall|i: int|
            0 <= i < slots.len() ==> #[trigger] set_all(slots, vals, k)[i] == if i < k {
                SlotModel::SingleM(Some(vals[i]))
            } else {
                slots[i]
            },
    decreases k,
{
    if k > 0 {
        lemma_set_all_at(slots, vals, k - 1);
    }
}

/// Round trip: in a record whose fields are all required, initializing the
/// builder, calling every setter once with `vals[i]` and then `build`
/// returns exactly those values, in declaration order.
pub proof fn lemma_round_trip<V>(shapes: Seq<FieldShape>, vals: Seq<V>)
    requires
        vals.len() == shapes.len(),
        forall|i: int| 0 <= i < shapes.len() ==> #[trigger] shapes[i] is Required,
    ensures
        build_spec(shapes, set_all(init_slots::<V>(shapes), vals, shapes.len() as int)) == Ok::<
            Seq<BuiltModel<V>>,
            Seq<char>,
        >(Seq::new(shapes.len(), |i: int| BuiltModel::OneM(vals[i]))),
{
    let slots = set_all(init_slots::<V>(shapes), vals, shapes.len() as int);
    lemma_set_all_at(init_slots::<V>(shapes), vals, shapes.len() as int);
    assert(slots_wf(shapes, slots));
    lemma_build_characterized(shapes, slots);
    assert forall|i: int| 0 <= i < shapes.len() implies !req_unset(
        shapes[i],
        #[trigger] slots[i],
    ) by {
        assert(slots[i] == SlotModel::SingleM(Some(vals[i])));
    }
    let out = build_spec(shapes, slots)->Ok_0;
    assert(out =~= Seq::new(shapes.len(), |i: int| BuiltModel::OneM(vals[i]))) by {
        assert forall|i: int| 0 <= i < shapes.len() implies out[i] == BuiltModel::OneM(
            vals[i],
        ) by {
            assert(out[i] == out_model(shapes[i], slots[i]));
            assert(slots[i] == SlotModel::SingleM(Some(vals[i])));
        }
    }
}

/// Optional idempotence: an optional field starts out empty, an omitted
/// setter leaves the empty option in the built record, a called setter
/// puts the contained value there, and neither affects whether `build`
/// succeeds nor any other field's value.
pub proof fn lemma_optional_idempotence<V>(
    shapes: Seq<FieldShape>,
    slots: Seq<SlotModel<V>>,
    i: int,
    v: V,
)
    requires
        slots_wf(shapes, slots),
        0 <= i < shapes.len(),
        shapes[i] is Optional,
    ensures
        init_slots::<V>(shapes)[i] == SlotModel::SingleM(None::<V>),
        build_spec(shapes, slots) matches Ok(out) ==> out[i] == BuiltModel::OptM(
            slots[i]->SingleM_0,
        ),
        (build_spec(shapes, set_slot(slots, i, v)) is Ok) <==> (build_spec(shapes, slots) is Ok),
        build_spec(shapes, set_slot(slots, i, v)) matches Ok(out2) ==> out2[i] == BuiltModel::OptM(
            Some(v),
        ) && (build_spec(shapes, slots) matches Ok(out) ==> forall|j: int|
            0 <= j < shapes.len() && j != i ==> out2[j] == out[j]),
{
    let slots2 = set_slot(slots, i, v);
    assert(slots_wf(shapes, slots2)) by {
        assert forall|j: int| 0 <= j < shapes.len() implies slot_fits(
            shapes[j],
            #[trigger] slots2[j],
        ) by {
            if j != i {
                assert(slots2[j] == slots[j]);
            }
        }
    }
    lemma_build_characterized(shapes, slots);
    lemma_build_characterized(shapes, slots2);
    assert forall|j: int| 0 <= j < shapes.len() implies (req_unset(shapes[j], #[trigger] slots[j])
        <==> req_unset(shapes[j], slots2[j])) by {
        if j != i {
            assert(slots2[j] == slots[j]);
        }
    }
    if build_spec(shapes, slots2) is Ok {
        let out2 = build_spec(shapes, slots2)->Ok_0;
        assert(out2[i] == out_model(shapes[i], slots2[i]));
        assert(slots2[i] == SlotModel::SingleM(Some(v)));
        if build_spec(shapes, slots) is Ok {
            let out = build_spec(shapes, slots)->Ok_0;
            assert forall|j: int| 0 <= j < shapes.len() && j != i implies out2[j] == out[j] by {
                assert(out2[j] == out_model(shapes[j], slots2[j]));
                assert(out[j] == out_model(shapes[j], slots[j]));
                assert(slots2[j] == slots[j]);
            }
        }
    }
}

/// Pushing the elements of `vals`, in order, onto slot `i`.
pub open spec fn push_all<V>(slots: Seq<SlotModel<V>>, i: int, vals: Seq<V>) -> Seq<SlotModel<V>>
    decreases vals.len(),
{
    if vals.len() == 0 {
        slots
    } else {
        push_all(push_slot(slots, i, vals[0]), i, vals.drop_first())
    }
}

/// Repeated monotonicity: `k` push-setter calls with `e1 .. ek` leave the
/// sequence slot holding exactly its old contents followed by `e1 .. ek`,
/// in that order, and touch no other slot.
pub proof fn lemma_repeated_monotonic<V>(slots: Seq<SlotModel<V>>, i: int, vals: Seq<V>)
    requires
        0 <= i < slots.len(),
        slots[i] is MultiM,
    ensures
        push_all(slots, i, vals).len() == slots.len(),
        push_all(slots, i, vals)[i] == SlotModel::MultiM(slots[i]->MultiM_0 + vals),
        forall|j: int|
            0 <= j < slots.len() && j != i ==> #[trigger] push_all(slots, i, vals)[j] == slots[j],
    decreases vals.len(),
{
    if vals.len() == 0 {
        assert(slots[i]->MultiM_0 + vals =~= slots[i]->MultiM_0);
    } else {
        let stepped = push_slot(slots, i, vals[0]);
        lemma_repeated_monotonic(stepped, i, vals.drop_first());
        assert(stepped[i]->MultiM_0 + vals.drop_first() =~= slots[i]->MultiM_0 + vals);
    }
}

/// From a fresh builder, `k` push-setter calls with `e1 .. ek` yield the
/// sequence `[e1, ..., ek]` exactly.
pub proof fn lemma_pushes_from_init<V>(shapes: Seq<FieldShape>, i: int, vals: Seq<V>)
    requires
        0 <= i < shapes.len(),
        shapes[i] is Repeated,
    ensures
        push_all(init_slots::<V>(shapes), i, vals)[i] == SlotModel::MultiM(vals),
{
    lemma_repeated_monotonic(init_slots::<V>(shapes), i, vals);
    assert(Seq::<V>::empty() + vals =~= vals);
}

} // verus!
