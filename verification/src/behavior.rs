//! What a synthesized builder does when it is used: its fields as slots,
//! its setters as calls on them, and its finalizer.
//!
//! The values that a program stores in a builder are of no concern here.
//! They are any type `V`, and a builder's state is one slot for each field
//! of the aggregate. The laws at the end say what holds of every aggregate
//! and of every sequence of calls.

use crate::classify::{classification, DescriptorModel};
use crate::synth::{setters_of, whole_setter, Action, AggregateModel, FieldDescriptorModel};
use crate::text::missing_message;
use vstd::prelude::*;

verus! {

/// What the builder holds for one field: a value that may be absent, or a
/// sequence.
pub enum Slot<V> {
    Single(Option<V>),
    Many(Seq<V>),
}

/// One call of a setter, by the field it belongs to and by what it does.
pub enum Call<V> {
    Store { field: int, value: V },
    Replace { field: int, values: Seq<V> },
    Append { field: int, value: V },
}

/// What the finalizer hands to the aggregate for one field.
pub enum Resolved<V> {
    Value(V),
    Maybe(Option<V>),
    Many(Seq<V>),
}

/// The error of a finalizer that found a scalar field unset.
pub struct ValueMissingError {
    /// The name of the field.
    pub field: Seq<char>,
}

impl ValueMissingError {
    /// The error's text.
    pub open spec fn message(self) -> Seq<char> {
        missing_message(self.field)
    }
}

impl<V> Call<V> {
    /// The index of the field whose setter is called.
    pub open spec fn field(self) -> int {
        match self {
            Call::Store { field, .. } => field,
            Call::Replace { field, .. } => field,
            Call::Append { field, .. } => field,
        }
    }

    /// What the called setter does.
    pub open spec fn action(self) -> Action {
        match self {
            Call::Store { .. } => Action::Store,
            Call::Replace { .. } => Action::Replace,
            Call::Append { .. } => Action::Append,
        }
    }
}

impl<V> Slot<V> {
    /// The sequence that a slot holds; none for a single value.
    pub open spec fn items(self) -> Seq<V> {
        match self {
            Slot::Single(_) => Seq::empty(),
            Slot::Many(items) => items,
        }
    }
}

/// Whether a field has a setter that does `action`.
pub open spec fn has_setter(f: FieldDescriptorModel, action: Action) -> bool {
    exists|k: int| 0 <= k < setters_of(f).len() && (#[trigger] setters_of(f)[k]).action == action
}

/// Whether the builder of an aggregate offers a call.
pub open spec fn offered<V>(a: AggregateModel, call: Call<V>) -> bool {
    0 <= call.field() < a.fields.len() && has_setter(a.fields[call.field()], call.action())
}

/// Whether every call of a sequence is offered.
pub open spec fn all_offered<V>(a: AggregateModel, calls: Seq<Call<V>>) -> bool {
    forall|k: int| 0 <= k < calls.len() ==> offered(a, #[trigger] calls[k])
}

/// Whether some call of a sequence is for the field.
pub open spec fn touched<V>(calls: Seq<Call<V>>, field: int) -> bool {
    exists|k: int| 0 <= k < calls.len() && (#[trigger] calls[k]).field() == field
}

/// The state of a new builder: every single value absent, every sequence
/// empty.
pub open spec fn initial_state<V>(a: AggregateModel) -> Seq<Slot<V>> {
    Seq::new(
        a.fields.len(),
        |i: int|
            if classification(a.fields[i].ty) is Repeated {
                Slot::Many(Seq::empty())
            } else {
                Slot::Single(None)
            },
    )
}

/// The state after one call. A call for a field that does not exist
/// changes nothing.
pub open spec fn step<V>(state: Seq<Slot<V>>, call: Call<V>) -> Seq<Slot<V>> {
    if 0 <= call.field() < state.len() {
        match call {
            Call::Store { field, value } => state.update(field, Slot::Single(Some(value))),
            Call::Replace { field, values } => state.update(field, Slot::Many(values)),
            Call::Append { field, value } => state.update(
                field,
                Slot::Many(state[field].items().push(value)),
            ),
        }
    } else {
        state
    }
}

/// The state after a sequence of calls, made in order.
pub open spec fn run<V>(state: Seq<Slot<V>>, calls: Seq<Call<V>>) -> Seq<Slot<V>>
    decreases calls.len(),
{
    if calls.len() == 0 {
        state
    } else {
        step(run(state, calls.drop_last()), calls.last())
    }
}

/// Whether a field is scalar and its slot holds nothing.
pub open spec fn missing<V>(a: AggregateModel, state: Seq<Slot<V>>, i: int) -> bool {
    classification(a.fields[i].ty) is Scalar && state[i] == Slot::<V>::Single(None)
}

/// The first field from `from` on that is missing.
pub open spec fn first_missing<V>(a: AggregateModel, state: Seq<Slot<V>>, from: int) -> Option<int>
    decreases a.fields.len() - from,
{
    if from < 0 || from >= a.fields.len() {
        None
    } else if missing(a, state, from) {
        Some(from)
    } else {
        first_missing(a, state, from + 1)
    }
}

/// What the finalizer makes of a slot: a scalar field's value is unwrapped,
/// an optional field's value and a repeated field's sequence are passed on.
pub open spec fn resolve<V>(f: FieldDescriptorModel, slot: Slot<V>) -> Resolved<V> {
    match classification(f.ty) {
        DescriptorModel::Scalar(_) => match slot {
            Slot::Single(Some(value)) => Resolved::Value(value),
            _ => arbitrary(),
        },
        DescriptorModel::Optional(_) => match slot {
            Slot::Single(value) => Resolved::Maybe(value),
            _ => arbitrary(),
        },
        DescriptorModel::Repeated(_) => Resolved::Many(slot.items()),
    }
}

/// The finalizer: the error for the first scalar field, in declaration
/// order, that was never set; else every field resolved. The state is not
/// changed.
pub open spec fn finalize<V>(a: AggregateModel, state: Seq<Slot<V>>) -> Result<
    Seq<Resolved<V>>,
    ValueMissingError,
> {
    match first_missing(a, state, 0) {
        Some(i) => Err(ValueMissingError { field: a.fields[i].name.name }),
        None => Ok(Seq::new(a.fields.len(), |i: int| resolve(a.fields[i], state[i]))),
    }
}

/// A scalar or optional field has only a storing setter, a repeated field
/// only replacing and appending ones.
pub proof fn lemma_setter_fits_kind(f: FieldDescriptorModel, action: Action)
    requires
        has_setter(f, action),
    ensures
        classification(f.ty) is Repeated <==> action != Action::Store,
{
    let k = choose|k: int|
        0 <= k < setters_of(f).len() && (#[trigger] setters_of(f)[k]).action == action;
    assert(setters_of(f)[k].action == action);
}

/// After offered calls on a new builder every slot has its field's kind, a
/// slot that no call was for is as it began, and a single slot that a call
/// was for holds a value.
pub proof fn lemma_state_after_calls<V>(a: AggregateModel, calls: Seq<Call<V>>)
    requires
        all_offered(a, calls),
    ensures
        run(initial_state::<V>(a), calls).len() == a.fields.len(),
        forall|i: int|
            0 <= i < a.fields.len() ==> (classification(a.fields[i].ty) is Repeated <==> (
            #[trigger] run(initial_state::<V>(a), calls)[i]) is Many),
        forall|i: int|
            0 <= i < a.fields.len() && !touched(calls, i) ==> #[trigger] run(
                initial_state::<V>(a),
                calls,
            )[i] == initial_state::<V>(a)[i],
        forall|i: int|
            0 <= i < a.fields.len() && touched(calls, i) && !(classification(a.fields[i].ty)
                is Repeated) ==> (#[trigger] run(initial_state::<V>(a), calls)[i])
                matches Slot::Single(Some(_)),
    decreases calls.len(),
{
    if calls.len() > 0 {
        let before = calls.drop_last();
        let last = calls.last();
        assert(all_offered(a, before)) by {
            assert forall|k: int| 0 <= k < before.len() implies offered(a, #[trigger] before[k]) by {
                assert(before[k] == calls[k]);
            }
        }
        lemma_state_after_calls(a, before);
        assert(offered(a, calls[calls.len() - 1]));
        lemma_setter_fits_kind(a.fields[last.field()], last.action());
        let old_state = run(initial_state::<V>(a), before);
        let new_state = run(initial_state::<V>(a), calls);
        assert(new_state == step(old_state, last));
        assert forall|i: int| 0 <= i < a.fields.len() && !touched(calls, i) implies new_state[i]
            == initial_state::<V>(a)[i] by {
            assert(calls[calls.len() - 1].field() != i);
            assert(!touched(before, i)) by {
                if touched(before, i) {
                    let k = choose|k: int|
                        0 <= k < before.len() && (#[trigger] before[k]).field() == i;
                    assert(calls[k].field() == i);
                }
            }
        }
        assert forall|i: int|
            0 <= i < a.fields.len() && touched(calls, i) && !(classification(a.fields[i].ty)
                is Repeated) implies (#[trigger] new_state[i]) matches Slot::Single(Some(_)) by {
            if last.field() != i {
                let k = choose|k: int| 0 <= k < calls.len() && (#[trigger] calls[k]).field() == i;
                assert(before[k].field() == i);
                assert(touched(before, i));
            }
        }
    }
}

/// Where no field from `from` on is missing, none is found.
proof fn lemma_none_missing<V>(a: AggregateModel, state: Seq<Slot<V>>, from: int)
    requires
        0 <= from,
        forall|i: int| from <= i < a.fields.len() ==> !missing(a, state, i),
    ensures
        first_missing(a, state, from) is None,
    decreases a.fields.len() - from,
{
    if from < a.fields.len() {
        lemma_none_missing(a, state, from + 1);
    }
}

/// Where `j` is missing and no field from `from` up to it is, `j` is found.
proof fn lemma_first_missing<V>(a: AggregateModel, state: Seq<Slot<V>>, from: int, j: int)
    requires
        0 <= from <= j < a.fields.len(),
        missing(a, state, j),
        forall|i: int| from <= i < j ==> !missing(a, state, i),
    ensures
        first_missing(a, state, from) == Some(j),
    decreases j - from,
{
    if from < j {
        lemma_first_missing(a, state, from + 1, j);
    }
}

/// Setting every scalar field, in any order and among any other offered
/// calls, makes the finalizer succeed. An optional field that was never set
/// comes out absent, a repeated field that was never set comes out as the
/// empty sequence.
pub proof fn lemma_build_succeeds_when_scalars_are_set<V>(a: AggregateModel, calls: Seq<Call<V>>)
    requires
        all_offered(a, calls),
        forall|i: int|
            0 <= i < a.fields.len() && classification(#[trigger] a.fields[i].ty) is Scalar
                ==> touched(calls, i),
    ensures
        finalize(a, run(initial_state::<V>(a), calls)) is Ok,
        forall|i: int|
            0 <= i < a.fields.len() && !touched(calls, i) && classification(a.fields[i].ty)
                is Optional ==> (#[trigger] finalize(
                a,
                run(initial_state::<V>(a), calls),
            )->Ok_0[i]) == Resolved::<V>::Maybe(None),
        forall|i: int|
            0 <= i < a.fields.len() && !touched(calls, i) && classification(a.fields[i].ty)
                is Repeated ==> (#[trigger] finalize(
                a,
                run(initial_state::<V>(a), calls),
            )->Ok_0[i]) == Resolved::<V>::Many(Seq::empty()),
{
    let state = run(initial_state::<V>(a), calls);
    lemma_state_after_calls(a, calls);
    assert forall|i: int| 0 <= i < a.fields.len() implies !missing(a, state, i) by {
        if classification(a.fields[i].ty) is Scalar {
            assert(touched(calls, i));
            assert(state[i] matches Slot::Single(Some(_)));
        }
    }
    lemma_none_missing(a, state, 0);
}

/// Leaving out exactly one scalar field makes the finalizer fail with the
/// error that names that field.
pub proof fn lemma_build_names_the_missing_scalar<V>(
    a: AggregateModel,
    calls: Seq<Call<V>>,
    j: int,
)
    requires
        all_offered(a, calls),
        0 <= j < a.fields.len(),
        classification(a.fields[j].ty) is Scalar,
        !touched(calls, j),
        forall|i: int|
            0 <= i < a.fields.len() && i != j && classification(#[trigger] a.fields[i].ty)
                is Scalar ==> touched(calls, i),
    ensures
        finalize(a, run(initial_state::<V>(a), calls)) == Err::<
            Seq<Resolved<V>>,
            ValueMissingError,
        >(ValueMissingError { field: a.fields[j].name.name }),
        finalize(a, run(initial_state::<V>(a), calls))->Err_0.message() == missing_message(
            a.fields[j].name.name,
        ),
{
    let state = run(initial_state::<V>(a), calls);
    lemma_state_after_calls(a, calls);
    assert(state[j] == initial_state::<V>(a)[j]);
    assert(missing(a, state, j));
    assert forall|i: int| 0 <= i < j implies !missing(a, state, i) by {
        if classification(a.fields[i].ty) is Scalar {
            assert(touched(calls, i));
            assert(state[i] matches Slot::Single(Some(_)));
        }
    }
    lemma_first_missing(a, state, 0, j);
}

/// A repeated field whose alias is its own name has exactly one setter. It
/// bears that name, takes one element and appends.
pub proof fn lemma_alias_equal_to_name_gives_one_setter(f: FieldDescriptorModel)
    requires
        classification(f.ty) is Repeated,
        f.each is Some,
        f.each->0.name == f.name.name,
    ensures
        setters_of(f).len() == 1,
        setters_of(f)[0].name.name == f.name.name,
        setters_of(f)[0].action == Action::Append,
        setters_of(f)[0].parameter == classification(f.ty)->Repeated_0.tokens,
        has_setter(f, Action::Append),
        !has_setter(f, Action::Replace),
        !has_setter(f, Action::Store),
{
    assert(setters_of(f)[0].action == Action::Append);
}

/// A repeated field whose alias differs from its name has both setters:
/// first the one of the field's name, which replaces the whole sequence,
/// then the one of the alias' name, which appends one element.
pub proof fn lemma_alias_different_from_name_gives_both_setters(f: FieldDescriptorModel)
    requires
        classification(f.ty) is Repeated,
        f.each is Some,
        f.each->0.name != f.name.name,
    ensures
        setters_of(f).len() == 2,
        setters_of(f)[0] == whole_setter(f),
        setters_of(f)[0].action == Action::Replace,
        setters_of(f)[1].name == f.each->0,
        setters_of(f)[1].action == Action::Append,
        setters_of(f)[1].parameter == classification(f.ty)->Repeated_0.tokens,
        has_setter(f, Action::Append),
        has_setter(f, Action::Replace),
{
    assert(setters_of(f)[0].action == Action::Replace);
    assert(setters_of(f)[1].action == Action::Append);
}

/// The calls that append the given values to one field, one by one.
pub open spec fn appends<V>(field: int, values: Seq<V>) -> Seq<Call<V>> {
    Seq::new(values.len(), |k: int| Call::Append { field, value: values[k] })
}

/// Each appending call adds exactly one element at the end, so a run of
/// them adds its values in call order, and leaves every other slot alone.
pub proof fn lemma_appends_accumulate_in_call_order<V>(
    state: Seq<Slot<V>>,
    field: int,
    values: Seq<V>,
)
    requires
        0 <= field < state.len(),
        state[field] is Many,
    ensures
        run(state, appends(field, values)).len() == state.len(),
        run(state, appends(field, values))[field] == Slot::Many(state[field].items() + values),
        forall|i: int|
            0 <= i < state.len() && i != field ==> #[trigger] run(state, appends(field, values))[i]
                == state[i],
    decreases values.len(),
{
    let calls = appends(field, values);
    if values.len() == 0 {
        assert(state[field].items() + values =~= state[field].items());
    } else {
        let before = values.drop_last();
        lemma_appends_accumulate_in_call_order(state, field, before);
        assert(calls.drop_last() =~= appends(field, before));
        assert(calls.last() == Call::Append { field, value: values.last() });
        assert(state[field].items() + values =~= (state[field].items() + before).push(
            values.last(),
        ));
    }
}

/// Replacing a field's sequence discards whatever was appended before: on
/// any state, after the replacing call the field holds exactly the given
/// sequence, and every other slot is as it was.
pub proof fn lemma_replace_discards_appended<V>(
    state: Seq<Slot<V>>,
    calls: Seq<Call<V>>,
    field: int,
    values: Seq<V>,
)
    requires
        0 <= field < run(state, calls).len(),
    ensures
        run(state, calls.push(Call::Replace { field, values }))[field] == Slot::Many(values),
        forall|i: int|
            0 <= i < run(state, calls).len() && i != field ==> #[trigger] run(
                state,
                calls.push(Call::Replace { field, values }),
            )[i] == run(state, calls)[i],
{
    let all = calls.push(Call::Replace { field, values });
    assert(all.drop_last() =~= calls);
    assert(all.last() == Call::Replace { field, values });
}

} // verus!
