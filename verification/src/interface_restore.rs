use vstd::prelude::*;

use crate::grpc_client::values::ValueType;
use crate::introspection::{first_input_named, AnyInputValue, Introspection, RgbBits};
use crate::text::{lookup_last, map_of_pairs, owned, str_eq};

verus! {

/// An interface that keeps the values of the inputs in a file and restores
/// them at start.
pub struct Restore {
    pub path: String,
    /// How many changes are gathered before the file is written.
    pub write_threshold: usize,
    /// How long, in nanoseconds, changes are gathered at most.
    pub write_timeout: u128,
}

/// A value as the file keeps it; decimals are the bit patterns of their
/// `f32`. Triggers are not kept.
#[derive(Clone, Copy, Debug, PartialEq, Eq, Structural)]
pub enum StoredValue {
    Boolean(bool),
    Integer(i64),
    Decimal(u32),
    Color(RgbBits),
    IntegerRange(i64, i64),
    DecimalRange(u32, u32),
    ColorRange(RgbBits, RgbBits),
}

/// The value that the file keeps for a value an input took.
pub open spec fn stored_of(value: AnyInputValue) -> Option<StoredValue> {
    match value {
        AnyInputValue::Trigger => None,
        AnyInputValue::Boolean(b) => Some(StoredValue::Boolean(b)),
        AnyInputValue::Integer(n) => Some(StoredValue::Integer(n)),
        AnyInputValue::Decimal(d) => Some(StoredValue::Decimal(d)),
        AnyInputValue::Color(c) => Some(StoredValue::Color(c)),
        AnyInputValue::IntegerRange(a, b) => Some(StoredValue::IntegerRange(a, b)),
        AnyInputValue::DecimalRange(a, b) => Some(StoredValue::DecimalRange(a, b)),
        AnyInputValue::ColorRange(a, b) => Some(StoredValue::ColorRange(a, b)),
    }
}

/// The value to send to an input of type `t` for a kept value, if the types
/// agree.
pub open spec fn restored_of(t: ValueType, stored: StoredValue) -> Option<AnyInputValue> {
    match (t, stored) {
        (ValueType::Bool, StoredValue::Boolean(b)) => Some(AnyInputValue::Boolean(b)),
        (ValueType::Integer, StoredValue::Integer(n)) => Some(AnyInputValue::Integer(n)),
        (ValueType::Decimal, StoredValue::Decimal(d)) => Some(AnyInputValue::Decimal(d)),
        (ValueType::Color, StoredValue::Color(c)) => Some(AnyInputValue::Color(c)),
        (ValueType::IntegerRange, StoredValue::IntegerRange(a, b)) => Some(AnyInputValue::IntegerRange(a, b)),
        (ValueType::DecimalRange, StoredValue::DecimalRange(a, b)) => Some(AnyInputValue::DecimalRange(a, b)),
        (ValueType::ColorRange, StoredValue::ColorRange(a, b)) => Some(AnyInputValue::ColorRange(a, b)),
        _ => None,
    }
}

/// The value to keep for a value an input took; triggers are not kept.
pub fn persisted(value: AnyInputValue) -> (res: Option<StoredValue>)
    ensures
        res == stored_of(value),
{
    match value {
        AnyInputValue::Trigger => None,
        AnyInputValue::Boolean(b) => Some(StoredValue::Boolean(b)),
        AnyInputValue::Integer(n) => Some(StoredValue::Integer(n)),
        AnyInputValue::Decimal(d) => Some(StoredValue::Decimal(d)),
        AnyInputValue::Color(c) => Some(StoredValue::Color(c)),
        AnyInputValue::IntegerRange(a, b) => Some(StoredValue::IntegerRange(a, b)),
        AnyInputValue::DecimalRange(a, b) => Some(StoredValue::DecimalRange(a, b)),
        AnyInputValue::ColorRange(a, b) => Some(StoredValue::ColorRange(a, b)),
    }
}

/// What restoring one kept value does.
pub enum RestoreStep {
    /// No input has the name: the value is passed over.
    Skip,
    /// Send the value to the input at this position.
    Send(usize, AnyInputValue),
    /// The kept value does not fit the input; the message says so.
    Mismatch(String),
}

/// The message for a kept value that does not fit its input.
pub open spec fn mismatch_text(name: Seq<char>) -> Seq<char> {
    "Restore data type mismatch: "@ + name + " - ignoring"@
}

/// Decides what to do with the value kept under `name`.
pub fn restore_entry(introspection: &Introspection, name: &str, stored: StoredValue) -> (res: RestoreStep)
    ensures
        match res {
            RestoreStep::Skip => first_input_named(introspection.inputs@, name@, None),
            RestoreStep::Send(i, v) => first_input_named(introspection.inputs@, name@, Some(i)) && restored_of(
                introspection.inputs@[i as int].value_type,
                stored,
            ) == Some(v),
            RestoreStep::Mismatch(m) => exists|i: usize|
                first_input_named(introspection.inputs@, name@, Some(i)) && restored_of(
                    (#[trigger] introspection.inputs@[i as int]).value_type,
                    stored,
                ) is None && m@ == mismatch_text(name@),
        },
{
    let i = match introspection.find_input(name) {
        Some(i) => i,
        None => return RestoreStep::Skip,
    };
    let restored = match (introspection.inputs[i].value_type, stored) {
        (ValueType::Bool, StoredValue::Boolean(b)) => Some(AnyInputValue::Boolean(b)),
        (ValueType::Integer, StoredValue::Integer(n)) => Some(AnyInputValue::Integer(n)),
        (ValueType::Decimal, StoredValue::Decimal(d)) => Some(AnyInputValue::Decimal(d)),
        (ValueType::Color, StoredValue::Color(c)) => Some(AnyInputValue::Color(c)),
        (ValueType::IntegerRange, StoredValue::IntegerRange(a, b)) => Some(AnyInputValue::IntegerRange(a, b)),
        (ValueType::DecimalRange, StoredValue::DecimalRange(a, b)) => Some(AnyInputValue::DecimalRange(a, b)),
        (ValueType::ColorRange, StoredValue::ColorRange(a, b)) => Some(AnyInputValue::ColorRange(a, b)),
        _ => None,
    };
    match restored {
        Some(v) => RestoreStep::Send(i, v),
        None => {
            let mut message = owned("Restore data type mismatch: ");
            message.append(name);
            message.append(" - ignoring");
            RestoreStep::Mismatch(message)
        },
    }
}

/// The kept values by input name; no name occurs twice.
pub struct RestoreData {
    /// Pairs of name and value in a list, not a `HashMap`: vstd specifies a
    /// `HashMap` only for keys whose hashing it models (integers and `bool`);
    /// for `String` keys it would take an `assume`.
    pub entries: Vec<(String, StoredValue)>,
}

/// The views of the entries.
pub open spec fn entry_views(entries: Seq<(String, StoredValue)>) -> Seq<(Seq<char>, StoredValue)> {
    entries.map_values(|e: (String, StoredValue)| (e.0@, e.1))
}

/// Overwriting the value of a key that occurs once is inserting it anew.
proof fn lemma_map_update_unique<V>(pairs: Seq<(Seq<char>, V)>, i: int, v: V)
    requires
        0 <= i < pairs.len(),
        forall|j: int| 0 <= j < pairs.len() && j != i ==> (#[trigger] pairs[j]).0 != pairs[i].0,
    ensures
        map_of_pairs(pairs.update(i, (pairs[i].0, v))) == map_of_pairs(pairs).insert(pairs[i].0, v),
    decreases pairs.len(),
{
    let k = pairs[i].0;
    let updated = pairs.update(i, (k, v));
    if i == pairs.len() - 1 {
        assert(updated.drop_last() == pairs.drop_last());
    } else {
        let rest = pairs.drop_last();
        assert forall|j: int| 0 <= j < rest.len() && j != i implies (#[trigger] rest[j]).0 != rest[i].0 by {
            assert(rest[j] == pairs[j]);
        }
        lemma_map_update_unique(rest, i, v);
        assert(updated.drop_last() == rest.update(i, (k, v)));
        assert(updated.last() == pairs.last());
        assert(pairs.last().0 != k);
        assert(map_of_pairs(updated) =~= map_of_pairs(pairs).insert(k, v));
    }
}

impl RestoreData {
    /// No name occurs twice.
    pub open spec fn wf(&self) -> bool {
        forall|i: int, j: int|
            0 <= i < j < self.entries.len() ==> (#[trigger] self.entries@[i]).0@ != (#[trigger] self.entries@[j]).0@
    }

    /// The kept values by name.
    pub open spec fn map(&self) -> Map<Seq<char>, StoredValue> {
        map_of_pairs(entry_views(self.entries@))
    }

    pub fn new() -> (res: RestoreData)
        ensures
            res.wf(),
            res.map() == Map::<Seq<char>, StoredValue>::empty(),
    {
        RestoreData { entries: Vec::new() }
    }

    /// The position of the entry for `name`.
    fn find(&self, name: &str) -> (res: Option<usize>)
        requires
            self.wf(),
        ensures
            match res {
                Some(i) => i < self.entries.len() && self.entries@[i as int].0@ == name@,
                None => forall|j: int| 0 <= j < self.entries.len() ==> (#[trigger] self.entries@[j]).0@ != name@,
            },
    {
        let mut i: usize = 0;
        while i < self.entries.len()
            invariant
                i <= self.entries.len(),
                forall|j: int| 0 <= j < i ==> (#[trigger] self.entries@[j]).0@ != name@,
            decreases self.entries.len() - i,
        {
            if str_eq(self.entries[i].0.as_str(), name) {
                return Some(i);
            }
            i = i + 1;
        }
        None
    }

    /// The value kept for `name`.
    pub fn get(&self, name: &str) -> (res: Option<StoredValue>)
        requires
            self.wf(),
        ensures
            match res {
                Some(v) => self.map().contains_key(name@) && self.map()[name@] == v,
                None => !self.map().contains_key(name@),
            },
    {
        let views = Ghost(entry_views(self.entries@));
        match self.find(name) {
            Some(i) => {
                proof {
                    assert forall|j: int| i < j < views@.len() implies (#[trigger] views@[j]).0 != name@ by {
                        assert(self.entries@[i as int].0@ != self.entries@[j].0@);
                    }
                    lookup_last(views@, name@, i as int);
                }
                Some(self.entries[i].1)
            },
            None => {
                proof {
                    assert forall|j: int| -1 < j < views@.len() implies (#[trigger] views@[j]).0 != name@ by {
                        assert(self.entries@[j].0@ != name@);
                    }
                    lookup_last(views@, name@, -1);
                }
                None
            },
        }
    }

    /// Keeps `value` under `name`, in place of what was kept there.
    pub fn insert(&mut self, name: &str, value: StoredValue)
        requires
            old(self).wf(),
        ensures
            final(self).wf(),
            final(self).map() == old(self).map().insert(name@, value),
    {
        let ghost old_entries = self.entries@;
        match self.find(name) {
            Some(i) => {
                let key = self.entries[i].0.clone();
                self.entries.set(i, (key, value));
                proof {
                    let views = entry_views(old_entries);
                    assert forall|j: int| 0 <= j < views.len() && j != i implies (#[trigger] views[j]).0
                        != views[i as int].0 by {
                        if j < i {
                            assert(old_entries[j].0@ != old_entries[i as int].0@);
                        } else {
                            assert(old_entries[i as int].0@ != old_entries[j].0@);
                        }
                    }
                    lemma_map_update_unique(views, i as int, value);
                    assert(entry_views(self.entries@) =~= views.update(i as int, (views[i as int].0, value)));
                    assert forall|a: int, b: int|
                        0 <= a < b < self.entries.len() implies (#[trigger] self.entries@[a]).0@
                        != (#[trigger] self.entries@[b]).0@ by {
                        assert(self.entries@[a].0@ == old_entries[a].0@);
                        assert(self.entries@[b].0@ == old_entries[b].0@);
                    }
                }
            },
            None => {
                self.entries.push((owned(name), value));
                proof {
                    assert(entry_views(self.entries@) =~= entry_views(old_entries).push((name@, value)));
                    assert(entry_views(self.entries@).drop_last() =~= entry_views(old_entries));
                }
            },
        }
    }

    /// Keeps the value that the input `name` took; a trigger leaves the data
    /// as it is.
    pub fn record(&mut self, name: &str, value: AnyInputValue)
        requires
            old(self).wf(),
        ensures
            final(self).wf(),
            final(self).map() == match stored_of(value) {
                Some(v) => old(self).map().insert(name@, v),
                None => old(self).map(),
            },
    {
        match persisted(value) {
            Some(v) => self.insert(name, v),
            None => {},
        }
    }
}

/// Restoring gives back what was kept: a value that an input took, once
/// kept, is sent back unchanged to an input of the value's own type.
pub proof fn lemma_restore_round_trip(value: AnyInputValue)
    requires
        !(value is Trigger),
    ensures
        stored_of(value) matches Some(s) && restored_of(value.type_of(), s) == Some(value),
{
}

/// What is kept is what is read back: after the input `name` took a value
/// that is kept, reading `name` gives that value, and every other name keeps
/// what it had.
pub proof fn lemma_record_then_get(
    before: Map<Seq<char>, StoredValue>,
    after: Map<Seq<char>, StoredValue>,
    name: Seq<char>,
    value: AnyInputValue,
    other: Seq<char>,
)
    requires
        !(value is Trigger),
        after == before.insert(name, stored_of(value)->0),
        other != name,
    ensures
        after.contains_key(name),
        after[name] == stored_of(value)->0,
        after.contains_key(other) == before.contains_key(other),
        before.contains_key(other) ==> after[other] == before[other],
{
}

} // verus!
