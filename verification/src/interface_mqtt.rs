use vstd::prelude::*;

use crate::grpc_client::values::{lemma_split_after_dotless, reads_as, ParseValueError, TextValue, ValueType};
use crate::introspection::{AnyInputValue, Introspection};
use crate::text::{
    bool_to_text, i64_to_text, int_text, lemma_int_text_reads_back, lemma_nat_text_reads_back, nat_text, owned, str_eq,
};

verus! {

/// The prefix of all topics of one scene.
pub struct Realm<'a>(&'a str);

/// The realm that a configured prefix names: one trailing `/` is dropped.
pub open spec fn realm_text(value: Seq<char>) -> Seq<char> {
    if value.len() > 0 && value.last() == '/' {
        value.drop_last()
    } else {
        value
    }
}

/// The topic `suffix` inside a realm.
pub open spec fn topic_text(realm: Seq<char>, suffix: Seq<char>) -> Seq<char> {
    realm + "/"@ + suffix
}

impl<'a> View for Realm<'a> {
    type V = Seq<char>;

    closed spec fn view(&self) -> Seq<char> {
        self.0@
    }
}

impl<'a> Realm<'a> {
    pub fn from(value: &'a str) -> (res: Self)
        ensures
            res@ == realm_text(value@),
    {
        let n = value.unicode_len();
        if n > 0 && value.get_char(n - 1) == '/' {
            Realm(value.substring_char(0, n - 1))
        } else {
            Realm(value)
        }
    }

    pub fn topic(&self, suffix: &str) -> (res: String)
        ensures
            res@ == topic_text(self@, suffix@),
    {
        let mut res = owned(self.0);
        res.append("/");
        res.append(suffix);
        res
    }

    /// The topic on which changes of the input `name` are published.
    pub fn input_topic(&self, name: &str) -> (res: String)
        ensures
            res@ == topic_text(self@, "input/"@ + name@),
    {
        let mut suffix = owned("input/");
        suffix.append(name);
        self.topic(suffix.as_str())
    }

    /// The topic on which new values for the input `name` arrive.
    pub fn input_set_topic(&self, name: &str) -> (res: String)
        ensures
            res@ == topic_text(self@, "input/"@ + name@ + "/set"@),
    {
        let mut suffix = owned("input/");
        suffix.append(name);
        suffix.append("/set");
        self.topic(suffix.as_str())
    }

    /// The topic that tells whether the scene is online.
    pub fn status_topic(&self) -> (res: String)
        ensures
            res@ == topic_text(self@, "status"@),
    {
        self.topic("status")
    }

    /// The filter that matches the topics of new values for all inputs.
    pub fn input_set_filter(&self) -> (res: String)
        ensures
            res@ == topic_text(self@, "input/+/set"@),
    {
        self.topic("input/+/set")
    }

    /// The input to which a message on `topic` is addressed: the first input
    /// whose set topic it is.
    pub fn route(&self, introspection: &Introspection, topic: &str) -> (res: Option<usize>)
        ensures
            match res {
                Some(i) => i < introspection.inputs.len() && topic@ == topic_text(
                    self@,
                    "input/"@ + introspection.inputs@[i as int].name@ + "/set"@,
                ) && forall|j: int|
                    0 <= j < i ==> topic@ != topic_text(
                        self@,
                        "input/"@ + (#[trigger] introspection.inputs@[j]).name@ + "/set"@,
                    ),
                None => forall|j: int|
                    0 <= j < introspection.inputs.len() ==> topic@ != topic_text(
                        self@,
                        "input/"@ + (#[trigger] introspection.inputs@[j]).name@ + "/set"@,
                    ),
            },
    {
        let mut i: usize = 0;
        while i < introspection.inputs.len()
            invariant
                i <= introspection.inputs.len(),
                forall|j: int|
                    0 <= j < i ==> topic@ != topic_text(
                        self@,
                        "input/"@ + (#[trigger] introspection.inputs@[j]).name@ + "/set"@,
                    ),
            decreases introspection.inputs.len() - i,
        {
            let candidate = self.input_set_topic(introspection.inputs[i].name.as_str());
            if str_eq(candidate.as_str(), topic) {
                return Some(i);
            }
            i = i + 1;
        }
        None
    }
}

/// The text published for a new value of an input, where it holds no
/// floating point: a trigger publishes nothing, a truth value `true` or
/// `false`, an integer its decimal notation, and an integer range its two
/// ends around `..`.
pub open spec fn payload_text(value: AnyInputValue) -> Option<Seq<char>> {
    match value {
        AnyInputValue::Trigger => Some(Seq::empty()),
        AnyInputValue::Boolean(b) => Some(if b { "true"@ } else { "false"@ }),
        AnyInputValue::Integer(n) => Some(int_text(n as int)),
        AnyInputValue::IntegerRange(a, b) => Some(int_text(a as int) + ".."@ + int_text(b as int)),
        _ => None,
    }
}

/// Writes the text published for a new value; `None` for the values that
/// hold floating point, which are written where floating point can be.
pub fn payload(value: AnyInputValue) -> (res: Option<String>)
    ensures
        match payload_text(value) {
            Some(t) => res matches Some(s) && s@ == t,
            None => res is None,
        },
{
    proof {
        reveal_strlit("true");
        reveal_strlit("false");
        assert("true"@ =~= seq!['t', 'r', 'u', 'e']);
        assert("false"@ =~= seq!['f', 'a', 'l', 's', 'e']);
    }
    match value {
        AnyInputValue::Trigger => Some(String::new()),
        AnyInputValue::Boolean(b) => Some(bool_to_text(b)),
        AnyInputValue::Integer(n) => Some(i64_to_text(n)),
        AnyInputValue::IntegerRange(a, b) => {
            let mut text = i64_to_text(a);
            text.append("..");
            text.append(i64_to_text(b).as_str());
            Some(text)
        },
        _ => None,
    }
}

/// Different inputs have different set topics in a realm.
pub proof fn lemma_set_topics_differ(realm: Seq<char>, a: Seq<char>, b: Seq<char>)
    requires
        topic_text(realm, "input/"@ + a + "/set"@) == topic_text(realm, "input/"@ + b + "/set"@),
    ensures
        a == b,
{
    let prefix = realm + "/"@ + "input/"@;
    let ta = topic_text(realm, "input/"@ + a + "/set"@);
    let tb = topic_text(realm, "input/"@ + b + "/set"@);
    assert(ta =~= prefix + a + "/set"@);
    assert(tb =~= prefix + b + "/set"@);
    assert(a.len() == b.len());
    assert forall|i: int| 0 <= i < a.len() implies a[i] == b[i] by {
        assert(ta[prefix.len() + i] == a[i]);
        assert(tb[prefix.len() + i] == b[i]);
    }
    assert(a =~= b);
}

/// A message on the set topic of an input reaches an input of that name.
pub proof fn lemma_route_reaches_named_input(introspection: Introspection, realm: Seq<char>, topic: Seq<char>, i: int)
    requires
        0 <= i < introspection.inputs.len(),
        topic == topic_text(realm, "input/"@ + introspection.inputs@[i].name@ + "/set"@),
        forall|j: int|
            0 <= j < i ==> topic != topic_text(realm, "input/"@ + (#[trigger] introspection.inputs@[j]).name@ + "/set"@),
    ensures
        forall|j: int|
            0 <= j < introspection.inputs.len() && topic == topic_text(
                realm,
                "input/"@ + (#[trigger] introspection.inputs@[j]).name@ + "/set"@,
            ) ==> introspection.inputs@[j].name@ == introspection.inputs@[i].name@,
{
    assert forall|j: int|
        0 <= j < introspection.inputs.len() && topic == topic_text(
            realm,
            "input/"@ + (#[trigger] introspection.inputs@[j]).name@ + "/set"@,
        ) implies introspection.inputs@[j].name@ == introspection.inputs@[i].name@ by {
        lemma_set_topics_differ(realm, introspection.inputs@[j].name@, introspection.inputs@[i].name@);
    }
}

/// The decimal notation of an integer holds no `.`.
proof fn lemma_int_text_dotless(v: i64)
    ensures
        forall|i: int| 0 <= i < int_text(v as int).len() ==> int_text(v as int)[i] != '.',
{
    let m: nat = if v < 0 { (-v) as nat } else { v as nat };
    lemma_nat_text_reads_back(m);
    assert forall|i: int| 0 <= i < int_text(v as int).len() implies int_text(v as int)[i] != '.' by {
        if v < 0 {
            if i > 0 {
                assert(int_text(v as int)[i] == nat_text(m)[i - 1]);
            }
        } else {
            assert(int_text(v as int)[i] == nat_text(m)[i]);
        }
    }
}

/// What is published for a value without floating point, arriving
/// on the set topic of an input of the same type, is read as that very
/// value.
pub proof fn lemma_payload_reads_back(v: AnyInputValue)
    requires
        payload_text(v) is Some,
    ensures
        match v {
            AnyInputValue::Trigger => reads_as(ValueType::Trigger, payload_text(v)->0, Ok(TextValue::Trigger)),
            AnyInputValue::Boolean(b) => reads_as(
                ValueType::Bool,
                payload_text(v)->0,
                Ok::<TextValue, ParseValueError>(TextValue::Boolean(b)),
            ),
            AnyInputValue::Integer(n) => reads_as(
                ValueType::Integer,
                payload_text(v)->0,
                Ok::<TextValue, ParseValueError>(TextValue::Integer(n)),
            ),
            AnyInputValue::IntegerRange(a, b) => reads_as(
                ValueType::IntegerRange,
                payload_text(v)->0,
                Ok::<TextValue, ParseValueError>(TextValue::IntegerRange(a, b)),
            ),
            _ => true,
        },
{
    match v {
        AnyInputValue::Boolean(b) => {
            reveal_strlit("true");
            reveal_strlit("false");
            assert("true"@.len() == 4);
            assert("false"@.len() == 5);
        },
        AnyInputValue::Integer(n) => lemma_int_text_reads_back(n),
        AnyInputValue::IntegerRange(a, b) => {
            lemma_int_text_dotless(a);
            lemma_split_after_dotless(int_text(a as int), int_text(b as int));
            lemma_int_text_reads_back(a);
            lemma_int_text_reads_back(b);
        },
        _ => {},
    }
}

} // verus!
