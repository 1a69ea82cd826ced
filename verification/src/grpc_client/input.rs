use vstd::prelude::*;

use core::marker::PhantomData;

use crate::grpc_client::values::{Color, Decimal, RangeValue, ValueType};
use crate::proto::{InputInfoResponse, InputValueType};
use crate::text::owned;

verus! {

/// The name of an input.
#[derive(Debug, PartialEq, Eq, Hash)]
pub struct InputId(String);

impl View for InputId {
    type V = Seq<char>;

    closed spec fn view(&self) -> Seq<char> {
        self.0@
    }
}

impl Clone for InputId {
    fn clone(&self) -> (res: Self)
        ensures
            res@ == self@,
    {
        InputId(self.0.clone())
    }
}

impl InputId {
    /// The input called `s`.
    pub fn from_str(s: &str) -> (res: InputId)
        ensures
            res@ == s@,
    {
        InputId(owned(s))
    }

    /// The input called `s`.
    pub fn from_string(s: String) -> (res: InputId)
        ensures
            res@ == s@,
    {
        InputId(s)
    }

    pub fn as_ref(&self) -> (res: &str)
        ensures
            res@ == self@,
    {
        self.0.as_str()
    }

    /// The name as text.
    pub fn to_string(&self) -> (res: String)
        ensures
            res@ == self@,
    {
        self.0.clone()
    }
}

/// What a client knows of an input: its name and the type of its values.
pub struct Input {
    pub name: InputId,
    pub value_type: ValueType,
}

/// The value type that a protocol value type stands for.
pub open spec fn value_type_of(t: InputValueType) -> ValueType {
    match t {
        InputValueType::Trigger => ValueType::Trigger,
        InputValueType::Bool => ValueType::Bool,
        InputValueType::Integer => ValueType::Integer,
        InputValueType::Decimal => ValueType::Decimal,
        InputValueType::Color => ValueType::Color,
        InputValueType::IntegerRange => ValueType::IntegerRange,
        InputValueType::DecimalRange => ValueType::DecimalRange,
        InputValueType::ColorRange => ValueType::ColorRange,
    }
}

impl Input {
    /// Reads an input description.
    pub fn from_input_info(info: InputInfoResponse) -> (res: Input)
        ensures
            res.name@ == info.name@,
            res.value_type == value_type_of(info.value_type),
    {
        let value_type = match info.value_type {
            InputValueType::Trigger => ValueType::Trigger,
            InputValueType::Bool => ValueType::Bool,
            InputValueType::Integer => ValueType::Integer,
            InputValueType::Decimal => ValueType::Decimal,
            InputValueType::Color => ValueType::Color,
            InputValueType::IntegerRange => ValueType::IntegerRange,
            InputValueType::DecimalRange => ValueType::DecimalRange,
            InputValueType::ColorRange => ValueType::ColorRange,
        };
        Input { name: InputId::from_string(info.name), value_type }
    }
}

/// A handle for sending values of type `V` to an input.
pub struct Sink<'i, V> {
    pub input: &'i Input,
    pub value_type: PhantomData<V>,
}

/// A typed handle for sending values to an input.
pub enum InputSink<'i> {
    Trigger(Sink<'i, ()>),
    Boolean(Sink<'i, bool>),
    Integer(Sink<'i, i64>),
    Decimal(Sink<'i, Decimal>),
    Color(Sink<'i, Color>),
    IntegerRange(Sink<'i, RangeValue<i64>>),
    DecimalRange(Sink<'i, RangeValue<Decimal>>),
    ColorRange(Sink<'i, RangeValue<Color>>),
}

/// The sink variant for each value type.
pub open spec fn sink_fits(sink: InputSink, t: ValueType) -> bool {
    match (sink, t) {
        (InputSink::Trigger(_), ValueType::Trigger) => true,
        (InputSink::Boolean(_), ValueType::Bool) => true,
        (InputSink::Integer(_), ValueType::Integer) => true,
        (InputSink::Decimal(_), ValueType::Decimal) => true,
        (InputSink::Color(_), ValueType::Color) => true,
        (InputSink::IntegerRange(_), ValueType::IntegerRange) => true,
        (InputSink::DecimalRange(_), ValueType::DecimalRange) => true,
        (InputSink::ColorRange(_), ValueType::ColorRange) => true,
        _ => false,
    }
}

impl InputSink<'_> {
    /// The input that the sink sends to.
    pub open spec fn target(self) -> Input {
        match self {
            InputSink::Trigger(s) => *s.input,
            InputSink::Boolean(s) => *s.input,
            InputSink::Integer(s) => *s.input,
            InputSink::Decimal(s) => *s.input,
            InputSink::Color(s) => *s.input,
            InputSink::IntegerRange(s) => *s.input,
            InputSink::DecimalRange(s) => *s.input,
            InputSink::ColorRange(s) => *s.input,
        }
    }
}

impl Input {
    /// The sink that fits the input's value type.
    pub fn sink(&self) -> (res: InputSink<'_>)
        ensures
            sink_fits(res, self.value_type),
            res.target() == *self,
    {
        match self.value_type {
            ValueType::Trigger => InputSink::Trigger(Sink { input: self, value_type: PhantomData }),
            ValueType::Bool => InputSink::Boolean(Sink { input: self, value_type: PhantomData }),
            ValueType::Integer => InputSink::Integer(Sink { input: self, value_type: PhantomData }),
            ValueType::Decimal => InputSink::Decimal(Sink { input: self, value_type: PhantomData }),
            ValueType::Color => InputSink::Color(Sink { input: self, value_type: PhantomData }),
            ValueType::IntegerRange => InputSink::IntegerRange(Sink { input: self, value_type: PhantomData }),
            ValueType::DecimalRange => InputSink::DecimalRange(Sink { input: self, value_type: PhantomData }),
            ValueType::ColorRange => InputSink::ColorRange(Sink { input: self, value_type: PhantomData }),
        }
    }
}

} // verus!

