use vstd::prelude::*;

verus! {

/// The direction of an easing curve.
#[derive(Clone, Copy, Debug, PartialEq, Eq, Structural)]
pub enum EasingDirection {
    In,
    Out,
    InOut,
}

/// The easing curves that a configuration can name.
#[derive(Clone, Copy, Debug, PartialEq, Eq, Structural)]
pub enum Easings {
    Linear,
    Quadratic(EasingDirection),
    Cubic(EasingDirection),
    Quartic(EasingDirection),
    Quintic(EasingDirection),
    Sine(EasingDirection),
    Circular(EasingDirection),
    Exponential(EasingDirection),
    Elastic(EasingDirection),
    Back(EasingDirection),
    Bounce(EasingDirection),
}

/// The curve functions of the `ezing` crate that an easing resolves to, each
/// named after its function there.
#[derive(Clone, Copy, Debug, PartialEq, Eq, Structural)]
pub enum EasingFunction {
    Linear,
    QuadIn,
    QuadOut,
    QuadInOut,
    CubicIn,
    CubicOut,
    CubicInOut,
    QuartIn,
    QuartOut,
    QuintIn,
    QuintOut,
    QuintInOut,
    SineIn,
    SineOut,
    SineInOut,
    CircIn,
    CircOut,
    CircInOut,
    ExpoIn,
    ExpoOut,
    ExpoInOut,
    ElasticIn,
    ElasticOut,
    ElasticInOut,
    BackIn,
    BackOut,
    BackInOut,
    BounceIn,
    BounceOut,
    BounceInOut,
}

/// The curve function that each named easing uses; note that the in-out
/// quartic easing uses the in-out quadratic curve.
pub open spec fn easing_function_of(easing: Easings) -> EasingFunction {
    match easing {
        Easings::Linear => EasingFunction::Linear,
        Easings::Quadratic(EasingDirection::In) => EasingFunction::QuadIn,
        Easings::Quadratic(EasingDirection::Out) => EasingFunction::QuadOut,
        Easings::Quadratic(EasingDirection::InOut) => EasingFunction::QuadInOut,
        Easings::Cubic(EasingDirection::In) => EasingFunction::CubicIn,
        Easings::Cubic(EasingDirection::Out) => EasingFunction::CubicOut,
        Easings::Cubic(EasingDirection::InOut) => EasingFunction::CubicInOut,
        Easings::Quartic(EasingDirection::In) => EasingFunction::QuartIn,
        Easings::Quartic(EasingDirection::Out) => EasingFunction::QuartOut,
        Easings::Quartic(EasingDirection::InOut) => EasingFunction::QuadInOut,
        Easings::Quintic(EasingDirection::In) => EasingFunction::QuintIn,
        Easings::Quintic(EasingDirection::Out) => EasingFunction::QuintOut,
        Easings::Quintic(EasingDirection::InOut) => EasingFunction::QuintInOut,
        Easings::Sine(EasingDirection::In) => EasingFunction::SineIn,
        Easings::Sine(EasingDirection::Out) => EasingFunction::SineOut,
        Easings::Sine(EasingDirection::InOut) => EasingFunction::SineInOut,
        Easings::Circular(EasingDirection::In) => EasingFunction::CircIn,
        Easings::Circular(EasingDirection::Out) => EasingFunction::CircOut,
        Easings::Circular(EasingDirection::InOut) => EasingFunction::CircInOut,
        Easings::Exponential(EasingDirection::In) => EasingFunction::ExpoIn,
        Easings::Exponential(EasingDirection::Out) => EasingFunction::ExpoOut,
        Easings::Exponential(EasingDirection::InOut) => EasingFunction::ExpoInOut,
        Easings::Elastic(EasingDirection::In) => EasingFunction::ElasticIn,
        Easings::Elastic(EasingDirection::Out) => EasingFunction::ElasticOut,
        Easings::Elastic(EasingDirection::InOut) => EasingFunction::ElasticInOut,
        Easings::Back(EasingDirection::In) => EasingFunction::BackIn,
        Easings::Back(EasingDirection::Out) => EasingFunction::BackOut,
        Easings::Back(EasingDirection::InOut) => EasingFunction::BackInOut,
        Easings::Bounce(EasingDirection::In) => EasingFunction::BounceIn,
        Easings::Bounce(EasingDirection::Out) => EasingFunction::BounceOut,
        Easings::Bounce(EasingDirection::InOut) => EasingFunction::BounceInOut,
    }
}

impl Easings {
    /// Resolves a named easing to its curve function.
    pub fn function(self) -> (res: EasingFunction)
        ensures
            res == easing_function_of(self),
    {
        match self {
            Easings::Linear => EasingFunction::Linear,
            Easings::Quadratic(EasingDirection::In) => EasingFunction::QuadIn,
            Easings::Quadratic(EasingDirection::Out) => EasingFunction::QuadOut,
            Easings::Quadratic(EasingDirection::InOut) => EasingFunction::QuadInOut,
            Easings::Cubic(EasingDirection::In) => EasingFunction::CubicIn,
            Easings::Cubic(EasingDirection::Out) => EasingFunction::CubicOut,
            Easings::Cubic(EasingDirection::InOut) => EasingFunction::CubicInOut,
            Easings::Quartic(EasingDirection::In) => EasingFunction::QuartIn,
            Easings::Quartic(EasingDirection::Out) => EasingFunction::QuartOut,
            Easings::Quartic(EasingDirection::InOut) => EasingFunction::QuadInOut,
            Easings::Quintic(EasingDirection::In) => EasingFunction::QuintIn,
            Easings::Quintic(EasingDirection::Out) => EasingFunction::QuintOut,
            Easings::Quintic(EasingDirection::InOut) => EasingFunction::QuintInOut,
            Easings::Sine(EasingDirection::In) => EasingFunction::SineIn,
            Easings::Sine(EasingDirection::Out) => EasingFunction::SineOut,
            Easings::Sine(EasingDirection::InOut) => EasingFunction::SineInOut,
            Easings::Circular(EasingDirection::In) => EasingFunction::CircIn,
            Easings::Circular(EasingDirection::Out) => EasingFunction::CircOut,
            Easings::Circular(EasingDirection::InOut) => EasingFunction::CircInOut,
            Easings::Exponential(EasingDirection::In) => EasingFunction::ExpoIn,
            Easings::Exponential(EasingDirection::Out) => EasingFunction::ExpoOut,
            Easings::Exponential(EasingDirection::InOut) => EasingFunction::ExpoInOut,
            Easings::Elastic(EasingDirection::In) => EasingFunction::ElasticIn,
            Easings::Elastic(EasingDirection::Out) => EasingFunction::ElasticOut,
            Easings::Elastic(EasingDirection::InOut) => EasingFunction::ElasticInOut,
            Easings::Back(EasingDirection::In) => EasingFunction::BackIn,
            Easings::Back(EasingDirection::Out) => EasingFunction::BackOut,
            Easings::Back(EasingDirection::InOut) => EasingFunction::BackInOut,
            Easings::Bounce(EasingDirection::In) => EasingFunction::BounceIn,
            Easings::Bounce(EasingDirection::Out) => EasingFunction::BounceOut,
            Easings::Bounce(EasingDirection::InOut) => EasingFunction::BounceInOut,
        }
    }
}

} // verus!
