//! Validated request parameters: a magnitude tagged with the kind of quantity it measures.
use vstd::prelude::*;

verus! {

/// The kinds of quantity a request parameter can measure.
#[derive(Clone, Copy, Debug, PartialEq, Eq, Structural)]
pub enum ValueKind {
    /// Colour temperature in kelvin.
    ColorTemp,
    /// A 24-bit colour, `0xRRGGBB`.
    Rgb,
    /// Hue in degrees.
    Hue,
    /// Saturation in percent.
    Sat,
    /// Brightness in percent.
    Bright,
}

/// Smallest magnitude allowed for `kind`.
pub open spec fn min_of(kind: ValueKind) -> u32 {
    match kind {
        ValueKind::ColorTemp => 1700,
        _ => 0,
    }
}

/// Largest magnitude allowed for `kind`.
pub open spec fn max_of(kind: ValueKind) -> u32 {
    match kind {
        ValueKind::ColorTemp => 6500,
        ValueKind::Rgb => 0xFF_FFFF,
        ValueKind::Hue => 359,
        ValueKind::Sat => 100,
        ValueKind::Bright => 100,
    }
}

/// Whether `magnitude` lies in the inclusive range of `kind`.
pub open spec fn in_limit(magnitude: u32, kind: ValueKind) -> bool {
    min_of(kind) <= magnitude <= max_of(kind)
}

/// A magnitude outside the range of its kind; carries the range that was violated.
#[derive(Clone, Copy, Debug, PartialEq, Eq, Structural)]
pub struct ValidationError {
    /// The kind that was asked for.
    pub kind: ValueKind,
    /// The magnitude that was refused.
    pub magnitude: u32,
    /// Smallest allowed magnitude of the kind.
    pub min: u32,
    /// Largest allowed magnitude of the kind.
    pub max: u32,
}

/// A request parameter whose magnitude always lies within the range of its kind.
#[derive(Clone, Copy, Debug, PartialEq, Eq, Structural)]
pub struct Value {
    magnitude: u32,
    kind: ValueKind,
}

impl Value {
    #[verifier::type_invariant]
    spec fn well_formed(self) -> bool {
        in_limit(self.magnitude, self.kind)
    }

    /// The magnitude of the value.
    pub closed spec fn spec_magnitude(&self) -> u32 {
        self.magnitude
    }

    /// The kind of the value.
    pub closed spec fn spec_kind(&self) -> ValueKind {
        self.kind
    }

    /// The inclusive range `(min, max)` of magnitudes allowed for `kind`.
    pub fn limit(kind: ValueKind) -> (r: (u32, u32))
        ensures
            r == (min_of(kind), max_of(kind)),
    {
        match kind {
            ValueKind::ColorTemp => (1700, 6500),
            ValueKind::Rgb => (0, 0xFF_FFFF),
            ValueKind::Hue => (0, 359),
            ValueKind::Sat => (0, 100),
            ValueKind::Bright => (0, 100),
        }
    }

    /// A value of `kind` with the given magnitude; fails, carrying the allowed range,
    /// exactly when the magnitude is outside `Value::limit(kind)`.
    pub fn new(magnitude: u32, kind: ValueKind) -> (r: Result<Value, ValidationError>)
        ensures
            r is Ok <==> in_limit(magnitude, kind),
            r matches Ok(v) ==> v.spec_magnitude() == magnitude && v.spec_kind() == kind,
            r matches Err(e) ==> e == (ValidationError {
                kind,
                magnitude,
                min: min_of(kind),
                max: max_of(kind),
            }),
    {
        let (min, max) = Value::limit(kind);
        if min <= magnitude && magnitude <= max {
            Ok(Value { magnitude, kind })
        } else {
            Err(ValidationError { kind, magnitude, min, max })
        }
    }

    /// The magnitude of the value; it lies within the range of the value's kind.
    #[verifier::when_used_as_spec(spec_magnitude)]
    pub fn magnitude(&self) -> (r: u32)
        ensures
            r == self.spec_magnitude(),
            in_limit(r, self.spec_kind()),
    {
        proof {
            use_type_invariant(self);
        }
        self.magnitude
    }

    /// The kind of the value.
    #[verifier::when_used_as_spec(spec_kind)]
    pub fn kind(&self) -> (r: ValueKind)
        ensures
            r == self.spec_kind(),
    {
        self.kind
    }
}

} // verus!
