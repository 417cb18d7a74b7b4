//! Commands: a command kind, up to two parameters and a transition effect.
use vstd::prelude::*;
use crate::effect::Effect;
use crate::value::{Value, ValueKind};

verus! {

/// The commands a lamp understands.
#[derive(Clone, Copy, Debug, PartialEq, Eq, Structural)]
pub enum CommandKind {
    /// Set the colour temperature.
    SetCtAbx,
    /// Set a 24-bit colour.
    SetRgb,
    /// Set hue and saturation.
    SetHsv,
    /// Set the brightness.
    SetBright,
    /// Switch the lamp on if it is off, off if it is on.
    Toggle,
}

/// The parameter kinds that `kind` expects, by position.
pub open spec fn expected_kinds(kind: CommandKind) -> (Option<ValueKind>, Option<ValueKind>) {
    match kind {
        CommandKind::SetCtAbx => (Some(ValueKind::ColorTemp), None),
        CommandKind::SetRgb => (Some(ValueKind::Rgb), None),
        CommandKind::SetHsv => (Some(ValueKind::Hue), Some(ValueKind::Sat)),
        CommandKind::SetBright => (Some(ValueKind::Bright), None),
        CommandKind::Toggle => (None, None),
    }
}

/// The kind of an optional parameter.
pub open spec fn kind_of(param: Option<Value>) -> Option<ValueKind> {
    match param {
        Some(v) => Some(v.spec_kind()),
        None => None,
    }
}

/// The name of the command kind as it is spelled in the type (upper camel case).
pub open spec fn kind_name(kind: CommandKind) -> Seq<char> {
    match kind {
        CommandKind::SetCtAbx => "SetCtAbx"@,
        CommandKind::SetRgb => "SetRgb"@,
        CommandKind::SetHsv => "SetHsv"@,
        CommandKind::SetBright => "SetBright"@,
        CommandKind::Toggle => "Toggle"@,
    }
}

impl CommandKind {
    /// The parameter kinds this command expects, by position.
    pub fn associated(&self) -> (r: (Option<ValueKind>, Option<ValueKind>))
        ensures
            r == expected_kinds(*self),
    {
        match self {
            CommandKind::SetCtAbx => (Some(ValueKind::ColorTemp), None),
            CommandKind::SetRgb => (Some(ValueKind::Rgb), None),
            CommandKind::SetHsv => (Some(ValueKind::Hue), Some(ValueKind::Sat)),
            CommandKind::SetBright => (Some(ValueKind::Bright), None),
            CommandKind::Toggle => (None, None),
        }
    }

    /// The name of the kind in upper camel case, as the type spells it.
    pub fn name(&self) -> (r: &'static str)
        ensures
            r@ == kind_name(*self),
    {
        match self {
            CommandKind::SetCtAbx => "SetCtAbx",
            CommandKind::SetRgb => "SetRgb",
            CommandKind::SetHsv => "SetHsv",
            CommandKind::SetBright => "SetBright",
            CommandKind::Toggle => "Toggle",
        }
    }
}

/// A command: a kind, two optional parameters and an effect.
///
/// Any combination can be built; whether the parameters fit the kind is checked by
/// `Command::is_consistent`, by `Command::new` and before a command is encoded.
#[derive(Clone, Copy, Debug, PartialEq, Eq, Structural)]
pub struct Command {
    /// What the command does.
    pub kind: CommandKind,
    /// First parameter.
    pub param_1: Option<Value>,
    /// Second parameter.
    pub param_2: Option<Value>,
    /// How the lamp moves to the new state.
    pub effect: Effect,
}

/// A command is consistent when the kinds of its parameters are, position by position,
/// those its kind expects.
pub open spec fn consistent(cmd: Command) -> bool {
    (kind_of(cmd.param_1), kind_of(cmd.param_2)) == expected_kinds(cmd.kind)
}

/// Why `Command::new` refused its arguments.
#[derive(Clone, Copy, Debug, PartialEq, Eq, Structural)]
pub enum CommandError {
    /// The parameter kinds do not match those the command kind expects.
    Inconsistent,
}

/// Whether two optional kinds are equal.
fn same_kind(a: Option<ValueKind>, b: Option<ValueKind>) -> (r: bool)
    ensures
        r == (a == b),
{
    match (a, b) {
        (None, None) => true,
        (Some(x), Some(y)) => x == y,
        _ => false,
    }
}

/// The kind of an optional parameter.
fn param_kind(param: &Option<Value>) -> (r: Option<ValueKind>)
    ensures
        r == kind_of(*param),
{
    match param {
        Some(v) => Some(v.kind()),
        None => None,
    }
}

impl Command {
    /// Whether the parameter kinds are exactly those the command kind expects.
    pub fn is_consistent(&self) -> (r: bool)
        ensures
            r == consistent(*self),
    {
        let (e1, e2) = self.kind.associated();
        same_kind(param_kind(&self.param_1), e1) && same_kind(param_kind(&self.param_2), e2)
    }

    /// A command built from its parts; fails exactly when the parts are not consistent.
    pub fn new(kind: CommandKind, param_1: Option<Value>, param_2: Option<Value>, effect: Effect)
        -> (r: Result<Command, CommandError>)
        ensures
            r is Ok <==> consistent(Command { kind, param_1, param_2, effect }),
            r matches Ok(c) ==> c == (Command { kind, param_1, param_2, effect }),
            r matches Err(e) ==> e == CommandError::Inconsistent,
    {
        let cmd = Command { kind, param_1, param_2, effect };
        if cmd.is_consistent() {
            Ok(cmd)
        } else {
            Err(CommandError::Inconsistent)
        }
    }
}

} // verus!
