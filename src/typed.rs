//! Typed commands: one type per command kind, bound to a request id, that can only hold
//! parameters within range and always encode.
use vstd::prelude::*;
use crate::command::{consistent, Command, CommandKind};
use crate::effect::Effect;
use crate::value::{in_limit, Value, ValueKind};
use crate::wire::{method_name, request_text};

verus! {

/// Whether `cmd` is a consistent command of kind `kind`.
pub open spec fn is_command_of(cmd: Command, kind: CommandKind) -> bool {
    cmd.kind == kind && consistent(cmd)
}

/// Whether `param` is a value of `kind` with magnitude `magnitude`.
pub open spec fn holds_value(param: Option<Value>, kind: ValueKind, magnitude: int) -> bool {
    match param {
        Some(v) => v.spec_kind() == kind && v.spec_magnitude() == magnitude,
        None => false,
    }
}

/// The wire text of a consistent command; consistency makes encoding succeed.
fn encode_consistent(cmd: &Command, id: u8) -> (r: String)
    requires
        consistent(*cmd),
    ensures
        r@ == request_text(method_name(cmd.kind), *cmd, id),
{
    match cmd.to_request(id) {
        Ok(text) => text,
        Err(_) => String::new(),
    }
}

/// A request that sets the colour temperature.
pub struct SetCtAbx {
    id: u8,
    command: Command,
}

impl SetCtAbx {
    #[verifier::type_invariant]
    spec fn well_formed(self) -> bool {
        is_command_of(self.command, CommandKind::SetCtAbx)
    }

    /// The request id.
    pub closed spec fn spec_id(&self) -> u8 {
        self.id
    }

    /// The command carried.
    pub closed spec fn spec_command(&self) -> Command {
        self.command
    }

    /// A request with id `id` setting the colour temperature to `color_temp` kelvin;
    /// `None` exactly when the temperature is outside 1700 to 6500.
    pub fn new(id: u8, color_temp: u16, effect: Effect) -> (r: Option<SetCtAbx>)
        ensures
            r is Some <==> in_limit(color_temp as u32, ValueKind::ColorTemp),
            r matches Some(c) ==> c.spec_id() == id && holds_value(
                c.spec_command().param_1,
                ValueKind::ColorTemp,
                color_temp as int,
            ) && c.spec_command().effect == effect,
    {
        match Value::new(color_temp as u32, ValueKind::ColorTemp) {
            Ok(v) => Some(
                SetCtAbx {
                    id,
                    command: Command {
                        kind: CommandKind::SetCtAbx,
                        param_1: Some(v),
                        param_2: None,
                        effect,
                    },
                },
            ),
            Err(_) => None,
        }
    }

    /// The request line.
    pub fn request(&self) -> (r: String)
        ensures
            is_command_of(self.spec_command(), CommandKind::SetCtAbx),
            r@ == request_text(
                method_name(CommandKind::SetCtAbx),
                self.spec_command(),
                self.spec_id(),
            ),
    {
        proof {
            use_type_invariant(self);
        }
        encode_consistent(&self.command, self.id)
    }
}

/// A request that sets hue and saturation.
pub struct SetHsv {
    id: u8,
    command: Command,
}

impl SetHsv {
    #[verifier::type_invariant]
    spec fn well_formed(self) -> bool {
        is_command_of(self.command, CommandKind::SetHsv)
    }

    /// The request id.
    pub closed spec fn spec_id(&self) -> u8 {
        self.id
    }

    /// The command carried.
    pub closed spec fn spec_command(&self) -> Command {
        self.command
    }

    /// A request with id `id` setting hue `hue` (degrees) and saturation `sat`
    /// (percent); `None` exactly when the hue is over 359 or the saturation over 100.
    pub fn new(id: u8, hue: u16, sat: u8, effect: Effect) -> (r: Option<SetHsv>)
        ensures
            r is Some <==> in_limit(hue as u32, ValueKind::Hue) && in_limit(
                sat as u32,
                ValueKind::Sat,
            ),
            r matches Some(c) ==> c.spec_id() == id && holds_value(
                c.spec_command().param_1,
                ValueKind::Hue,
                hue as int,
            ) && holds_value(c.spec_command().param_2, ValueKind::Sat, sat as int)
                && c.spec_command().effect == effect,
    {
        let h = Value::new(hue as u32, ValueKind::Hue);
        let s = Value::new(sat as u32, ValueKind::Sat);
        match (h, s) {
            (Ok(hv), Ok(sv)) => Some(
                SetHsv {
                    id,
                    command: Command {
                        kind: CommandKind::SetHsv,
                        param_1: Some(hv),
                        param_2: Some(sv),
                        effect,
                    },
                },
            ),
            _ => None,
        }
    }

    /// The request line.
    pub fn request(&self) -> (r: String)
        ensures
            is_command_of(self.spec_command(), CommandKind::SetHsv),
            r@ == request_text(
                method_name(CommandKind::SetHsv),
                self.spec_command(),
                self.spec_id(),
            ),
    {
        proof {
            use_type_invariant(self);
        }
        encode_consistent(&self.command, self.id)
    }
}

/// A request that toggles the lamp.
pub struct Toggle {
    id: u8,
    command: Command,
}

impl Toggle {
    #[verifier::type_invariant]
    spec fn well_formed(self) -> bool {
        is_command_of(self.command, CommandKind::Toggle)
    }

    /// The request id.
    pub closed spec fn spec_id(&self) -> u8 {
        self.id
    }

    /// The command carried.
    pub closed spec fn spec_command(&self) -> Command {
        self.command
    }

    /// A toggle request with id `id`.
    pub fn new(id: u8, effect: Effect) -> (r: Toggle)
        ensures
            r.spec_id() == id,
            r.spec_command() == (Command {
                kind: CommandKind::Toggle,
                param_1: None,
                param_2: None,
                effect,
            }),
    {
        Toggle {
            id,
            command: Command { kind: CommandKind::Toggle, param_1: None, param_2: None, effect },
        }
    }

    /// The request line.
    pub fn request(&self) -> (r: String)
        ensures
            is_command_of(self.spec_command(), CommandKind::Toggle),
            r@ == request_text(
                method_name(CommandKind::Toggle),
                self.spec_command(),
                self.spec_id(),
            ),
    {
        proof {
            use_type_invariant(self);
        }
        encode_consistent(&self.command, self.id)
    }
}

} // verus!
