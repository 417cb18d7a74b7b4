//! The request encoder: turns a consistent command and a request id into wire text.
//!
//! A request reads `{"id":<id>,"method":"<method>","params":[<params>]}` followed by CRLF,
//! where the method is the snake-cased name of the command kind and the parameters are the
//! magnitudes followed by the effect (`"sudden"` or `"smooth",<ms>`).
use vstd::prelude::*;
use vstd::string::*;
use crate::command::{consistent, kind_name, Command, CommandKind};
use crate::effect::Effect;
use crate::value::Value;

verus! {

/// What `stringcase::snake_case` returns for `s`: it depends on the characters alone.
pub uninterp spec fn snake_case_of(s: Seq<char>) -> Seq<char>;

/// Relies on `stringcase::snake_case`: lower-cases the text and separates words with `_`.
#[verifier::external_body]
fn snake_case(s: &str) -> (r: String)
    ensures
        r@ == snake_case_of(s@),
{
    stringcase::snake_case(s)
}

/// The method name of a command kind on the wire.
pub open spec fn method_name(kind: CommandKind) -> Seq<char> {
    snake_case_of(kind_name(kind))
}

/// The character of a decimal digit.
pub open spec fn digit_char(d: nat) -> char {
    if d == 0 {
        '0'
    } else if d == 1 {
        '1'
    } else if d == 2 {
        '2'
    } else if d == 3 {
        '3'
    } else if d == 4 {
        '4'
    } else if d == 5 {
        '5'
    } else if d == 6 {
        '6'
    } else if d == 7 {
        '7'
    } else if d == 8 {
        '8'
    } else {
        '9'
    }
}

/// `n` in decimal, without leading zeros.
pub open spec fn decimal(n: nat) -> Seq<char>
    decreases n,
{
    if n < 10 {
        seq![digit_char(n)]
    } else {
        decimal(n / 10) + seq![digit_char(n % 10)]
    }
}

/// The wire text of an effect, given its model.
pub open spec fn effect_text(e: Option<u64>) -> Seq<char> {
    match e {
        None => "\"sudden\""@,
        Some(ms) => "\"smooth\","@ + decimal(ms as nat),
    }
}

/// The magnitude of an optional parameter in decimal; empty when it is absent.
pub open spec fn magnitude_text(p: Option<Value>) -> Seq<char> {
    match p {
        Some(v) => decimal(v.spec_magnitude() as nat),
        None => Seq::empty(),
    }
}

/// The text between the brackets of `"params":[...]`.
pub open spec fn params_text(cmd: Command) -> Seq<char> {
    match cmd.kind {
        CommandKind::Toggle => Seq::empty(),
        CommandKind::SetHsv => magnitude_text(cmd.param_1) + ","@ + magnitude_text(cmd.param_2)
            + ","@ + effect_text(cmd.effect@),
        _ => magnitude_text(cmd.param_1) + ","@ + effect_text(cmd.effect@),
    }
}

/// The whole request line for `cmd` with the given method name and id.
pub open spec fn request_text(method: Seq<char>, cmd: Command, id: u8) -> Seq<char> {
    "{\"id\":"@ + decimal(id as nat) + ",\"method\":\""@ + method + "\",\"params\":["@
        + params_text(cmd) + "]}\r\n"@
}

/// Why a command could not be encoded.
#[derive(Clone, Copy, Debug, PartialEq, Eq, Structural)]
pub enum EncodingError {
    /// The parameter kinds do not match those the command kind expects.
    Inconsistent,
}

/// The one-character text of decimal digit `d`.
fn digit_str(d: u64) -> (r: &'static str)
    requires
        d < 10,
    ensures
        r@ == seq![digit_char(d as nat)],
{
    proof {
        reveal_strlit("0");
        reveal_strlit("1");
        reveal_strlit("2");
        reveal_strlit("3");
        reveal_strlit("4");
        reveal_strlit("5");
        reveal_strlit("6");
        reveal_strlit("7");
        reveal_strlit("8");
        reveal_strlit("9");
    }
    let r = match d {
        0 => "0",
        1 => "1",
        2 => "2",
        3 => "3",
        4 => "4",
        5 => "5",
        6 => "6",
        7 => "7",
        8 => "8",
        _ => "9",
    };
    assert(r@ =~= seq![digit_char(d as nat)]);
    r
}

/// Appends `n` in decimal.
fn push_decimal(out: &mut String, n: u64)
    ensures
        final(out)@ == old(out)@ + decimal(n as nat),
    decreases n,
{
    if n >= 10 {
        push_decimal(out, n / 10);
    }
    out.append(digit_str(n % 10));
    assert(final(out)@ =~= old(out)@ + decimal(n as nat));
}

/// Appends the wire text of an effect.
fn push_effect(out: &mut String, effect: &Effect)
    ensures
        final(out)@ == old(out)@ + effect_text(effect@),
{
    match effect.smooth_millis() {
        None => out.append("\"sudden\""),
        Some(ms) => {
            out.append("\"smooth\",");
            push_decimal(out, ms);
            assert(final(out)@ =~= old(out)@ + effect_text(effect@));
        },
    }
}

/// Appends the magnitude of an optional parameter; nothing when it is absent.
fn push_magnitude(out: &mut String, p: &Option<Value>)
    ensures
        final(out)@ == old(out)@ + magnitude_text(*p),
{
    match p {
        Some(v) => push_decimal(out, v.magnitude() as u64),
        None => assert(out@ =~= old(out)@ + magnitude_text(*p)),
    }
}

impl Command {
    /// The request line for this command with request id `id`, using `method` as the
    /// method name; fails exactly when the command is not consistent.
    pub fn to_request_with(&self, id: u8, method: &str) -> (r: Result<String, EncodingError>)
        ensures
            r is Ok <==> consistent(*self),
            r matches Ok(s) ==> s@ == request_text(method@, *self, id),
            r matches Err(e) ==> e == EncodingError::Inconsistent,
    {
        if !self.is_consistent() {
            return Err(EncodingError::Inconsistent);
        }
        let mut out = String::new();
        out.append("{\"id\":");
        push_decimal(&mut out, id as u64);
        out.append(",\"method\":\"");
        out.append(method);
        out.append("\",\"params\":[");
        match self.kind {
            CommandKind::Toggle => {},
            CommandKind::SetHsv => {
                push_magnitude(&mut out, &self.param_1);
                out.append(",");
                push_magnitude(&mut out, &self.param_2);
                out.append(",");
                push_effect(&mut out, &self.effect);
            },
            _ => {
                push_magnitude(&mut out, &self.param_1);
                out.append(",");
                push_effect(&mut out, &self.effect);
            },
        }
        out.append("]}\r\n");
        assert(out@ =~= request_text(method@, *self, id));
        Ok(out)
    }

    /// The request line for this command with request id `id`; the method name is the
    /// snake-cased name of the command kind. Fails exactly when the command is not
    /// consistent.
    pub fn to_request(&self, id: u8) -> (r: Result<String, EncodingError>)
        ensures
            r is Ok <==> consistent(*self),
            r matches Ok(s) ==> s@ == request_text(method_name(self.kind), *self, id),
            r matches Err(e) ==> e == EncodingError::Inconsistent,
    {
        let method = snake_case(self.kind.name());
        self.to_request_with(id, method.as_str())
    }
}

} // verus!
