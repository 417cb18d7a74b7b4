//! A lamp session: the transport handle, the wrapping request-id counter, the send
//! protocol around it and the correlation of responses with the last request sent.
//!
//! Sending is done in two steps around the write, which the owner of the transport
//! performs: `Lamp::prepare_send` gives the request and its id, and `Lamp::finish_send`
//! takes the outcome of the write and moves the counter on only if it succeeded.
use vstd::prelude::*;
use crate::command::{consistent, Command};
use crate::wire::{method_name, request_text, EncodingError};

verus! {

/// The id that follows `id`: one more, wrapping from 255 to 0.
pub open spec fn next_id(id: u8) -> u8 {
    if id == 255 {
        0
    } else {
        (id + 1) as u8
    }
}

/// The id issued most recently when the counter stands at `count`: one less, wrapping
/// from 0 to 255.
pub open spec fn latest_id(count: u8) -> u8 {
    if count == 0 {
        255
    } else {
        (count - 1) as u8
    }
}

/// The counter after `n` successful sends starting from `start`.
pub open spec fn id_after(start: u8, n: nat) -> u8
    decreases n,
{
    if n == 0 {
        start
    } else {
        next_id(id_after(start, (n - 1) as nat))
    }
}

/// Whether `b` is an ASCII decimal digit.
pub open spec fn is_digit(b: u8) -> bool {
    0x30 <= b <= 0x39
}

/// Whether every byte of `s` is an ASCII decimal digit.
pub open spec fn all_digits(s: Seq<u8>) -> bool {
    forall|i: int| 0 <= i < s.len() ==> is_digit(#[trigger] s[i])
}

/// The number that the decimal digits `s` spell.
pub open spec fn digits_value(s: Seq<u8>) -> nat
    decreases s.len(),
{
    if s.len() == 0 {
        0
    } else {
        digits_value(s.drop_last()) * 10 + (s.last() - 0x30) as nat
    }
}

/// The id that the bytes `s` spell: a non-empty run of decimal digits whose value
/// fits in a byte.
pub open spec fn id_from_digits(s: Seq<u8>) -> Option<u8> {
    if s.len() > 0 && all_digits(s) && digits_value(s) <= 255 {
        Some(digits_value(s) as u8)
    } else {
        None
    }
}

/// The regular expression that finds the id of a response: `"id":` and its digits.
pub open spec fn id_pattern() -> Seq<char> {
    "\"id\":([0-9]+)"@
}

/// What the `regex` crate gives as the first capture group of the leftmost match of
/// `pattern` in `haystack`; it depends on the two alone.
pub uninterp spec fn first_group_of(pattern: Seq<char>, haystack: Seq<u8>) -> Option<Seq<u8>>;

/// Relies on `regex::bytes::Regex::new` and `Regex::captures`: the bytes of the first
/// capture group of the leftmost match of `pattern` in `haystack`, if the pattern
/// compiles, something matches and the group took part.
#[verifier::external_body]
fn first_group(pattern: &str, haystack: &[u8]) -> (r: Option<Vec<u8>>)
    ensures
        match r {
            Some(g) => first_group_of(pattern@, haystack@) == Some(g@),
            None => first_group_of(pattern@, haystack@) is None,
        },
{
    let re = regex::bytes::Regex::new(pattern).ok()?;
    let caps = re.captures(haystack)?;
    caps.get(1).map(|m| m.as_bytes().to_vec())
}

/// Why a response could not be correlated.
#[derive(Clone, Copy, Debug, PartialEq, Eq, Structural)]
pub enum CorrelationError {
    /// The response holds no `"id":<digits>`.
    NoIdFound,
    /// The digits after `"id":` do not spell a number from 0 to 255.
    MalformedId,
}

/// The outcome of correlating a response whose id digits were `captured` while the
/// counter stands at `count`.
pub open spec fn correlation(captured: Option<Seq<u8>>, count: u8) -> Result<
    bool,
    CorrelationError,
> {
    match captured {
        None => Err(CorrelationError::NoIdFound),
        Some(d) => match id_from_digits(d) {
            None => Err(CorrelationError::MalformedId),
            Some(id) => Ok(id == latest_id(count)),
        },
    }
}

/// The view of an optional byte slice.
pub open spec fn bytes_view(captured: Option<&[u8]>) -> Option<Seq<u8>> {
    match captured {
        Some(d) => Some(d@),
        None => None,
    }
}

/// Why a command could not be sent.
#[derive(Clone, Copy, Debug, PartialEq, Eq)]
pub enum SendError<E> {
    /// No transport session is open.
    NotConnected,
    /// The command could not be encoded.
    Encoding(EncodingError),
    /// The transport failed to take the request.
    Write(E),
}

/// A request ready to be written: the id it was given and its wire text.
#[derive(Clone, Debug, PartialEq, Eq)]
pub struct Request {
    /// The request id.
    pub id: u8,
    /// The request line, terminated by CRLF.
    pub text: String,
}

/// Proof that the value of a run of digits is at least that of each of its prefixes.
proof fn lemma_prefix_value_le(s: Seq<u8>, k: int)
    requires
        0 <= k <= s.len(),
        all_digits(s),
    ensures
        digits_value(s.take(k)) <= digits_value(s),
    decreases s.len(),
{
    if k < s.len() {
        let t = s.drop_last();
        assert(s.take(k) =~= t.take(k));
        assert(all_digits(t)) by {
            assert forall|i: int| 0 <= i < t.len() implies is_digit(#[trigger] t[i]) by {
                assert(t[i] == s[i]);
            }
        }
        lemma_prefix_value_le(t, k);
    } else {
        assert(s.take(k) =~= s);
    }
}

/// The id that `digits` spell, if they are a non-empty run of decimal digits whose value
/// is at most 255.
pub fn parse_id(digits: &[u8]) -> (r: Option<u8>)
    ensures
        r == id_from_digits(digits@),
{
    if digits.len() == 0 {
        return None;
    }
    let mut acc: u32 = 0;
    let mut i: usize = 0;
    while i < digits.len()
        invariant
            0 <= i <= digits@.len(),
            all_digits(digits@.take(i as int)),
            acc as nat == digits_value(digits@.take(i as int)),
            acc <= 255,
        decreases digits@.len() - i,
    {
        let b = digits[i];
        if b < 0x30 || b > 0x39 {
            assert(!all_digits(digits@)) by {
                assert(!is_digit(digits@[i as int]));
            }
            return None;
        }
        let ghost next = digits@.take(i as int + 1);
        assert(next.drop_last() =~= digits@.take(i as int));
        assert(all_digits(next)) by {
            assert forall|j: int| 0 <= j < next.len() implies is_digit(#[trigger] next[j]) by {
                if j < i {
                    assert(next[j] == digits@.take(i as int)[j]);
                }
            }
        }
        acc = acc * 10 + (b - 0x30) as u32;
        if acc > 255 {
            proof {
                if all_digits(digits@) {
                    lemma_prefix_value_le(digits@, i as int + 1);
                }
            }
            return None;
        }
        i = i + 1;
    }
    assert(digits@.take(i as int) =~= digits@);
    Some(acc as u8)
}

/// A session with one lamp.
///
/// `S` is the transport handle; its presence is what "connected" means. The counter
/// holds the id the next request will carry and wraps from 255 to 0.
#[derive(Debug)]
pub struct Lamp<S> {
    name: String,
    stream: Option<S>,
    cmd_count: u8,
}

impl<S> Lamp<S> {
    /// The name of the lamp.
    pub closed spec fn spec_name(&self) -> Seq<char> {
        self.name@
    }

    /// The transport handle, if connected.
    pub closed spec fn spec_stream(&self) -> Option<S> {
        self.stream
    }

    /// The id the next request will carry.
    pub closed spec fn spec_cmd_count(&self) -> u8 {
        self.cmd_count
    }

    /// A disconnected lamp whose first request will carry id 0.
    pub fn new(name: String) -> (r: Lamp<S>)
        ensures
            r.spec_name() == name@,
            r.spec_stream() is None,
            r.spec_cmd_count() == 0,
    {
        Lamp { name, stream: None, cmd_count: 0 }
    }

    /// The name of the lamp.
    pub fn name(&self) -> (r: &String)
        ensures
            r@ == self.spec_name(),
    {
        &self.name
    }

    /// Whether a transport session is open.
    pub fn is_connected(&self) -> (r: bool)
        ensures
            r == (self.spec_stream() is Some),
    {
        self.stream.is_some()
    }

    /// The id the next request will carry.
    #[verifier::when_used_as_spec(spec_cmd_count)]
    pub fn cmd_count(&self) -> (r: u8)
        ensures
            r == self.spec_cmd_count(),
    {
        self.cmd_count
    }

    /// The transport handle, if connected.
    pub fn stream(&self) -> (r: Option<&S>)
        ensures
            match r {
                Some(s) => self.spec_stream() == Some(*s),
                None => self.spec_stream() is None,
            },
    {
        match &self.stream {
            Some(s) => Some(s),
            None => None,
        }
    }

    /// Stores the handle of a freshly opened session, replacing any earlier one; the
    /// counter is kept.
    pub fn attach(&mut self, stream: S)
        ensures
            final(self).spec_stream() == Some(stream),
            final(self).spec_cmd_count() == old(self).spec_cmd_count(),
            final(self).spec_name() == old(self).spec_name(),
    {
        self.stream = Some(stream);
    }

    /// The request for `cmd`, carrying the current counter as its id. Fails with
    /// `NotConnected` when no session is open, else with the encoding error when the
    /// command is not consistent. Nothing changes: the counter moves on only in
    /// `finish_send`.
    pub fn prepare_send<E>(&self, cmd: &Command) -> (r: Result<Request, SendError<E>>)
        ensures
            self.spec_stream() is None ==> r == Err::<Request, SendError<E>>(
                SendError::NotConnected,
            ),
            self.spec_stream() is Some && !consistent(*cmd) ==> r == Err::<Request, SendError<E>>(
                SendError::Encoding(EncodingError::Inconsistent),
            ),
            r is Ok <==> self.spec_stream() is Some && consistent(*cmd),
            r matches Ok(req) ==> req.id == self.spec_cmd_count() && req.text@ == request_text(
                method_name(cmd.kind),
                *cmd,
                self.spec_cmd_count(),
            ),
    {
        if self.stream.is_none() {
            return Err(SendError::NotConnected);
        }
        let id = self.cmd_count;
        match cmd.to_request(id) {
            Ok(text) => Ok(Request { id, text }),
            Err(e) => Err(SendError::Encoding(e)),
        }
    }

    /// Records how writing the prepared request went. On success the id it carried is
    /// returned and the counter moves on by one, wrapping; on failure the error is handed
    /// back and the counter stays, so no id is lost.
    pub fn finish_send<E>(&mut self, written: Result<(), E>) -> (r: Result<u8, SendError<E>>)
        ensures
            final(self).spec_stream() == old(self).spec_stream(),
            final(self).spec_name() == old(self).spec_name(),
            match written {
                Ok(()) => r == Ok::<u8, SendError<E>>(old(self).spec_cmd_count())
                    && final(self).spec_cmd_count() == next_id(old(self).spec_cmd_count()),
                Err(e) => r == Err::<u8, SendError<E>>(SendError::Write(e))
                    && final(self).spec_cmd_count() == old(self).spec_cmd_count(),
            },
    {
        match written {
            Ok(()) => {
                let id = self.cmd_count;
                self.cmd_count = self.cmd_count.wrapping_add(1);
                Ok(id)
            },
            Err(e) => Err(SendError::Write(e)),
        }
    }

    /// Correlates a response whose id digits were already extracted: `None` means no
    /// id was found. The response is the latest when its id is the one the last
    /// successful send issued.
    pub fn check_response_id(&self, captured: Option<&[u8]>) -> (r: Result<bool, CorrelationError>)
        ensures
            r == correlation(bytes_view(captured), self.spec_cmd_count()),
    {
        match captured {
            None => Err(CorrelationError::NoIdFound),
            Some(d) => match parse_id(d) {
                None => Err(CorrelationError::MalformedId),
                Some(id) => Ok(id == self.cmd_count.wrapping_sub(1)),
            },
        }
    }

    /// Whether the raw response `resp` answers the request sent last: its first
    /// `"id":<digits>` is looked up and compared with the id the last successful send
    /// issued.
    pub fn is_latest_cmd(&self, resp: &[u8]) -> (r: Result<bool, CorrelationError>)
        ensures
            r == correlation(first_group_of(id_pattern(), resp@), self.spec_cmd_count()),
    {
        let captured = first_group("\"id\":([0-9]+)", resp);
        match captured {
            Some(d) => self.check_response_id(Some(d.as_slice())),
            None => self.check_response_id(None),
        }
    }
}

/// After `n` successful sends from counter `start` the counter is `(start + n) mod 256`.
/// Since each send issues the id the counter held, the ids issued are `start`,
/// `start + 1`, ... modulo 256, and 256 sends bring the counter back to `start`.
pub proof fn ids_wrap(start: u8, n: nat)
    ensures
        id_after(start, n) as int == (start + n) % 256,
        n % 256 == 0 ==> id_after(start, n) == start,
    decreases n,
{
    if n > 0 {
        ids_wrap(start, (n - 1) as nat);
    }
}

/// The id the last successful send issued is the one a response must carry to be the
/// latest: after the counter moves on from `count`, `latest_id` gives `count` back.
pub proof fn latest_after_send(count: u8)
    ensures
        latest_id(next_id(count)) == count,
{
}

} // verus!
