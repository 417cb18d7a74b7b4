//! The connect policy: when to dial, how long to wait between attempts and when to give up.
//!
//! The caller performs the dials and the waits; the decisions are made here. Every
//! duration is a number of milliseconds.
use vstd::prelude::*;

verus! {

/// Settings for opening a lamp session. Durations are in milliseconds.
#[derive(Clone, Copy, Debug, PartialEq, Eq, Structural)]
pub struct ConnectionSettings {
    /// Read timeout of the session; `None` lets reads block.
    pub read_timeout: Option<u64>,
    /// Write timeout of the session; `None` lets writes block.
    pub write_timeout: Option<u64>,
    /// Time limit of each dial; must not be zero.
    pub conn_timeout: u64,
    /// How many dials to make before giving up.
    pub conn_tries: u8,
    /// Wait between two dials.
    pub conn_wait: u64,
}

/// Why no session could be opened.
#[derive(Clone, Copy, Debug, PartialEq, Eq)]
pub enum ConnectError<E> {
    /// The per-dial time limit is zero; nothing was dialled.
    ZeroTimeout,
    /// Every dial failed; carries how many were made and the last failure.
    Exhausted {
        attempts: u8,
        last: E,
    },
}

/// How many dials are made, at most, for `conn_tries`: at least one.
pub open spec fn attempt_limit(conn_tries: u8) -> u8 {
    if conn_tries == 0 {
        1
    } else {
        conn_tries
    }
}

/// Whether the `attempt`-th dial (counting from one) failing leads to another dial.
pub open spec fn retries_after(attempt: int, conn_tries: u8) -> bool {
    attempt < conn_tries
}

/// The dials made so far in one connect, all of which failed.
#[derive(Clone, Copy, Debug, PartialEq, Eq)]
pub struct ConnectAttempts {
    made: u8,
    conn_tries: u8,
    conn_wait: u64,
}

/// What to do after a failed dial.
#[derive(Clone, Copy, Debug, PartialEq, Eq)]
pub enum AfterFailure<E> {
    /// Wait `wait_ms` milliseconds, then dial again.
    Retry {
        wait_ms: u64,
        attempts: ConnectAttempts,
    },
    /// Stop and report the error.
    GiveUp(ConnectError<E>),
}

impl ConnectAttempts {
    #[verifier::type_invariant]
    spec fn well_formed(self) -> bool {
        self.made < attempt_limit(self.conn_tries)
    }

    /// How many dials failed so far.
    pub closed spec fn spec_made(&self) -> u8 {
        self.made
    }

    /// The number of dials asked for.
    pub closed spec fn spec_conn_tries(&self) -> u8 {
        self.conn_tries
    }

    /// The wait between dials, in milliseconds.
    pub closed spec fn spec_conn_wait(&self) -> u64 {
        self.conn_wait
    }

    /// How many dials failed so far.
    #[verifier::when_used_as_spec(spec_made)]
    pub fn made(&self) -> (r: u8)
        ensures
            r == self.spec_made(),
    {
        self.made
    }

    /// Records that the next dial failed with `cause`: dial again after the wait while
    /// fewer than `conn_tries` dials were made, else give up with the number of dials
    /// and the last cause.
    pub fn record_failure<E>(self, cause: E) -> (r: AfterFailure<E>)
        ensures
            retries_after(self.spec_made() + 1, self.spec_conn_tries()) ==> (
            r matches AfterFailure::Retry { wait_ms, attempts }
                && wait_ms == self.spec_conn_wait()
                && attempts.spec_made() == self.spec_made() + 1
                && attempts.spec_conn_tries() == self.spec_conn_tries()
                && attempts.spec_conn_wait() == self.spec_conn_wait()),
            !retries_after(self.spec_made() + 1, self.spec_conn_tries()) ==> r
                == AfterFailure::<E>::GiveUp(
                ConnectError::Exhausted { attempts: (self.spec_made() + 1) as u8, last: cause },
            ),
    {
        proof {
            use_type_invariant(&self);
        }
        let made = self.made + 1;
        if made < self.conn_tries {
            AfterFailure::Retry {
                wait_ms: self.conn_wait,
                attempts: ConnectAttempts {
                    made,
                    conn_tries: self.conn_tries,
                    conn_wait: self.conn_wait,
                },
            }
        } else {
            AfterFailure::GiveUp(ConnectError::Exhausted { attempts: made, last: cause })
        }
    }
}

impl ConnectionSettings {
    /// Starts a connect: refuses a zero per-dial time limit before any dial, else
    /// returns the record of a connect with no dial made yet.
    pub fn start_connect<E>(&self) -> (r: Result<ConnectAttempts, ConnectError<E>>)
        ensures
            self.conn_timeout == 0 ==> r == Err::<ConnectAttempts, ConnectError<E>>(
                ConnectError::ZeroTimeout,
            ),
            r is Ok <==> self.conn_timeout != 0,
            r matches Ok(a) ==> a.spec_made() == 0 && a.spec_conn_tries() == self.conn_tries
                && a.spec_conn_wait() == self.conn_wait,
    {
        if self.conn_timeout == 0 {
            Err(ConnectError::ZeroTimeout)
        } else {
            Ok(ConnectAttempts { made: 0, conn_tries: self.conn_tries, conn_wait: self.conn_wait })
        }
    }
}

/// The number of dials a connect makes when every dial fails, counted from the state in
/// which `made` dials have failed: each failure either leads to another dial, as
/// `ConnectAttempts::record_failure` decides, or ends the connect.
pub open spec fn dials_when_all_fail(made: int, conn_tries: u8) -> int
    decreases 256 - made,
{
    if made < 256 && retries_after(made + 1, conn_tries) {
        dials_when_all_fail(made + 1, conn_tries)
    } else {
        made + 1
    }
}

proof fn lemma_dials_from(made: int, conn_tries: u8)
    requires
        0 <= made < attempt_limit(conn_tries),
    ensures
        dials_when_all_fail(made, conn_tries) == attempt_limit(conn_tries),
    decreases attempt_limit(conn_tries) - made,
{
    if retries_after(made + 1, conn_tries) {
        lemma_dials_from(made + 1, conn_tries);
    }
}

/// With every dial failing, a connect makes exactly `attempt_limit(conn_tries)` dials
/// (`conn_tries`, and one when it is zero) before it gives up, and the error reports that
/// number.
pub proof fn dials_until_give_up(conn_tries: u8)
    ensures
        dials_when_all_fail(0, conn_tries) == attempt_limit(conn_tries),
{
    lemma_dials_from(0, conn_tries);
}

} // verus!
