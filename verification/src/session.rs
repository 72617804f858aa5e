//! The session state machine: the caller-facing lifecycle over one native
//! tracing context, from open through configure, compile, activate and go,
//! then the repeated poll/drain cycle, to stop.
//!
//! The embedding program owns the foreign handle and makes the native calls;
//! each method here takes the native outcome as an argument and decides the
//! next session state and what the caller sees. Calling orders the native
//! layer leaves undefined (activating twice, polling before go, stopping
//! twice) are excluded by precondition instead of being guarded at run time.

use vstd::prelude::*;

use crate::Error;

verus! {

/// Where the session stands in its life.
#[derive(Debug, Clone, Copy, PartialEq, Eq, Structural)]
pub enum Phase {
    /// Live handle; options may be set and a script compiled.
    Opened,
    /// A compiled program is in hand, awaiting activation.
    Compiled,
    /// A program is active against the handle, awaiting go.
    Activated,
    /// Collection is committed; the session may be polled.
    Running,
    /// Collection was halted; only destruction remains.
    Stopped,
}

/// The views of a sequence of captured records.
pub open spec fn text_of(v: Seq<String>) -> Seq<Seq<char>> {
    v.map_values(|s: String| s@)
}

/// One tracing session: the lifecycle phase, and the capture buffer the
/// engine's buffered-output hook fills during a poll.
///
/// The value is deliberately not cloneable or copyable: it stands for
/// exclusive ownership of one native context, so that the close which the
/// embedder pairs with it can happen at most once.
pub struct Dtrace {
    phase: Phase,
    buffers: Vec<String>,
}

impl Dtrace {
    /// The session's lifecycle phase.
    pub closed spec fn phase(self) -> Phase {
        self.phase
    }

    /// The records currently captured and not yet drained, in emission order.
    pub closed spec fn records(self) -> Seq<Seq<char>> {
        text_of(self.buffers@)
    }

    /// The lifecycle phase, for callers that must check a precondition
    /// before a call.
    pub fn current_phase(&self) -> (p: Phase)
        ensures
            p == self.phase(),
    {
        self.phase
    }

    /// How many captured records await the next drain.
    pub fn pending(&self) -> (n: usize)
        ensures
            n == self.records().len(),
    {
        self.buffers.len()
    }

    /// Builds a session from the outcome of the native open. `opened` tells
    /// whether the native open returned a handle, with `open_err` the error
    /// code it reported otherwise; `hook_err` is the code from registering
    /// the capture buffer with the engine's buffered-output hook, consulted
    /// only when the open succeeded. Either failure surfaces as a typed
    /// error; the embedder still owns the release of a partially opened
    /// handle on the second failure path.
    pub fn new(opened: bool, open_err: i32, hook_err: i32) -> (r: Result<Dtrace, Error>)
        ensures
            !opened ==> r == Err::<Dtrace, Error>(Error::DTrace(open_err)),
            opened && hook_err != 0 ==> r == Err::<Dtrace, Error>(Error::DTrace(hook_err)),
            opened && hook_err == 0 ==> (r matches Ok(s) && s.phase() == Phase::Opened
                && s.records().len() == 0),
    {
        if !opened {
            return Err(Error::DTrace(open_err));
        }
        if hook_err != 0 {
            return Err(Error::DTrace(hook_err));
        }
        Ok(Dtrace { phase: Phase::Opened, buffers: Vec::new() })
    }

    /// Configure: the embedder forwards the option name and value verbatim to
    /// the native option-set call and hands back its return code in `err`.
    /// The wrapper validates nothing; a rejection surfaces as a typed error
    /// wrapping that code, and the session is left exactly as it was, so a
    /// failed configure never costs the caller the session.
    pub fn setopt(&mut self, opt: &str, val: &str, err: i32) -> (r: Result<(), Error>)
        requires
            opt@.len() > 0,
            val@.len() > 0,
        ensures
            err == 0 ==> r == Ok::<(), Error>(()),
            err != 0 ==> r == Err::<(), Error>(Error::DTrace(err)),
            *final(self) == *old(self),
    {
        if err != 0 {
            Err(Error::DTrace(err))
        } else {
            Ok(())
        }
    }

    /// The compile half of submitting a script: `compiled` tells whether the
    /// native compile returned a program, and `last_err` is the engine's
    /// deferred last-error code, consulted only on failure (the failing call
    /// itself returns no code, only a null program). On success the session
    /// holds a program awaiting activation; on failure it stays as opened,
    /// and activation is unreachable.
    pub fn compile(&mut self, compiled: bool, last_err: i32) -> (r: Result<(), Error>)
        requires
            old(self).phase() == Phase::Opened,
        ensures
            compiled ==> r == Ok::<(), Error>(()) && final(self).phase() == Phase::Compiled,
            !compiled ==> r == Err::<(), Error>(Error::DTrace(last_err))
                && final(self).phase() == Phase::Opened,
            final(self).records() == old(self).records(),
    {
        if compiled {
            self.phase = Phase::Compiled;
            Ok(())
        } else {
            Err(Error::DTrace(last_err))
        }
    }

    /// The activation half of submitting a script: `err` is the code the
    /// native activation call returned directly (activation reports its own
    /// code, unlike compile). The compiled program is transient either way:
    /// on failure it is not retained, and the session is back to opened.
    pub fn activate(&mut self, err: i32) -> (r: Result<(), Error>)
        requires
            old(self).phase() == Phase::Compiled,
        ensures
            err == 0 ==> r == Ok::<(), Error>(()) && final(self).phase() == Phase::Activated,
            err != 0 ==> r == Err::<(), Error>(Error::DTrace(err))
                && final(self).phase() == Phase::Opened,
            final(self).records() == old(self).records(),
    {
        if err != 0 {
            self.phase = Phase::Opened;
            Err(Error::DTrace(err))
        } else {
            self.phase = Phase::Activated;
            Ok(())
        }
    }

    /// Go: commits the activated program so the engine begins collecting.
    /// `err` is the native go call's return code. Callable exactly once,
    /// after activation and before the first poll; on failure the session
    /// stays activated.
    pub fn go(&mut self, err: i32) -> (r: Result<(), Error>)
        requires
            old(self).phase() == Phase::Activated,
        ensures
            err == 0 ==> r == Ok::<(), Error>(()) && final(self).phase() == Phase::Running,
            err != 0 ==> r == Err::<(), Error>(Error::DTrace(err))
                && final(self).phase() == Phase::Activated,
            final(self).records() == old(self).records(),
    {
        if err != 0 {
            Err(Error::DTrace(err))
        } else {
            self.phase = Phase::Running;
            Ok(())
        }
    }

    /// The capture hook's effect: the engine presented one formatted output
    /// chunk during a poll (`None` models a null chunk pointer, which is
    /// ignored). A chunk is appended at the end of the buffer, preserving
    /// the order in which the engine presented chunks. Always answers the
    /// engine with [`crate::codes::HANDLE_OK`].
    pub fn handle_buffered(&mut self, chunk: Option<String>) -> (r: i32)
        ensures
            r == crate::codes::HANDLE_OK,
            final(self).phase() == old(self).phase(),
            chunk matches Some(s) ==> final(self).records() == old(self).records().push(s@),
            chunk is None ==> final(self).records() == old(self).records(),
    {
        match chunk {
            Some(s) => {
                let ghost prev = self.buffers@;
                self.buffers.push(s);
                proof {
                    assert(self.records() =~= text_of(prev).push(self.buffers@[prev.len() as int]@));
                }
            },
            None => {},
        }
        crate::codes::HANDLE_OK
    }

    /// One poll cycle's caller-facing half, after the blocking native work
    /// call returned: `status` is the poll status and `last_err` the
    /// engine's last-error code, consulted only when the status reports an
    /// error. On a non-error status, every buffered record is handed out
    /// exactly once, in emission order, the buffer is left empty, and the
    /// done flag is true exactly when the engine signalled terminal
    /// completion. On an error status the buffer is untouched and the code
    /// is wrapped. A status outside the three known codes means the engine
    /// and this binding disagree, and is excluded by precondition — the
    /// embedder treats it as fatal. The phase stays running even after a
    /// done result: the wrapper adds no "already done" guard of its own, and
    /// polling past completion keeps the native layer's own semantics.
    pub fn work(&mut self, status: i32, last_err: i32) -> (r: Result<(Vec<String>, bool), Error>)
        requires
            old(self).phase() == Phase::Running,
            crate::codes::known_status(status),
        ensures
            final(self).phase() == Phase::Running,
            status == crate::codes::WORKSTATUS_ERROR
                ==> r == Err::<(Vec<String>, bool), Error>(Error::DTrace(last_err))
                && *final(self) == *old(self),
            status != crate::codes::WORKSTATUS_ERROR ==> (r matches Ok(out)
                && text_of(out.0@) == old(self).records()
                && out.1 == (status == crate::codes::WORKSTATUS_DONE)
                && final(self).records().len() == 0),
    {
        match crate::codes::classify_status(status) {
            crate::codes::WorkStatus::Error => Err(Error::DTrace(last_err)),
            ws => {
                let mut drained: Vec<String> = Vec::new();
                core::mem::swap(&mut drained, &mut self.buffers);
                Ok((drained, matches!(ws, crate::codes::WorkStatus::Done)))
            },
        }
    }

    /// Stop: halts the engine's collection, wrapping the native stop call's
    /// return code on failure. The native layer does not guarantee
    /// idempotency, so a second stop is excluded by precondition; the
    /// session counts as stopped whatever the outcome, and only destruction
    /// remains.
    pub fn stop(&mut self, err: i32) -> (r: Result<(), Error>)
        requires
            old(self).phase() != Phase::Stopped,
        ensures
            err == 0 ==> r == Ok::<(), Error>(()),
            err != 0 ==> r == Err::<(), Error>(Error::DTrace(err)),
            final(self).phase() == Phase::Stopped,
            final(self).records() == old(self).records(),
    {
        self.phase = Phase::Stopped;
        if err != 0 {
            Err(Error::DTrace(err))
        } else {
            Ok(())
        }
    }

    /// Ends the session's life. Taking the session by value makes a second
    /// close unrepresentable: whatever step failed earlier, the one native
    /// close the embedder pairs with this consumption happens exactly once.
    pub fn close(self) {
    }
}

} // verus!
