//! Auto-reconnect bookkeeping and the lifecycle events of the streaming
//! client.
//!
//! A reconnect is a sequence of attempts, each preceded by a back-off and
//! a token refresh; the state here counts the attempts, remembers the last
//! failure and decides when to give up.

use vstd::prelude::*;

use crate::text::{chars_of, concat_chars, string_of};

verus! {

/// Lifecycle events emitted on the streaming client's event channel.
#[derive(Debug, Clone)]
pub enum StreamingEvent {
    /// The streaming client reconnected after a session loss.
    Reconnected {
        /// 1-based attempt number that succeeded.
        attempt: u32,
    },
    /// All reconnect attempts were exhausted; the streaming session is gone.
    ReconnectFailed {
        /// Total attempts made.
        attempts: u32,
        /// Description of the final error.
        error: String,
    },
    /// The streaming session was terminated without reconnecting.
    Disconnected {
        /// Server-supplied reason, if any.
        reason: Option<String>,
    },
}

/// Progress of one reconnect sequence.
#[derive(Debug)]
pub struct ReconnectState {
    attempt: u32,
    last_error: String,
}

/// Model of a [`ReconnectState`]: attempts started so far, and the last
/// failure's description.
pub struct ReconnectModel {
    pub attempt: u32,
    pub last_error: Seq<char>,
}

impl View for ReconnectState {
    type V = ReconnectModel;

    closed spec fn view(&self) -> ReconnectModel {
        ReconnectModel { attempt: self.attempt, last_error: self.last_error@ }
    }
}

/// What to do next in a reconnect sequence.
#[derive(Debug)]
pub enum ReconnectStep {
    /// Attempt number `attempt` (1-based): back off, refresh, re-create.
    Attempt { attempt: u32 },
    /// The attempt limit is exhausted.
    GiveUp { attempts: u32, error: String },
}

/// Whether the next attempt would exceed the limit.
pub open spec fn exhausted(attempt: u32, max_attempts: Option<u32>) -> bool {
    match max_attempts {
        Some(max) => attempt + 1 > max,
        None => false,
    }
}

impl ReconnectState {
    /// A sequence started for `initial_reason` (`"session ended"` when the
    /// server gave none).
    pub fn new(initial_reason: Option<String>) -> (r: ReconnectState)
        ensures
            r@.attempt == 0,
            match initial_reason {
                Some(m) => r@.last_error == m@,
                None => r@.last_error == "session ended"@,
            },
    {
        let last_error = match initial_reason {
            Some(m) => m,
            None => string_of(&chars_of("session ended")),
        };
        ReconnectState { attempt: 0, last_error }
    }

    /// Attempts started so far.
    pub fn attempts(&self) -> (r: u32)
        ensures
            r == self@.attempt,
    {
        self.attempt
    }

    /// The last failure's description.
    pub fn last_error(&self) -> (r: String)
        ensures
            r@ == self@.last_error,
    {
        string_of(&chars_of(self.last_error.as_str()))
    }

    /// Start the next attempt, or give up when it would exceed
    /// `max_attempts` (`None`: no limit).  Giving up reports the attempts
    /// made and the last error.
    pub fn next(&mut self, max_attempts: Option<u32>) -> (r: ReconnectStep)
        requires
            old(self)@.attempt < u32::MAX,
        ensures
            final(self)@.attempt == old(self)@.attempt + 1,
            final(self)@.last_error == old(self)@.last_error,
            exhausted(old(self)@.attempt, max_attempts) ==> (r matches ReconnectStep::GiveUp {
                attempts,
                error,
            } && attempts == old(self)@.attempt && error@ == old(self)@.last_error),
            !exhausted(old(self)@.attempt, max_attempts) ==> (r matches ReconnectStep::Attempt {
                attempt,
            } && attempt == old(self)@.attempt + 1),
    {
        self.attempt = self.attempt + 1;
        match max_attempts {
            Some(max) => {
                if self.attempt > max {
                    return ReconnectStep::GiveUp {
                        attempts: self.attempt - 1,
                        error: self.last_error(),
                    };
                }
            },
            None => {},
        }
        ReconnectStep::Attempt { attempt: self.attempt }
    }

    /// The token refresh of this attempt failed.
    pub fn refresh_failed(&mut self, session_kind: &str, error_text: &str)
        ensures
            final(self)@.attempt == old(self)@.attempt,
            final(self)@.last_error == "session refresh failed ("@ + session_kind@ + "): "@
                + error_text@,
    {
        let a = concat_chars(&chars_of("session refresh failed ("), &chars_of(session_kind));
        let b = concat_chars(&a, &chars_of("): "));
        self.last_error = string_of(&concat_chars(&b, &chars_of(error_text)));
    }

    /// The refresh succeeded but left no streaming credentials.
    pub fn no_streaming_tokens(&mut self, session_kind: &str)
        ensures
            final(self)@.attempt == old(self)@.attempt,
            final(self)@.last_error == "no streaming tokens after "@ + session_kind@
                + " refresh"@,
    {
        let a = concat_chars(&chars_of("no streaming tokens after "), &chars_of(session_kind));
        self.last_error = string_of(&concat_chars(&a, &chars_of(" refresh")));
    }

    /// Re-creating the Lightstreamer session failed.
    pub fn create_failed(&mut self, error_text: &str)
        ensures
            final(self)@.attempt == old(self)@.attempt,
            final(self)@.last_error == "create_session failed: "@ + error_text@,
    {
        self.last_error = string_of(
            &concat_chars(&chars_of("create_session failed: "), &chars_of(error_text)),
        );
    }

    /// The event announcing that the current attempt succeeded.
    pub fn succeeded(&self) -> (r: StreamingEvent)
        ensures
            r matches StreamingEvent::Reconnected { attempt } && attempt == self@.attempt,
    {
        StreamingEvent::Reconnected { attempt: self.attempt }
    }
}

/// The event reporting a give-up.
pub fn give_up_event(step: ReconnectStep) -> (r: Option<StreamingEvent>)
    ensures
        match step {
            ReconnectStep::GiveUp { attempts, error } => r matches Some(
                StreamingEvent::ReconnectFailed { attempts: a, error: e },
            ) && a == attempts && e@ == error@,
            ReconnectStep::Attempt { .. } => r is None,
        },
{
    match step {
        ReconnectStep::GiveUp { attempts, error } => Some(
            StreamingEvent::ReconnectFailed { attempts, error },
        ),
        ReconnectStep::Attempt { .. } => None,
    }
}

/// Attempts are made one by one up to the limit, and the sequence gives
/// up exactly when the limit is reached, reporting exactly `max` attempts;
/// without a limit it never gives up.
pub proof fn lemma_attempt_limit(attempt: u32, max_attempts: Option<u32>)
    requires
        max_attempts matches Some(max) ==> attempt <= max,
    ensures
        max_attempts is None ==> !exhausted(attempt, max_attempts),
        max_attempts matches Some(max) ==> (exhausted(attempt, max_attempts) <==> attempt == max),
{
}

} // verus!
