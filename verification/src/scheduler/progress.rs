//! Output that is gathered while something is waited for.
//!
//! Progress either brings output or ends in a failure. A failure carries the
//! output that came before it, so that clients see it before the error.
use vstd::prelude::*;

use crate::connection::background_output::BackgroundProtocolEvent;
use crate::devtools::{DevToolsError, DevToolsRefusal};
use crate::scheduler::commands;
use crate::scheduler::commands::renderer_output_transport_terminal_error;
use crate::scheduler::output::{CdpSchedulerProgressFailure, ProtocolOutputSequence};

verus! {

/// The output that progress has brought, up to its failure if it failed.
pub open spec fn brought(
    progress: Result<ProtocolOutputSequence, CdpSchedulerProgressFailure>,
) -> Seq<BackgroundProtocolEvent> {
    match progress {
        Ok(output) => output@,
        Err(failure) => failure.protocol_output@,
    }
}

/// Why progress has failed.
pub open spec fn refused(
    progress: Result<ProtocolOutputSequence, CdpSchedulerProgressFailure>,
) -> Option<DevToolsRefusal> {
    match progress {
        Ok(_) => None,
        Err(failure) => Some(failure.error@),
    }
}

/// An error, as a value.
pub open spec fn opt_refusal(error: Option<DevToolsError>) -> Option<DevToolsRefusal> {
    match error {
        Some(error) => Some(error@),
        None => None,
    }
}

/// What was received while something was waited for.
pub enum WaitInput {
    /// Nothing, and nothing will be. Whether the renderer transport ended
    /// because too much was sent.
    Closed { over_budget: bool },
    /// Something, which was carried out.
    Applied(Result<ProtocolOutputSequence, CdpSchedulerProgressFailure>),
}

/// The output that an input has brought.
pub open spec fn input_brought(input: WaitInput) -> Seq<BackgroundProtocolEvent> {
    match input {
        WaitInput::Closed { .. } => Seq::empty(),
        WaitInput::Applied(progress) => brought(progress),
    }
}

/// Why a wait ends with an input, if it does. The text names what was waited
/// for.
pub open spec fn input_refused(input: WaitInput, boundary: Seq<char>) -> Option<DevToolsRefusal> {
    match input {
        WaitInput::Closed { over_budget } => Some(
            commands::transport_refusal(over_budget, boundary),
        ),
        WaitInput::Applied(progress) => refused(progress),
    }
}

impl ProtocolOutputSequence {
    /// Appends what progress has brought, and hands out why it failed.
    pub fn absorb(
        &mut self,
        progress: Result<ProtocolOutputSequence, CdpSchedulerProgressFailure>,
    ) -> (error: Option<DevToolsError>)
        ensures
            final(self)@ == old(self)@ + brought(progress),
            opt_refusal(error) == refused(progress),
    {
        match progress {
            Ok(output) => {
                self.append(output);
                None
            },
            Err(failure) => {
                let (output, error) = failure.into_parts();
                self.append(output);
                Some(error)
            },
        }
    }

    /// Appends what an input has brought, and hands out why the wait ends.
    pub fn absorb_input(&mut self, input: WaitInput, boundary: &str) -> (error: Option<
        DevToolsError,
    >)
        ensures
            final(self)@ == old(self)@ + input_brought(input),
            opt_refusal(error) == input_refused(input, boundary@),
    {
        match input {
            WaitInput::Closed { over_budget } => {
                assert(old(self)@ + Seq::empty() =~= old(self)@);
                Some(renderer_output_transport_terminal_error(over_budget, boundary))
            },
            WaitInput::Applied(progress) => self.absorb(progress),
        }
    }
}

} // verus!
