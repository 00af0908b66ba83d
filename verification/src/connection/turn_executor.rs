//! Who may execute Browser Host turns.
use vstd::prelude::*;

use crate::connection::state::CdpConnection;

verus! {

/// The capability to execute Browser Host turns. It is not copied, and it does
/// not leave the lane of the application's owner. The connection does not hold
/// it.
pub struct BrowserHostTurnExecutorOwner {
    local_owner: core::marker::PhantomData<std::rc::Rc<()>>,
}

/// One short turn over the connection. It cannot outlive the borrow of the
/// capability, so that no two turns run at once.
pub struct BrowserHostTurnExecution<'a> {
    pub connection: &'a mut CdpConnection,
}

impl BrowserHostTurnExecutorOwner {
    pub fn for_application_owner_lane() -> (owner: BrowserHostTurnExecutorOwner) {
        BrowserHostTurnExecutorOwner { local_owner: core::marker::PhantomData }
    }

    /// Binds the connection for one turn: what the turn leaves of it is what
    /// is left.
    pub fn bind_turn<'a>(&'a mut self, connection: &'a mut CdpConnection) -> (turn:
        BrowserHostTurnExecution<'a>)
        ensures
            *turn.connection == *old(connection),
            *final(connection) == *final(turn.connection),
            *final(self) == *old(self),
    {
        BrowserHostTurnExecution { connection }
    }
}

} // verus!
