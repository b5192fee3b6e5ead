use vstd::prelude::*;

verus! {

/// How many ICE restarts a connection gets before it gives up.
pub const MAX_RETRY_ATTEMPTS: u8 = 3;

/// The ICE connection state of a peer connection.
#[derive(Debug, PartialEq, Eq, Clone, Copy, Structural)]
pub enum IceConnectionState {
    Unspecified,
    New,
    Checking,
    Connected,
    Completed,
    Disconnected,
    Failed,
    Closed,
}

/// What a connection does when its ICE state changes.
#[derive(Debug, PartialEq, Eq, Clone, Copy, Structural)]
pub enum IceAction {
    /// Make an ICE restart offer and send it to the client; on success,
    /// record the attempt.
    RestartIce,
    /// The connection is back: ask every published layer for a key frame.
    Reconnected,
    /// Check the state again later.
    RecheckLater,
    /// Give up: stop the connection.
    Stop,
    Nothing,
}

/// The reconnection state of a peer connection.
pub struct IceRecovery {
    pub disconnected: bool,
    pub retry_connect_attempts: u8,
}

impl IceRecovery {
    pub fn new() -> (r: IceRecovery)
        ensures
            !r.disconnected,
            r.retry_connect_attempts == 0,
    {
        IceRecovery { disconnected: false, retry_connect_attempts: 0 }
    }

    /// The ICE state changed: a lost connection is restarted; a connection
    /// that comes back after a loss clears the count of attempts.
    pub fn on_state_change(&mut self, state: IceConnectionState) -> (action: IceAction)
        ensures
            match state {
                IceConnectionState::Disconnected | IceConnectionState::Failed => action == IceAction::RestartIce
                    && final(self).disconnected && final(self).retry_connect_attempts
                    == old(self).retry_connect_attempts,
                IceConnectionState::Connected => if old(self).disconnected {
                    action == IceAction::Reconnected && !final(self).disconnected
                        && final(self).retry_connect_attempts == 0
                } else {
                    action == IceAction::Nothing && final(self).disconnected == old(self).disconnected
                        && final(self).retry_connect_attempts == old(self).retry_connect_attempts
                },
                _ => action == IceAction::Nothing && final(self).disconnected == old(self).disconnected
                    && final(self).retry_connect_attempts == old(self).retry_connect_attempts,
            },
    {
        match state {
            IceConnectionState::Disconnected | IceConnectionState::Failed => {
                self.disconnected = true;
                IceAction::RestartIce
            },
            IceConnectionState::Connected => {
                if self.disconnected {
                    self.disconnected = false;
                    self.retry_connect_attempts = 0;
                    IceAction::Reconnected
                } else {
                    IceAction::Nothing
                }
            },
            _ => IceAction::Nothing,
        }
    }

    /// Records an ICE restart that was sent to the client.
    pub fn record_restart(&mut self)
        requires
            old(self).retry_connect_attempts < u8::MAX,
        ensures
            final(self).retry_connect_attempts == old(self).retry_connect_attempts + 1,
            final(self).disconnected == old(self).disconnected,
    {
        self.retry_connect_attempts += 1;
    }

    /// A periodic check of the current ICE state: a lost connection is
    /// checked again while it has attempts left, and stopped otherwise.
    pub fn check(&self, current: IceConnectionState) -> (action: IceAction)
        ensures
            action == (if current == IceConnectionState::Failed || current == IceConnectionState::Disconnected {
                if self.retry_connect_attempts < MAX_RETRY_ATTEMPTS {
                    IceAction::RecheckLater
                } else {
                    IceAction::Stop
                }
            } else {
                IceAction::Nothing
            }),
    {
        let is_disconnected = current == IceConnectionState::Failed || current == IceConnectionState::Disconnected;
        if is_disconnected {
            if self.retry_connect_attempts < MAX_RETRY_ATTEMPTS {
                IceAction::RecheckLater
            } else {
                IceAction::Stop
            }
        } else {
            IceAction::Nothing
        }
    }
}

} // verus!
