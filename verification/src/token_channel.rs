//! The consistent state of a channel with a friend: the mutual credit
//! balance and the last move token received.
use vstd::prelude::*;
use crate::ids::PublicKey;
use crate::messages::MoveTokenHashed;

verus! {

/// The credit standing between two friends.
#[derive(Clone, Copy, Debug, PartialEq, Eq)]
pub struct McBalance {
    /// Amount of credits this side has against the remote side.
    pub balance: i128,
    /// Maximum possible local debt.
    pub local_max_debt: u128,
    /// Maximum possible remote debt.
    pub remote_max_debt: u128,
    /// Frozen credits of requests that this side forwarded.
    pub local_pending_debt: u128,
    /// Frozen credits of requests that the remote side forwarded.
    pub remote_pending_debt: u128,
}

/// A token channel that both sides agree on.
#[derive(Clone, Copy, Debug, PartialEq, Eq)]
pub struct TokenChannel {
    pub local_public_key: PublicKey,
    pub remote_public_key: PublicKey,
    pub balance: McBalance,
    pub opt_last_incoming_move_token: Option<MoveTokenHashed>,
}

/// A change to a token channel.
#[derive(Clone, Copy, Debug, PartialEq, Eq)]
pub enum TcMutation {
    SetBalance(i128),
    SetLocalMaxDebt(u128),
    SetRemoteMaxDebt(u128),
    SetLocalPendingDebt(u128),
    SetRemotePendingDebt(u128),
    SetIncomingMoveToken(MoveTokenHashed),
}

impl TokenChannel {
    /// A fresh channel with the given balance and no debts.
    pub open spec fn fresh(local: PublicKey, remote: PublicKey, balance: i128) -> TokenChannel {
        TokenChannel {
            local_public_key: local,
            remote_public_key: remote,
            balance: McBalance {
                balance: balance,
                local_max_debt: 0,
                remote_max_debt: 0,
                local_pending_debt: 0,
                remote_pending_debt: 0,
            },
            opt_last_incoming_move_token: None,
        }
    }

    /// The channel after a mutation.
    pub open spec fn mutated(self, m: TcMutation) -> TokenChannel {
        match m {
            TcMutation::SetBalance(b) => TokenChannel {
                balance: McBalance { balance: b, ..self.balance },
                ..self
            },
            TcMutation::SetLocalMaxDebt(d) => TokenChannel {
                balance: McBalance { local_max_debt: d, ..self.balance },
                ..self
            },
            TcMutation::SetRemoteMaxDebt(d) => TokenChannel {
                balance: McBalance { remote_max_debt: d, ..self.balance },
                ..self
            },
            TcMutation::SetLocalPendingDebt(d) => TokenChannel {
                balance: McBalance { local_pending_debt: d, ..self.balance },
                ..self
            },
            TcMutation::SetRemotePendingDebt(d) => TokenChannel {
                balance: McBalance { remote_pending_debt: d, ..self.balance },
                ..self
            },
            TcMutation::SetIncomingMoveToken(t) => TokenChannel {
                opt_last_incoming_move_token: Some(t),
                ..self
            },
        }
    }

    /// Opens a channel between two keys with an initial balance.
    pub fn new(local_public_key: &PublicKey, remote_public_key: &PublicKey, balance: i128) -> (r: Self)
        ensures
            r == Self::fresh(*local_public_key, *remote_public_key, balance),
    {
        TokenChannel {
            local_public_key: *local_public_key,
            remote_public_key: *remote_public_key,
            balance: McBalance {
                balance,
                local_max_debt: 0,
                remote_max_debt: 0,
                local_pending_debt: 0,
                remote_pending_debt: 0,
            },
            opt_last_incoming_move_token: None,
        }
    }

    /// The last move token received from the remote side, if any.
    pub fn get_last_incoming_move_token_hashed(&self) -> (r: Option<MoveTokenHashed>)
        ensures
            r == self.opt_last_incoming_move_token,
    {
        self.opt_last_incoming_move_token
    }

    /// Applies a mutation.
    pub fn mutate(&mut self, m: &TcMutation)
        ensures
            *final(self) == old(self).mutated(*m),
    {
        match *m {
            TcMutation::SetBalance(b) => self.balance.balance = b,
            TcMutation::SetLocalMaxDebt(d) => self.balance.local_max_debt = d,
            TcMutation::SetRemoteMaxDebt(d) => self.balance.remote_max_debt = d,
            TcMutation::SetLocalPendingDebt(d) => self.balance.local_pending_debt = d,
            TcMutation::SetRemotePendingDebt(d) => self.balance.remote_pending_debt = d,
            TcMutation::SetIncomingMoveToken(t) => self.opt_last_incoming_move_token = Some(t),
        }
    }
}

} // verus!
