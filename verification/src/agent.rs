//! The agent's in-memory state: the wallet balances it watches and the
//! history of its fundraising attempts. Amounts are whole satoshis and
//! timestamps are Unix seconds; the clock and the wallet connection that
//! produce them live outside the library.

use vstd::prelude::*;

verus! {

/// The two balances the agent watches, in satoshis.
pub struct WalletState {
    pub onchain_sats: u64,
    pub lightning_sats: u64,
}

/// One published donation-request note.
pub struct SocialMediaPost {
    pub content: String,
    pub platform: String,
    pub timestamp: i64,
}

/// One fundraising attempt and what it brought in.
pub struct FundraisingAttempt {
    pub timestamp: i64,
    pub post_content: SocialMediaPost,
    pub donations_received_sats: u64,
    pub donor_count: u32,
}

/// The agent: its wallet view and its fundraising history.
pub struct Sloppy {
    pub wallet: WalletState,
    pub fundraising_history: Vec<FundraisingAttempt>,
}

impl Sloppy {
    /// A fresh agent: both balances zero, no history.
    pub fn new() -> (agent: Self)
        ensures
            agent.wallet.onchain_sats == 0,
            agent.wallet.lightning_sats == 0,
            agent.fundraising_history@.len() == 0,
    {
        Sloppy {
            wallet: WalletState { onchain_sats: 0, lightning_sats: 0 },
            fundraising_history: Vec::new(),
        }
    }

    /// Take the lightning balance the wallet reported, in millisatoshis,
    /// and record it in whole satoshis; nothing else changes.
    pub fn refresh_wallet(&mut self, balance_msats: u64)
        ensures
            final(self).wallet.lightning_sats == balance_msats / 1000,
            final(self).wallet.onchain_sats == old(self).wallet.onchain_sats,
            final(self).fundraising_history == old(self).fundraising_history,
    {
        self.wallet.lightning_sats = crate::heuristic::msats_to_sats(balance_msats);
    }

    /// Append one attempt to the fundraising history; the wallet view is
    /// untouched.
    pub fn update_fundraising_history(&mut self, attempt: FundraisingAttempt)
        ensures
            final(self).fundraising_history@ == old(self).fundraising_history@.push(attempt),
            final(self).wallet == old(self).wallet,
    {
        self.fundraising_history.push(attempt);
    }
}

} // verus!
