use vstd::prelude::*;

verus! {

/// One asset transfer inside a webhook event.
#[derive(Clone, Debug)]
pub struct TokenTransfer {
    pub mint: String,
    pub from_user_account: Option<String>,
    pub to_user_account: Option<String>,
}

/// The pre-parsed events of a webhook notification.
#[derive(Clone, Debug, Default)]
pub struct HeliusEvents {
    pub token_transfers: Vec<TokenTransfer>,
}

/// A transaction notification: its signature and the transfers it carries.
#[derive(Clone, Debug)]
pub struct HeliusWebhook {
    pub signature: String,
    pub events: HeliusEvents,
}

impl HeliusWebhook {
    /// The asset of the first transfer, which the pipeline treats as the
    /// event's asset; `None` when the event carries no transfer.
    pub open spec fn primary_mint_spec(&self) -> Option<Seq<char>> {
        if self.events.token_transfers@.len() > 0 {
            Some(self.events.token_transfers@[0].mint@)
        } else {
            None
        }
    }

    pub fn primary_mint(&self) -> (r: Option<&str>)
        ensures
            r.is_some() == self.primary_mint_spec().is_some(),
            r matches Some(m) ==> self.primary_mint_spec() == Some(m@),
    {
        if self.events.token_transfers.len() > 0 {
            Some(self.events.token_transfers[0].mint.as_str())
        } else {
            None
        }
    }
}

} // verus!
