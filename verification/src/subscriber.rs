//! What a client that watches a pool account asks of the event stream. The
//! request is described here in plain values; the client turns it into the
//! stream's own request type and opens the connection.

use vstd::prelude::*;

verus! {

/// How settled a change must be before the stream reports it.
#[derive(Debug, Clone, Copy, PartialEq, Eq, Structural)]
pub enum CommitmentLevel {
    Processed,
    Confirmed,
    Finalized,
}

/// Which accounts a subscription watches: the named accounts, and those
/// owned by the named owners.
#[derive(Debug, Clone)]
pub struct AccountsFilter {
    pub account: Vec<String>,
    pub owner: Vec<String>,
}

/// A subscription to account updates with a single, named filter.
#[derive(Debug, Clone)]
pub struct PoolSubscribeRequest {
    /// The slot from which updates are wanted.
    pub from_slot: Option<u64>,
    /// The name under which the filter is registered.
    pub filter_name: String,
    /// The filter itself.
    pub accounts: AccountsFilter,
    /// The commitment level asked for.
    pub commitment: Option<CommitmentLevel>,
}

/// Where the event stream is, how to authenticate with it, and which pool
/// account to watch.
#[derive(Debug, Clone)]
pub struct BlockService {
    pub geyser_url: String,
    pub token: String,
    pub pool_address: String,
}

impl BlockService {
    /// A service description made of its three parts.
    pub fn new(geyser_url: String, token: String, pool_address: String) -> (service: BlockService)
        ensures
            service.geyser_url == geyser_url,
            service.token == token,
            service.pool_address == pool_address,
    {
        BlockService { geyser_url, token, pool_address }
    }

    /// The subscription for the pool account: one filter, registered as
    /// `client`, that names the pool address and no owner; updates from slot
    /// zero on, at the `Processed` commitment level.
    pub fn get_pool_subsribe_request(&self) -> (request: PoolSubscribeRequest)
        ensures
            request.from_slot == Some(0u64),
            request.filter_name@ == "client"@,
            request.accounts.account@ == seq![self.pool_address],
            request.accounts.owner@ == Seq::<String>::empty(),
            request.commitment == Some(CommitmentLevel::Processed),
    {
        let mut account: Vec<String> = Vec::new();
        account.push(self.pool_address.clone());
        PoolSubscribeRequest {
            from_slot: Some(0),
            filter_name: "client".to_owned(),
            accounts: AccountsFilter { account, owner: Vec::new() },
            commitment: Some(CommitmentLevel::Processed),
        }
    }
}

} // verus!
