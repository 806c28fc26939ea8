use vstd::prelude::*;
use crate::identity::Identity;
use crate::events::Event;

verus! {

/// A movement of `amount` units of the fungible token `token`.
#[derive(Debug)]
pub struct Transfer {
    pub token: Identity,
    pub from: Identity,
    pub to: Identity,
    pub amount: i128,
}

/// What one entry-point invocation reads from the host and asks of it.
///
/// `now` and `contract` are given by the host. `auths` lists, in order, the
/// identities whose authorization the invocation demanded; the host aborts the
/// whole invocation if one of them did not authorize it. `transfers` are the
/// token movements to perform, `events` the events to publish, and
/// `code_update` the hash of the code that
/// replaces the contract's own.
pub struct Invocation {
    pub now: u64,
    pub contract: Identity,
    pub auths: Vec<Identity>,
    pub transfers: Vec<Transfer>,
    pub events: Vec<Event>,
    pub code_update: Option<[u8; 32]>,
}

/// The authorization demands `auths`, with `who` appended when `demanded` holds.
pub open spec fn auths_after(auths: Seq<Identity>, demanded: bool, who: Identity) -> Seq<Identity> {
    if demanded {
        auths.push(who)
    } else {
        auths
    }
}

impl Invocation {
    /// Everything but the authorization demands is as in `other`.
    pub open spec fn same_but_auths(&self, other: &Invocation) -> bool {
        &&& self.now == other.now
        &&& self.contract == other.contract
        &&& self.transfers == other.transfers
        &&& self.events == other.events
        &&& self.code_update == other.code_update
    }

    pub fn new(now: u64, contract: Identity) -> (r: Invocation)
        ensures
            r.now == now,
            r.contract == contract,
            r.auths@.len() == 0,
            r.transfers@.len() == 0,
            r.events@.len() == 0,
            r.code_update is None,
    {
        Invocation { now, contract, auths: Vec::new(), transfers: Vec::new(), events: Vec::new(), code_update: None }
    }

    /// Demands that `who` authorized this invocation.
    pub fn require_auth(&mut self, who: &Identity)
        ensures
            final(self).auths@ == old(self).auths@.push(*who),
            final(self).same_but_auths(old(self)),
    {
        self.auths.push(who.clone());
    }

    /// Asks the host to publish `event`.
    pub fn emit(&mut self, event: Event)
        ensures
            final(self).events@ == old(self).events@.push(event),
            final(self).auths == old(self).auths,
            final(self).now == old(self).now,
            final(self).contract == old(self).contract,
            final(self).transfers == old(self).transfers,
            final(self).code_update == old(self).code_update,
    {
        self.events.push(event);
    }

    /// Asks the host to move `amount` units of `token` from `from` to `to`.
    pub fn transfer(&mut self, token: &Identity, from: &Identity, to: &Identity, amount: i128)
        ensures
            final(self).transfers@ == old(self).transfers@.push(
                (Transfer { token: *token, from: *from, to: *to, amount }),
            ),
            final(self).auths == old(self).auths,
            final(self).now == old(self).now,
            final(self).contract == old(self).contract,
            final(self).events == old(self).events,
            final(self).code_update == old(self).code_update,
    {
        self.transfers.push(
            Transfer { token: token.clone(), from: from.clone(), to: to.clone(), amount },
        );
    }

    /// Asks the host to replace the contract code by the code with hash `hash`.
    pub fn update_code(&mut self, hash: [u8; 32])
        ensures
            final(self).code_update == Some(hash),
            final(self).auths == old(self).auths,
            final(self).now == old(self).now,
            final(self).contract == old(self).contract,
            final(self).transfers == old(self).transfers,
            final(self).events == old(self).events,
    {
        self.code_update = Some(hash);
    }
}

} // verus!
