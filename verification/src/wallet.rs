use vstd::prelude::*;
use crate::error::ClientError;
use crate::session::spec_send_outcome;
use crate::types::Address;
use crate::types::TxHash;
use crate::uint::Uint256;

verus! {

/// One account as the wallet reports it: an address and the balance
/// standing behind it.
#[derive(Clone, Copy, Debug)]
pub struct Account {
    pub addr: Address,
    pub balance: Uint256,
}

/// A wallet that honors the protocol, reduced to what the client can
/// observe: an active network, a list of unlocked accounts, and the
/// hash the next mined transaction will carry. It is the ambient,
/// shared state the session talks to; the client never caches it, and
/// the laws below say what the protocol guarantees when this state
/// answers the requests.
#[derive(Debug)]
pub struct ModelWallet {
    pub chain: Uint256,
    pub accounts: Vec<Account>,
    pub mined_hash: TxHash,
}

/// What an honoring wallet looks like after adopting `chain_id`: the
/// active network is exactly the requested identifier and nothing else
/// moves.
pub open spec fn spec_switched(w: ModelWallet, chain_id: Uint256) -> ModelWallet {
    ModelWallet { chain: chain_id, ..w }
}

impl ModelWallet {
    /// The addresses of the unlocked accounts, in the wallet's order.
    pub open spec fn spec_addresses(self) -> Seq<Address> {
        self.accounts@.map_values(|a: Account| a.addr)
    }

    /// Whether `from` is an unlocked account whose balance covers
    /// `amount`.
    pub open spec fn spec_funded(self, from: Address, amount: Uint256) -> bool {
        exists|i: int|
            0 <= i < self.accounts@.len() && (#[trigger] self.accounts@[i]).addr == from
                && amount.as_nat() <= self.accounts@[i].balance.as_nat()
    }

    /// A fresh wallet on network `chain` with no unlocked accounts.
    pub fn boot(chain: Uint256, mined_hash: TxHash) -> (w: ModelWallet)
        ensures
            w.chain == chain,
            w.accounts@.len() == 0,
            w.mined_hash == mined_hash,
    {
        ModelWallet { chain, accounts: Vec::new(), mined_hash }
    }

    /// Unlocks one more account.
    pub fn unlock(&mut self, account: Account)
        ensures
            final(self).chain == old(self).chain,
            final(self).mined_hash == old(self).mined_hash,
            final(self).accounts@ == old(self).accounts@.push(account),
    {
        self.accounts.push(account);
    }

    /// Adopts the requested network, exactly and unconditionally: no
    /// registry of real networks is consulted. Asking for the network
    /// the wallet is already on changes nothing at all.
    pub fn switch_network(&mut self, chain_id: &Uint256)
        ensures
            *final(self) == spec_switched(*old(self), *chain_id),
            final(self).chain == *chain_id,
            final(self).accounts@ == old(self).accounts@,
            final(self).mined_hash == old(self).mined_hash,
            old(self).chain == *chain_id ==> *final(self) == *old(self),
    {
        self.chain = *chain_id;
    }

    /// The live network. Every call reads the current state; nothing
    /// is cached across calls.
    pub fn current_chain_id(&self) -> (r: Uint256)
        ensures
            r == self.chain,
    {
        self.chain
    }

    /// The unlocked accounts' addresses, in the order the wallet keeps
    /// them. An empty list is a valid answer, not a failure.
    pub fn accounts(&self) -> (r: Vec<Address>)
        ensures
            r@ == self.spec_addresses(),
    {
        let mut out: Vec<Address> = Vec::new();
        let mut i: usize = 0;
        while i < self.accounts.len()
            invariant
                i <= self.accounts@.len(),
                out@.len() == i,
                forall|j: int| 0 <= j < i ==> #[trigger] out@[j] == self.accounts@[j].addr,
            decreases self.accounts@.len() - i,
        {
            out.push(self.accounts[i].addr);
            i = i + 1;
        }
        proof {
            assert(out@ =~= self.spec_addresses());
        }
        out
    }

    /// Answers one submission: the transfer is mined, and the receipt
    /// carries the wallet's next hash, exactly when the sender is an
    /// unlocked account whose balance covers the amount; otherwise
    /// there is no receipt. The recipient plays no part in the
    /// judgment.
    #[allow(unused_variables)]
    pub fn submit_transfer(&self, from: &Address, to: &Address, amount: &Uint256) -> (r: Option<
        TxHash,
    >)
        ensures
            r matches Some(h) ==> h == self.mined_hash,
            r is Some <==> self.spec_funded(*from, *amount),
    {
        let mut i: usize = 0;
        while i < self.accounts.len()
            invariant
                i <= self.accounts@.len(),
                forall|j: int|
                    0 <= j < i ==> !((#[trigger] self.accounts@[j]).addr == *from
                        && amount.as_nat() <= self.accounts@[j].balance.as_nat()),
            decreases self.accounts@.len() - i,
        {
            let candidate = self.accounts[i];
            if candidate.addr.same_as(from) && amount.le(&candidate.balance) {
                return Some(self.mined_hash);
            }
            i = i + 1;
        }
        None
    }
}

/// Round trip: a switch request for `c`, honored by the wallet, makes
/// a subsequent live query report exactly `c`, whatever the wallet was
/// on before — and repeating the same request leaves the wallet, and
/// hence the queried identifier, unchanged.
pub proof fn lemma_switch_round_trip(w: ModelWallet, c: Uint256)
    ensures
        spec_switched(w, c).chain == c,
        spec_switched(spec_switched(w, c), c) == spec_switched(w, c),
        spec_switched(w, c).accounts == w.accounts,
        spec_switched(w, c).mined_hash == w.mined_hash,
{
}

/// An underfunded sender never yields a hash: a wallet that mines only
/// funded transfers resolves such a submission to no receipt, and the
/// judgment of an absent receipt is the fixed transaction failure —
/// never a partially populated hash.
pub proof fn lemma_insufficient_balance_fails(
    w: ModelWallet,
    from: Address,
    amount: Uint256,
    receipt: Option<TxHash>,
)
    requires
        !w.spec_funded(from, amount),
        receipt is Some <==> w.spec_funded(from, amount),
    ensures
        receipt is None,
        spec_send_outcome(receipt) == Err::<TxHash, ClientError>(ClientError::TransactionFailed),
{
}

/// A wallet with no unlocked accounts answers the accounts query with
/// the empty sequence: an answer, not a failure.
pub proof fn lemma_no_accounts_empty(w: ModelWallet)
    requires
        w.accounts@.len() == 0,
    ensures
        w.spec_addresses() == Seq::<Address>::empty(),
{
    assert(w.spec_addresses() =~= Seq::<Address>::empty());
}

} // verus!
