//! The multi-token ledger: per-(token id, account) balances, mints,
//! transfers, and operator approvals. The curation pipeline calls
//! `mint_batch` to reward a verified contribution.

use vstd::prelude::*;
use crate::store::IdMap;
use crate::store::PairMap;
use crate::store::lemma_map_values_insert;

verus! {

#[derive(Clone, Copy, PartialEq, Eq, Structural, Debug)]
pub enum Error {
    /// Setting Approval For Self
    SettingApprovalForSelf,
    /// Token Does Not Exist
    TokenDoesNotExist,
    /// Token Already Exists
    TokenAlreadyExists,
    /// Same Address
    SameAddress,
    /// Zero Amount
    ZeroAmount,
    /// Insufficient Balance For Transfer
    InsufficientBalanceForTransfer,
    /// Overflow
    Overflow,
    /// Not Allowed To Transfer
    NotAllowedToTransfer,
    /// Royalties Should Sum Up To 10000
    RoyaltiesShouldSumUpTo10000,
    /// Different Lengths of Input Vectors
    DifferentLengthInputVectors,
}

#[derive(Clone, Copy, PartialEq, Eq, Structural, Debug)]
pub enum Event {
    TokenMinted { to: u64, id: u128, amount: u128 },
    ApprovalForAll { owner: u64, operator: u64, approved: bool },
    TokenTransferred { from: u64, to: u64, id: u128, amount: u128 },
}

/// Abstract state of the ledger. Balance and approval maps are keyed by
/// (token id, account) and (owner, operator) pairs; absent keys read as
/// zero and `false` respectively.
pub struct NftView {
    pub balances: Map<(u128, u128), u128>,
    pub total_supply: Map<u128, u128>,
    pub token_uri: Map<u128, Seq<u8>>,
    pub operator_approvals: Map<(u128, u128), bool>,
    pub tokens_count: u128,
    pub events: Seq<Event>,
}

/// The balance of `who` for token `id`; zero when no entry exists.
pub open spec fn balance(v: NftView, id: u128, who: u64) -> u128 {
    if v.balances.contains_key((id, who as u128)) {
        v.balances[(id, who as u128)]
    } else {
        0
    }
}

/// Whether `operator` may move tokens owned by `owner`.
pub open spec fn approved_for(v: NftView, owner: u64, operator: u64) -> bool {
    if v.operator_approvals.contains_key((owner as u128, operator as u128)) {
        v.operator_approvals[(owner as u128, operator as u128)]
    } else {
        false
    }
}

/// A token exists once a total supply has been recorded for it. Only
/// `mint` records one; `mint_batch` deliberately leaves it absent, so
/// batch-minted ids never count as existing.
pub open spec fn token_exists_in(v: NftView, id: u128) -> bool {
    v.total_supply.contains_key(id)
}

pub open spec fn initial_nft() -> NftView {
    NftView {
        balances: Map::empty(),
        total_supply: Map::empty(),
        token_uri: Map::empty(),
        operator_approvals: Map::empty(),
        tokens_count: 0,
        events: Seq::empty(),
    }
}

pub open spec fn mint_err(v: NftView, id: u128, amount: u128) -> Option<Error> {
    if token_exists_in(v, id) {
        Some(Error::TokenAlreadyExists)
    } else if amount == 0 {
        Some(Error::ZeroAmount)
    } else if v.tokens_count == u128::MAX {
        Some(Error::Overflow)
    } else {
        None
    }
}

pub open spec fn mint_ok(v: NftView, to: u64, id: u128, amount: u128, uri: Seq<u8>) -> NftView {
    NftView {
        balances: v.balances.insert((id, to as u128), amount),
        total_supply: v.total_supply.insert(id, amount),
        token_uri: v.token_uri.insert(id, uri),
        tokens_count: (v.tokens_count + 1) as u128,
        events: v.events.push(Event::TokenMinted { to, id, amount }),
        ..v
    }
}

/// Balances after minting `amounts[i]` of token `id` to each `tos[i]` in
/// order; a repeated recipient keeps only the last amount, as each mint
/// overwrites the entry.
pub open spec fn batch_balances(
    m: Map<(u128, u128), u128>,
    id: u128,
    tos: Seq<u64>,
    amounts: Seq<u128>,
) -> Map<(u128, u128), u128>
    decreases tos.len(),
{
    if tos.len() == 0 {
        m
    } else {
        batch_balances(m, id, tos.drop_last(), amounts.drop_last()).insert(
            (id, tos.last() as u128),
            amounts.last(),
        )
    }
}

/// One `TokenMinted` event per recipient, in order.
pub open spec fn batch_events(e: Seq<Event>, id: u128, tos: Seq<u64>, amounts: Seq<u128>) -> Seq<
    Event,
>
    decreases tos.len(),
{
    if tos.len() == 0 {
        e
    } else {
        batch_events(e, id, tos.drop_last(), amounts.drop_last()).push(
            Event::TokenMinted { to: tos.last(), id, amount: amounts.last() },
        )
    }
}

pub open spec fn mint_batch_err(v: NftView, id: u128, tos: Seq<u64>, amounts: Seq<u128>) -> Option<
    Error,
> {
    if token_exists_in(v, id) {
        Some(Error::TokenAlreadyExists)
    } else if tos.len() != amounts.len() {
        Some(Error::DifferentLengthInputVectors)
    } else if v.tokens_count == u128::MAX {
        Some(Error::Overflow)
    } else if exists|i: int| 0 <= i < amounts.len() && amounts[i] == 0 {
        Some(Error::ZeroAmount)
    } else {
        None
    }
}

pub open spec fn mint_batch_ok(
    v: NftView,
    id: u128,
    tos: Seq<u64>,
    amounts: Seq<u128>,
    uri: Seq<u8>,
) -> NftView {
    NftView {
        balances: batch_balances(v.balances, id, tos, amounts),
        token_uri: v.token_uri.insert(id, uri),
        tokens_count: (v.tokens_count + 1) as u128,
        events: batch_events(v.events, id, tos, amounts),
        ..v
    }
}

/// Moving `amount` of `id` from `from` to `to`: the debit happens first,
/// then the credit reads the balance the debit left behind, so a
/// self-transfer nets out without overflowing.
pub open spec fn transfer_move_err(
    v: NftView,
    from: u64,
    to: u64,
    id: u128,
    amount: u128,
) -> Option<Error> {
    let bal_from = balance(v, id, from);
    if bal_from < amount {
        Some(Error::InsufficientBalanceForTransfer)
    } else {
        let v1 = NftView { balances: v.balances.insert((id, from as u128), (bal_from - amount) as u128), ..v };
        if balance(v1, id, to) + amount > u128::MAX {
            Some(Error::Overflow)
        } else {
            None
        }
    }
}

pub open spec fn transfer_move_ok(v: NftView, from: u64, to: u64, id: u128, amount: u128) -> NftView {
    let bal_from = balance(v, id, from);
    let v1 = NftView { balances: v.balances.insert((id, from as u128), (bal_from - amount) as u128), ..v };
    let bal_to = balance(v1, id, to);
    NftView { balances: v1.balances.insert((id, to as u128), (bal_to + amount) as u128), ..v }
}

pub open spec fn transfer_err(
    v: NftView,
    who: u64,
    from: u64,
    to: u64,
    id: u128,
    amount: u128,
) -> Option<Error> {
    if !(who == from || approved_for(v, from, who)) {
        Some(Error::NotAllowedToTransfer)
    } else if !token_exists_in(v, id) {
        Some(Error::TokenDoesNotExist)
    } else if amount == 0 {
        Some(Error::ZeroAmount)
    } else if to == who {
        Some(Error::SameAddress)
    } else {
        transfer_move_err(v, from, to, id, amount)
    }
}

pub open spec fn transfer_ok(v: NftView, from: u64, to: u64, id: u128, amount: u128) -> NftView {
    let v2 = transfer_move_ok(v, from, to, id, amount);
    NftView { events: v2.events.push(Event::TokenTransferred { from, to, id, amount }), ..v2 }
}

pub open spec fn set_approval_err(owner: u64, operator: u64) -> Option<Error> {
    if owner == operator {
        Some(Error::SettingApprovalForSelf)
    } else {
        None
    }
}

pub open spec fn set_approval_ok(v: NftView, owner: u64, operator: u64, approved: bool) -> NftView {
    NftView {
        operator_approvals: v.operator_approvals.insert((owner as u128, operator as u128), approved),
        events: v.events.push(Event::ApprovalForAll { owner, operator, approved }),
        ..v
    }
}

/// Sum of the basis-point shares of a royalty split.
pub open spec fn royalty_sum(s: Seq<(u64, u16)>) -> int
    decreases s.len(),
{
    if s.len() == 0 {
        0
    } else {
        royalty_sum(s.drop_last()) + s.last().1
    }
}

pub struct Pallet {
    balances: PairMap<u128>,
    total_supply: IdMap<u128>,
    token_uri: IdMap<Vec<u8>>,
    operator_approvals: PairMap<bool>,
    tokens_count: u128,
    events: Vec<Event>,
}

impl View for Pallet {
    type V = NftView;

    closed spec fn view(&self) -> NftView {
        NftView {
            balances: self.balances@,
            total_supply: self.total_supply@,
            token_uri: self.token_uri@.map_values(|u: Vec<u8>| u@),
            operator_approvals: self.operator_approvals@,
            tokens_count: self.tokens_count,
            events: self.events@,
        }
    }
}

impl Pallet {
    pub closed spec fn wf(&self) -> bool {
        &&& self.balances.inv()
        &&& self.total_supply.inv()
        &&& self.token_uri.inv()
        &&& self.operator_approvals.inv()
    }

    pub fn new() -> (p: Self)
        ensures
            p.wf(),
            p@ == initial_nft(),
    {
        let p = Pallet {
            balances: PairMap::new(),
            total_supply: IdMap::new(),
            token_uri: IdMap::new(),
            operator_approvals: PairMap::new(),
            tokens_count: 0,
            events: Vec::new(),
        };
        proof {
            assert(p@.token_uri =~= initial_nft().token_uri);
        }
        p
    }

    pub fn token_exists(&self, id: u128) -> (b: bool)
        requires
            self.wf(),
        ensures
            b == token_exists_in(self@, id),
    {
        self.total_supply.get(id).is_some()
    }

    #[allow(unused_variables)]
    pub fn mint(&mut self, who: u64, to: u64, id: u128, amount: u128, uri: Vec<u8>) -> (r: Result<
        (),
        Error,
    >)
        requires
            old(self).wf(),
        ensures
            final(self).wf(),
            match mint_err(old(self)@, id, amount) {
                Some(e) => r == Err::<(), Error>(e) && final(self)@ == old(self)@,
                None => r == Ok::<(), Error>(()) && final(self)@ == mint_ok(
                    old(self)@,
                    to,
                    id,
                    amount,
                    uri@,
                ),
            },
    {
        if self.total_supply.get(id).is_some() {
            return Err(Error::TokenAlreadyExists);
        }
        if amount == 0 {
            return Err(Error::ZeroAmount);
        }
        if self.tokens_count == u128::MAX {
            return Err(Error::Overflow);
        }
        let ghost v0 = self@;
        self.balances.insert((id, to as u128), amount);
        self.events.push(Event::TokenMinted { to, id, amount });
        self.total_supply.insert(id, amount);
        self.token_uri.insert(id, uri);
        self.tokens_count = self.tokens_count + 1;
        proof {
            lemma_map_values_insert(old(self).token_uri@, |u: Vec<u8>| u@, id, uri);
        }
        Ok(())
    }

    #[allow(unused_variables)]
    pub fn mint_batch(
        &mut self,
        who: u64,
        tos: Vec<u64>,
        id: u128,
        amounts: Vec<u128>,
        uri: Vec<u8>,
    ) -> (r: Result<(), Error>)
        requires
            old(self).wf(),
        ensures
            final(self).wf(),
            match mint_batch_err(old(self)@, id, tos@, amounts@) {
                Some(e) => r == Err::<(), Error>(e) && final(self)@ == old(self)@,
                None => r == Ok::<(), Error>(()) && final(self)@ == mint_batch_ok(
                    old(self)@,
                    id,
                    tos@,
                    amounts@,
                    uri@,
                ),
            },
    {
        if self.total_supply.get(id).is_some() {
            return Err(Error::TokenAlreadyExists);
        }
        if tos.len() != amounts.len() {
            return Err(Error::DifferentLengthInputVectors);
        }
        if self.tokens_count == u128::MAX {
            return Err(Error::Overflow);
        }
        let n = tos.len();
        let mut i: usize = 0;
        while i < n
            invariant
                self.wf(),
                self@ == old(self)@,
                !token_exists_in(self@, id),
                tos@.len() == amounts@.len(),
                n == amounts@.len(),
                self@.tokens_count != u128::MAX,
                i <= n,
                forall|j: int| 0 <= j < i ==> amounts@[j] != 0,
            decreases n - i,
        {
            if amounts[i] == 0 {
                return Err(Error::ZeroAmount);
            }
            i += 1;
        }
        let ghost v0 = self@;
        let mut i: usize = 0;
        while i < n
            invariant
                old(self).wf(),
                self.wf(),
                n == tos@.len(),
                n == amounts@.len(),
                i <= n,
                v0 == old(self)@,
                self.balances@ == batch_balances(v0.balances, id, tos@.take(i as int), amounts@.take(i as int)),
                self.events@ == batch_events(v0.events, id, tos@.take(i as int), amounts@.take(i as int)),
                self.total_supply@ == v0.total_supply,
                self.token_uri@ == old(self).token_uri@,
                self.operator_approvals@ == v0.operator_approvals,
                self.tokens_count == v0.tokens_count,
            decreases n - i,
        {
            let to = tos[i];
            let amount = amounts[i];
            self.balances.insert((id, to as u128), amount);
            self.events.push(Event::TokenMinted { to, id, amount });
            proof {
                assert(tos@.take(i + 1).drop_last() =~= tos@.take(i as int));
                assert(amounts@.take(i + 1).drop_last() =~= amounts@.take(i as int));
            }
            i += 1;
        }
        proof {
            assert(tos@.take(n as int) =~= tos@);
            assert(amounts@.take(n as int) =~= amounts@);
        }
        self.token_uri.insert(id, uri);
        self.tokens_count = self.tokens_count + 1;
        proof {
            lemma_map_values_insert(old(self).token_uri@, |u: Vec<u8>| u@, id, uri);
        }
        Ok(())
    }

    /// The raw balance move shared by `transfer`: debit `from`, then
    /// credit `to`, failing without any change when the debit or the
    /// credit cannot happen.
    pub fn transfer_balances(&mut self, from: u64, to: u64, id: u128, amount: u128) -> (r: Result<
        (),
        Error,
    >)
        requires
            old(self).wf(),
        ensures
            final(self).wf(),
            match transfer_move_err(old(self)@, from, to, id, amount) {
                Some(e) => r == Err::<(), Error>(e) && final(self)@ == old(self)@,
                None => r == Ok::<(), Error>(()) && final(self)@ == transfer_move_ok(
                    old(self)@,
                    from,
                    to,
                    id,
                    amount,
                ),
            },
    {
        let bal_from = match self.balances.get((id, from as u128)) {
            Some(b) => *b,
            None => 0,
        };
        if bal_from < amount {
            return Err(Error::InsufficientBalanceForTransfer);
        }
        let new_from = bal_from - amount;
        let bal_to = if to == from {
            new_from
        } else {
            match self.balances.get((id, to as u128)) {
                Some(b) => *b,
                None => 0,
            }
        };
        if bal_to > u128::MAX - amount {
            return Err(Error::Overflow);
        }
        self.balances.insert((id, from as u128), new_from);
        self.balances.insert((id, to as u128), bal_to + amount);
        Ok(())
    }

    pub fn transfer(&mut self, who: u64, from: u64, to: u64, id: u128, amount: u128) -> (r: Result<
        (),
        Error,
    >)
        requires
            old(self).wf(),
        ensures
            final(self).wf(),
            match transfer_err(old(self)@, who, from, to, id, amount) {
                Some(e) => r == Err::<(), Error>(e) && final(self)@ == old(self)@,
                None => r == Ok::<(), Error>(()) && final(self)@ == transfer_ok(
                    old(self)@,
                    from,
                    to,
                    id,
                    amount,
                ),
            },
    {
        let allowed = if who == from {
            true
        } else {
            match self.operator_approvals.get((from as u128, who as u128)) {
                Some(b) => *b,
                None => false,
            }
        };
        if !allowed {
            return Err(Error::NotAllowedToTransfer);
        }
        if self.total_supply.get(id).is_none() {
            return Err(Error::TokenDoesNotExist);
        }
        if amount == 0 {
            return Err(Error::ZeroAmount);
        }
        if to == who {
            return Err(Error::SameAddress);
        }
        match self.transfer_balances(from, to, id, amount) {
            Ok(()) => {
                self.events.push(Event::TokenTransferred { from, to, id, amount });
                Ok(())
            },
            Err(e) => Err(e),
        }
    }

    pub fn set_approval_for_all(&mut self, owner: u64, operator: u64, approved: bool) -> (r: Result<
        (),
        Error,
    >)
        requires
            old(self).wf(),
        ensures
            final(self).wf(),
            match set_approval_err(owner, operator) {
                Some(e) => r == Err::<(), Error>(e) && final(self)@ == old(self)@,
                None => r == Ok::<(), Error>(()) && final(self)@ == set_approval_ok(
                    old(self)@,
                    owner,
                    operator,
                    approved,
                ),
            },
    {
        if owner == operator {
            return Err(Error::SettingApprovalForSelf);
        }
        self.operator_approvals.insert((owner as u128, operator as u128), approved);
        self.events.push(Event::ApprovalForAll { owner, operator, approved });
        Ok(())
    }

    /// A royalty split is accepted exactly when its basis points sum to
    /// the whole, 10000.
    pub fn check_royalty_split(royalty_split: Vec<(u64, u16)>) -> (r: Result<(), Error>)
        requires
            royalty_sum(royalty_split@) <= u16::MAX,
        ensures
            r == if royalty_sum(royalty_split@) == 10000 {
                Ok::<(), Error>(())
            } else {
                Err::<(), Error>(Error::RoyaltiesShouldSumUpTo10000)
            },
    {
        let n = royalty_split.len();
        let mut sum: u16 = 0;
        let mut i: usize = 0;
        while i < n
            invariant
                n == royalty_split@.len(),
                i <= n,
                royalty_sum(royalty_split@) <= u16::MAX,
                sum == royalty_sum(royalty_split@.take(i as int)),
            decreases n - i,
        {
            proof {
                assert(royalty_split@.take(i + 1).drop_last() =~= royalty_split@.take(i as int));
                lemma_royalty_prefix(royalty_split@, i + 1);
            }
            sum = sum + royalty_split[i].1;
            i += 1;
        }
        proof {
            assert(royalty_split@.take(n as int) =~= royalty_split@);
        }
        if sum == 10000 {
            Ok(())
        } else {
            Err(Error::RoyaltiesShouldSumUpTo10000)
        }
    }

    pub fn get_tokens_count(&self) -> (c: u128)
        ensures
            c == self@.tokens_count,
    {
        self.tokens_count
    }

    pub fn balance_of(&self, id: u128, who: u64) -> (b: u128)
        requires
            self.wf(),
        ensures
            b == balance(self@, id, who),
    {
        match self.balances.get((id, who as u128)) {
            Some(b) => *b,
            None => 0,
        }
    }

    pub fn operator_approvals(&self, owner: u64, operator: u64) -> (b: bool)
        requires
            self.wf(),
        ensures
            b == approved_for(self@, owner, operator),
    {
        match self.operator_approvals.get((owner as u128, operator as u128)) {
            Some(b) => *b,
            None => false,
        }
    }

    pub fn get_total_supply(&self, id: u128) -> (s: Option<u128>)
        requires
            self.wf(),
        ensures
            match s {
                Some(x) => self@.total_supply.contains_key(id) && x == self@.total_supply[id],
                None => !self@.total_supply.contains_key(id),
            },
    {
        match self.total_supply.get(id) {
            Some(x) => Some(*x),
            None => None,
        }
    }

    pub fn get_token_uri(&self, id: u128) -> (u: Option<&Vec<u8>>)
        requires
            self.wf(),
        ensures
            match u {
                Some(x) => self@.token_uri.contains_key(id) && x@ == self@.token_uri[id],
                None => !self@.token_uri.contains_key(id),
            },
    {
        self.token_uri.get(id)
    }

    pub fn events(&self) -> (e: &Vec<Event>)
        ensures
            e@ == self@.events,
    {
        &self.events
    }
}

/// Every prefix of a royalty split sums to no more than the whole list,
/// since shares are unsigned.
proof fn lemma_royalty_prefix(s: Seq<(u64, u16)>, i: int)
    requires
        0 <= i <= s.len(),
    ensures
        royalty_sum(s.take(i)) <= royalty_sum(s),
    decreases s.len() - i,
{
    if i < s.len() {
        lemma_royalty_prefix(s, i + 1);
        assert(s.take(i + 1).drop_last() =~= s.take(i));
    } else {
        assert(s.take(i) =~= s);
    }
}

} // verus!
