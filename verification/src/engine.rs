//! The sale and accounting engine of one collection.
//!
//! A purchase is validated against the whitelist, the sale window, the
//! remaining capacity and the buyer's ledger balance; the cost is split
//! between the protocol and the treasury with the rounding remainder going
//! to the treasury; and one mint instruction per token is produced for the
//! token registry, which owns token identity and performs the issuance.
//! Every check precedes every mutation, so a failing request changes
//! nothing; a successful one commits the whole effect at once.

use vstd::prelude::*;
use vstd::string::StringExecFns;

use crate::error::ContractError;
use crate::fees::{fee_amount, spec_fee_amount};
use crate::ledger::{spec_balance, Ledger};
use crate::numerals::{spec_dec, u64_to_dec};
use crate::registry::{ProptixDeploymentConfig, ProptixRuntimeConfig, QueryResponse};
use crate::response::{attr, Attribute, MintMsg, Response, TransferMsg};
use crate::store::StrMap;

verus! {

/// An amount of one denomination.
pub struct Coin {
    pub denom: String,
    pub amount: u128,
}

/// Chain-level parameters the engine is deployed under.
pub struct Params {
    pub mint_fee: Coin,
}

/// One token the engine has minted, as the engine records it.
pub struct Token {
    pub id: u64,
    pub owner: String,
    pub uri: String,
}

/// The engine's record of one token, for display queries.
pub struct TokenInfoResponse {
    pub token_id: u64,
    pub owner: String,
    pub uri: String,
}

/// Owner-restricted requests passed through to the token registry.
pub enum HandleMsg {
    IssueClass {
        name: String,
        symbol: String,
        description: Option<String>,
        uri: Option<String>,
        uri_hash: Option<String>,
        data: Option<Vec<u8>>,
        features: Option<Vec<u32>>,
        royalty_rate: Option<String>,
    },
    Mint {
        class_id: String,
        id: String,
        uri: Option<String>,
        uri_hash: Option<String>,
        data: Option<Vec<u8>>,
    },
    Burn { class_id: String, id: String },
    Freeze { class_id: String, id: String },
    Unfreeze { class_id: String, id: String },
    AddToWhitelist { class_id: String, id: String, account: String },
    RemoveFromWhitelist { class_id: String, id: String, account: String },
}

/// Mutating requests the engine executes itself.
pub enum ExecuteMsg {
    Whitelist { address: String, status: bool },
    Purchase { count: u64 },
}

/// The engine's owned state: configuration, whitelist, ledger, counter and
/// minted-token records.
pub struct State {
    pub collection_name: String,
    pub base_token_uri: String,
    pub base_token_uri_extension: String,
    pub prereveal_token_uri: String,
    pub treasury_address: String,
    pub protocol_address: String,
    pub mint_price: u128,
    pub sale_start_time: u64,
    pub sale_end_time: u64,
    pub protocol_fee: u8,
    pub max_total_mint: u64,
    pub current_token_id: u64,
    pub uri_status: bool,
    /// The collection owner; may change the whitelist.
    pub owner: String,
    pub whitelisted: StrMap<bool>,
    pub ledger: Ledger,
    pub tokens: Vec<Token>,
}

/// The configuration fields agree between two states; the whitelist, the
/// ledger, the counter and the token records may differ.
pub open spec fn same_core_config(a: State, b: State) -> bool {
    &&& a.collection_name == b.collection_name
    &&& a.base_token_uri == b.base_token_uri
    &&& a.base_token_uri_extension == b.base_token_uri_extension
    &&& a.prereveal_token_uri == b.prereveal_token_uri
    &&& a.treasury_address == b.treasury_address
    &&& a.protocol_address == b.protocol_address
    &&& a.mint_price == b.mint_price
    &&& a.sale_start_time == b.sale_start_time
    &&& a.sale_end_time == b.sale_end_time
    &&& a.protocol_fee == b.protocol_fee
    &&& a.max_total_mint == b.max_total_mint
    &&& a.uri_status == b.uri_status
    &&& a.owner == b.owner
}

/// Configuration and whitelist both agree between two states.
pub open spec fn same_sale_config(a: State, b: State) -> bool {
    same_core_config(a, b) && a.whitelisted@ == b.whitelisted@
}

impl State {
    /// Invariants: the fee percentage and the sale window are well formed,
    /// the counter never exceeds the supply bound, the stores are well
    /// formed, and recorded token identifiers are strictly increasing and
    /// all below the counter — no identifier is ever reused.
    pub open spec fn wf(self) -> bool {
        &&& self.protocol_fee <= 100
        &&& self.sale_start_time <= self.sale_end_time
        &&& self.current_token_id <= self.max_total_mint
        &&& self.tokens@.len() <= self.current_token_id
        &&& self.ledger.wf()
        &&& self.whitelisted.wf()
        &&& forall|i: int, j: int|
            0 <= i < j < self.tokens@.len() ==> #[trigger] self.tokens@[i].id
                < #[trigger] self.tokens@[j].id
        &&& forall|i: int|
            0 <= i < self.tokens@.len() ==> #[trigger] self.tokens@[i].id
                < self.current_token_id
    }

    /// Whether an address is whitelisted; absence counts as `false`.
    pub open spec fn spec_whitelisted(self, account: Seq<char>) -> bool {
        self.whitelisted@.dom().contains(account) && self.whitelisted@[account]
    }

    /// Whether `now` lies in the sale window.
    pub open spec fn spec_in_window(self, now: u64) -> bool {
        self.sale_start_time <= now && now <= self.sale_end_time
    }

    /// The exact cost of `count` tokens.
    pub open spec fn spec_total_cost(self, count: u64) -> int {
        self.mint_price as int * count as int
    }

    /// The URI a token is minted under: the base URI once revealed, the
    /// pre-reveal URI before that, concatenated with the decimal identifier
    /// and the extension in either case.
    pub open spec fn spec_token_uri(self, token_id: u64) -> Seq<char> {
        (if self.uri_status {
            self.base_token_uri@
        } else {
            self.prereveal_token_uri@
        }) + spec_dec(token_id as nat) + self.base_token_uri_extension@
    }

    /// The ledger after a successful purchase: the buyer debited by the
    /// total, the protocol credited its fee, the treasury the rest.
    pub open spec fn spec_ledger_after_purchase(self, sender: Seq<char>, count: u64) -> Map<
        Seq<char>,
        u128,
    > {
        let total = self.spec_total_cost(count);
        let fee = spec_fee_amount(total, self.protocol_fee as int);
        let m1 = self.ledger@.insert(
            sender,
            (spec_balance(self.ledger@, sender) - total) as u128,
        );
        let m2 = m1.insert(
            self.protocol_address@,
            (spec_balance(m1, self.protocol_address@) + fee) as u128,
        );
        m2.insert(
            self.treasury_address@,
            (spec_balance(m2, self.treasury_address@) + (total - fee)) as u128,
        )
    }

    /// Whether the two payout credits stay within the balance width.
    pub open spec fn spec_credits_fit(self, sender: Seq<char>, count: u64) -> bool {
        let total = self.spec_total_cost(count);
        let fee = spec_fee_amount(total, self.protocol_fee as int);
        let m1 = self.ledger@.insert(
            sender,
            (spec_balance(self.ledger@, sender) - total) as u128,
        );
        let m2 = m1.insert(
            self.protocol_address@,
            (spec_balance(m1, self.protocol_address@) + fee) as u128,
        );
        &&& spec_balance(m1, self.protocol_address@) + fee <= u128::MAX
        &&& spec_balance(m2, self.treasury_address@) + (total - fee) <= u128::MAX
    }

    /// The error a purchase fails with, or `None` when it must succeed:
    /// the checks run in this order and the first failing one decides.
    pub open spec fn spec_purchase_err(self, sender: Seq<char>, count: u64, now: u64) -> Option<
        ContractError,
    > {
        if !self.spec_whitelisted(sender) {
            Some(ContractError::Unauthorized)
        } else if !self.spec_in_window(now) {
            Some(ContractError::SaleNotActive)
        } else if self.current_token_id + count > self.max_total_mint {
            Some(ContractError::SupplyExhausted)
        } else if self.spec_total_cost(count) > u128::MAX {
            Some(ContractError::Overflow)
        } else if spec_balance(self.ledger@, sender) < self.spec_total_cost(count) {
            Some(ContractError::InsufficientFunds)
        } else if !self.spec_credits_fit(sender, count) {
            Some(ContractError::Overflow)
        } else {
            None
        }
    }

    /// What a successful purchase guarantees: the ledger split applied, the
    /// counter advanced by exactly `count`, one fresh consecutive
    /// identifier per token, and one mint instruction per token.
    pub open spec fn spec_purchase_ok(
        pre: State,
        post: State,
        resp: Response,
        sender: Seq<char>,
        count: u64,
    ) -> bool {
        &&& post.ledger@ == pre.spec_ledger_after_purchase(sender, count)
        &&& post.current_token_id == pre.current_token_id + count
        &&& post.tokens@.len() == pre.tokens@.len() + count
        &&& forall|k: int| 0 <= k < pre.tokens@.len() ==> post.tokens@[k] == pre.tokens@[k]
        &&& forall|k: int|
            pre.tokens@.len() <= k < post.tokens@.len() ==> (#[trigger] post.tokens@[k]).id
                == pre.current_token_id + (k - pre.tokens@.len()) && post.tokens@[k].owner@
                == sender && post.tokens@[k].uri@ == pre.spec_token_uri(post.tokens@[k].id)
        &&& same_sale_config(post, pre)
        &&& resp.mints@.len() == count
        &&& forall|k: int|
            0 <= k < count ==> (#[trigger] resp.mints@[k]).owner@ == sender && resp.mints@[k].token_id@
                == spec_dec((pre.current_token_id + k) as nat) && (resp.mints@[k].uri matches Some(u)
                && u@ == pre.spec_token_uri((pre.current_token_id + k) as u64))
                && resp.mints@[k].data is None
        &&& resp.attributes@.len() == 3
        &&& resp.attributes@[0].key@ == "action"@ && resp.attributes@[0].value@ == "purchase"@
        &&& resp.attributes@[1].key@ == "buyer"@ && resp.attributes@[1].value@ == sender
        &&& resp.attributes@[2].key@ == "count"@ && resp.attributes@[2].value@ == spec_dec(
            count as nat,
        )
    }

    /// A fresh engine built from its deployment and runtime configuration.
    /// The protocol address and the owner start empty and are set by the
    /// deployment plumbing; the counter starts at zero, every balance at
    /// zero, the whitelist empty, and the URI stays unrevealed.
    pub fn new(dc: &ProptixDeploymentConfig, rc: &ProptixRuntimeConfig) -> (r: State)
        requires
            rc.protocol_fee <= 100,
            rc.sale_start_time <= rc.sale_end_time,
        ensures
            r.wf(),
            r.collection_name@ == dc.name@,
            r.base_token_uri@ == rc.base_token_uri@,
            r.base_token_uri_extension@ == rc.base_token_uri_extension@,
            r.prereveal_token_uri@ == rc.prereveal_token_uri@,
            r.treasury_address@ == dc.treasury_address@,
            r.protocol_address@ == Seq::<char>::empty(),
            r.mint_price == rc.mint_price,
            r.sale_start_time == rc.sale_start_time,
            r.sale_end_time == rc.sale_end_time,
            r.protocol_fee == rc.protocol_fee,
            r.max_total_mint == dc.max_supply,
            r.current_token_id == 0,
            r.uri_status == false,
            r.owner@ == Seq::<char>::empty(),
            r.whitelisted@ == Map::<Seq<char>, bool>::empty(),
            r.ledger@ == Map::<Seq<char>, u128>::empty(),
            r.tokens@ == Seq::<Token>::empty(),
    {
        State {
            collection_name: dc.name.clone(),
            base_token_uri: rc.base_token_uri.clone(),
            base_token_uri_extension: rc.base_token_uri_extension.clone(),
            prereveal_token_uri: rc.prereveal_token_uri.clone(),
            treasury_address: dc.treasury_address.clone(),
            protocol_address: String::new(),
            mint_price: rc.mint_price,
            sale_start_time: rc.sale_start_time,
            sale_end_time: rc.sale_end_time,
            protocol_fee: rc.protocol_fee,
            max_total_mint: dc.max_supply,
            current_token_id: 0,
            uri_status: false,
            owner: String::new(),
            whitelisted: StrMap::new(),
            ledger: Ledger::new(),
            tokens: Vec::new(),
        }
    }

    /// Whether an address may purchase.
    pub fn is_whitelisted(&self, account: &String) -> (r: bool)
        requires
            self.wf(),
        ensures
            r == self.spec_whitelisted(account@),
    {
        match self.whitelisted.get(account) {
            Some(b) => *b,
            None => false,
        }
    }

    /// Sets an address's eligibility. Setting the stored value again is a
    /// no-op on the map, so the operation is idempotent.
    pub fn whitelist(&mut self, account: &String, status: bool)
        requires
            old(self).wf(),
        ensures
            final(self).wf(),
            final(self).whitelisted@ == old(self).whitelisted@.insert(account@, status),
            same_core_config(*final(self), *old(self)),
            final(self).ledger@ == old(self).ledger@,
            final(self).current_token_id == old(self).current_token_id,
            final(self).tokens@ == old(self).tokens@,
    {
        self.whitelisted.insert(account, status);
    }

    /// The buyer's spendable balance, zero for an unknown address.
    pub fn get_balance(&self, addr: &String) -> (r: Result<u128, ContractError>)
        requires
            self.wf(),
        ensures
            r == Ok::<u128, ContractError>(spec_balance(self.ledger@, addr@)),
    {
        Ok(self.ledger.balance_of(addr))
    }

    /// Shifts an address's balance by a signed amount: a credit for a
    /// non-negative `amount`, a debit for a negative one, rejected with
    /// `InsufficientFunds`, changing nothing, when the balance is smaller
    /// than the debit.
    pub fn update_balance(&mut self, addr: &String, amount: i128) -> (r: Result<
        (),
        ContractError,
    >)
        requires
            old(self).wf(),
            amount >= 0 ==> spec_balance(old(self).ledger@, addr@) + amount <= u128::MAX,
        ensures
            final(self).wf(),
            same_sale_config(*final(self), *old(self)),
            final(self).current_token_id == old(self).current_token_id,
            final(self).tokens@ == old(self).tokens@,
            match r {
                Ok(()) => {
                    let delta = amount as int;
                    &&& spec_balance(old(self).ledger@, addr@) + delta >= 0
                    &&& final(self).ledger@ == old(self).ledger@.insert(
                        addr@,
                        (spec_balance(old(self).ledger@, addr@) + delta) as u128,
                    )
                },
                Err(e) => {
                    &&& e == ContractError::InsufficientFunds
                    &&& amount < 0
                    &&& spec_balance(old(self).ledger@, addr@) < -(amount as int)
                    &&& final(self).ledger@ == old(self).ledger@
                },
            },
    {
        if amount >= 0 {
            self.ledger.credit(addr, amount as u128);
            Ok(())
        } else {
            let magnitude: u128 = if amount == i128::MIN {
                170141183460469231731687303715884105728u128
            } else {
                (-amount) as u128
            };
            self.ledger.debit(addr, magnitude)
        }
    }

    /// The URI a token is minted under.
    pub fn token_uri(&self, token_id: u64) -> (r: String)
        ensures
            r@ == self.spec_token_uri(token_id),
    {
        let s = if self.uri_status {
            self.base_token_uri.clone()
        } else {
            self.prereveal_token_uri.clone()
        };
        let s = s.concat(u64_to_dec(token_id).as_str());
        let s = s.concat(self.base_token_uri_extension.as_str());
        proof {
            assert(s@ =~= self.spec_token_uri(token_id));
        }
        s
    }

    /// Mints one token to `recipient`: the current counter value becomes
    /// the token's identifier, the counter advances by one, and the mint
    /// instruction for the token registry is returned.
    pub fn mint(&mut self, recipient: &String) -> (m: MintMsg)
        requires
            old(self).wf(),
            old(self).current_token_id < old(self).max_total_mint,
        ensures
            final(self).wf(),
            final(self).current_token_id == old(self).current_token_id + 1,
            final(self).tokens@.len() == old(self).tokens@.len() + 1,
            forall|k: int|
                0 <= k < old(self).tokens@.len() ==> final(self).tokens@[k] == old(self).tokens@[k],
            final(self).tokens@.last().id == old(self).current_token_id,
            final(self).tokens@.last().owner@ == recipient@,
            final(self).tokens@.last().uri@ == old(self).spec_token_uri(
                old(self).current_token_id,
            ),
            same_sale_config(*final(self), *old(self)),
            final(self).ledger@ == old(self).ledger@,
            m.owner@ == recipient@,
            m.token_id@ == spec_dec(old(self).current_token_id as nat),
            m.uri matches Some(u) && u@ == old(self).spec_token_uri(old(self).current_token_id),
            m.data is None,
    {
        let token_id = self.current_token_id;
        let uri = self.token_uri(token_id);
        let m = MintMsg {
            owner: recipient.clone(),
            token_id: u64_to_dec(token_id),
            uri: Some(uri.clone()),
            data: None,
        };
        self.current_token_id = token_id + 1;
        self.tokens.push(Token { id: token_id, owner: recipient.clone(), uri });
        m
    }

    /// The purchase state machine. Checks run in the order eligibility,
    /// window, capacity, cost, funds, payout fit; the first failure decides
    /// the error and nothing changes on failure. On success the buyer is
    /// debited the exact total, the protocol and the treasury are credited
    /// shares summing exactly to it, and `count` tokens with consecutive
    /// fresh identifiers are minted to the buyer.
    pub fn purchase(&mut self, count: u64, sender: &String, now: u64) -> (r: Result<
        Response,
        ContractError,
    >)
        requires
            old(self).wf(),
        ensures
            final(self).wf(),
            match r {
                Ok(resp) => old(self).spec_purchase_err(sender@, count, now) is None
                    && State::spec_purchase_ok(*old(self), *final(self), resp, sender@, count),
                Err(e) => Some(e) == old(self).spec_purchase_err(sender@, count, now) && *final(self) == *old(self),
            },
    {
        if !self.is_whitelisted(sender) {
            return Err(ContractError::Unauthorized);
        }
        if now < self.sale_start_time || now > self.sale_end_time {
            return Err(ContractError::SaleNotActive);
        }
        if count > self.max_total_mint - self.current_token_id {
            return Err(ContractError::SupplyExhausted);
        }
        let total = match self.mint_price.checked_mul(count as u128) {
            Some(t) => t,
            None => {
                return Err(ContractError::Overflow);
            },
        };
        let bal = self.ledger.balance_of(sender);
        if bal < total {
            return Err(ContractError::InsufficientFunds);
        }
        let fee_amt = fee_amount(total, self.protocol_fee);
        let treasury_amt = total - fee_amt;
        let mut staged = self.ledger.duplicate();
        // the funds check above rules the debit failure out
        match staged.debit(sender, total) {
            Ok(()) => {},
            Err(e) => {
                return Err(e);
            },
        }
        match staged.try_credit(&self.protocol_address, fee_amt) {
            Ok(()) => {},
            Err(e) => {
                return Err(e);
            },
        }
        match staged.try_credit(&self.treasury_address, treasury_amt) {
            Ok(()) => {},
            Err(e) => {
                return Err(e);
            },
        }
        self.ledger = staged;
        let mut mints: Vec<MintMsg> = Vec::new();
        let mut i: u64 = 0;
        while i < count
            invariant
                i <= count,
                self.wf(),
                old(self).wf(),
                old(self).current_token_id + count <= old(self).max_total_mint,
                self.current_token_id == old(self).current_token_id + i,
                self.ledger@ == old(self).spec_ledger_after_purchase(sender@, count),
                self.tokens@.len() == old(self).tokens@.len() + i,
                forall|k: int|
                    0 <= k < old(self).tokens@.len() ==> self.tokens@[k] == old(self).tokens@[k],
                forall|k: int|
                    old(self).tokens@.len() <= k < self.tokens@.len() ==> (
                    #[trigger] self.tokens@[k]).id == old(self).current_token_id + (k - old(self).tokens@.len()) && self.tokens@[k].owner@ == sender@ && self.tokens@[k].uri@
                        == old(self).spec_token_uri(self.tokens@[k].id),
                same_sale_config(*self, *old(self)),
                mints@.len() == i,
                forall|k: int|
                    0 <= k < i ==> (#[trigger] mints@[k]).owner@ == sender@ && mints@[k].token_id@
                        == spec_dec((old(self).current_token_id + k) as nat) && (mints@[k].uri
                        matches Some(u) && u@ == old(self).spec_token_uri(
                        (old(self).current_token_id + k) as u64,
                    )) && mints@[k].data is None,
            decreases count - i,
        {
            let m = self.mint(sender);
            mints.push(m);
            i = i + 1;
        }
        let mut attributes: Vec<Attribute> = Vec::new();
        attributes.push(attr("action", "purchase"));
        attributes.push(attr("buyer", sender.as_str()));
        let count_str = u64_to_dec(count);
        attributes.push(attr("count", count_str.as_str()));
        Ok(Response { attributes, mints })
    }

    /// Executes one mutating request: a whitelist update, which only the
    /// collection owner may perform, or a purchase.
    pub fn execute(&mut self, sender: &String, now: u64, msg: ExecuteMsg) -> (r: Result<
        Response,
        ContractError,
    >)
        requires
            old(self).wf(),
        ensures
            final(self).wf(),
            match msg {
                ExecuteMsg::Whitelist { address, status } => {
                    if sender@ != old(self).owner@ {
                        r == Err::<Response, ContractError>(ContractError::Unauthorized)
                            && *final(self) == *old(self)
                    } else {
                        &&& r is Ok
                        &&& final(self).whitelisted@ == old(self).whitelisted@.insert(
                            address@,
                            status,
                        )
                        &&& same_core_config(*final(self), *old(self))
                        &&& final(self).ledger@ == old(self).ledger@
                        &&& final(self).current_token_id == old(self).current_token_id
                        &&& final(self).tokens@ == old(self).tokens@
                        &&& (r matches Ok(resp) && resp.attributes@.len() == 2
                            && resp.attributes@[0].key@ == "action"@ && resp.attributes@[0].value@
                            == "whitelist"@ && resp.attributes@[1].key@ == "account"@
                            && resp.attributes@[1].value@ == address@ && resp.mints@.len() == 0)
                    }
                },
                ExecuteMsg::Purchase { count } => match r {
                    Ok(resp) => old(self).spec_purchase_err(sender@, count, now) is None
                        && State::spec_purchase_ok(*old(self), *final(self), resp, sender@, count),
                    Err(e) => Some(e) == old(self).spec_purchase_err(sender@, count, now)
                        && *final(self) == *old(self),
                },
            },
    {
        match msg {
            ExecuteMsg::Whitelist { address, status } => {
                if !(*sender == self.owner) {
                    return Err(ContractError::Unauthorized);
                }
                self.whitelist(&address, status);
                let mut attributes: Vec<Attribute> = Vec::new();
                attributes.push(attr("action", "whitelist"));
                attributes.push(attr("account", address.as_str()));
                Ok(Response::with_attributes(attributes))
            },
            ExecuteMsg::Purchase { count } => self.purchase(count, sender, now),
        }
    }

    /// The engine's record of the token with the given identifier.
    pub fn token_info(&self, token_id: u64) -> (r: Option<TokenInfoResponse>)
        requires
            self.wf(),
        ensures
            match r {
                Some(t) => exists|i: int|
                    0 <= i < self.tokens@.len() && (#[trigger] self.tokens@[i]).id == token_id
                        && t.token_id == token_id && t.owner@ == self.tokens@[i].owner@ && t.uri@
                        == self.tokens@[i].uri@,
                None => forall|i: int|
                    0 <= i < self.tokens@.len() ==> (#[trigger] self.tokens@[i]).id != token_id,
            },
    {
        let n = self.tokens.len();
        for i in 0..n
            invariant
                n == self.tokens@.len(),
                forall|j: int| 0 <= j < i ==> (#[trigger] self.tokens@[j]).id != token_id,
        {
            if self.tokens[i].id == token_id {
                return Some(
                    TokenInfoResponse {
                        token_id,
                        owner: self.tokens[i].owner.clone(),
                        uri: self.tokens[i].uri.clone(),
                    },
                );
            }
        }
        None
    }

    /// Transfers a recorded token to a new owner and returns the transfer
    /// instruction the caller forwards to the token registry. Fails with
    /// `Unauthorized`, changing nothing, unless the sender owns the token.
    pub fn transfer(&mut self, sender: &String, recipient: &String, token_id: u64) -> (r: Result<
        TransferMsg,
        ContractError,
    >)
        requires
            old(self).wf(),
        ensures
            final(self).wf(),
            match r {
                Ok(m) => {
                    &&& m.recipient@ == recipient@
                    &&& m.token_id@ == spec_dec(token_id as nat)
                    &&& exists|i: int|
                        0 <= i < old(self).tokens@.len() && (#[trigger] old(self).tokens@[i]).id
                            == token_id && old(self).tokens@[i].owner@ == sender@
                    &&& final(self).tokens@.len() == old(self).tokens@.len()
                    &&& forall|j: int|
                        0 <= j < old(self).tokens@.len() && (#[trigger] old(self).tokens@[j]).id
                            != token_id ==> final(self).tokens@[j] == old(self).tokens@[j]
                    &&& forall|j: int|
                        0 <= j < old(self).tokens@.len() && (#[trigger] old(self).tokens@[j]).id
                            == token_id ==> final(self).tokens@[j].id == token_id && final(self).tokens@[j].owner@ == recipient@ && final(self).tokens@[j].uri == old(self).tokens@[j].uri
                    &&& same_sale_config(*final(self), *old(self))
                    &&& final(self).ledger@ == old(self).ledger@
                    &&& final(self).current_token_id == old(self).current_token_id
                },
                Err(e) => {
                    &&& e == ContractError::Unauthorized
                    &&& *final(self) == *old(self)
                    &&& !exists|i: int|
                        0 <= i < old(self).tokens@.len() && (#[trigger] old(self).tokens@[i]).id
                            == token_id && old(self).tokens@[i].owner@ == sender@
                },
            },
    {
        let n = self.tokens.len();
        for i in 0..n
            invariant
                n == self.tokens@.len(),
                self.wf(),
                *self == *old(self),
                forall|j: int| 0 <= j < i ==> (#[trigger] self.tokens@[j]).id != token_id,
        {
            if self.tokens[i].id == token_id {
                if !(self.tokens[i].owner == *sender) {
                    return Err(ContractError::Unauthorized);
                }
                let replacement = Token {
                    id: token_id,
                    owner: recipient.clone(),
                    uri: self.tokens[i].uri.clone(),
                };
                self.tokens.set(i, replacement);
                proof {
                    assert forall|j: int|
                        0 <= j < old(self).tokens@.len() && (#[trigger] old(self).tokens@[j]).id
                            == token_id implies self.tokens@[j].id == token_id
                        && self.tokens@[j].owner@ == recipient@ && self.tokens@[j].uri == old(self).tokens@[j].uri by {
                        if j != i {
                            assert(old(self).tokens@[j].id != token_id);
                        }
                    }
                }
                return Ok(
                    TransferMsg { recipient: recipient.clone(), token_id: u64_to_dec(token_id) },
                );
            }
        }
        Err(ContractError::Unauthorized)
    }

    /// Handles one owner-restricted pass-through request. The engine checks
    /// authority and describes the action; the caller forwards the request
    /// itself to the token registry, which owns the tokens.
    pub fn handle(&self, sender: &String, msg: &HandleMsg) -> (r: Result<
        Response,
        ContractError,
    >)
        requires
            self.wf(),
        ensures
            r is Err <==> sender@ != self.owner@,
            r matches Err(e) ==> e == ContractError::Unauthorized,
            r matches Ok(resp) ==> resp.mints@.len() == 0 && resp.attributes@.len() >= 1
                && resp.attributes@[0].key@ == "action"@ && match msg {
                HandleMsg::IssueClass { name, symbol, .. } => resp.attributes@[0].value@
                    == "issue_class"@ && resp.attributes@.len() == 3 && resp.attributes@[1].key@
                    == "name"@ && resp.attributes@[1].value@ == name@ && resp.attributes@[2].key@
                    == "symbol"@ && resp.attributes@[2].value@ == symbol@,
                HandleMsg::Mint { class_id, id, .. } => resp.attributes@[0].value@ == "mint"@
                    && resp.attributes@.len() == 3 && resp.attributes@[1].key@ == "class_id"@
                    && resp.attributes@[1].value@ == class_id@ && resp.attributes@[2].key@ == "id"@
                    && resp.attributes@[2].value@ == id@,
                HandleMsg::Burn { class_id, id } => resp.attributes@[0].value@ == "burn"@
                    && resp.attributes@.len() == 3 && resp.attributes@[1].key@ == "class_id"@
                    && resp.attributes@[1].value@ == class_id@ && resp.attributes@[2].key@ == "id"@
                    && resp.attributes@[2].value@ == id@,
                HandleMsg::Freeze { class_id, id } => resp.attributes@[0].value@ == "freeze"@
                    && resp.attributes@.len() == 3 && resp.attributes@[1].key@ == "class_id"@
                    && resp.attributes@[1].value@ == class_id@ && resp.attributes@[2].key@ == "id"@
                    && resp.attributes@[2].value@ == id@,
                HandleMsg::Unfreeze { class_id, id } => resp.attributes@[0].value@ == "unfreeze"@
                    && resp.attributes@.len() == 3 && resp.attributes@[1].key@ == "class_id"@
                    && resp.attributes@[1].value@ == class_id@ && resp.attributes@[2].key@ == "id"@
                    && resp.attributes@[2].value@ == id@,
                HandleMsg::AddToWhitelist { class_id, id, account } => resp.attributes@[0].value@
                    == "add_to_whitelist"@ && resp.attributes@.len() == 4
                    && resp.attributes@[1].key@ == "class_id"@ && resp.attributes@[1].value@
                    == class_id@ && resp.attributes@[2].key@ == "id"@ && resp.attributes@[2].value@
                    == id@ && resp.attributes@[3].key@ == "account"@ && resp.attributes@[3].value@
                    == account@,
                HandleMsg::RemoveFromWhitelist { class_id, id, account } => resp.attributes@[0].value@
                    == "remove_from_whitelist"@ && resp.attributes@.len() == 4
                    && resp.attributes@[1].key@ == "class_id"@ && resp.attributes@[1].value@
                    == class_id@ && resp.attributes@[2].key@ == "id"@ && resp.attributes@[2].value@
                    == id@ && resp.attributes@[3].key@ == "account"@ && resp.attributes@[3].value@
                    == account@,
            },
    {
        if !(*sender == self.owner) {
            return Err(ContractError::Unauthorized);
        }
        let mut attributes: Vec<Attribute> = Vec::new();
        match msg {
            HandleMsg::IssueClass { name, symbol, .. } => {
                attributes.push(attr("action", "issue_class"));
                attributes.push(attr("name", name.as_str()));
                attributes.push(attr("symbol", symbol.as_str()));
            },
            HandleMsg::Mint { class_id, id, .. } => {
                attributes.push(attr("action", "mint"));
                attributes.push(attr("class_id", class_id.as_str()));
                attributes.push(attr("id", id.as_str()));
            },
            HandleMsg::Burn { class_id, id } => {
                attributes.push(attr("action", "burn"));
                attributes.push(attr("class_id", class_id.as_str()));
                attributes.push(attr("id", id.as_str()));
            },
            HandleMsg::Freeze { class_id, id } => {
                attributes.push(attr("action", "freeze"));
                attributes.push(attr("class_id", class_id.as_str()));
                attributes.push(attr("id", id.as_str()));
            },
            HandleMsg::Unfreeze { class_id, id } => {
                attributes.push(attr("action", "unfreeze"));
                attributes.push(attr("class_id", class_id.as_str()));
                attributes.push(attr("id", id.as_str()));
            },
            HandleMsg::AddToWhitelist { class_id, id, account } => {
                attributes.push(attr("action", "add_to_whitelist"));
                attributes.push(attr("class_id", class_id.as_str()));
                attributes.push(attr("id", id.as_str()));
                attributes.push(attr("account", account.as_str()));
            },
            HandleMsg::RemoveFromWhitelist { class_id, id, account } => {
                attributes.push(attr("action", "remove_from_whitelist"));
                attributes.push(attr("class_id", class_id.as_str()));
                attributes.push(attr("id", id.as_str()));
                attributes.push(attr("account", account.as_str()));
            },
        }
        Ok(Response::with_attributes(attributes))
    }
}

/// The identifiers of the tokens `owner` holds, in mint order.
pub open spec fn spec_owned_ids(s: Seq<Token>, owner: Seq<char>) -> Seq<u64>
    decreases s.len(),
{
    if s.len() == 0 {
        Seq::empty()
    } else if s.last().owner@ == owner {
        spec_owned_ids(s.drop_last(), owner).push(s.last().id)
    } else {
        spec_owned_ids(s.drop_last(), owner)
    }
}

/// The identifiers of the tokens `owner` holds that are greater than
/// `after`, in mint order.
pub open spec fn spec_owned_ids_after(s: Seq<Token>, owner: Seq<char>, after: int) -> Seq<u64>
    decreases s.len(),
{
    if s.len() == 0 {
        Seq::empty()
    } else if s.last().owner@ == owner && s.last().id > after {
        spec_owned_ids_after(s.drop_last(), owner, after).push(s.last().id)
    } else {
        spec_owned_ids_after(s.drop_last(), owner, after)
    }
}

/// The page bound a query asked for: the given limit, or 10 by default.
pub open spec fn spec_page_limit(limit: Option<u32>) -> int {
    match limit {
        Some(l) => l as int,
        None => 10,
    }
}

/// The lower identifier bound a query asked for: strictly above the given
/// identifier, or unbounded.
pub open spec fn spec_page_after(start_after: Option<u64>) -> int {
    match start_after {
        Some(a) => a as int,
        None => -1,
    }
}

impl State {
    /// The owner-token-list query: the identifiers of the tokens `owner`
    /// holds that exceed `start_after`, capped at `limit` entries (10 when
    /// absent), together with the owner's total holdings.
    pub fn tokens(&self, owner: &String, start_after: Option<u64>, limit: Option<u32>) -> (r:
        QueryResponse)
        requires
            self.wf(),
        ensures
            r.collection_name@ == self.collection_name@,
            r.total_tokens == spec_owned_ids(self.tokens@, owner@).len(),
            ({
                let sel = spec_owned_ids_after(
                    self.tokens@,
                    owner@,
                    spec_page_after(start_after),
                );
                let cap = spec_page_limit(limit);
                r.token_ids@ == (if sel.len() <= cap {
                    sel
                } else {
                    sel.take(cap)
                })
            }),
    {
        let cap: usize = match limit {
            Some(l) => l as usize,
            None => 10,
        };
        let mut token_ids: Vec<u64> = Vec::new();
        let mut total: u64 = 0;
        let n = self.tokens.len();
        let ghost after = spec_page_after(start_after);
        for i in 0..n
            invariant
                n == self.tokens@.len(),
                self.wf(),
                cap == spec_page_limit(limit),
                after == spec_page_after(start_after),
                total == spec_owned_ids(self.tokens@.take(i as int), owner@).len(),
                total <= i,
                ({
                    let sel = spec_owned_ids_after(self.tokens@.take(i as int), owner@, after);
                    token_ids@ == (if sel.len() <= cap as int {
                        sel
                    } else {
                        sel.take(cap as int)
                    })
                }),
        {
            proof {
                assert(self.tokens@.take(i + 1).drop_last() =~= self.tokens@.take(i as int));
                assert(self.tokens@.take(i + 1).last() == self.tokens@[i as int]);
            }
            let t = &self.tokens[i];
            if t.owner == *owner {
                total = total + 1;
                let passes = match start_after {
                    Some(a) => t.id > a,
                    None => true,
                };
                if passes && token_ids.len() < cap {
                    token_ids.push(t.id);
                }
                proof {
                    let sel = spec_owned_ids_after(self.tokens@.take(i as int), owner@, after);
                    let sel1 = spec_owned_ids_after(self.tokens@.take(i + 1), owner@, after);
                    if self.tokens@[i as int].id > after {
                        assert(sel1 == sel.push(self.tokens@[i as int].id));
                        if sel.len() >= cap as int {
                            assert(sel1.take(cap as int) =~= sel.take(cap as int));
                        }
                    }
                }
            } else {
                proof {
                    assert(spec_owned_ids_after(self.tokens@.take(i + 1), owner@, after)
                        == spec_owned_ids_after(self.tokens@.take(i as int), owner@, after));
                }
            }
        }
        proof {
            assert(self.tokens@.take(n as int) =~= self.tokens@);
        }
        QueryResponse {
            collection_name: self.collection_name.clone(),
            total_tokens: total,
            token_ids,
        }
    }
}

/// No fund leakage: across any successful purchase with pairwise distinct
/// buyer, protocol and treasury addresses, the buyer pays exactly the
/// total, the protocol gains exactly `floor(total * fee / 100)`, the
/// treasury gains exactly the remainder, and the two gains sum exactly to
/// the total — for every fee percentage from 0 to 100 and every count.
pub proof fn lemma_purchase_fee_split(
    pre: State,
    post: State,
    resp: Response,
    buyer: Seq<char>,
    count: u64,
    now: u64,
)
    requires
        pre.wf(),
        pre.spec_purchase_err(buyer, count, now) is None,
        State::spec_purchase_ok(pre, post, resp, buyer, count),
        buyer != pre.protocol_address@,
        buyer != pre.treasury_address@,
        pre.protocol_address@ != pre.treasury_address@,
    ensures
        ({
            let total = pre.spec_total_cost(count);
            let fee = spec_fee_amount(total, pre.protocol_fee as int);
            &&& spec_balance(post.ledger@, buyer) == spec_balance(pre.ledger@, buyer) - total
            &&& spec_balance(post.ledger@, pre.protocol_address@) == spec_balance(
                pre.ledger@,
                pre.protocol_address@,
            ) + fee
            &&& spec_balance(post.ledger@, pre.treasury_address@) == spec_balance(
                pre.ledger@,
                pre.treasury_address@,
            ) + (total - fee)
            &&& fee + (total - fee) == total
        }),
{
    vstd::arithmetic::mul::lemma_mul_nonnegative(pre.mint_price as int, count as int);
    crate::fees::lemma_fee_split(pre.spec_total_cost(count), pre.protocol_fee as int);
}

/// Successful purchases accumulate: over two successful purchases, in any
/// order of buyers and counts, the counter advances by exactly the sum of
/// the counts, and no token of the second batch shares an identifier with
/// one of the first — identifiers are never reused across purchases.
pub proof fn lemma_purchases_accumulate(
    s0: State,
    s1: State,
    s2: State,
    r1: Response,
    r2: Response,
    b1: Seq<char>,
    b2: Seq<char>,
    c1: u64,
    c2: u64,
)
    requires
        State::spec_purchase_ok(s0, s1, r1, b1, c1),
        State::spec_purchase_ok(s1, s2, r2, b2, c2),
    ensures
        s2.current_token_id == s0.current_token_id + c1 + c2,
        forall|i: int, j: int|
            0 <= i < c1 && 0 <= j < c2 ==> (#[trigger] r1.mints@[i]).token_id@ != (
            #[trigger] r2.mints@[j]).token_id@,
{
    assert forall|i: int, j: int|
        0 <= i < c1 && 0 <= j < c2 implies (#[trigger] r1.mints@[i]).token_id@ != (
    #[trigger] r2.mints@[j]).token_id@ by {
        let n1 = (s0.current_token_id + i) as nat;
        let n2 = (s1.current_token_id + j) as nat;
        assert(n1 < n2);
        if r1.mints@[i].token_id@ == r2.mints@[j].token_id@ {
            crate::numerals::lemma_spec_dec_injective(n1, n2);
        }
    }
}

/// No two recorded tokens ever share an identifier: identifiers are
/// assigned from a strictly monotonic counter and never reused.
pub proof fn lemma_token_ids_unique(s: State)
    requires
        s.wf(),
    ensures
        forall|i: int, j: int|
            0 <= i < s.tokens@.len() && 0 <= j < s.tokens@.len() && i != j
                ==> #[trigger] s.tokens@[i].id != #[trigger] s.tokens@[j].id,
{
}

} // verus!
