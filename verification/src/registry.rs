//! The collection registry: a directory of the sale-engine instances each
//! owner has deployed, plus owner-restricted pass-through settings resolved
//! by collection name.
//!
//! Entries are append-only: deployment order is insertion order and nothing
//! is ever removed. The registry instantiates engines only in the sense of
//! validating their configuration and recording the address the runtime
//! assigned to the new instance; the engine value itself is built with
//! `engine::State::new` from the same configuration.

use vstd::prelude::*;

use crate::error::ContractError;
use crate::response::{attr, Attribute, Response};
use crate::store::{clone_string_vec, StrMap};

verus! {

/// Parameters fixed at deployment of a collection.
pub struct ProptixDeploymentConfig {
    pub name: String,
    pub symbol: String,
    pub max_supply: u64,
    pub treasury_address: String,
}

/// Parameters of the running sale.
pub struct ProptixRuntimeConfig {
    pub base_token_uri: String,
    pub base_token_uri_extension: String,
    pub prereveal_token_uri: String,
    pub mint_price: u128,
    pub sale_start_time: u64,
    pub sale_end_time: u64,
    pub protocol_fee: u8,
}

/// The instantiation request for a new collection.
pub struct InstantiateMsg {
    pub deployment_config: ProptixDeploymentConfig,
    pub runtime_config: ProptixRuntimeConfig,
}

/// The answer to an owner-token-list query.
pub struct QueryResponse {
    pub collection_name: String,
    pub total_tokens: u64,
    pub token_ids: Vec<u64>,
}

/// Mutating requests accepted by the registry.
pub enum HandleMsg {
    CreateCollection {
        deployment_config: ProptixDeploymentConfig,
        runtime_config: ProptixRuntimeConfig,
    },
    SetBaseURI { collection: String, uri: String, status: bool },
    SetWhitelist { collection: String, user: String, status: bool },
}

/// Read-only queries accepted by the registry.
pub enum QueryMsg {
    LastDeployed { owner: String },
    AllContracts,
    Deployed { owner: String },
}

/// The structured answer to a registry query.
pub enum QueryAnswer {
    LastDeployed(Option<String>),
    Contracts(Vec<String>),
}

/// A configuration is well formed when the fee percentage is at most 100
/// and the sale window is not inverted. A zero mint price is allowed: the
/// price is any non-negative amount.
pub open spec fn spec_valid_config(
    dc: &ProptixDeploymentConfig,
    rc: &ProptixRuntimeConfig,
) -> bool {
    rc.protocol_fee <= 100 && rc.sale_start_time <= rc.sale_end_time
}

/// Checks a configuration.
pub fn valid_config(dc: &ProptixDeploymentConfig, rc: &ProptixRuntimeConfig) -> (r: bool)
    ensures
        r == spec_valid_config(dc, rc),
{
    rc.protocol_fee <= 100 && rc.sale_start_time <= rc.sale_end_time
}

/// `s` with every occurrence of `u` removed, order otherwise kept.
pub open spec fn remove_user(s: Seq<Seq<char>>, u: Seq<char>) -> Seq<Seq<char>>
    decreases s.len(),
{
    if s.len() == 0 {
        Seq::empty()
    } else if s.last() == u {
        remove_user(s.drop_last(), u)
    } else {
        remove_user(s.drop_last(), u).push(s.last())
    }
}

/// The registry's owned state.
pub struct State {
    /// Registry operator address.
    pub owner: String,
    pub contracts: StrMap<Vec<String>>,
    pub all_collections: Vec<String>,
    pub collection_addresses: StrMap<String>,
    pub collection_base_uris: StrMap<String>,
    pub collection_uri_statuses: StrMap<bool>,
    pub whitelisted_users: StrMap<Vec<String>>,
}

impl State {
    /// Every underlying store is well formed.
    pub open spec fn wf(self) -> bool {
        self.contracts.wf() && self.collection_addresses.wf() && self.collection_base_uris.wf()
            && self.collection_uri_statuses.wf() && self.whitelisted_users.wf()
    }

    /// The collections an owner has deployed, in deployment order.
    pub open spec fn deployed_of(self, owner: Seq<char>) -> Seq<Seq<char>> {
        if self.contracts@.dom().contains(owner) {
            self.contracts@[owner].deep_view()
        } else {
            Seq::empty()
        }
    }

    /// All deployed collections across all owners, in deployment order.
    pub open spec fn all_of(self) -> Seq<Seq<char>> {
        self.all_collections.deep_view()
    }

    /// The collection-name to engine-address mapping.
    pub open spec fn addresses(self) -> Map<Seq<char>, Seq<char>> {
        Map::new(
            |n: Seq<char>| self.collection_addresses@.dom().contains(n),
            |n: Seq<char>| self.collection_addresses@[n]@,
        )
    }

    /// The recorded base URI of an engine address.
    pub open spec fn base_uris(self) -> Map<Seq<char>, Seq<char>> {
        Map::new(
            |a: Seq<char>| self.collection_base_uris@.dom().contains(a),
            |a: Seq<char>| self.collection_base_uris@[a]@,
        )
    }

    /// The recorded URI-revealed flag of an engine address.
    pub open spec fn uri_statuses(self) -> Map<Seq<char>, bool> {
        Map::new(
            |a: Seq<char>| self.collection_uri_statuses@.dom().contains(a),
            |a: Seq<char>| self.collection_uri_statuses@[a],
        )
    }

    /// The recorded whitelist of an engine address, empty when absent.
    pub open spec fn users_of(self, addr: Seq<char>) -> Seq<Seq<char>> {
        if self.whitelisted_users@.dom().contains(addr) {
            self.whitelisted_users@[addr].deep_view()
        } else {
            Seq::empty()
        }
    }

    /// All stores besides the deployment lists agree between two states.
    pub open spec fn same_settings(self, other: State) -> bool {
        self.owner == other.owner && self.addresses() == other.addresses() && self.base_uris()
            == other.base_uris() && self.uri_statuses() == other.uri_statuses() && forall|
            a: Seq<char>,
        | self.users_of(a) == other.users_of(a)
    }

    /// The deployment lists agree between two states.
    pub open spec fn same_deployments(self, other: State) -> bool {
        self.all_of() == other.all_of() && forall|o: Seq<char>|
            self.deployed_of(o) == other.deployed_of(o)
    }

    /// An empty registry run by `owner`.
    pub fn new(owner: String) -> (r: State)
        ensures
            r.wf(),
            r.owner == owner,
            r.all_of() == Seq::<Seq<char>>::empty(),
            forall|o: Seq<char>| r.deployed_of(o) == Seq::<Seq<char>>::empty(),
            r.addresses() == Map::<Seq<char>, Seq<char>>::empty(),
            r.base_uris() == Map::<Seq<char>, Seq<char>>::empty(),
            r.uri_statuses() == Map::<Seq<char>, bool>::empty(),
            forall|a: Seq<char>| r.users_of(a) == Seq::<Seq<char>>::empty(),
    {
        let r = State {
            owner,
            contracts: StrMap::new(),
            all_collections: Vec::new(),
            collection_addresses: StrMap::new(),
            collection_base_uris: StrMap::new(),
            collection_uri_statuses: StrMap::new(),
            whitelisted_users: StrMap::new(),
        };
        proof {
            assert(r.addresses() =~= Map::<Seq<char>, Seq<char>>::empty());
            assert(r.base_uris() =~= Map::<Seq<char>, Seq<char>>::empty());
            assert(r.uri_statuses() =~= Map::<Seq<char>, bool>::empty());
        }
        r
    }

    /// Appends a collection to the owner's deployment list and to the
    /// global list.
    fn store_collection(&mut self, owner: &String, collection: &String)
        requires
            old(self).wf(),
        ensures
            final(self).wf(),
            final(self).deployed_of(owner@) == old(self).deployed_of(owner@).push(collection@),
            forall|o: Seq<char>|
                o != owner@ ==> final(self).deployed_of(o) == old(self).deployed_of(o),
            final(self).all_of() == old(self).all_of().push(collection@),
            final(self).same_settings(*old(self)),
    {
        let mut list: Vec<String> = match self.contracts.get(owner) {
            Some(v) => clone_string_vec(v),
            None => Vec::new(),
        };
        let ghost old_list = self.deployed_of(owner@);
        proof {
            assert(list.deep_view() =~= old_list);
        }
        list.push(collection.clone());
        proof {
            assert(list.deep_view() =~= old_list.push(collection@));
        }
        self.contracts.insert(owner, list);
        self.all_collections.push(collection.clone());
        proof {
            assert(final(self).all_of() =~= old(self).all_of().push(collection@));
        }
    }

    /// The most recently deployed collection of an owner, if any.
    pub fn get_last_deployed(&self, owner: &String) -> (r: Option<String>)
        requires
            self.wf(),
        ensures
            match r {
                Some(a) => self.deployed_of(owner@).len() > 0 && a@ == self.deployed_of(
                    owner@,
                ).last(),
                None => self.deployed_of(owner@).len() == 0,
            },
    {
        match self.contracts.get(owner) {
            Some(v) => {
                if v.len() > 0 {
                    Some(v[v.len() - 1].clone())
                } else {
                    None
                }
            },
            None => None,
        }
    }

    /// Every deployed collection, across all owners.
    pub fn get_all_contracts(&self) -> (r: Vec<String>)
        requires
            self.wf(),
        ensures
            r.deep_view() == self.all_of(),
    {
        let r = clone_string_vec(&self.all_collections);
        proof {
            assert(r.deep_view() =~= self.all_of());
        }
        r
    }

    /// The owner's deployment list, in deployment order.
    pub fn get_deployed(&self, owner: &String) -> (r: Vec<String>)
        requires
            self.wf(),
        ensures
            r.deep_view() == self.deployed_of(owner@),
    {
        match self.contracts.get(owner) {
            Some(v) => {
                let r = clone_string_vec(v);
                proof {
                    assert(r.deep_view() =~= self.deployed_of(owner@));
                }
                r
            },
            None => Vec::new(),
        }
    }

    /// Resolves a collection name to the engine address it was deployed at.
    pub fn get_contract_address(&self, collection: &String) -> (r: Result<
        String,
        ContractError,
    >)
        requires
            self.wf(),
        ensures
            match r {
                Ok(a) => self.addresses().dom().contains(collection@) && a@ == self.addresses()[collection@],
                Err(e) => e == ContractError::CollectionNotFound && !self.addresses().dom()
                    .contains(collection@),
            },
    {
        match self.collection_addresses.get(collection) {
            Some(a) => Ok(a.clone()),
            None => Err(ContractError::CollectionNotFound),
        }
    }

    /// Records the base URI and revealed flag for the named collection;
    /// fails with `CollectionNotFound` when the name resolves to nothing,
    /// changing no state.
    pub fn set_base_uri(&mut self, collection: &String, uri: String, status: bool) -> (r: Result<
        (),
        ContractError,
    >)
        requires
            old(self).wf(),
        ensures
            final(self).wf(),
            match r {
                Ok(()) => {
                    let a = old(self).addresses()[collection@];
                    &&& old(self).addresses().dom().contains(collection@)
                    &&& final(self).base_uris() == old(self).base_uris().insert(a, uri@)
                    &&& final(self).uri_statuses() == old(self).uri_statuses().insert(a, status)
                    &&& final(self).addresses() == old(self).addresses()
                    &&& final(self).owner == old(self).owner
                    &&& forall|x: Seq<char>| final(self).users_of(x) == old(self).users_of(x)
                    &&& final(self).same_deployments(*old(self))
                },
                Err(e) => {
                    &&& e == ContractError::CollectionNotFound
                    &&& !old(self).addresses().dom().contains(collection@)
                    &&& *final(self) == *old(self)
                },
            },
    {
        let a = match self.get_contract_address(collection) {
            Ok(a) => a,
            Err(e) => {
                return Err(e);
            },
        };
        self.collection_base_uris.insert(&a, uri);
        self.collection_uri_statuses.insert(&a, status);
        proof {
            assert(final(self).base_uris() =~= old(self).base_uris().insert(
                old(self).addresses()[collection@],
                final(self).collection_base_uris@[a@]@,
            ));
            assert(final(self).uri_statuses() =~= old(self).uri_statuses().insert(
                old(self).addresses()[collection@],
                status,
            ));
            assert(final(self).addresses() =~= old(self).addresses());
        }
        Ok(())
    }

    /// Adds or removes a user on the named collection's recorded whitelist.
    /// Adding a user already recorded changes nothing, so the operation is
    /// idempotent; removal drops the user. Fails with `CollectionNotFound`
    /// when the name resolves to nothing, changing no state.
    pub fn set_whitelist(&mut self, collection: &String, user: &String, status: bool) -> (r:
        Result<(), ContractError>)
        requires
            old(self).wf(),
        ensures
            final(self).wf(),
            match r {
                Ok(()) => {
                    let a = old(self).addresses()[collection@];
                    &&& old(self).addresses().dom().contains(collection@)
                    &&& final(self).users_of(a) == (if status {
                        if old(self).users_of(a).contains(user@) {
                            old(self).users_of(a)
                        } else {
                            old(self).users_of(a).push(user@)
                        }
                    } else {
                        remove_user(old(self).users_of(a), user@)
                    })
                    &&& forall|x: Seq<char>|
                        x != a ==> final(self).users_of(x) == old(self).users_of(x)
                    &&& final(self).addresses() == old(self).addresses()
                    &&& final(self).base_uris() == old(self).base_uris()
                    &&& final(self).uri_statuses() == old(self).uri_statuses()
                    &&& final(self).owner == old(self).owner
                    &&& final(self).same_deployments(*old(self))
                },
                Err(e) => {
                    &&& e == ContractError::CollectionNotFound
                    &&& !old(self).addresses().dom().contains(collection@)
                    &&& *final(self) == *old(self)
                },
            },
    {
        let a = match self.get_contract_address(collection) {
            Ok(a) => a,
            Err(e) => {
                return Err(e);
            },
        };
        let cur: Vec<String> = match self.whitelisted_users.get(&a) {
            Some(v) => clone_string_vec(v),
            None => Vec::new(),
        };
        let ghost old_users = self.users_of(a@);
        proof {
            assert(cur.deep_view() =~= old_users);
        }
        let next: Vec<String> = if status {
            let mut present = false;
            let n = cur.len();
            for i in 0..n
                invariant
                    n == cur@.len(),
                    cur.deep_view() == old_users,
                    present <==> exists|j: int| 0 <= j < i && #[trigger] old_users[j] == user@,
            {
                proof {
                    assert(old_users[i as int] == cur@[i as int]@);
                }
                if cur[i] == *user {
                    present = true;
                }
            }
            proof {
                assert(old_users.len() == n as int);
                assert(present == old_users.contains(user@));
            }
            if present {
                cur
            } else {
                let mut next = cur;
                next.push(user.clone());
                proof {
                    assert(next.deep_view() =~= old_users.push(user@));
                }
                next
            }
        } else {
            let mut next: Vec<String> = Vec::new();
            let n = cur.len();
            for i in 0..n
                invariant
                    n == cur@.len(),
                    cur.deep_view() == old_users,
                    next.deep_view() == remove_user(old_users.take(i as int), user@),
            {
                proof {
                    assert(old_users.take(i + 1).drop_last() =~= old_users.take(i as int));
                    assert(old_users.take(i + 1).last() == cur@[i as int]@);
                }
                if cur[i] == *user {
                } else {
                    let ghost prev = next.deep_view();
                    next.push(cur[i].clone());
                    proof {
                        assert(next.deep_view() =~= prev.push(cur@[i as int]@));
                    }
                }
            }
            proof {
                assert(old_users.take(n as int) =~= old_users);
            }
            next
        };
        self.whitelisted_users.insert(&a, next);
        proof {
            assert forall|x: Seq<char>| x != a@ implies final(self).users_of(x) == old(
                self,
            ).users_of(x) by {
                assert(final(self).whitelisted_users@.dom() =~= old(
                    self,
                ).whitelisted_users@.dom().insert(a@));
            }
        }
        Ok(())
    }

    /// Validates a new collection's configuration and records its deployment:
    /// the name maps to `instance_addr`, which is appended to the sender's
    /// deployment list and the global list. Fails only with `InvalidConfig`,
    /// on a malformed configuration, changing no state.
    pub fn create_collection(
        &mut self,
        sender: &String,
        instance_addr: &String,
        dc: &ProptixDeploymentConfig,
        rc: &ProptixRuntimeConfig,
    ) -> (r: Result<Response, ContractError>)
        requires
            old(self).wf(),
        ensures
            final(self).wf(),
            match r {
                Ok(resp) => {
                    &&& spec_valid_config(dc, rc)
                    &&& final(self).deployed_of(sender@) == old(self).deployed_of(
                        sender@,
                    ).push(instance_addr@)
                    &&& forall|o: Seq<char>|
                        o != sender@ ==> final(self).deployed_of(o) == old(self).deployed_of(o)
                    &&& final(self).all_of() == old(self).all_of().push(instance_addr@)
                    &&& final(self).addresses() == old(self).addresses().insert(
                        dc.name@,
                        instance_addr@,
                    )
                    &&& final(self).base_uris() == old(self).base_uris()
                    &&& final(self).uri_statuses() == old(self).uri_statuses()
                    &&& forall|x: Seq<char>| final(self).users_of(x) == old(self).users_of(x)
                    &&& final(self).owner == old(self).owner
                    &&& resp.attributes@.len() == 2
                    &&& resp.attributes@[0].key@ == "action"@
                    &&& resp.attributes@[0].value@ == "create_collection"@
                    &&& resp.attributes@[1].key@ == "collection"@
                    &&& resp.attributes@[1].value@ == instance_addr@
                    &&& resp.mints@.len() == 0
                },
                Err(e) => {
                    &&& e == ContractError::InvalidConfig
                    &&& !spec_valid_config(dc, rc)
                    &&& *final(self) == *old(self)
                },
            },
    {
        if !valid_config(dc, rc) {
            return Err(ContractError::InvalidConfig);
        }
        self.collection_addresses.insert(&dc.name, instance_addr.clone());
        self.store_collection(sender, instance_addr);
        proof {
            assert(final(self).addresses() =~= old(self).addresses().insert(
                dc.name@,
                instance_addr@,
            ));
        }
        let mut attributes: Vec<Attribute> = Vec::new();
        attributes.push(attr("action", "create_collection"));
        attributes.push(attr("collection", instance_addr.as_str()));
        Ok(Response::with_attributes(attributes))
    }

    /// Dispatches one mutating request. `instance_addr` is the address the
    /// runtime assigned to the engine instance a `CreateCollection` request
    /// deploys; the other requests ignore it.
    pub fn handle(&mut self, sender: &String, instance_addr: &String, msg: HandleMsg) -> (r:
        Result<Response, ContractError>)
        requires
            old(self).wf(),
        ensures
            final(self).wf(),
            match r {
                Ok(resp) => resp.mints@.len() == 0 && resp.attributes@.len() == 2
                    && resp.attributes@[0].key@ == "action"@ && resp.attributes@[1].key@
                    == "collection"@ && match msg {
                    HandleMsg::CreateCollection { .. } => resp.attributes@[0].value@
                        == "create_collection"@ && resp.attributes@[1].value@ == instance_addr@,
                    HandleMsg::SetBaseURI { collection, .. } => resp.attributes@[0].value@
                        == "set_base_uri"@ && resp.attributes@[1].value@ == collection@,
                    HandleMsg::SetWhitelist { collection, .. } => resp.attributes@[0].value@
                        == "set_whitelist"@ && resp.attributes@[1].value@ == collection@,
                },
                Err(_) => *final(self) == *old(self),
            },
            match msg {
                HandleMsg::CreateCollection { deployment_config, runtime_config } => {
                    &&& (r is Ok <==> spec_valid_config(&deployment_config, &runtime_config))
                    &&& (r is Ok ==> final(self).deployed_of(sender@) == old(self).deployed_of(
                        sender@,
                    ).push(instance_addr@) && final(self).all_of() == old(self).all_of().push(
                        instance_addr@,
                    ) && final(self).addresses() == old(self).addresses().insert(
                        deployment_config.name@,
                        instance_addr@,
                    ))
                    &&& (r is Err ==> r == Result::<Response, ContractError>::Err(
                        ContractError::InvalidConfig,
                    ))
                },
                HandleMsg::SetBaseURI { collection, uri, status } => {
                    &&& (r is Ok <==> old(self).addresses().dom().contains(collection@))
                    &&& (r is Ok ==> final(self).base_uris() == old(self).base_uris().insert(
                        old(self).addresses()[collection@],
                        uri@,
                    ) && final(self).uri_statuses() == old(self).uri_statuses().insert(
                        old(self).addresses()[collection@],
                        status,
                    ) && final(self).same_deployments(*old(self)))
                    &&& (r is Err ==> r == Result::<Response, ContractError>::Err(
                        ContractError::CollectionNotFound,
                    ))
                },
                HandleMsg::SetWhitelist { collection, user, status } => {
                    &&& (r is Ok <==> old(self).addresses().dom().contains(collection@))
                    &&& (r is Ok ==> final(self).users_of(old(self).addresses()[collection@]) == (
                    if status {
                        if old(self).users_of(old(self).addresses()[collection@]).contains(user@) {
                            old(self).users_of(old(self).addresses()[collection@])
                        } else {
                            old(self).users_of(old(self).addresses()[collection@]).push(user@)
                        }
                    } else {
                        remove_user(old(self).users_of(old(self).addresses()[collection@]), user@)
                    }) && final(self).same_deployments(*old(self)))
                    &&& (r is Err ==> r == Result::<Response, ContractError>::Err(
                        ContractError::CollectionNotFound,
                    ))
                },
            },
    {
        match msg {
            HandleMsg::CreateCollection { deployment_config, runtime_config } => self
                .create_collection(sender, instance_addr, &deployment_config, &runtime_config),
            HandleMsg::SetBaseURI { collection, uri, status } => {
                match self.set_base_uri(&collection, uri, status) {
                    Ok(()) => {
                        let mut attributes: Vec<Attribute> = Vec::new();
                        attributes.push(attr("action", "set_base_uri"));
                        attributes.push(attr("collection", collection.as_str()));
                        Ok(Response::with_attributes(attributes))
                    },
                    Err(e) => Err(e),
                }
            },
            HandleMsg::SetWhitelist { collection, user, status } => {
                match self.set_whitelist(&collection, &user, status) {
                    Ok(()) => {
                        let mut attributes: Vec<Attribute> = Vec::new();
                        attributes.push(attr("action", "set_whitelist"));
                        attributes.push(attr("collection", collection.as_str()));
                        Ok(Response::with_attributes(attributes))
                    },
                    Err(e) => Err(e),
                }
            },
        }
    }

    /// Answers one read-only query; pure, no state is touched.
    pub fn query(&self, msg: &QueryMsg) -> (r: QueryAnswer)
        requires
            self.wf(),
        ensures
            match msg {
                QueryMsg::LastDeployed { owner } => match r {
                    QueryAnswer::LastDeployed(opt) => match opt {
                        Some(a) => self.deployed_of(owner@).len() > 0 && a@ == self.deployed_of(
                            owner@,
                        ).last(),
                        None => self.deployed_of(owner@).len() == 0,
                    },
                    QueryAnswer::Contracts(_) => false,
                },
                QueryMsg::AllContracts => match r {
                    QueryAnswer::Contracts(v) => v.deep_view() == self.all_of(),
                    QueryAnswer::LastDeployed(_) => false,
                },
                QueryMsg::Deployed { owner } => match r {
                    QueryAnswer::Contracts(v) => v.deep_view() == self.deployed_of(owner@),
                    QueryAnswer::LastDeployed(_) => false,
                },
            },
    {
        match msg {
            QueryMsg::LastDeployed { owner } => QueryAnswer::LastDeployed(
                self.get_last_deployed(owner),
            ),
            QueryMsg::AllContracts => QueryAnswer::Contracts(self.get_all_contracts()),
            QueryMsg::Deployed { owner } => QueryAnswer::Contracts(self.get_deployed(owner)),
        }
    }
}

/// After two deployments for the same owner, the owner's list ends with the
/// second address and holds both in creation order, and the global list
/// includes both, whoever deployed in between for other owners did not
/// disturb this owner's order.
pub proof fn lemma_two_creates_ordered(
    r0: State,
    r1: State,
    r2: State,
    owner: Seq<char>,
    a1: Seq<char>,
    a2: Seq<char>,
)
    requires
        r1.deployed_of(owner) == r0.deployed_of(owner).push(a1),
        r1.all_of() == r0.all_of().push(a1),
        r2.deployed_of(owner) == r1.deployed_of(owner).push(a2),
        r2.all_of() == r1.all_of().push(a2),
    ensures
        r2.deployed_of(owner) == r0.deployed_of(owner) + seq![a1, a2],
        r2.deployed_of(owner).last() == a2,
        r2.all_of().contains(a1),
        r2.all_of().contains(a2),
{
    assert(r2.deployed_of(owner) =~= r0.deployed_of(owner) + seq![a1, a2]);
    assert(r2.all_of()[r2.all_of().len() - 1] == a2);
    assert(r2.all_of()[r2.all_of().len() - 2] == a1);
}

} // verus!
