//! The relayer record, its policy variants, and the sparse update request,
//! together with their mathematical models.

use vstd::prelude::*;

verus! {

/// The network family a relayer operates on.
#[derive(Clone, Copy, PartialEq, Eq, Structural, Debug)]
pub enum NetworkType {
    Evm,
    Solana,
    Stellar,
}

/// Policy settings for a relayer on an EVM network.
#[derive(Debug, PartialEq)]
pub struct RelayerEvmPolicy {
    pub gas_price_cap: Option<u128>,
    pub whitelist_receivers: Option<Vec<String>>,
    pub eip1559_pricing: Option<bool>,
    pub private_transactions: bool,
    pub min_balance: u128,
    pub gas_limit_estimation: Option<bool>,
}

/// Policy settings for a relayer on a Solana network.
#[derive(Clone, Copy, PartialEq, Eq, Structural, Debug)]
pub struct RelayerSolanaPolicy {
    pub min_balance: Option<u64>,
    pub max_signatures: Option<u8>,
    pub max_tx_data_size: Option<u16>,
}

/// Policy settings for a relayer on a Stellar network.
#[derive(Clone, Copy, PartialEq, Eq, Structural, Debug)]
pub struct RelayerStellarPolicy {
    pub min_balance: Option<u64>,
    pub max_fee: Option<u32>,
}

/// The network-specific policy attached to a relayer, replaced as a whole
/// by `update_policy`.
#[derive(Debug, PartialEq)]
pub enum RelayerNetworkPolicy {
    Evm(RelayerEvmPolicy),
    Solana(RelayerSolanaPolicy),
    Stellar(RelayerStellarPolicy),
}

/// A relayer record. The repository interprets only `id`, `paused`,
/// `system_disabled` and `policies`; the remaining fields are payload
/// carried unchanged.
#[derive(Debug, PartialEq)]
pub struct RelayerRepoModel {
    pub id: String,
    pub name: String,
    pub network: String,
    pub paused: bool,
    pub network_type: NetworkType,
    pub policies: RelayerNetworkPolicy,
    pub signer_id: String,
    pub address: String,
    pub notification_id: Option<String>,
    pub system_disabled: bool,
    pub custom_rpc_urls: Option<Vec<String>>,
}

/// A sparse update request: only the fields present are applied.
#[derive(Clone, Copy, PartialEq, Eq, Structural, Debug)]
pub struct RelayerUpdateRequest {
    pub paused: Option<bool>,
}

/// Mathematical model of an EVM policy.
pub struct EvmPolicySpec {
    pub gas_price_cap: Option<u128>,
    pub whitelist_receivers: Option<Seq<Seq<char>>>,
    pub eip1559_pricing: Option<bool>,
    pub private_transactions: bool,
    pub min_balance: u128,
    pub gas_limit_estimation: Option<bool>,
}

/// Mathematical model of a network policy.
pub enum PolicySpec {
    Evm(EvmPolicySpec),
    Solana(RelayerSolanaPolicy),
    Stellar(RelayerStellarPolicy),
}

/// Mathematical model of a relayer record: every attribute as a plain
/// mathematical value.
pub struct RelayerModelSpec {
    pub id: Seq<char>,
    pub name: Seq<char>,
    pub network: Seq<char>,
    pub paused: bool,
    pub network_type: NetworkType,
    pub policies: PolicySpec,
    pub signer_id: Seq<char>,
    pub address: Seq<char>,
    pub notification_id: Option<Seq<char>>,
    pub system_disabled: bool,
    pub custom_rpc_urls: Option<Seq<Seq<char>>>,
}

impl View for RelayerEvmPolicy {
    type V = EvmPolicySpec;

    open spec fn view(&self) -> EvmPolicySpec {
        EvmPolicySpec {
            gas_price_cap: self.gas_price_cap,
            whitelist_receivers: self.whitelist_receivers.deep_view(),
            eip1559_pricing: self.eip1559_pricing,
            private_transactions: self.private_transactions,
            min_balance: self.min_balance,
            gas_limit_estimation: self.gas_limit_estimation,
        }
    }
}

impl View for RelayerNetworkPolicy {
    type V = PolicySpec;

    open spec fn view(&self) -> PolicySpec {
        match self {
            RelayerNetworkPolicy::Evm(p) => PolicySpec::Evm(p@),
            RelayerNetworkPolicy::Solana(p) => PolicySpec::Solana(*p),
            RelayerNetworkPolicy::Stellar(p) => PolicySpec::Stellar(*p),
        }
    }
}

impl View for RelayerRepoModel {
    type V = RelayerModelSpec;

    open spec fn view(&self) -> RelayerModelSpec {
        RelayerModelSpec {
            id: self.id@,
            name: self.name@,
            network: self.network@,
            paused: self.paused,
            network_type: self.network_type,
            policies: self.policies@,
            signer_id: self.signer_id@,
            address: self.address@,
            notification_id: self.notification_id.deep_view(),
            system_disabled: self.system_disabled,
            custom_rpc_urls: self.custom_rpc_urls.deep_view(),
        }
    }
}

impl RelayerModelSpec {
    /// The same record with its key replaced.
    pub open spec fn with_id(self, id: Seq<char>) -> RelayerModelSpec {
        RelayerModelSpec { id, ..self }
    }

    /// The same record with its paused flag replaced.
    pub open spec fn with_paused(self, paused: bool) -> RelayerModelSpec {
        RelayerModelSpec { paused, ..self }
    }

    /// The same record with its policy replaced.
    pub open spec fn with_policies(self, policies: PolicySpec) -> RelayerModelSpec {
        RelayerModelSpec { policies, ..self }
    }

    /// The same record with its system-disabled flag replaced.
    pub open spec fn with_system_disabled(self, system_disabled: bool) -> RelayerModelSpec {
        RelayerModelSpec { system_disabled, ..self }
    }

    /// A sparse patch: a field of the request that is present replaces the
    /// stored value; an absent field leaves it unchanged.
    pub open spec fn apply_update(self, update: RelayerUpdateRequest) -> RelayerModelSpec {
        match update.paused {
            Some(p) => self.with_paused(p),
            None => self,
        }
    }
}

/// Clones an optional list of strings, preserving its model.
fn clone_opt_string_vec(v: &Option<Vec<String>>) -> (r: Option<Vec<String>>)
    ensures
        r.deep_view() == v.deep_view(),
{
    match v {
        Some(items) => {
            let mut out: Vec<String> = Vec::new();
            let mut i: usize = 0;
            while i < items.len()
                invariant
                    i <= items.len(),
                    out@.len() == i,
                    forall|j: int| 0 <= j < i ==> out@[j]@ == items@[j]@,
                decreases items.len() - i,
            {
                out.push(items[i].clone());
                i += 1;
            }
            proof {
                assert(out.deep_view() =~= items.deep_view());
            }
            Some(out)
        },
        None => None,
    }
}

impl Clone for RelayerEvmPolicy {
    fn clone(&self) -> (r: Self)
        ensures
            r@ == self@,
    {
        let r = RelayerEvmPolicy {
            gas_price_cap: self.gas_price_cap,
            whitelist_receivers: clone_opt_string_vec(&self.whitelist_receivers),
            eip1559_pricing: self.eip1559_pricing,
            private_transactions: self.private_transactions,
            min_balance: self.min_balance,
            gas_limit_estimation: self.gas_limit_estimation,
        };
        r
    }
}

impl Clone for RelayerNetworkPolicy {
    fn clone(&self) -> (r: Self)
        ensures
            r@ == self@,
    {
        match self {
            RelayerNetworkPolicy::Evm(p) => RelayerNetworkPolicy::Evm(p.clone()),
            RelayerNetworkPolicy::Solana(p) => RelayerNetworkPolicy::Solana(*p),
            RelayerNetworkPolicy::Stellar(p) => RelayerNetworkPolicy::Stellar(*p),
        }
    }
}

/// Clones an optional string, preserving its model.
fn clone_opt_string(v: &Option<String>) -> (r: Option<String>)
    ensures
        r.deep_view() == v.deep_view(),
{
    match v {
        Some(s) => Some(s.clone()),
        None => None,
    }
}

impl Clone for RelayerRepoModel {
    fn clone(&self) -> (r: Self)
        ensures
            r@ == self@,
    {
        RelayerRepoModel {
            id: self.id.clone(),
            name: self.name.clone(),
            network: self.network.clone(),
            paused: self.paused,
            network_type: self.network_type,
            policies: self.policies.clone(),
            signer_id: self.signer_id.clone(),
            address: self.address.clone(),
            notification_id: clone_opt_string(&self.notification_id),
            system_disabled: self.system_disabled,
            custom_rpc_urls: clone_opt_string_vec(&self.custom_rpc_urls),
        }
    }
}

} // verus!
