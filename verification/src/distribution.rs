//! Messages of the distribution schema.

use vstd::prelude::*;

use crate::base::Coin;
use crate::msg::MsgProto;

verus! {

/// Change the address that a delegator's rewards are withdrawn to.
#[derive(Debug, Clone, PartialEq, Eq)]
pub struct MsgSetWithdrawAddress {
    pub delegator_address: String,
    pub withdraw_address: String,
}

impl MsgProto for MsgSetWithdrawAddress {
    open spec fn type_url_spec() -> Seq<char> {
        "/cosmos.distribution.v1beta1.MsgSetWithdrawAddress"@
    }

    open spec fn fields(&self) -> Seq<Seq<char>> {
        seq![self.delegator_address@, self.withdraw_address@]
    }

    open spec fn num_fields() -> nat {
        2
    }

    fn type_url() -> (r: &'static str) {
        "/cosmos.distribution.v1beta1.MsgSetWithdrawAddress"
    }

    fn field_count() -> (n: usize) {
        2
    }

    fn to_fields(&self) -> (r: Vec<String>) {
        let mut v: Vec<String> = Vec::new();
        v.push(self.delegator_address.clone());
        v.push(self.withdraw_address.clone());
        proof {
            assert(v.deep_view() =~= self.fields());
        }
        v
    }

    fn from_fields(fields: Vec<String>) -> (r: Self) {
        let r = MsgSetWithdrawAddress {
            delegator_address: fields[0].clone(),
            withdraw_address: fields[1].clone(),
        };
        proof {
            assert(r.fields() =~= fields.deep_view());
        }
        r
    }
}

/// Withdraw the rewards a delegator has earned from one validator.
#[derive(Debug, Clone, PartialEq, Eq)]
pub struct MsgWithdrawDelegatorReward {
    pub delegator_address: String,
    pub validator_address: String,
}

impl MsgProto for MsgWithdrawDelegatorReward {
    open spec fn type_url_spec() -> Seq<char> {
        "/cosmos.distribution.v1beta1.MsgWithdrawDelegatorReward"@
    }

    open spec fn fields(&self) -> Seq<Seq<char>> {
        seq![self.delegator_address@, self.validator_address@]
    }

    open spec fn num_fields() -> nat {
        2
    }

    fn type_url() -> (r: &'static str) {
        "/cosmos.distribution.v1beta1.MsgWithdrawDelegatorReward"
    }

    fn field_count() -> (n: usize) {
        2
    }

    fn to_fields(&self) -> (r: Vec<String>) {
        let mut v: Vec<String> = Vec::new();
        v.push(self.delegator_address.clone());
        v.push(self.validator_address.clone());
        proof {
            assert(v.deep_view() =~= self.fields());
        }
        v
    }

    fn from_fields(fields: Vec<String>) -> (r: Self) {
        let r = MsgWithdrawDelegatorReward {
            delegator_address: fields[0].clone(),
            validator_address: fields[1].clone(),
        };
        proof {
            assert(r.fields() =~= fields.deep_view());
        }
        r
    }
}

/// Withdraw the commission a validator has accumulated.
#[derive(Debug, Clone, PartialEq, Eq)]
pub struct MsgWithdrawValidatorCommission {
    pub validator_address: String,
}

impl MsgProto for MsgWithdrawValidatorCommission {
    open spec fn type_url_spec() -> Seq<char> {
        "/cosmos.distribution.v1beta1.MsgWithdrawValidatorCommission"@
    }

    open spec fn fields(&self) -> Seq<Seq<char>> {
        seq![self.validator_address@]
    }

    open spec fn num_fields() -> nat {
        1
    }

    fn type_url() -> (r: &'static str) {
        "/cosmos.distribution.v1beta1.MsgWithdrawValidatorCommission"
    }

    fn field_count() -> (n: usize) {
        1
    }

    fn to_fields(&self) -> (r: Vec<String>) {
        let mut v: Vec<String> = Vec::new();
        v.push(self.validator_address.clone());
        proof {
            assert(v.deep_view() =~= self.fields());
        }
        v
    }

    fn from_fields(fields: Vec<String>) -> (r: Self) {
        let r = MsgWithdrawValidatorCommission { validator_address: fields[0].clone() };
        proof {
            assert(r.fields() =~= fields.deep_view());
        }
        r
    }
}

/// Contribute an amount of tokens to the community pool.
#[derive(Debug, Clone, PartialEq, Eq)]
pub struct MsgFundCommunityPool {
    pub depositor: String,
    pub amount: Coin,
}

impl MsgProto for MsgFundCommunityPool {
    open spec fn type_url_spec() -> Seq<char> {
        "/cosmos.distribution.v1beta1.MsgFundCommunityPool"@
    }

    open spec fn fields(&self) -> Seq<Seq<char>> {
        seq![self.depositor@] + self.amount.fields()
    }

    open spec fn num_fields() -> nat {
        3
    }

    fn type_url() -> (r: &'static str) {
        "/cosmos.distribution.v1beta1.MsgFundCommunityPool"
    }

    fn field_count() -> (n: usize) {
        3
    }

    fn to_fields(&self) -> (r: Vec<String>) {
        let mut v: Vec<String> = Vec::new();
        v.push(self.depositor.clone());
        v.push(self.amount.denom.clone());
        v.push(self.amount.amount.clone());
        proof {
            assert(v.deep_view() =~= self.fields());
        }
        v
    }

    fn from_fields(fields: Vec<String>) -> (r: Self) {
        let r = MsgFundCommunityPool {
            depositor: fields[0].clone(),
            amount: Coin { denom: fields[1].clone(), amount: fields[2].clone() },
        };
        proof {
            assert(r.fields() =~= fields.deep_view());
        }
        r
    }
}

} // verus!
