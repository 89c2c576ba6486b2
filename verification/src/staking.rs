//! Messages of the staking schema.

use vstd::prelude::*;

use crate::base::Coin;
use crate::msg::MsgProto;

verus! {

/// Delegate an amount of tokens to a validator.
#[derive(Debug, Clone, PartialEq, Eq)]
pub struct MsgDelegate {
    pub delegator_address: String,
    pub validator_address: String,
    pub amount: Coin,
}

impl MsgProto for MsgDelegate {
    open spec fn type_url_spec() -> Seq<char> {
        "/cosmos.staking.v1beta1.MsgDelegate"@
    }

    open spec fn fields(&self) -> Seq<Seq<char>> {
        seq![self.delegator_address@, self.validator_address@] + self.amount.fields()
    }

    open spec fn num_fields() -> nat {
        4
    }

    fn type_url() -> (r: &'static str) {
        "/cosmos.staking.v1beta1.MsgDelegate"
    }

    fn field_count() -> (n: usize) {
        4
    }

    fn to_fields(&self) -> (r: Vec<String>) {
        let mut v: Vec<String> = Vec::new();
        v.push(self.delegator_address.clone());
        v.push(self.validator_address.clone());
        v.push(self.amount.denom.clone());
        v.push(self.amount.amount.clone());
        proof {
            assert(v.deep_view() =~= self.fields());
        }
        v
    }

    fn from_fields(fields: Vec<String>) -> (r: Self) {
        let r = MsgDelegate {
            delegator_address: fields[0].clone(),
            validator_address: fields[1].clone(),
            amount: Coin { denom: fields[2].clone(), amount: fields[3].clone() },
        };
        proof {
            assert(r.fields() =~= fields.deep_view());
        }
        r
    }
}

/// Undo the delegation of an amount of tokens to a validator.
#[derive(Debug, Clone, PartialEq, Eq)]
pub struct MsgUndelegate {
    pub delegator_address: String,
    pub validator_address: String,
    pub amount: Coin,
}

impl MsgProto for MsgUndelegate {
    open spec fn type_url_spec() -> Seq<char> {
        "/cosmos.staking.v1beta1.MsgUndelegate"@
    }

    open spec fn fields(&self) -> Seq<Seq<char>> {
        seq![self.delegator_address@, self.validator_address@] + self.amount.fields()
    }

    open spec fn num_fields() -> nat {
        4
    }

    fn type_url() -> (r: &'static str) {
        "/cosmos.staking.v1beta1.MsgUndelegate"
    }

    fn field_count() -> (n: usize) {
        4
    }

    fn to_fields(&self) -> (r: Vec<String>) {
        let mut v: Vec<String> = Vec::new();
        v.push(self.delegator_address.clone());
        v.push(self.validator_address.clone());
        v.push(self.amount.denom.clone());
        v.push(self.amount.amount.clone());
        proof {
            assert(v.deep_view() =~= self.fields());
        }
        v
    }

    fn from_fields(fields: Vec<String>) -> (r: Self) {
        let r = MsgUndelegate {
            delegator_address: fields[0].clone(),
            validator_address: fields[1].clone(),
            amount: Coin { denom: fields[2].clone(), amount: fields[3].clone() },
        };
        proof {
            assert(r.fields() =~= fields.deep_view());
        }
        r
    }
}

/// Move a delegated amount of tokens from one validator to another.
#[derive(Debug, Clone, PartialEq, Eq)]
pub struct MsgBeginRedelegate {
    pub delegator_address: String,
    pub validator_src_address: String,
    pub validator_dst_address: String,
    pub amount: Coin,
}

impl MsgProto for MsgBeginRedelegate {
    open spec fn type_url_spec() -> Seq<char> {
        "/cosmos.staking.v1beta1.MsgBeginRedelegate"@
    }

    open spec fn fields(&self) -> Seq<Seq<char>> {
        seq![
            self.delegator_address@,
            self.validator_src_address@,
            self.validator_dst_address@,
        ] + self.amount.fields()
    }

    open spec fn num_fields() -> nat {
        5
    }

    fn type_url() -> (r: &'static str) {
        "/cosmos.staking.v1beta1.MsgBeginRedelegate"
    }

    fn field_count() -> (n: usize) {
        5
    }

    fn to_fields(&self) -> (r: Vec<String>) {
        let mut v: Vec<String> = Vec::new();
        v.push(self.delegator_address.clone());
        v.push(self.validator_src_address.clone());
        v.push(self.validator_dst_address.clone());
        v.push(self.amount.denom.clone());
        v.push(self.amount.amount.clone());
        proof {
            assert(v.deep_view() =~= self.fields());
        }
        v
    }

    fn from_fields(fields: Vec<String>) -> (r: Self) {
        let r = MsgBeginRedelegate {
            delegator_address: fields[0].clone(),
            validator_src_address: fields[1].clone(),
            validator_dst_address: fields[2].clone(),
            amount: Coin { denom: fields[3].clone(), amount: fields[4].clone() },
        };
        proof {
            assert(r.fields() =~= fields.deep_view());
        }
        r
    }
}

} // verus!
