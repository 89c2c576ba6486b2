//! Messages of the bank schema.

use vstd::prelude::*;

use crate::base::Coin;
use crate::msg::MsgProto;

verus! {

/// Send an amount of tokens from one account to another.
#[derive(Debug, Clone, PartialEq, Eq)]
pub struct MsgSend {
    pub from_address: String,
    pub to_address: String,
    pub amount: Coin,
}

impl MsgProto for MsgSend {
    open spec fn type_url_spec() -> Seq<char> {
        "/cosmos.bank.v1beta1.MsgSend"@
    }

    open spec fn fields(&self) -> Seq<Seq<char>> {
        seq![self.from_address@, self.to_address@] + self.amount.fields()
    }

    open spec fn num_fields() -> nat {
        4
    }

    fn type_url() -> (r: &'static str) {
        "/cosmos.bank.v1beta1.MsgSend"
    }

    fn field_count() -> (n: usize) {
        4
    }

    fn to_fields(&self) -> (r: Vec<String>) {
        let mut v: Vec<String> = Vec::new();
        v.push(self.from_address.clone());
        v.push(self.to_address.clone());
        v.push(self.amount.denom.clone());
        v.push(self.amount.amount.clone());
        proof {
            assert(v.deep_view() =~= self.fields());
        }
        v
    }

    fn from_fields(fields: Vec<String>) -> (r: Self) {
        let r = MsgSend {
            from_address: fields[0].clone(),
            to_address: fields[1].clone(),
            amount: Coin { denom: fields[2].clone(), amount: fields[3].clone() },
        };
        proof {
            assert(r.fields() =~= fields.deep_view());
        }
        r
    }
}

} // verus!
