//! The set of registered message types, and the uniqueness of their
//! identifiers.

use vstd::prelude::*;

use crate::bank::MsgSend;
use crate::distribution::{
    MsgFundCommunityPool, MsgSetWithdrawAddress, MsgWithdrawDelegatorReward,
    MsgWithdrawValidatorCommission,
};
use crate::msg::MsgProto;
use crate::staking::{MsgBeginRedelegate, MsgDelegate, MsgUndelegate};

verus! {

/// The identifiers of every registered message type.
pub open spec fn registered_type_urls() -> Seq<Seq<char>> {
    seq![
        MsgSend::type_url_spec(),
        MsgSetWithdrawAddress::type_url_spec(),
        MsgWithdrawDelegatorReward::type_url_spec(),
        MsgWithdrawValidatorCommission::type_url_spec(),
        MsgFundCommunityPool::type_url_spec(),
        MsgDelegate::type_url_spec(),
        MsgUndelegate::type_url_spec(),
        MsgBeginRedelegate::type_url_spec(),
    ]
}

/// Uniqueness law: no two registered message types share an identifier.
pub proof fn lemma_type_urls_unique()
    ensures
        forall|i: int, j: int|
            0 <= i < j < registered_type_urls().len() ==> registered_type_urls()[i]
                != registered_type_urls()[j],
{
    reveal_strlit("/cosmos.bank.v1beta1.MsgSend");
    reveal_strlit("/cosmos.distribution.v1beta1.MsgSetWithdrawAddress");
    reveal_strlit("/cosmos.distribution.v1beta1.MsgWithdrawDelegatorReward");
    reveal_strlit("/cosmos.distribution.v1beta1.MsgWithdrawValidatorCommission");
    reveal_strlit("/cosmos.distribution.v1beta1.MsgFundCommunityPool");
    reveal_strlit("/cosmos.staking.v1beta1.MsgDelegate");
    reveal_strlit("/cosmos.staking.v1beta1.MsgUndelegate");
    reveal_strlit("/cosmos.staking.v1beta1.MsgBeginRedelegate");
    let urls = registered_type_urls();
    assert(urls[0].len() == 28);
    assert(urls[1].len() == 50);
    assert(urls[2].len() == 55);
    assert(urls[3].len() == 59);
    assert(urls[4].len() == 49);
    assert(urls[5].len() == 35);
    assert(urls[6].len() == 37);
    assert(urls[7].len() == 42);
    assert forall|i: int, j: int| 0 <= i < j < urls.len() implies urls[i] != urls[j] by {
        assert(urls[i].len() != urls[j].len());
    }
}

} // verus!
