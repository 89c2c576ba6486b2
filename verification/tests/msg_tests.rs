use cosmos_msg::bank::MsgSend;
use cosmos_msg::base::Coin;
use cosmos_msg::distribution::{
    MsgFundCommunityPool, MsgSetWithdrawAddress, MsgWithdrawDelegatorReward,
    MsgWithdrawValidatorCommission,
};
use cosmos_msg::staking::{MsgBeginRedelegate, MsgDelegate, MsgUndelegate};
use cosmos_msg::{Error, Msg, MsgProto, MsgType};

fn coin(denom: &str, amount: &str) -> Coin {
    Coin { denom: denom.to_owned(), amount: amount.to_owned() }
}

fn sample_send() -> MsgSend {
    MsgSend {
        from_address: "cosmos1qypqxpq9qcrsszg2pvxq6rs0zqg3yyc5lzv7xu".to_owned(),
        to_address: "cosmos1ulav3hsenupswqfkw2y3sup5kgtqwnvqa8eyhs".to_owned(),
        amount: coin("uatom", "1000000"),
    }
}

#[test]
fn round_trip_msg_send() {
    let v = sample_send();
    let m = v.to_msg().unwrap();
    assert_eq!(m.type_url(), "/cosmos.bank.v1beta1.MsgSend");
    let w = MsgSend::from_msg(&m).unwrap();
    assert_eq!(w, v);
}

#[test]
fn parse_send_as_delegate_is_mismatch() {
    let v = sample_send();
    let m = v.to_msg().unwrap();
    let r = MsgDelegate::from_msg(&m);
    assert_eq!(
        r,
        Err(Error::MsgType {
            expected: "/cosmos.staking.v1beta1.MsgDelegate",
            found: "/cosmos.bank.v1beta1.MsgSend".to_owned(),
        })
    );
}

#[test]
fn round_trip_msg_set_withdraw_address() {
    let v = MsgSetWithdrawAddress {
        delegator_address: "cosmos1delegator".to_owned(),
        withdraw_address: "cosmos1withdraw".to_owned(),
    };
    let m = v.to_msg().unwrap();
    assert_eq!(m.type_url(), "/cosmos.distribution.v1beta1.MsgSetWithdrawAddress");
    assert_eq!(MsgSetWithdrawAddress::from_msg(&m).unwrap(), v);
}

#[test]
fn round_trip_msg_withdraw_delegator_reward() {
    let v = MsgWithdrawDelegatorReward {
        delegator_address: "cosmos1delegator".to_owned(),
        validator_address: "cosmosvaloper1xyz".to_owned(),
    };
    let m = v.to_msg().unwrap();
    assert_eq!(m.type_url(), "/cosmos.distribution.v1beta1.MsgWithdrawDelegatorReward");
    assert_eq!(MsgWithdrawDelegatorReward::from_msg(&m).unwrap(), v);
}

#[test]
fn round_trip_msg_withdraw_validator_commission() {
    let v = MsgWithdrawValidatorCommission { validator_address: "cosmosvaloper1xyz".to_owned() };
    let m = v.to_msg().unwrap();
    assert_eq!(m.type_url(), "/cosmos.distribution.v1beta1.MsgWithdrawValidatorCommission");
    assert_eq!(MsgWithdrawValidatorCommission::from_msg(&m).unwrap(), v);
}

#[test]
fn round_trip_msg_fund_community_pool() {
    let v = MsgFundCommunityPool {
        depositor: "cosmos1depositor".to_owned(),
        amount: coin("uatom", "42"),
    };
    let m = v.to_msg().unwrap();
    assert_eq!(m.type_url(), "/cosmos.distribution.v1beta1.MsgFundCommunityPool");
    assert_eq!(MsgFundCommunityPool::from_msg(&m).unwrap(), v);
}

#[test]
fn round_trip_msg_delegate() {
    let v = MsgDelegate {
        delegator_address: "cosmos1delegator".to_owned(),
        validator_address: "cosmosvaloper1xyz".to_owned(),
        amount: coin("uatom", "500"),
    };
    let m = v.to_msg().unwrap();
    assert_eq!(m.type_url(), "/cosmos.staking.v1beta1.MsgDelegate");
    assert_eq!(MsgDelegate::from_msg(&m).unwrap(), v);
}

#[test]
fn round_trip_msg_undelegate() {
    let v = MsgUndelegate {
        delegator_address: "cosmos1delegator".to_owned(),
        validator_address: "cosmosvaloper1xyz".to_owned(),
        amount: coin("uatom", "500"),
    };
    let m = v.to_msg().unwrap();
    assert_eq!(m.type_url(), "/cosmos.staking.v1beta1.MsgUndelegate");
    assert_eq!(MsgUndelegate::from_msg(&m).unwrap(), v);
}

#[test]
fn round_trip_msg_begin_redelegate() {
    let v = MsgBeginRedelegate {
        delegator_address: "cosmos1delegator".to_owned(),
        validator_src_address: "cosmosvaloper1src".to_owned(),
        validator_dst_address: "cosmosvaloper1dst".to_owned(),
        amount: coin("uatom", "7"),
    };
    let m = v.to_msg().unwrap();
    assert_eq!(m.type_url(), "/cosmos.staking.v1beta1.MsgBeginRedelegate");
    assert_eq!(MsgBeginRedelegate::from_msg(&m).unwrap(), v);
}

#[test]
fn round_trip_empty_fields() {
    let v = MsgSend {
        from_address: String::new(),
        to_address: String::new(),
        amount: coin("", ""),
    };
    let m = v.to_msg().unwrap();
    assert_eq!(MsgSend::from_msg(&m).unwrap(), v);
}

#[test]
fn corrupt_payload_is_codec_error() {
    let m = Msg::new("/cosmos.bank.v1beta1.MsgSend".to_owned(), vec![1, 2, 3]);
    let r = MsgSend::from_msg(&m);
    assert!(matches!(r, Err(Error::Codec { .. })));
}

#[test]
fn empty_payload_is_codec_error() {
    let m = Msg::new("/cosmos.bank.v1beta1.MsgSend".to_owned(), Vec::new());
    let r = MsgSend::from_msg(&m);
    assert!(matches!(r, Err(Error::Codec { .. })));
}

#[test]
fn truncated_payload_is_codec_error() {
    let v = sample_send();
    let m = v.to_msg().unwrap();
    let (url, mut payload) = m.into_parts();
    payload.pop();
    let r = MsgSend::from_msg(&Msg::new(url, payload));
    assert!(matches!(r, Err(Error::Codec { .. })));
}

#[test]
fn trailing_bytes_are_a_codec_error() {
    let v = sample_send();
    let m = v.to_msg().unwrap();
    let (url, mut payload) = m.into_parts();
    payload.push(0);
    let r = MsgSend::from_msg(&Msg::new(url, payload));
    assert!(matches!(r, Err(Error::Codec { .. })));
}

#[test]
fn non_ascii_byte_in_payload_is_codec_error() {
    // one field of length 1 whose byte is outside the ASCII range
    let m = Msg::new(
        "/cosmos.distribution.v1beta1.MsgWithdrawValidatorCommission".to_owned(),
        vec![1, 0, 0, 0, 0xC3],
    );
    let r = MsgWithdrawValidatorCommission::from_msg(&m);
    assert!(matches!(r, Err(Error::Codec { .. })));
}

#[test]
fn non_ascii_field_cannot_be_serialized() {
    let v = MsgWithdrawValidatorCommission { validator_address: "cosmos\u{e9}".to_owned() };
    let r = v.to_msg();
    assert!(matches!(r, Err(Error::Codec { .. })));
}

#[test]
fn payload_encoding_is_length_prefixed() {
    let v = MsgWithdrawValidatorCommission { validator_address: "ab".to_owned() };
    let m = v.to_msg().unwrap();
    assert_eq!(m.value().as_slice(), &[2, 0, 0, 0, b'a', b'b']);
}

#[test]
fn exact_payload_of_two_fields() {
    let v = MsgSetWithdrawAddress {
        delegator_address: "a".to_owned(),
        withdraw_address: "bc".to_owned(),
    };
    let m = v.to_msg().unwrap();
    assert_eq!(m.value().as_slice(), &[1, 0, 0, 0, b'a', 2, 0, 0, 0, b'b', b'c']);
}

#[test]
fn envelope_construction_and_parts() {
    let m = Msg::new("/x.y.Z".to_owned(), vec![9, 8, 7]);
    assert_eq!(m.type_url(), "/x.y.Z");
    assert_eq!(m.value().as_slice(), &[9, 8, 7]);
    let (url, payload) = m.into_parts();
    assert_eq!(url, "/x.y.Z");
    assert_eq!(payload, vec![9, 8, 7]);
}

#[test]
fn envelope_equality_is_by_identifier_and_payload() {
    let a = Msg::new("/x.y.Z".to_owned(), vec![1, 2]);
    let b = Msg::new("/x.y.Z".to_owned(), vec![1, 2]);
    let c = Msg::new("/x.y.W".to_owned(), vec![1, 2]);
    let d = Msg::new("/x.y.Z".to_owned(), vec![1, 2, 3]);
    assert_eq!(a, b);
    assert_ne!(a, c);
    assert_ne!(a, d);
}

#[test]
fn envelope_clone_is_equal() {
    let a = Msg::new("/x.y.Z".to_owned(), vec![1, 2]);
    let b = a.clone();
    assert_eq!(a, b);
}

#[test]
fn registered_identifiers_are_unique() {
    let urls = [
        MsgSend::type_url(),
        MsgSetWithdrawAddress::type_url(),
        MsgWithdrawDelegatorReward::type_url(),
        MsgWithdrawValidatorCommission::type_url(),
        MsgFundCommunityPool::type_url(),
        MsgDelegate::type_url(),
        MsgUndelegate::type_url(),
        MsgBeginRedelegate::type_url(),
    ];
    for i in 0..urls.len() {
        for j in 0..urls.len() {
            if i != j {
                assert_ne!(urls[i], urls[j]);
            }
        }
    }
}

#[test]
fn mismatch_error_description_names_both_identifiers() {
    let v = sample_send();
    let m = v.to_msg().unwrap();
    let e = MsgDelegate::from_msg(&m).unwrap_err();
    assert_eq!(
        e.describe(),
        "unexpected message type: found /cosmos.bank.v1beta1.MsgSend, \
         expected /cosmos.staking.v1beta1.MsgDelegate"
    );
    assert!(e.is_msg_type());
    assert!(!e.is_codec());
}

#[test]
fn codec_error_description_names_the_defect() {
    let m = Msg::new("/cosmos.bank.v1beta1.MsgSend".to_owned(), Vec::new());
    let e = MsgSend::from_msg(&m).unwrap_err();
    assert!(e.is_codec());
    assert!(e.describe().starts_with("codec error: "));
}
