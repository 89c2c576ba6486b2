//! The generic message envelope and the typed conversion operations.

use vstd::prelude::*;

use crate::error::Error;
use crate::wire;
use crate::wire::{fields_wf, spec_encode_fields};

verus! {

/// The mathematical model of an envelope: the identifier characters and the
/// payload bytes it holds.
pub struct MsgView {
    pub type_url: Seq<char>,
    pub value: Seq<u8>,
}

/// A transaction message envelope: a namespaced type identifier string paired
/// with an opaque byte payload.  This is the universal wire representation of
/// a message; it is built either from raw parts or by serializing a typed
/// message, and is immutable once constructed.
#[derive(Debug, Clone)]
pub struct Msg {
    type_url: String,
    value: Vec<u8>,
}

impl View for Msg {
    type V = MsgView;

    closed spec fn view(&self) -> MsgView {
        MsgView { type_url: self.type_url@, value: self.value@ }
    }
}

impl Msg {
    /// Create a new message envelope from raw parts.  No validation is
    /// performed: the caller is responsible for supplying a well-formed
    /// identifier.
    pub fn new(type_url: String, value: Vec<u8>) -> (r: Msg)
        ensures
            r@.type_url == type_url@,
            r@.value == value@,
    {
        Msg { type_url, value }
    }

    /// The type identifier of this envelope.
    pub fn type_url(&self) -> (r: &String)
        ensures
            r@ == self@.type_url,
    {
        &self.type_url
    }

    /// The raw byte payload of this envelope.
    pub fn value(&self) -> (r: &Vec<u8>)
        ensures
            r@ == self@.value,
    {
        &self.value
    }

    /// Take the envelope apart into its identifier and payload.
    pub fn into_parts(self) -> (r: (String, Vec<u8>))
        ensures
            r.0@ == self@.type_url,
            r.1@ == self@.value,
    {
        (self.type_url, self.value)
    }
}

impl PartialEq for Msg {
    /// Two envelopes are equal exactly when both the identifier and the
    /// payload bytes are equal.
    fn eq(&self, other: &Msg) -> (r: bool) {
        let urls_equal = self.type_url == other.type_url;
        let values_equal = self.value == other.value;
        proof {
            if values_equal {
                assert(self.value@ =~= other.value@);
            }
        }
        urls_equal && values_equal
    }
}

impl vstd::std_specs::cmp::PartialEqSpecImpl for Msg {
    open spec fn obeys_eq_spec() -> bool {
        true
    }

    open spec fn eq_spec(&self, other: &Msg) -> bool {
        self@.type_url == other@.type_url && self@.value == other@.value
    }
}

impl Eq for Msg {

}

/// The typed-conversion capability.  A message type declares its fixed wire
/// identifier and how its values are taken apart into, and rebuilt from, the
/// ASCII string fields that the payload codec stores.
pub trait MsgProto: Sized {
    /// The fixed wire identifier of this message type.
    spec fn type_url_spec() -> Seq<char>;

    /// The fields of this value, flattened into storage order.
    spec fn fields(&self) -> Seq<Seq<char>>;

    /// How many fields this message type stores.
    spec fn num_fields() -> nat;

    /// The fixed wire identifier of this message type.
    fn type_url() -> (r: &'static str)
        ensures
            r@ == Self::type_url_spec(),
    ;

    /// How many fields this message type stores.
    fn field_count() -> (n: usize)
        ensures
            n == Self::num_fields(),
    ;

    /// The fields of this value, in storage order.
    fn to_fields(&self) -> (r: Vec<String>)
        ensures
            r.deep_view() == self.fields(),
    ;

    /// Rebuild a value from its fields.
    fn from_fields(fields: Vec<String>) -> (r: Self)
        requires
            fields@.len() == Self::num_fields(),
        ensures
            r.fields() == fields.deep_view(),
    ;
}

/// A typed message is well formed when it has its type's number of fields and
/// every field can be stored.
pub open spec fn msg_wf<T: MsgProto>(v: &T) -> bool {
    &&& v.fields().len() == T::num_fields()
    &&& fields_wf(v.fields())
}

/// The payload that encodes a typed message.
pub open spec fn msg_encoding<T: MsgProto>(v: &T) -> Seq<u8> {
    spec_encode_fields(v.fields())
}

/// What serializing `v` returns.  It succeeds exactly on well-formed values,
/// and the envelope then carries the type's identifier and the value's
/// payload encoding.
pub open spec fn to_msg_post<T: MsgProto>(v: &T, r: Result<Msg, Error>) -> bool {
    &&& (r is Ok) <==> msg_wf(v)
    &&& (r matches Ok(m) ==> m@.type_url == T::type_url_spec() && m@.value == msg_encoding(v))
    &&& (r matches Err(e) ==> e is Codec)
}

/// What parsing an envelope with model `m` as type `T` returns.  On a
/// mismatched identifier it fails with a mismatch error naming both
/// identifiers; on a matching identifier it returns the unique well-formed
/// value whose encoding is the payload, or a codec error when there is none.
pub open spec fn from_msg_post<T: MsgProto>(m: MsgView, r: Result<T, Error>) -> bool {
    if m.type_url == T::type_url_spec() {
        &&& (r matches Ok(w) ==> msg_wf(&w) && m.value == msg_encoding(&w))
        &&& (forall|v: T|
            msg_wf(&v) && m.value == msg_encoding(&v) ==> (r matches Ok(w) && w.fields()
                == v.fields()))
        &&& (r matches Err(e) ==> e is Codec && !(exists|v: T|
            msg_wf(&v) && m.value == msg_encoding(&v)))
    } else {
        r matches Err(e) && e matches Error::MsgType { expected, found } && expected@
            == T::type_url_spec() && found@ == m.type_url
    }
}

/// Message types that can be converted to and from a [`Msg`].  Every type
/// with the typed-conversion capability [`MsgProto`] implements it.
pub trait MsgType: MsgProto {
    /// Attempt to parse this value from a [`Msg`].
    fn from_msg(msg: &Msg) -> (r: Result<Self, Error>)
        ensures
            from_msg_post::<Self>(msg@, r),
    ;

    /// Serialize this value as a [`Msg`].
    fn to_msg(&self) -> (r: Result<Msg, Error>)
        ensures
            to_msg_post::<Self>(self, r),
    ;
}

impl<T: MsgProto> MsgType for T {
    fn from_msg(msg: &Msg) -> (r: Result<T, Error>) {
        let expected: &'static str = Self::type_url();
        let expected_string: String = expected.to_owned();
        if msg.type_url == expected_string {
            match wire::decode_fields(msg.value.as_slice(), Self::field_count()) {
                Ok(fields) => {
                    let ghost fsv = fields.deep_view();
                    let v = Self::from_fields(fields);
                    proof {
                        assert forall|v2: T|
                            msg_wf(&v2) && msg@.value == msg_encoding(&v2) implies v.fields()
                            == v2.fields() by {
                            assert(fsv == v2.fields());
                        }
                    }
                    Ok(v)
                },
                Err(e) => {
                    proof {
                        assert forall|v2: T|
                            !(msg_wf(&v2) && msg@.value == msg_encoding(&v2)) by {
                            if msg_wf(&v2) && msg@.value == msg_encoding(&v2) {
                                assert(fields_wf(v2.fields()) && v2.fields().len()
                                    == T::num_fields() && msg@.value == spec_encode_fields(
                                    v2.fields(),
                                ));
                            }
                        }
                    }
                    Err(e)
                },
            }
        } else {
            Err(Error::MsgType { expected, found: msg.type_url.clone() })
        }
    }

    fn to_msg(&self) -> (r: Result<Msg, Error>) {
        let fields = self.to_fields();
        if fields.len() == Self::field_count() && wire::fields_are_wf(&fields) {
            let payload = wire::encode_fields(&fields);
            let url: String = Self::type_url().to_owned();
            Ok(Msg::new(url, payload))
        } else {
            Err(Error::Codec { detail: "the message fields cannot be stored".to_owned() })
        }
    }
}

/// Round-trip law: parsing the envelope serialized from a well-formed value,
/// as the same type, succeeds and returns a value with the same fields.
pub proof fn lemma_round_trip<T: MsgProto>(v: &T, m: Msg, r: Result<T, Error>)
    requires
        msg_wf(v),
        to_msg_post::<T>(v, Ok(m)),
        from_msg_post::<T>(m@, r),
    ensures
        r matches Ok(w) && w.fields() == v.fields(),
{
    assert(msg_wf(v) && m@.value == msg_encoding(v));
}

/// Mismatch law: parsing an envelope serialized from one type as a different
/// type, with a different identifier, fails with a mismatch error naming the
/// expected and the found identifier.
pub proof fn lemma_mismatch<T1: MsgProto, T2: MsgProto>(v2: &T2, m: Msg, r: Result<T1, Error>)
    requires
        T1::type_url_spec() != T2::type_url_spec(),
        to_msg_post::<T2>(v2, Ok(m)),
        from_msg_post::<T1>(m@, r),
    ensures
        r matches Err(e) && e matches Error::MsgType { expected, found } && expected@
            == T1::type_url_spec() && found@ == T2::type_url_spec(),
{
}

/// Identifier fidelity: a serialized envelope always carries the fixed
/// identifier of the value's type.
pub proof fn lemma_identifier_fidelity<T: MsgProto>(v: &T, m: Msg)
    requires
        to_msg_post::<T>(v, Ok(m)),
    ensures
        m@.type_url == T::type_url_spec(),
{
}

/// Corruption law: parsing an envelope whose identifier matches but whose
/// payload is not the encoding of any well-formed value fails with a codec
/// error.
pub proof fn lemma_corrupt_payload<T: MsgProto>(m: Msg, r: Result<T, Error>)
    requires
        m@.type_url == T::type_url_spec(),
        !(exists|v: T| msg_wf(&v) && m@.value == msg_encoding(&v)),
        from_msg_post::<T>(m@, r),
    ensures
        r matches Err(e) && e is Codec,
{
    if r is Ok {
        let w = r->Ok_0;
        assert(msg_wf(&w) && m@.value == msg_encoding(&w));
    }
}

} // verus!
