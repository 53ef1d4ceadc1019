//! Offers and global offers as the contract storage holds them: their bytes
//! are read field by field with the MultiversX codec; the fields added in
//! later versions (the attributes of a global offer, the version flag) may be
//! missing from a record written before them.
use vstd::prelude::*;

use multiversx_sc::codec::NestedDecode;

use crate::auction::{GlobalOffer, Offer, OfferStatus};

verus! {

/// The number that `bytes` hold, most significant byte first.
pub open spec fn be_value(bytes: Seq<u8>) -> nat
    decreases bytes.len(),
{
    if bytes.len() == 0 {
        0
    } else {
        be_value(bytes.drop_last()) * 256 + bytes.last() as nat
    }
}

/// What the codec reads first from `input`: a `u64` from 8 bytes, most
/// significant first, with the number of bytes left after it.
#[verifier::opaque]
pub open spec fn nested_u64(input: Seq<u8>) -> Option<(u64, nat)> {
    if input.len() >= 8 {
        Some((be_value(input.take(8)) as u64, (input.len() - 8) as nat))
    } else {
        None
    }
}

/// What the codec reads first from `input`: a byte buffer, after its length
/// in 4 bytes (most significant first), with the number of bytes left after it.
#[verifier::opaque]
pub open spec fn nested_buffer(input: Seq<u8>) -> Option<(Seq<u8>, nat)> {
    if input.len() >= 4 && input.len() - 4 >= be_value(input.take(4)) {
        let n = be_value(input.take(4));
        Some((input.subrange(4, 4 + n as int), (input.len() - 4 - n) as nat))
    } else {
        None
    }
}

/// What the codec reads first from `input`: an address (32 bytes), with the
/// number of bytes left after it.
#[verifier::opaque]
pub open spec fn nested_address(input: Seq<u8>) -> Option<(Seq<u8>, nat)> {
    if input.len() >= 32 {
        Some((input.take(32), (input.len() - 32) as nat))
    } else {
        None
    }
}

/// What the codec reads first from `input`: a byte, with the number of bytes
/// left after it.
#[verifier::opaque]
pub open spec fn nested_u8(input: Seq<u8>) -> Option<(u8, nat)> {
    if input.len() >= 1 {
        Some((input[0], (input.len() - 1) as nat))
    } else {
        None
    }
}

/// What the codec reads first from `input`: a boolean (the byte 0 or 1),
/// with the number of bytes left after it.
#[verifier::opaque]
pub open spec fn nested_bool(input: Seq<u8>) -> Option<(bool, nat)> {
    if input.len() >= 1 && input[0] <= 1 {
        Some((input[0] == 1, (input.len() - 1) as nat))
    } else {
        None
    }
}

/// What the codec reads first from `input`: an optional byte buffer (the
/// byte 0 for none, or the byte 1 and then the buffer), with the number of
/// bytes left after it.
#[verifier::opaque]
pub open spec fn nested_option_buffer(input: Seq<u8>) -> Option<(Option<Seq<u8>>, nat)> {
    if input.len() >= 1 && input[0] == 0 {
        Some((None, (input.len() - 1) as nat))
    } else if input.len() >= 1 && input[0] == 1 {
        match nested_buffer(input.drop_first()) {
            Some((v, rest)) => Some((Some(v), rest)),
            None => None,
        }
    } else {
        None
    }
}

/// `<u64 as NestedDecode>::dep_decode` on `input`: the number read and the
/// count of bytes left after it, `None` when the codec fails; what is left is
/// never more than the input.
#[verifier::external_body]
fn decode_u64(input: &[u8]) -> (r: Option<(u64, usize)>)
    ensures
        nested_u64(input@) == (match r {
            Some((v, rest)) => Some((v, rest as nat)),
            None => None::<(u64, nat)>,
        }),
        r matches Some((_, rest)) ==> rest <= input@.len(),
{
    let mut rest = input;
    match <u64 as NestedDecode>::dep_decode(&mut rest) {
        Ok(v) => Some((v, rest.len())),
        Err(_) => None,
    }
}

/// `<Vec<u8> as NestedDecode>::dep_decode` on `input`: the buffer read and the
/// count of bytes left after it, `None` when the codec fails; what is left is
/// never more than the input.  The codec allocates the length it reads before
/// it reads the bytes, so the length must not exceed the bytes that follow.
#[verifier::external_body]
fn dep_decode_buffer(input: &[u8]) -> (r: Option<(Vec<u8>, usize)>)
    requires
        buffer_fits(input@),
    ensures
        nested_buffer(input@) == (match r {
            Some((v, rest)) => Some((v@, rest as nat)),
            None => None::<(Seq<u8>, nat)>,
        }),
        r matches Some((_, rest)) ==> rest <= input@.len(),
{
    let mut rest = input;
    match <Vec<u8> as NestedDecode>::dep_decode(&mut rest) {
        Ok(v) => Some((v, rest.len())),
        Err(_) => None,
    }
}

/// `<[u8; 32] as NestedDecode>::dep_decode` on `input` (an address): its bytes
/// and the count of bytes left after it, `None` when the codec fails; what is
/// left is never more than the input.
#[verifier::external_body]
fn decode_address(input: &[u8]) -> (r: Option<(Vec<u8>, usize)>)
    ensures
        nested_address(input@) == (match r {
            Some((v, rest)) => Some((v@, rest as nat)),
            None => None::<(Seq<u8>, nat)>,
        }),
        r matches Some((_, rest)) ==> rest <= input@.len(),
{
    let mut rest = input;
    match <[u8; 32] as NestedDecode>::dep_decode(&mut rest) {
        Ok(v) => Some((v.to_vec(), rest.len())),
        Err(_) => None,
    }
}

/// `<u8 as NestedDecode>::dep_decode` on `input`: the byte read and the count
/// of bytes left after it, `None` when the codec fails; what is left is never
/// more than the input.
#[verifier::external_body]
fn decode_u8(input: &[u8]) -> (r: Option<(u8, usize)>)
    ensures
        nested_u8(input@) == (match r {
            Some((v, rest)) => Some((v, rest as nat)),
            None => None::<(u8, nat)>,
        }),
        r matches Some((_, rest)) ==> rest <= input@.len(),
{
    let mut rest = input;
    match <u8 as NestedDecode>::dep_decode(&mut rest) {
        Ok(v) => Some((v, rest.len())),
        Err(_) => None,
    }
}

/// `<bool as NestedDecode>::dep_decode` on `input`: the boolean read and the
/// count of bytes left after it, `None` when the codec fails; what is left is
/// never more than the input.
#[verifier::external_body]
fn decode_bool(input: &[u8]) -> (r: Option<(bool, usize)>)
    ensures
        nested_bool(input@) == (match r {
            Some((v, rest)) => Some((v, rest as nat)),
            None => None::<(bool, nat)>,
        }),
        r matches Some((_, rest)) ==> rest <= input@.len(),
{
    let mut rest = input;
    match <bool as NestedDecode>::dep_decode(&mut rest) {
        Ok(v) => Some((v, rest.len())),
        Err(_) => None,
    }
}

/// `<Option<Vec<u8>> as NestedDecode>::dep_decode` on `input`: the optional
/// buffer read and the count of bytes left after it, `None` when the codec
/// fails; what is left is never more than the input.  As for a buffer, a
/// buffer's length must not exceed the bytes that follow it.
#[verifier::external_body]
fn dep_decode_option_buffer(input: &[u8]) -> (r: Option<(Option<Vec<u8>>, usize)>)
    requires
        input@.len() >= 1 && input@[0] == 1 ==> buffer_fits(input@.drop_first()),
    ensures
        nested_option_buffer(input@) == (match r {
            Some((Some(v), rest)) => Some((Some(v@), rest as nat)),
            Some((None, rest)) => Some((None::<Seq<u8>>, rest as nat)),
            None => None::<(Option<Seq<u8>>, nat)>,
        }),
        r matches Some((_, rest)) ==> rest <= input@.len(),
{
    let mut rest = input;
    match <Option<Vec<u8>> as NestedDecode>::dep_decode(&mut rest) {
        Ok(v) => Some((v, rest.len())),
        Err(_) => None,
    }
}

/// Whether the length that starts `input` (4 bytes, most significant first)
/// is at most the number of bytes after it; true when `input` is shorter.
pub open spec fn buffer_fits(input: Seq<u8>) -> bool {
    input.len() < 4 || be_value(input.take(4)) <= input.len() - 4
}

/// Checks `buffer_fits`.
fn fits_buffer(input: &[u8]) -> (r: bool)
    ensures
        r == buffer_fits(input@),
{
    if input.len() < 4 {
        return true;
    }
    let ghost t = input@.take(4);
    proof {
        assert(t.drop_last() =~= input@.take(3));
        assert(input@.take(3).drop_last() =~= input@.take(2));
        assert(input@.take(2).drop_last() =~= input@.take(1));
        assert(input@.take(1).drop_last() =~= Seq::<u8>::empty());
        assert(be_value(Seq::<u8>::empty()) == 0);
        assert(input@.take(1).last() == input@[0]);
        assert(be_value(input@.take(1)) == input@[0]);
        assert(be_value(input@.take(2)) == be_value(input@.take(1)) * 256 + input@[1]);
        assert(be_value(input@.take(3)) == be_value(input@.take(2)) * 256 + input@[2]);
        assert(be_value(t) == be_value(input@.take(3)) * 256 + input@[3]);
    }
    let v: u64 = ((input[0] as u64 * 256 + input[1] as u64) * 256 + input[2] as u64) * 256 + input[3] as u64;
    v <= (input.len() - 4) as u64
}

/// Reads a byte buffer (see `nested_buffer`); `None` when it does not decode.
fn decode_buffer(input: &[u8]) -> (r: Option<(Vec<u8>, usize)>)
    ensures
        nested_buffer(input@) == (match r {
            Some((v, rest)) => Some((v@, rest as nat)),
            None => None::<(Seq<u8>, nat)>,
        }),
        r matches Some((_, rest)) ==> rest <= input@.len(),
{
    if !fits_buffer(input) {
        proof {
            reveal(nested_buffer);
        }
        return None;
    }
    dep_decode_buffer(input)
}

/// Reads an optional byte buffer (see `nested_option_buffer`); `None` when it
/// does not decode.
fn decode_option_buffer(input: &[u8]) -> (r: Option<(Option<Vec<u8>>, usize)>)
    ensures
        nested_option_buffer(input@) == (match r {
            Some((Some(v), rest)) => Some((Some(v@), rest as nat)),
            Some((None, rest)) => Some((None::<Seq<u8>>, rest as nat)),
            None => None::<(Option<Seq<u8>>, nat)>,
        }),
        r matches Some((_, rest)) ==> rest <= input@.len(),
{
    if input.len() >= 1 && input[0] == 1 {
        let after = vstd::slice::slice_subrange(input, 1, input.len());
        assert(after@ =~= input@.drop_first());
        if !fits_buffer(after) {
            proof {
                reveal(nested_option_buffer);
                reveal(nested_buffer);
            }
            return None;
        }
    }
    dep_decode_option_buffer(input)
}

/// The last `rest` bytes of `input`.
pub open spec fn tail(input: Seq<u8>, rest: nat) -> Seq<u8> {
    input.subrange(input.len() - rest, input.len() as int)
}

/// The offer status stored as `b`.
pub open spec fn status_of(b: u8) -> Option<OfferStatus> {
    if b == 0 {
        Some(OfferStatus::Pending)
    } else if b == 1 {
        Some(OfferStatus::Accepted)
    } else if b == 2 {
        Some(OfferStatus::Declined)
    } else if b == 3 {
        Some(OfferStatus::Withdraw)
    } else {
        None
    }
}

/// An offer as stored, each field in its stored form: token identifiers and
/// amounts (big-endian) as bytes, the owner as the 32 bytes of its address.
pub struct OfferRecord {
    pub token_type: Vec<u8>,
    pub token_nonce: u64,
    pub quantity: Vec<u8>,
    pub status: OfferStatus,
    pub payment_token_type: Vec<u8>,
    pub payment_token_nonce: u64,
    pub price: Vec<u8>,
    pub deadline: u64,
    pub timestamp: u64,
    pub offer_owner: Vec<u8>,
    pub marketplace_cut_percentage: Vec<u8>,
    pub new_version: bool,
}

/// The view of an `OfferRecord`.
#[verifier::ext_equal]
pub struct OfferRecordView {
    pub token_type: Seq<u8>,
    pub token_nonce: u64,
    pub quantity: Seq<u8>,
    pub status: OfferStatus,
    pub payment_token_type: Seq<u8>,
    pub payment_token_nonce: u64,
    pub price: Seq<u8>,
    pub deadline: u64,
    pub timestamp: u64,
    pub offer_owner: Seq<u8>,
    pub marketplace_cut_percentage: Seq<u8>,
    pub new_version: bool,
}

impl View for OfferRecord {
    type V = OfferRecordView;

    open spec fn view(&self) -> OfferRecordView {
        OfferRecordView {
            token_type: self.token_type@,
            token_nonce: self.token_nonce,
            quantity: self.quantity@,
            status: self.status,
            payment_token_type: self.payment_token_type@,
            payment_token_nonce: self.payment_token_nonce,
            price: self.price@,
            deadline: self.deadline,
            timestamp: self.timestamp,
            offer_owner: self.offer_owner@,
            marketplace_cut_percentage: self.marketplace_cut_percentage@,
            new_version: self.new_version,
        }
    }
}

/// A global offer as stored, each field in its stored form.
pub struct GlobalOfferRecord {
    pub offer_id: u64,
    pub collection: Vec<u8>,
    pub quantity: Vec<u8>,
    pub payment_token: Vec<u8>,
    pub payment_nonce: u64,
    pub price: Vec<u8>,
    pub timestamp: u64,
    pub owner: Vec<u8>,
    pub attributes: Option<Vec<u8>>,
    pub new_version: bool,
}

/// The view of a `GlobalOfferRecord`.
#[verifier::ext_equal]
pub struct GlobalOfferRecordView {
    pub offer_id: u64,
    pub collection: Seq<u8>,
    pub quantity: Seq<u8>,
    pub payment_token: Seq<u8>,
    pub payment_nonce: u64,
    pub price: Seq<u8>,
    pub timestamp: u64,
    pub owner: Seq<u8>,
    pub attributes: Option<Seq<u8>>,
    pub new_version: bool,
}

impl View for GlobalOfferRecord {
    type V = GlobalOfferRecordView;

    open spec fn view(&self) -> GlobalOfferRecordView {
        GlobalOfferRecordView {
            offer_id: self.offer_id,
            collection: self.collection@,
            quantity: self.quantity@,
            payment_token: self.payment_token@,
            payment_nonce: self.payment_nonce,
            price: self.price@,
            timestamp: self.timestamp,
            owner: self.owner@,
            attributes: match self.attributes {
                Some(a) => Some(a@),
                None => None,
            },
            new_version: self.new_version,
        }
    }
}

/// The version flag at the end of a record: `false` when the record ends
/// before it.
pub open spec fn trailing_flag(input: Seq<u8>) -> Option<bool> {
    if input.len() == 0 {
        Some(false)
    } else {
        match nested_bool(input) {
            Some((v, _)) => Some(v),
            None => None,
        }
    }
}

/// The offer stored as `b`: its fields in order, the version flag `false`
/// when the record ends before it; `None` when a field does not decode.
pub open spec fn spec_decode_offer(b: Seq<u8>) -> Option<OfferRecordView> {
    match nested_buffer(b) {
        None => None,
        Some((token_type, r1)) => match nested_u64(tail(b, r1)) {
            None => None,
            Some((token_nonce, r2)) => match nested_buffer(tail(b, r2)) {
                None => None,
                Some((quantity, r3)) => match nested_u8(tail(b, r3)) {
                    None => None,
                    Some((s, r4)) => match status_of(s) {
                        None => None,
                        Some(status) => match nested_buffer(tail(b, r4)) {
                            None => None,
                            Some((payment_token_type, r5)) => match nested_u64(tail(b, r5)) {
                                None => None,
                                Some((payment_token_nonce, r6)) => match nested_buffer(tail(b, r6)) {
                                    None => None,
                                    Some((price, r7)) => match nested_u64(tail(b, r7)) {
                                        None => None,
                                        Some((deadline, r8)) => match nested_u64(tail(b, r8)) {
                                            None => None,
                                            Some((timestamp, r9)) => match nested_address(tail(b, r9)) {
                                                None => None,
                                                Some((offer_owner, r10)) => match nested_buffer(tail(b, r10)) {
                                                    None => None,
                                                    Some((marketplace_cut_percentage, r11)) => match trailing_flag(tail(b, r11)) {
                                                        None => None,
                                                        Some(new_version) => Some(
                                                            OfferRecordView {
                                                                token_type,
                                                                token_nonce,
                                                                quantity,
                                                                status,
                                                                payment_token_type,
                                                                payment_token_nonce,
                                                                price,
                                                                deadline,
                                                                timestamp,
                                                                offer_owner,
                                                                marketplace_cut_percentage,
                                                                new_version,
                                                            },
                                                        ),
                                                    },
                                                },
                                            },
                                        },
                                    },
                                },
                            },
                        },
                    },
                },
            },
        },
    }
}

/// The attributes of a global offer: none when the record ends before them.
pub open spec fn trailing_attributes(input: Seq<u8>) -> Option<(Option<Seq<u8>>, nat)> {
    if input.len() == 0 {
        Some((None, 0))
    } else {
        nested_option_buffer(input)
    }
}

/// The global offer stored as `b`: its fields in order, the attributes absent
/// and the version flag `false` when the record ends before them; `None` when
/// a field does not decode.
pub open spec fn spec_decode_global_offer(b: Seq<u8>) -> Option<GlobalOfferRecordView> {
    match nested_u64(b) {
        None => None,
        Some((offer_id, r1)) => match nested_buffer(tail(b, r1)) {
            None => None,
            Some((collection, r2)) => match nested_buffer(tail(b, r2)) {
                None => None,
                Some((quantity, r3)) => match nested_buffer(tail(b, r3)) {
                    None => None,
                    Some((payment_token, r4)) => match nested_u64(tail(b, r4)) {
                        None => None,
                        Some((payment_nonce, r5)) => match nested_buffer(tail(b, r5)) {
                            None => None,
                            Some((price, r6)) => match nested_u64(tail(b, r6)) {
                                None => None,
                                Some((timestamp, r7)) => match nested_address(tail(b, r7)) {
                                    None => None,
                                    Some((owner, r8)) => match trailing_attributes(tail(b, r8)) {
                                        None => None,
                                        Some((attributes, r9)) => match trailing_flag(tail(b, r9)) {
                                            None => None,
                                            Some(new_version) => Some(
                                                GlobalOfferRecordView {
                                                    offer_id,
                                                    collection,
                                                    quantity,
                                                    payment_token,
                                                    payment_nonce,
                                                    price,
                                                    timestamp,
                                                    owner,
                                                    attributes,
                                                    new_version,
                                                },
                                            ),
                                        },
                                    },
                                },
                            },
                        },
                    },
                },
            },
        },
    }
}

/// The last `rest` bytes of `input`.
fn rest_of(input: &[u8], rest: usize) -> (r: &[u8])
    requires
        rest <= input@.len(),
    ensures
        r@ == tail(input@, rest as nat),
{
    vstd::slice::slice_subrange(input, input.len() - rest, input.len())
}

/// The version flag at the end of a record (see `trailing_flag`).
fn decode_trailing_flag(input: &[u8]) -> (r: Option<bool>)
    ensures
        r == trailing_flag(input@),
{
    if input.len() == 0 {
        Some(false)
    } else {
        match decode_bool(input) {
            Some((v, _)) => Some(v),
            None => None,
        }
    }
}

impl Offer {
    /// Reads an offer from the bytes the storage holds for it (see
    /// `spec_decode_offer`); `None` when they do not decode.
    pub fn top_decode(input: &[u8]) -> (r: Option<OfferRecord>)
        ensures
            match r {
                Some(o) => spec_decode_offer(input@) == Some(o@),
                None => spec_decode_offer(input@) is None,
            },
    {
        let (token_type, r1) = match decode_buffer(input) {
            Some(x) => x,
            None => {
                return None;
            },
        };
        let (token_nonce, r2) = match decode_u64(rest_of(input, r1)) {
            Some(x) => x,
            None => {
                return None;
            },
        };
        let (quantity, r3) = match decode_buffer(rest_of(input, r2)) {
            Some(x) => x,
            None => {
                return None;
            },
        };
        let (s, r4) = match decode_u8(rest_of(input, r3)) {
            Some(x) => x,
            None => {
                return None;
            },
        };
        let status = if s == 0 {
            OfferStatus::Pending
        } else if s == 1 {
            OfferStatus::Accepted
        } else if s == 2 {
            OfferStatus::Declined
        } else if s == 3 {
            OfferStatus::Withdraw
        } else {
            return None;
        };
        let (payment_token_type, r5) = match decode_buffer(rest_of(input, r4)) {
            Some(x) => x,
            None => {
                return None;
            },
        };
        let (payment_token_nonce, r6) = match decode_u64(rest_of(input, r5)) {
            Some(x) => x,
            None => {
                return None;
            },
        };
        let (price, r7) = match decode_buffer(rest_of(input, r6)) {
            Some(x) => x,
            None => {
                return None;
            },
        };
        let (deadline, r8) = match decode_u64(rest_of(input, r7)) {
            Some(x) => x,
            None => {
                return None;
            },
        };
        let (timestamp, r9) = match decode_u64(rest_of(input, r8)) {
            Some(x) => x,
            None => {
                return None;
            },
        };
        let (offer_owner, r10) = match decode_address(rest_of(input, r9)) {
            Some(x) => x,
            None => {
                return None;
            },
        };
        let (marketplace_cut_percentage, r11) = match decode_buffer(rest_of(input, r10)) {
            Some(x) => x,
            None => {
                return None;
            },
        };
        let new_version = match decode_trailing_flag(rest_of(input, r11)) {
            Some(v) => v,
            None => {
                return None;
            },
        };
        let o = OfferRecord {
            token_type,
            token_nonce,
            quantity,
            status,
            payment_token_type,
            payment_token_nonce,
            price,
            deadline,
            timestamp,
            offer_owner,
            marketplace_cut_percentage,
            new_version,
        };
        assert(spec_decode_offer(input@) == Some(o@));
        Some(o)
    }
}

impl GlobalOffer {
    /// Reads a global offer from the bytes the storage holds for it (see
    /// `spec_decode_global_offer`); `None` when they do not decode.
    pub fn top_decode(input: &[u8]) -> (r: Option<GlobalOfferRecord>)
        ensures
            match r {
                Some(o) => spec_decode_global_offer(input@) == Some(o@),
                None => spec_decode_global_offer(input@) is None,
            },
    {
        let (offer_id, r1) = match decode_u64(input) {
            Some(x) => x,
            None => {
                return None;
            },
        };
        let (collection, r2) = match decode_buffer(rest_of(input, r1)) {
            Some(x) => x,
            None => {
                return None;
            },
        };
        let (quantity, r3) = match decode_buffer(rest_of(input, r2)) {
            Some(x) => x,
            None => {
                return None;
            },
        };
        let (payment_token, r4) = match decode_buffer(rest_of(input, r3)) {
            Some(x) => x,
            None => {
                return None;
            },
        };
        let (payment_nonce, r5) = match decode_u64(rest_of(input, r4)) {
            Some(x) => x,
            None => {
                return None;
            },
        };
        let (price, r6) = match decode_buffer(rest_of(input, r5)) {
            Some(x) => x,
            None => {
                return None;
            },
        };
        let (timestamp, r7) = match decode_u64(rest_of(input, r6)) {
            Some(x) => x,
            None => {
                return None;
            },
        };
        let (owner, r8) = match decode_address(rest_of(input, r7)) {
            Some(x) => x,
            None => {
                return None;
            },
        };
        let rest8 = rest_of(input, r8);
        let (attributes, r9) = if rest8.len() == 0 {
            (None, 0)
        } else {
            match decode_option_buffer(rest8) {
                Some(x) => x,
                None => {
                    return None;
                },
            }
        };
        let new_version = match decode_trailing_flag(rest_of(input, r9)) {
            Some(v) => v,
            None => {
                return None;
            },
        };
        let o = GlobalOfferRecord {
            offer_id,
            collection,
            quantity,
            payment_token,
            payment_nonce,
            price,
            timestamp,
            owner,
            attributes,
            new_version,
        };
        assert(spec_decode_global_offer(input@) == Some(o@));
        Some(o)
    }
}

/// 256 to the power `n`.
pub open spec fn pow256(n: nat) -> nat
    decreases n,
{
    if n == 0 {
        1
    } else {
        256 * pow256((n - 1) as nat)
    }
}

/// The low `n` bytes of `v`, most significant first.
pub open spec fn be_bytes(v: nat, n: nat) -> Seq<u8>
    decreases n,
{
    if n == 0 {
        Seq::empty()
    } else {
        be_bytes(v / 256, (n - 1) as nat).push((v % 256) as u8)
    }
}

/// The codec's encoding of a `u64`: its 8 bytes, most significant first.
pub open spec fn encode_u64(v: u64) -> Seq<u8> {
    be_bytes(v as nat, 8)
}

/// The codec's encoding of a byte buffer: its length in 4 bytes, then the bytes.
pub open spec fn encode_buffer(b: Seq<u8>) -> Seq<u8> {
    be_bytes(b.len(), 4) + b
}

/// The codec's encoding of a boolean.
pub open spec fn encode_bool(v: bool) -> Seq<u8> {
    seq![if v { 1u8 } else { 0u8 }]
}

/// The codec's encoding of an optional byte buffer.
pub open spec fn encode_option_buffer(o: Option<Seq<u8>>) -> Seq<u8> {
    match o {
        None => seq![0u8],
        Some(b) => seq![1u8] + encode_buffer(b),
    }
}

/// The byte that stores an offer status.
pub open spec fn status_byte(s: OfferStatus) -> u8 {
    match s {
        OfferStatus::Pending => 0,
        OfferStatus::Accepted => 1,
        OfferStatus::Declined => 2,
        OfferStatus::Withdraw => 3,
    }
}

proof fn lemma_pow256_positive(n: nat)
    ensures
        pow256(n) > 0,
    decreases n,
{
    if n > 0 {
        lemma_pow256_positive((n - 1) as nat);
    }
}

proof fn lemma_be_bytes(v: nat, n: nat)
    ensures
        be_bytes(v, n).len() == n,
        be_value(be_bytes(v, n)) == v % pow256(n),
    decreases n,
{
    if n > 0 {
        lemma_be_bytes(v / 256, (n - 1) as nat);
        lemma_pow256_positive((n - 1) as nat);
        let b = be_bytes(v, n);
        assert(b.drop_last() =~= be_bytes(v / 256, (n - 1) as nat));
        vstd::arithmetic::div_mod::lemma_mod_breakdown(v as int, 256, pow256((n - 1) as nat) as int);
    }
}

proof fn lemma_pow256_values()
    ensures
        pow256(4) == 0x1_0000_0000,
        pow256(8) == 0x1_0000_0000_0000_0000,
{
    reveal_with_fuel(pow256, 9);
}

/// The last bytes of a concatenation are those of its second part.
proof fn lemma_tail_of(a: Seq<u8>, b: Seq<u8>)
    ensures
        tail(a + b, b.len()) == b,
{
    assert(tail(a + b, b.len()) =~= b);
}

proof fn lemma_read_u64(v: u64, rest: Seq<u8>)
    ensures
        nested_u64(encode_u64(v) + rest) == Some((v, rest.len())),
{
    reveal(nested_u64);
    lemma_be_bytes(v as nat, 8);
    lemma_pow256_values();
    let x = encode_u64(v) + rest;
    assert(x.take(8) =~= encode_u64(v));
}

proof fn lemma_read_buffer(b: Seq<u8>, rest: Seq<u8>)
    requires
        b.len() < 0x1_0000_0000,
    ensures
        nested_buffer(encode_buffer(b) + rest) == Some((b, rest.len())),
{
    reveal(nested_buffer);
    lemma_be_bytes(b.len(), 4);
    lemma_pow256_values();
    let x = encode_buffer(b) + rest;
    assert(x.take(4) =~= be_bytes(b.len(), 4));
    assert(x.subrange(4, 4 + b.len() as int) =~= b);
}

proof fn lemma_read_address(a: Seq<u8>, rest: Seq<u8>)
    requires
        a.len() == 32,
    ensures
        nested_address(a + rest) == Some((a, rest.len())),
{
    reveal(nested_address);
    assert((a + rest).take(32) =~= a);
}

proof fn lemma_read_flag(v: bool)
    ensures
        trailing_flag(encode_bool(v)) == Some(v),
        trailing_flag(Seq::empty()) == Some(false),
{
    reveal(nested_bool);
}

proof fn lemma_read_option_buffer(o: Option<Seq<u8>>, rest: Seq<u8>)
    requires
        o matches Some(b) ==> b.len() < 0x1_0000_0000,
    ensures
        nested_option_buffer(encode_option_buffer(o) + rest) == Some((o, rest.len())),
{
    reveal(nested_option_buffer);
    match o {
        None => {},
        Some(b) => {
            lemma_read_buffer(b, rest);
            assert((encode_option_buffer(o) + rest).drop_first() =~= encode_buffer(b) + rest);
        },
    }
}

proof fn lemma_tail_whole(b: Seq<u8>)
    ensures
        tail(b, b.len()) == b,
{
    assert(tail(b, b.len()) =~= b);
}

proof fn lemma_tail_step(b: Seq<u8>, x: Seq<u8>, z: Seq<u8>)
    requires
        (x + z).len() <= b.len(),
        tail(b, (x + z).len()) == x + z,
    ensures
        z.len() <= b.len(),
        tail(b, z.len()) == z,
{
    let t = tail(b, (x + z).len());
    assert forall|i: int| 0 <= i < z.len() implies #[trigger] tail(b, z.len())[i] == z[i] by {
        assert(tail(b, z.len())[i] == b[b.len() - z.len() + i]);
        assert(t[x.len() + i] == b[b.len() - (x.len() + z.len()) + x.len() + i]);
        assert((x + z)[x.len() + i] == z[i]);
    }
    assert(tail(b, z.len()) =~= z);
}

/// A stored offer whose buffers the codec can hold (under 2^32 bytes) and
/// whose owner is an address of 32 bytes.
pub open spec fn offer_fits(o: OfferRecordView) -> bool {
    &&& o.token_type.len() < 0x1_0000_0000
    &&& o.quantity.len() < 0x1_0000_0000
    &&& o.payment_token_type.len() < 0x1_0000_0000
    &&& o.price.len() < 0x1_0000_0000
    &&& o.marketplace_cut_percentage.len() < 0x1_0000_0000
    &&& o.offer_owner.len() == 32
}

/// The codec's encoding of the fields of an offer before its version flag,
/// followed by `end`.
pub open spec fn encode_offer_then(o: OfferRecordView, end: Seq<u8>) -> Seq<u8> {
    encode_buffer(o.token_type) + (encode_u64(o.token_nonce) + (encode_buffer(o.quantity) + (seq![status_byte(o.status)] + (
    encode_buffer(o.payment_token_type) + (encode_u64(o.payment_token_nonce) + (encode_buffer(o.price) + (encode_u64(
        o.deadline,
    ) + (encode_u64(o.timestamp) + (o.offer_owner + (encode_buffer(o.marketplace_cut_percentage) + end))))))))))
}

proof fn lemma_decode_offer_then(o: OfferRecordView, end: Seq<u8>)
    requires
        offer_fits(o),
    ensures
        spec_decode_offer(encode_offer_then(o, end)) == match trailing_flag(end) {
            Some(f) => Some(OfferRecordView { new_version: f, ..o }),
            None => None::<OfferRecordView>,
        },
{
    let s10 = encode_buffer(o.marketplace_cut_percentage) + end;
    let s9 = o.offer_owner + s10;
    let s8 = encode_u64(o.timestamp) + s9;
    let s7 = encode_u64(o.deadline) + s8;
    let s6 = encode_buffer(o.price) + s7;
    let s5 = encode_u64(o.payment_token_nonce) + s6;
    let s4 = encode_buffer(o.payment_token_type) + s5;
    let s3 = seq![status_byte(o.status)] + s4;
    let s2 = encode_buffer(o.quantity) + s3;
    let s1 = encode_u64(o.token_nonce) + s2;
    let b = encode_buffer(o.token_type) + s1;
    assert(b == encode_offer_then(o, end));
    lemma_tail_whole(b);
    lemma_read_buffer(o.token_type, s1);
    lemma_tail_step(b, encode_buffer(o.token_type), s1);
    lemma_read_u64(o.token_nonce, s2);
    lemma_tail_step(b, encode_u64(o.token_nonce), s2);
    lemma_read_buffer(o.quantity, s3);
    lemma_tail_step(b, encode_buffer(o.quantity), s3);
    assert(nested_u8(s3) == Some((status_byte(o.status), s4.len()))) by {
        reveal(nested_u8);
    }
    assert(status_of(status_byte(o.status)) == Some(o.status));
    lemma_tail_step(b, seq![status_byte(o.status)], s4);
    lemma_read_buffer(o.payment_token_type, s5);
    lemma_tail_step(b, encode_buffer(o.payment_token_type), s5);
    lemma_read_u64(o.payment_token_nonce, s6);
    lemma_tail_step(b, encode_u64(o.payment_token_nonce), s6);
    lemma_read_buffer(o.price, s7);
    lemma_tail_step(b, encode_buffer(o.price), s7);
    lemma_read_u64(o.deadline, s8);
    lemma_tail_step(b, encode_u64(o.deadline), s8);
    lemma_read_u64(o.timestamp, s9);
    lemma_tail_step(b, encode_u64(o.timestamp), s9);
    lemma_read_address(o.offer_owner, s10);
    lemma_tail_step(b, o.offer_owner, s10);
    lemma_read_buffer(o.marketplace_cut_percentage, end);
    lemma_tail_step(b, encode_buffer(o.marketplace_cut_percentage), end);
}

/// A stored offer reads back as written: its fields in order, with the
/// version flag it was written with, or `false` for a record written before
/// the flag existed.
pub proof fn law_offer_record_decodes(o: OfferRecordView)
    requires
        offer_fits(o),
    ensures
        spec_decode_offer(encode_offer_then(o, encode_bool(o.new_version))) == Some(o),
        spec_decode_offer(encode_offer_then(o, Seq::empty())) == Some(OfferRecordView { new_version: false, ..o }),
{
    lemma_read_flag(o.new_version);
    lemma_decode_offer_then(o, encode_bool(o.new_version));
    lemma_decode_offer_then(o, Seq::empty());
    assert(OfferRecordView { new_version: o.new_version, ..o } == o);
}

proof fn lemma_tail_within(b: Seq<u8>, e: Seq<u8>, r: nat)
    requires
        e.len() <= b.len(),
        tail(b, e.len()) == e,
        r <= e.len(),
    ensures
        tail(b, r) == tail(e, r),
{
    assert forall|i: int| 0 <= i < r implies #[trigger] tail(b, r)[i] == tail(e, r)[i] by {
        assert(tail(b, r)[i] == b[b.len() - r + i]);
        assert(tail(e, r)[i] == e[e.len() - r + i]);
        assert(tail(b, e.len())[e.len() - r + i] == b[b.len() - e.len() + e.len() - r + i]);
    }
    assert(tail(b, r) =~= tail(e, r));
}

/// A stored global offer whose buffers the codec can hold (under 2^32 bytes)
/// and whose owner is an address of 32 bytes.
pub open spec fn global_offer_fits(g: GlobalOfferRecordView) -> bool {
    &&& g.collection.len() < 0x1_0000_0000
    &&& g.quantity.len() < 0x1_0000_0000
    &&& g.payment_token.len() < 0x1_0000_0000
    &&& g.price.len() < 0x1_0000_0000
    &&& g.owner.len() == 32
    &&& g.attributes matches Some(a) ==> a.len() < 0x1_0000_0000
}

/// The codec's encoding of the fields of a global offer before its
/// attributes, followed by `end`.
pub open spec fn encode_global_offer_then(g: GlobalOfferRecordView, end: Seq<u8>) -> Seq<u8> {
    encode_u64(g.offer_id) + (encode_buffer(g.collection) + (encode_buffer(g.quantity) + (encode_buffer(g.payment_token) + (
    encode_u64(g.payment_nonce) + (encode_buffer(g.price) + (encode_u64(g.timestamp) + (g.owner + end)))))))
}

proof fn lemma_decode_global_offer_then(g: GlobalOfferRecordView, end: Seq<u8>)
    requires
        global_offer_fits(g),
        trailing_attributes(end) matches Some((_, r)) ==> r <= end.len(),
    ensures
        spec_decode_global_offer(encode_global_offer_then(g, end)) == match trailing_attributes(end) {
            Some((a, r)) => match trailing_flag(tail(end, r)) {
                Some(f) => Some(GlobalOfferRecordView { attributes: a, new_version: f, ..g }),
                None => None::<GlobalOfferRecordView>,
            },
            None => None::<GlobalOfferRecordView>,
        },
{
    let s7 = g.owner + end;
    let s6 = encode_u64(g.timestamp) + s7;
    let s5 = encode_buffer(g.price) + s6;
    let s4 = encode_u64(g.payment_nonce) + s5;
    let s3 = encode_buffer(g.payment_token) + s4;
    let s2 = encode_buffer(g.quantity) + s3;
    let s1 = encode_buffer(g.collection) + s2;
    let b = encode_u64(g.offer_id) + s1;
    assert(b == encode_global_offer_then(g, end));
    lemma_tail_whole(b);
    lemma_read_u64(g.offer_id, s1);
    lemma_tail_step(b, encode_u64(g.offer_id), s1);
    lemma_read_buffer(g.collection, s2);
    lemma_tail_step(b, encode_buffer(g.collection), s2);
    lemma_read_buffer(g.quantity, s3);
    lemma_tail_step(b, encode_buffer(g.quantity), s3);
    lemma_read_buffer(g.payment_token, s4);
    lemma_tail_step(b, encode_buffer(g.payment_token), s4);
    lemma_read_u64(g.payment_nonce, s5);
    lemma_tail_step(b, encode_u64(g.payment_nonce), s5);
    lemma_read_buffer(g.price, s6);
    lemma_tail_step(b, encode_buffer(g.price), s6);
    lemma_read_u64(g.timestamp, s7);
    lemma_tail_step(b, encode_u64(g.timestamp), s7);
    lemma_read_address(g.owner, end);
    lemma_tail_step(b, g.owner, end);
    match trailing_attributes(end) {
        Some((a, r)) => {
            lemma_tail_within(b, end, r);
        },
        None => {},
    }
}

/// A stored global offer reads back as written: its fields in order, with
/// the attributes and version flag it was written with; a record written
/// before the attributes (or the flag) existed reads them as absent (and the
/// flag as `false`).
pub proof fn law_global_offer_record_decodes(g: GlobalOfferRecordView)
    requires
        global_offer_fits(g),
    ensures
        spec_decode_global_offer(
            encode_global_offer_then(g, encode_option_buffer(g.attributes) + encode_bool(g.new_version)),
        ) == Some(g),
        spec_decode_global_offer(encode_global_offer_then(g, encode_option_buffer(g.attributes)))
            == Some(GlobalOfferRecordView { new_version: false, ..g }),
        spec_decode_global_offer(encode_global_offer_then(g, Seq::empty()))
            == Some(GlobalOfferRecordView { attributes: None, new_version: false, ..g }),
{
    let attrs = encode_option_buffer(g.attributes);
    let flag = encode_bool(g.new_version);
    lemma_read_flag(g.new_version);
    // attributes, then the flag
    lemma_read_option_buffer(g.attributes, flag);
    assert((attrs + flag).len() > 0);
    assert(tail(attrs + flag, 1) =~= flag);
    lemma_decode_global_offer_then(g, attrs + flag);
    // attributes only
    lemma_read_option_buffer(g.attributes, Seq::empty());
    assert(attrs + Seq::<u8>::empty() =~= attrs);
    assert(attrs.len() > 0);
    assert(tail(attrs, 0) =~= Seq::<u8>::empty());
    lemma_decode_global_offer_then(g, attrs);
    // neither
    assert(tail(Seq::<u8>::empty(), 0) =~= Seq::<u8>::empty());
    lemma_decode_global_offer_then(g, Seq::empty());
    assert(GlobalOfferRecordView { attributes: g.attributes, new_version: g.new_version, ..g } == g);
}

} // verus!
