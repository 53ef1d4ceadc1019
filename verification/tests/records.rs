use esdt_nft_marketplace::auction::{GlobalOffer, Offer, OfferStatus};

fn buffer(out: &mut Vec<u8>, b: &[u8]) {
    out.extend_from_slice(&(b.len() as u32).to_be_bytes());
    out.extend_from_slice(b);
}

/// An offer record as written before the version flag existed.
fn old_offer_bytes(status: u8) -> Vec<u8> {
    let mut out = Vec::new();
    buffer(&mut out, b"NFT-123456");
    out.extend_from_slice(&7u64.to_be_bytes());
    buffer(&mut out, &[1]);
    out.push(status);
    buffer(&mut out, b"EGLD");
    out.extend_from_slice(&0u64.to_be_bytes());
    buffer(&mut out, &[0x03, 0xe8]);
    out.extend_from_slice(&1000u64.to_be_bytes());
    out.extend_from_slice(&100u64.to_be_bytes());
    out.extend_from_slice(&[9u8; 32]);
    buffer(&mut out, &[0x09, 0xc4]);
    out
}

#[test]
fn old_offer_record_reads_as_not_new_version() {
    let o = Offer::top_decode(&old_offer_bytes(0)).unwrap();
    assert_eq!(o.token_type, b"NFT-123456".to_vec());
    assert_eq!(o.token_nonce, 7);
    assert_eq!(o.quantity, vec![1]);
    assert_eq!(o.status, OfferStatus::Pending);
    assert_eq!(o.payment_token_type, b"EGLD".to_vec());
    assert_eq!(o.price, vec![0x03, 0xe8]);
    assert_eq!((o.deadline, o.timestamp), (1000, 100));
    assert_eq!(o.offer_owner, vec![9u8; 32]);
    assert_eq!(o.marketplace_cut_percentage, vec![0x09, 0xc4]);
    assert_eq!(o.new_version, false);
}

#[test]
fn new_offer_record_reads_its_version_flag() {
    let mut b = old_offer_bytes(2);
    b.push(1);
    let o = Offer::top_decode(&b).unwrap();
    assert_eq!(o.status, OfferStatus::Declined);
    assert_eq!(o.new_version, true);
}

#[test]
fn broken_offer_records_do_not_decode() {
    assert!(Offer::top_decode(&old_offer_bytes(7)).is_none());
    let b = old_offer_bytes(0);
    assert!(Offer::top_decode(&b[..b.len() - 1]).is_none());
    let mut b = old_offer_bytes(0);
    b.push(5);
    assert!(Offer::top_decode(&b).is_none());
}

fn old_global_offer_bytes() -> Vec<u8> {
    let mut out = Vec::new();
    out.extend_from_slice(&3u64.to_be_bytes());
    buffer(&mut out, b"NFT-123456");
    buffer(&mut out, &[2]);
    buffer(&mut out, b"EGLD");
    out.extend_from_slice(&0u64.to_be_bytes());
    buffer(&mut out, &[30]);
    out.extend_from_slice(&100u64.to_be_bytes());
    out.extend_from_slice(&[4u8; 32]);
    out
}

#[test]
fn global_offer_records_of_every_version_decode() {
    let o = GlobalOffer::top_decode(&old_global_offer_bytes()).unwrap();
    assert_eq!(o.offer_id, 3);
    assert_eq!(o.collection, b"NFT-123456".to_vec());
    assert_eq!(o.owner, vec![4u8; 32]);
    assert_eq!(o.attributes, None);
    assert_eq!(o.new_version, false);
    let mut b = old_global_offer_bytes();
    b.push(1);
    buffer(&mut b, b"attr");
    let o = GlobalOffer::top_decode(&b).unwrap();
    assert_eq!(o.attributes, Some(b"attr".to_vec()));
    assert_eq!(o.new_version, false);
    b.push(1);
    let o = GlobalOffer::top_decode(&b).unwrap();
    assert_eq!(o.new_version, true);
    let mut b = old_global_offer_bytes();
    b.push(0);
    b.push(1);
    let o = GlobalOffer::top_decode(&b).unwrap();
    assert_eq!((o.attributes, o.new_version), (None, true));
    assert!(GlobalOffer::top_decode(&old_global_offer_bytes()[..40]).is_none());
}

#[test]
fn offer_record_with_a_length_beyond_its_bytes_does_not_decode() {
    let mut out = Vec::new();
    out.extend_from_slice(&u32::MAX.to_be_bytes());
    out.extend_from_slice(b"NFT-123456");
    assert!(Offer::top_decode(&out).is_none());
    let mut bytes = old_offer_bytes(0);
    bytes.truncate(bytes.len() - 1);
    assert!(Offer::top_decode(&bytes).is_none());
}

#[test]
fn offer_record_reads_back_its_version_flag() {
    let mut bytes = old_offer_bytes(1);
    bytes.push(1);
    let o = Offer::top_decode(&bytes).unwrap();
    assert_eq!((o.status, o.new_version), (OfferStatus::Accepted, true));
    bytes.pop();
    bytes.push(2);
    assert!(Offer::top_decode(&bytes).is_none());
}
