//! Wire format and response cache.

use dns_guard::cache::{DnsCache, CACHE_MAX_ENTRIES};
use dns_guard::clock::Clock;
use dns_guard::wire::{patch_id, response_ttl, servfail, set_tc, skip_name};

const SEC: u128 = 1_000_000_000;

fn encode_name(name: &str) -> Vec<u8> {
    let mut out = Vec::new();
    for label in name.split('.') {
        out.push(label.len() as u8);
        out.extend_from_slice(label.as_bytes());
    }
    out.push(0);
    out
}

/// Minimal response: header + question + one A record with a
/// compressed owner name (pointer to the question name at offset 12).
fn sample_response(ttl: u32) -> Vec<u8> {
    let qname = encode_name("www.example.com");
    let mut msg = Vec::new();
    msg.extend_from_slice(&[
        0x12, 0x34, 0x81, 0x80, 0x00, 0x01, 0x00, 0x01, 0x00, 0x00, 0x00, 0x00,
    ]);
    msg.extend_from_slice(&qname);
    msg.extend_from_slice(&[0x00, 0x01, 0x00, 0x01]); // A, IN
    msg.extend_from_slice(&[0xC0, 0x0C]); // pointer to the question name
    msg.extend_from_slice(&[0x00, 0x01, 0x00, 0x01]); // A, IN
    msg.extend_from_slice(&ttl.to_be_bytes());
    msg.extend_from_slice(&[0x00, 0x04]); // rdlength
    msg.extend_from_slice(&[93, 184, 216, 34]); // 93.184.216.34
    msg
}

#[test]
fn ttl_parses_compressed_names() {
    let msg = sample_response(300);
    assert_eq!(response_ttl(&msg), Some(300));
}

#[test]
fn ttl_takes_minimum_across_records() {
    let mut msg = sample_response(300);
    // Append a second answer record with a lower TTL.
    let qname = encode_name("www.example.com");
    let mut second = Vec::new();
    second.extend_from_slice(&qname);
    second.extend_from_slice(&[0x00, 0x05, 0x00, 0x01]); // CNAME, IN
    second.extend_from_slice(&50u32.to_be_bytes());
    second.extend_from_slice(&[0x00, 0x02]);
    second.extend_from_slice(&[0x00, 0x01]);
    msg[6..8].copy_from_slice(&[0x00, 0x02]); // ANCOUNT = 2
    msg.extend_from_slice(&second);
    assert_eq!(response_ttl(&msg), Some(50));
}

#[test]
fn ttl_none_when_no_records() {
    let mut msg = sample_response(300);
    msg[6..8].copy_from_slice(&[0x00, 0x00]); // ANCOUNT = 0
    assert_eq!(response_ttl(&msg), None);
}

#[test]
fn ttl_none_on_garbage() {
    assert_eq!(response_ttl(&[0x00, 0x01]), None);
    assert_eq!(response_ttl(&[0u8; 8]), None);
}

#[test]
fn patch_id_rewrites_transaction_id() {
    let mut resp = sample_response(300);
    let query = [
        0xAB, 0xCD, 0x01, 0x00, 0x00, 0x01, 0x00, 0x00, 0x00, 0x00, 0x00, 0x00,
    ];
    patch_id(&mut resp, &query);
    assert_eq!(&resp[0..2], &[0xAB, 0xCD]);
}

#[test]
fn set_tc_truncates_and_sets_bit() {
    let mut resp = sample_response(300);
    set_tc(&mut resp, 20);
    assert_eq!(resp.len(), 20);
    assert_ne!(resp[2] & 0x02, 0); // TC set
    assert_eq!(resp[2] & 0xFD, 0x81); // other flags intact (QR|RD)
}

#[test]
fn servfail_echoes_id_and_question() {
    let mut query = vec![
        0x42, 0x69, 0x01, 0x00, 0x00, 0x01, 0x00, 0x00, 0x00, 0x00, 0x00, 0x00,
    ];
    query.extend_from_slice(&encode_name("example.com"));
    query.extend_from_slice(&[0x00, 0x01, 0x00, 0x01]);

    let resp = servfail(&query);
    assert_eq!(&resp[0..2], &[0x42, 0x69]);
    assert_eq!(resp[2] & 0x80, 0x80); // QR set
    assert_eq!(resp[3] & 0x0F, 0x02); // RCODE = SERVFAIL
    assert_eq!(resp[3] & 0x80, 0x80); // RA set
    assert_eq!(&resp[12..], &query[12..]); // question echoed
}

#[test]
fn cache_round_trip_and_id_rewrite() {
    let mut cache = DnsCache::new();
    let q1 = [
        0x01, 0x01, 0x01, 0x00, 0x00, 0x01, 0x00, 0x00, 0x00, 0x00, 0x00, 0x00,
    ];
    let q2 = [
        0x02, 0x02, 0x01, 0x00, 0x00, 0x01, 0x00, 0x00, 0x00, 0x00, 0x00, 0x00,
    ];
    let mut resp = sample_response(300);
    resp[0] = 0x01;
    resp[1] = 0x01;

    cache.put(&q1, &resp, 300);
    let mut hit = cache.get(&q2).expect("cached hit");
    assert_eq!(&hit[0..2], &[0x01, 0x01]); // stored ID, not q2's
    patch_id(&mut hit, &q2);
    assert_eq!(&hit[0..2], &[0x02, 0x02]); // requester's ID after patch
}

#[test]
fn cache_respects_ttl_and_zero() {
    let mut cache = DnsCache::new();
    let q = [
        0x01, 0x01, 0x01, 0x00, 0x00, 0x01, 0x00, 0x00, 0x00, 0x00, 0x00, 0x00,
    ];
    let resp = sample_response(300);

    cache.put(&q, &resp, 0);
    assert!(cache.get(&q).is_none(), "ttl 0 must not be cached");

    cache.put(&q, &resp, 300);
    assert!(cache.get(&q).is_some());

    // Look at a moment when the entry has expired.
    let later = cache.now() + 301 * SEC;
    assert!(
        cache.get_at(&q, later).is_none(),
        "expired entry must miss and be removed"
    );
    assert_eq!(cache.len(), 0);
    assert!(cache.get(&q).is_none());
}

#[test]
fn cache_expires_to_the_nanosecond() {
    let mut cache = DnsCache::default();
    let q = [9u8, 9, 1, 2, 3];
    cache.put_at(&q, &[1, 2, 3], 10, 5 * SEC);
    assert_eq!(cache.get_at(&q, 15 * SEC - 1), Some(vec![1, 2, 3]));
    assert_eq!(cache.len(), 1);
    assert_eq!(cache.get_at(&q, 15 * SEC), None);
    assert_eq!(cache.len(), 0);
}

#[test]
fn cache_keeps_nothing_longer_than_an_hour() {
    let mut cache = DnsCache::new();
    let q = [9u8, 9, 1];
    cache.put_at(&q, &[7], u32::MAX, 0);
    assert_eq!(cache.get_at(&q, 3600 * SEC - 1), Some(vec![7]));
    assert_eq!(cache.get_at(&q, 3600 * SEC), None);
}

#[test]
fn cache_needs_a_transaction_id() {
    let mut cache = DnsCache::new();
    cache.put_at(&[1], &[7], 10, 0);
    assert_eq!(cache.len(), 0);
    assert_eq!(cache.get_at(&[1], 0), None);
    // Two bytes are an ID and an empty question.
    cache.put_at(&[1, 2], &[8], 10, 0);
    assert_eq!(cache.get_at(&[3, 4], 0), Some(vec![8]));
}

#[test]
fn cache_replaces_and_keeps_apart() {
    let mut cache = DnsCache::new();
    cache.put_at(&[0, 0, 1], &[1], 10, 0);
    cache.put_at(&[0, 0, 2], &[2], 10, 0);
    cache.put_at(&[0, 0, 3], &[3], 10, 0);
    cache.put_at(&[5, 5, 1], &[11], 20, 0);
    assert_eq!(cache.len(), 3);
    assert_eq!(cache.get_at(&[0, 0, 1], 15 * SEC), Some(vec![11]));
    assert_eq!(cache.get_at(&[0, 0, 2], 15 * SEC), None);
    assert_eq!(cache.get_at(&[0, 0, 3], 0), Some(vec![3]));
    assert_eq!(cache.len(), 2);
}

#[test]
fn full_cache_is_emptied_first() {
    let mut cache = DnsCache::new();
    for i in 0..CACHE_MAX_ENTRIES {
        cache.put_at(&[0, 0, (i / 256) as u8, (i % 256) as u8], &[1], 10, 0);
    }
    assert_eq!(cache.len(), CACHE_MAX_ENTRIES);
    assert!(cache.get_at(&[0, 0, 0, 0], 0).is_some());
    cache.put_at(&[0, 0, 99, 99, 99], &[2], 10, 0);
    assert_eq!(cache.len(), 1);
    assert!(cache.get_at(&[0, 0, 0, 0], 0).is_none());
    assert_eq!(cache.get_at(&[0, 0, 99, 99, 99], 0), Some(vec![2]));
}

#[test]
fn names_end_where_they_should() {
    let msg = encode_name("www.example.com");
    assert_eq!(skip_name(&msg, 0), Some(17));
    assert_eq!(skip_name(&msg, 16), Some(17)); // the root
    assert_eq!(skip_name(&msg, 17), None); // past the end
    assert_eq!(skip_name(&[0xC0, 0x0C], 0), Some(2));
    assert_eq!(skip_name(&[0xFF, 0xFF], 0), Some(2)); // pointers are not followed
    assert_eq!(skip_name(&[0xC0], 0), None); // pointer cut off
    assert_eq!(skip_name(&[1, b'a', 0xC0], 0), None);
    assert_eq!(skip_name(&[0x40, 0], 0), None);
    assert_eq!(skip_name(&[0x80, 0], 0), None);
    assert_eq!(skip_name(&[5, b'a', b'b'], 0), None); // label cut off
    assert_eq!(skip_name(&[2, b'a', b'b'], 0), None); // terminator missing
}

#[test]
fn ttl_rejects_cut_off_records() {
    let full = sample_response(300);
    let cut = &full[..full.len() - 1];
    assert_eq!(response_ttl(cut), None);
    let mut counted = full.clone();
    counted[7] = 2; // a second answer that is not there
    assert_eq!(response_ttl(&counted), None);
    let mut questions = full.clone();
    questions[5] = 9; // more questions than the message holds
    assert_eq!(response_ttl(&questions), None);
}

#[test]
fn ttl_counts_authority_and_additional_records() {
    let mut msg = sample_response(300);
    let record = |ttl: u32| {
        let mut r = vec![0xC0, 0x0C, 0x00, 0x06, 0x00, 0x01];
        r.extend_from_slice(&ttl.to_be_bytes());
        r.extend_from_slice(&[0x00, 0x00]);
        r
    };
    msg[9] = 1;
    msg.extend_from_slice(&record(40));
    msg[11] = 1;
    msg.extend_from_slice(&record(0));
    assert_eq!(response_ttl(&msg), Some(0));
}

#[test]
fn patch_id_leaves_the_rest_and_short_messages() {
    let mut resp = sample_response(300);
    let before = resp.clone();
    patch_id(&mut resp, &[0xAB, 0xCD]);
    assert_eq!(&resp[2..], &before[2..]);
    assert_eq!(response_ttl(&resp), Some(300));
    patch_id(&mut resp, &[0xEE]);
    assert_eq!(&resp[..2], &[0xAB, 0xCD]);
    let mut tiny = [7u8];
    patch_id(&mut tiny, &[1, 2]);
    assert_eq!(tiny, [7]);
    // The last requester wins.
    patch_id(&mut resp, &[1, 2]);
    patch_id(&mut resp, &[3, 4]);
    assert_eq!(&resp[..2], &[3, 4]);
}

#[test]
fn set_tc_keeps_what_fits_and_cuts_very_short() {
    let mut resp = sample_response(300);
    let before = resp.clone();
    set_tc(&mut resp, 4096);
    assert_eq!(resp, before);
    set_tc(&mut resp, 2);
    assert_eq!(resp, vec![0x12, 0x34]);
}

#[test]
fn servfail_of_short_and_malformed_queries() {
    assert_eq!(servfail(&[1, 2, 3]), vec![1, 2, 3]);
    let mut query = vec![0x42, 0x69, 0xFF, 0xFF, 0, 1, 0, 0, 0, 0, 0, 0];
    query.extend_from_slice(&[63, b'a']); // name cut off
    let resp = servfail(&query);
    assert_eq!(resp, vec![0x42, 0x69, 0x81, 0x82, 0, 1, 0, 0, 0, 0, 0, 0]);
}

#[test]
fn clock_goes_forward() {
    let clock = Clock::new();
    let a = clock.now();
    let b = clock.now();
    assert!(a <= b);
    assert!(b < 3600 * SEC);
}
