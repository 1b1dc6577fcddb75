use sync_2048::hashing::content_hash;
use sync_2048::text::u64_to_dec;
use sync_2048::text::u64_to_dec_grouped;
use sync_2048::text::u64_to_hex;

#[test]
fn decimal_rendering() {
    assert_eq!(u64_to_dec(0), "0");
    assert_eq!(u64_to_dec(7), "7");
    assert_eq!(u64_to_dec(10), "10");
    assert_eq!(u64_to_dec(1234567890), "1234567890");
    assert_eq!(u64_to_dec(u64::MAX), "18446744073709551615");
}

#[test]
fn hex_rendering() {
    assert_eq!(u64_to_hex(0), "0");
    assert_eq!(u64_to_hex(10), "a");
    assert_eq!(u64_to_hex(255), "ff");
    assert_eq!(u64_to_hex(0xdeadbeef), "deadbeef");
    assert_eq!(u64_to_hex(u64::MAX), "ffffffffffffffff");
}

#[test]
fn grouped_rendering() {
    assert_eq!(u64_to_dec_grouped(0), "0");
    assert_eq!(u64_to_dec_grouped(999), "999");
    assert_eq!(u64_to_dec_grouped(1000), "1,000");
    assert_eq!(u64_to_dec_grouped(1001), "1,001");
    assert_eq!(u64_to_dec_grouped(1234567), "1,234,567");
    assert_eq!(u64_to_dec_grouped(1000000), "1,000,000");
    assert_eq!(u64_to_dec_grouped(20048), "20,048");
}

#[test]
fn hash_matches_the_external_digest() {
    // The content hash must be the xxh3 digest of the payload bytes in
    // lowercase hexadecimal; a wrapper that returned anything else would
    // not match the digest computed directly.
    let payload = "stats|1|2|3";
    let expected = format!(
        "{:x}",
        xxhash_rust::const_xxh3::xxh3_64(payload.as_bytes())
    );
    assert_eq!(content_hash(payload), expected);
}

#[test]
fn hash_deterministic_and_field_sensitive() {
    // Identical canonical payloads hash identically.
    assert_eq!(content_hash("profile|5|0"), content_hash("profile|5|0"));
    // Changing any field changes the digest.
    assert_ne!(content_hash("profile|5|0"), content_hash("profile|5|1"));
    assert_ne!(content_hash("profile|5|0"), content_hash("profile|6|0"));
    assert_ne!(content_hash(""), content_hash("0"));
}
