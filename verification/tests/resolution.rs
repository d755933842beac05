use hookbridge::pattern::PatternByte;
use hookbridge::resolver::{
    LazyResolver, Procedure, ResolveError, Signature, ValueKind,
};

fn int_getter_sig() -> Signature {
    Signature { params: Vec::new(), ret: ValueKind::Integer }
}

fn image_with_pattern_at_5() -> Vec<u8> {
    let mut image = vec![0u8; 5];
    image.extend_from_slice(&[0xDE, 0xAD, 0xBE, 0xEF]);
    image.extend_from_slice(&[0u8; 3]);
    image
}

fn pattern() -> Vec<PatternByte> {
    vec![
        PatternByte::Fixed(0xDE),
        PatternByte::Wildcard,
        PatternByte::Fixed(0xBE),
        PatternByte::Fixed(0xEF),
    ]
}

#[test]
fn resolver_scans_once_and_caches_the_address() {
    let image = image_with_pattern_at_5();
    let mut r = LazyResolver::new(Procedure::Scan(pattern()), int_getter_sig());
    assert_eq!(r.lookup_count(), 0);
    let first = r.resolve(&image);
    let second = r.resolve(&image);
    let third = r.resolve(&image);
    assert_eq!(first, Ok(5));
    assert_eq!(second, Ok(5));
    assert_eq!(third, Ok(5));
    // The underlying scan ran exactly once over the whole call sequence.
    assert_eq!(r.lookup_count(), 1);
    assert!(r.is_resolved());
}

#[test]
fn resolver_failure_is_cached_and_consistent() {
    let image = vec![0u8; 16];
    let mut r = LazyResolver::new(Procedure::Scan(pattern()), int_getter_sig());
    assert_eq!(r.resolve(&image), Err(ResolveError::NotFound));
    assert_eq!(r.resolve(&image), Err(ResolveError::NotFound));
    assert_eq!(r.lookup_count(), 1);
    assert!(!r.is_resolved());
}

#[test]
fn resolver_fixed_offset_in_range() {
    let image = vec![0u8; 16];
    let mut r = LazyResolver::new(Procedure::FixedOffset(3), int_getter_sig());
    assert_eq!(r.resolve(&image), Ok(3));
    assert_eq!(r.lookup_count(), 1);
}

#[test]
fn resolver_fixed_offset_out_of_range_fails() {
    let image = vec![0u8; 4];
    let mut r = LazyResolver::new(Procedure::FixedOffset(9), int_getter_sig());
    assert_eq!(r.resolve(&image), Err(ResolveError::NotFound));
    assert_eq!(r.resolve(&image), Err(ResolveError::NotFound));
    assert_eq!(r.lookup_count(), 1);
}

#[test]
fn resolved_address_carries_the_declared_signature() {
    let image = image_with_pattern_at_5();
    let sig = Signature { params: vec![ValueKind::Integer], ret: ValueKind::Boolean };
    let mut r = LazyResolver::new(Procedure::Scan(pattern()), sig);
    assert!(r.resolved_address().is_none());
    r.resolve(&image).unwrap();
    let ra = r.resolved_address().unwrap();
    assert_eq!(ra.offset, 5);
    assert_eq!(ra.sig.params, vec![ValueKind::Integer]);
    assert_eq!(ra.sig.ret, ValueKind::Boolean);
}
