use wc_utils::metrics::bucket::value_bucket;
use wc_utils::metrics::label::{label_name, resolve_label_name, BoolLabel, LabelName, StringLabel};

#[test]
fn test_label_name() {
    let a: LabelName = label_name("test");
    let name = resolve_label_name(a);
    assert_eq!(name.unwrap(), "test");
}

#[test]
fn label_name_packs_bytes_most_significant_first() {
    assert_eq!(label_name(""), 0);
    assert_eq!(label_name("a"), 0x61u128 << 120);
    assert_eq!(
        label_name("0123456789abcdef"),
        u128::from_be_bytes(*b"0123456789abcdef")
    );
    assert_eq!(
        resolve_label_name(label_name("0123456789abcdef")).unwrap(),
        "0123456789abcdef"
    );
    assert_eq!(resolve_label_name(label_name("größe")).unwrap(), "größe");
    assert_eq!(resolve_label_name(0).unwrap(), "");
}

#[test]
fn label_name_rejects_invalid_utf8() {
    assert_eq!(resolve_label_name(0xffu128 << 120), None);
    assert_eq!(resolve_label_name(u128::MAX), None);
}

#[test]
fn label_name_stops_at_first_zero_byte() {
    let packed = u128::from_be_bytes(*b"ab\0cd\0\0\0\0\0\0\0\0\0\0\0");
    assert_eq!(resolve_label_name(packed).unwrap(), "ab");
}

#[test]
fn labels_hold_their_values() {
    let b = BoolLabel::<7>::new(true);
    assert!(b.into_inner());
    assert_eq!(b.as_str(), "true");
    assert_eq!(BoolLabel::<7>::new(false).as_str(), "false");
    let s = StringLabel::<7, String>::new("value");
    assert_eq!(*s.as_ref(), "value");
    assert_eq!(s.into_inner(), "value");
}

#[test]
fn test_value_buckets() {
    const BUCKETS: [usize; 8] = [128, 256, 512, 2048, 4096, 65535, 131070, 262140];

    assert_eq!(value_bucket(0, &BUCKETS), 128);
    assert_eq!(value_bucket(65536, &BUCKETS), 131070);
    assert_eq!(value_bucket(131070, &BUCKETS), 131070);
    assert_eq!(value_bucket(131071, &BUCKETS), 262140);
    assert_eq!(value_bucket(usize::MAX, &BUCKETS), 262140);
}

#[test]
fn value_bucket_of_no_buckets_is_zero() {
    const NONE: [usize; 0] = [];
    assert_eq!(value_bucket(5, &NONE), 0);
    const ONE: [usize; 1] = [10];
    assert_eq!(value_bucket(5, &ONE), 10);
    assert_eq!(value_bucket(50, &ONE), 10);
}
