use clipdown::hashing::fnv1a;
use clipdown::hashing::hex64_string;

#[test]
fn fnv1a_of_empty_is_offset_basis() {
    assert_eq!(fnv1a(&Vec::new()), 0xcbf29ce484222325);
}

#[test]
fn fnv1a_known_vectors() {
    assert_eq!(fnv1a(&vec![b'a']), 0xaf63dc4c8601ec8c);
    assert_eq!(fnv1a(&vec![b'f', b'o', b'o', b'b', b'a', b'r']), 0x85944171f73967e8);
}

#[test]
fn fnv1a_depends_on_order() {
    assert_ne!(fnv1a(&vec![1, 2]), fnv1a(&vec![2, 1]));
}

#[test]
fn hex64_renders_fixed_width_lower_case() {
    assert_eq!(hex64_string(0), "0000000000000000");
    assert_eq!(hex64_string(0xdeadbeef), "00000000deadbeef");
    assert_eq!(hex64_string(u64::MAX), "ffffffffffffffff");
    assert_eq!(hex64_string(0x0123456789abcdef), "0123456789abcdef");
}
