use warp_app::install::{old_executable_extension, u32_to_decimal, update_file_name};
use warp_app::version::parse_u32;

#[test]
fn decimal_matches_to_string() {
    for n in [0u32, 7, 10, 99, 100, 12345, 4294967295] {
        assert_eq!(u32_to_decimal(n), n.to_string());
        assert_eq!(parse_u32(&u32_to_decimal(n)), Some(n));
    }
}

#[test]
fn update_file_names() {
    assert_eq!(update_file_name(4242), "warp-update-4242");
    assert_eq!(update_file_name(0), "warp-update-0");
    assert_ne!(update_file_name(12), update_file_name(1));
}

#[test]
fn old_executable_extensions() {
    assert_eq!(old_executable_extension(true), "exe.old");
    assert_eq!(old_executable_extension(false), "old");
}
