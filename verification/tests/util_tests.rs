use breadglx::cstr::const_cstr;
use breadglx::text::{bytes_equal, str_equals};
use breadglx::util::ThreadSafe;

#[test]
fn thread_safe_round_trip() {
    let t = ThreadSafe::new(5u32);
    assert_eq!(t.into_inner(), 5);
    assert_eq!(ThreadSafe::new(Some(3u8)).into_option(), Some(ThreadSafe(3u8)));
    assert_eq!(ThreadSafe::new(None::<u8>).into_option(), None);
}

#[test]
fn constant_c_strings() {
    let c = const_cstr(b"vblank_mode\0");
    assert_eq!(c.to_bytes(), b"vblank_mode");
    assert!(c.eq_bytes(b"vblank_mode\0"));
    assert!(!c.eq_bytes(b"vblank_mode"));
    assert!(!c.eq_bytes(b"adaptive_sync\0"));
}

#[test]
fn text_equality() {
    assert!(str_equals("héllo", "héllo"));
    assert!(!str_equals("hello", "hellO"));
    assert!(!str_equals("a", "ab"));
    assert!(bytes_equal(b"abc", b"abc"));
    assert!(!bytes_equal(b"abc", b"abd"));
}
