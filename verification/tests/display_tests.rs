use breadglx::display::{
    backend_after, boolean_from_word, check_glx_version, env_to_boolean, is_gl_function_name,
    proc_name_bytes, properties_from_reply, resolve_proc_address, Backend, DisplayError, GlStats,
    PropertyCache,
};

#[test]
fn env_words_as_booleans() {
    assert!(env_to_boolean(Some("1"), false));
    assert!(env_to_boolean(Some("TRUE"), false));
    assert!(env_to_boolean(Some("Yes"), false));
    assert!(env_to_boolean(Some("y"), false));
    assert!(!env_to_boolean(Some("0"), true));
    assert!(!env_to_boolean(Some("False"), true));
    assert!(!env_to_boolean(Some("NO"), true));
    assert!(!env_to_boolean(Some("n"), true));
}

#[test]
fn env_unset_or_unknown_keeps_default() {
    assert!(env_to_boolean(None, true));
    assert!(!env_to_boolean(None, false));
    assert!(env_to_boolean(Some("maybe"), true));
    assert!(!env_to_boolean(Some(""), false));
}

#[test]
fn words_are_compared_as_given() {
    assert!(boolean_from_word("yes", false));
    assert!(!boolean_from_word("YES", false));
}

#[test]
fn stats_from_environment() {
    let stats = GlStats::get(None, None, None, None);
    assert_eq!(stats, GlStats { direct: true, accel: true, no_dri3: false, no_dri2: false });
    let stats = GlStats::get(Some("true"), Some("1"), Some("yes"), Some("0"));
    assert_eq!(stats, GlStats { direct: false, accel: false, no_dri3: true, no_dri2: false });
}

#[test]
fn glx_versions() {
    assert_eq!(check_glx_version(1, 4), Ok(()));
    assert_eq!(check_glx_version(1, 1), Ok(()));
    assert_eq!(check_glx_version(1, 0), Err(DisplayError::IncompatibleVersion));
    assert_eq!(check_glx_version(2, 0), Err(DisplayError::IncompatibleVersion));
}

#[test]
fn backend_order() {
    let all = GlStats { direct: true, accel: true, no_dri3: false, no_dri2: false };
    assert_eq!(backend_after(all, None), Some(Backend::Dri3));
    assert_eq!(backend_after(all, Some(Backend::Dri3)), Some(Backend::Dri2));
    assert_eq!(backend_after(all, Some(Backend::Dri2)), Some(Backend::Indirect));
    assert_eq!(backend_after(all, Some(Backend::Indirect)), None);
    let no3 = GlStats { no_dri3: true, ..all };
    assert_eq!(backend_after(no3, None), Some(Backend::Dri2));
    let none = GlStats { no_dri3: true, no_dri2: true, ..all };
    assert_eq!(backend_after(none, None), Some(Backend::Indirect));
    let after3 = GlStats { no_dri2: true, ..all };
    assert_eq!(backend_after(after3, Some(Backend::Dri3)), Some(Backend::Indirect));
    let indirect = GlStats { direct: false, ..all };
    assert_eq!(backend_after(indirect, None), Some(Backend::Indirect));
    let software = GlStats { accel: false, ..all };
    assert_eq!(backend_after(software, None), Some(Backend::Indirect));
}

#[test]
fn function_names() {
    assert_eq!(proc_name_bytes("glClear"), Ok(b"glClear".to_vec()));
    assert_eq!(proc_name_bytes("gl\0x"), Err(DisplayError::NameHasNul));
    assert!(is_gl_function_name(b"glClear"));
    assert!(!is_gl_function_name(b"glXSwapBuffers"));
    assert!(!is_gl_function_name(b"foo"));
}

#[test]
fn proc_address_resolution() {
    assert_eq!(resolve_proc_address(b"glClear", 0x1000, 0x2000), Ok(0x1000));
    assert_eq!(resolve_proc_address(b"glClear", 0, 0x2000), Ok(0x2000));
    assert_eq!(resolve_proc_address(b"glClear", 0, 0), Err(DisplayError::FunctionNotFound));
    assert_eq!(
        resolve_proc_address(b"glXQueryVersion", 0x1000, 0),
        Err(DisplayError::InvalidFunctionName)
    );
}

#[test]
fn reply_pairs_make_map() {
    let map = properties_from_reply(&[1, 10, 2, 20, 1, 30]);
    assert_eq!(map.len(), 2);
    assert_eq!(map.get(&1), Some(&30));
    assert_eq!(map.get(&2), Some(&20));
}

#[test]
fn property_cache_reads_back_what_was_loaded() {
    let mut cache = PropertyCache::new();
    assert_eq!(cache.cached_property(5, 0x8013), None);
    assert_eq!(cache.load_reply(5, &[0x8013, 42, 7, 8], 0x8013), Some(42));
    assert_eq!(cache.cached_property(5, 0x8013), Some(Some(42)));
    assert_eq!(cache.cached_property(5, 9), Some(None));
    assert_eq!(cache.cached_property(6, 0x8013), None);
    assert_eq!(cache.load_reply(5, &[0x8013, 43], 7), None);
    assert_eq!(cache.cached_property(5, 0x8013), Some(Some(43)));
    assert_eq!(cache.cached_property(5, 7), Some(None));
}
