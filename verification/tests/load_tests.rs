use breadglx::dri::load::{
    dri_lib_name, driver_name_from_kernel_name, driver_name_from_pci, extension_getter_name,
    extension_source, ids_from_pci_device, is_kernel_i915, is_nouveau_vieux, nouveau_chipset,
    pci_table, DrmFacts, ExtensionSource, LoadError, PciIds, PciPredicate,
};

fn ids() -> PciIds {
    PciIds {
        i915: vec![0x2582],
        i965: vec![0x2a02, 0x0166],
        radeon: vec![0x5144],
        r200: vec![0x5148],
        r300: vec![0x4144],
        r600: vec![0x9400],
        virtio_gpu: vec![0x1010],
        vmwgfx: vec![0x0405],
    }
}

fn facts(kernel: Option<&[u8]>, chipset: Option<u64>, env: bool) -> DrmFacts {
    DrmFacts {
        kernel_name: kernel.map(|k| k.to_vec()),
        nouveau_chipset_value: chipset,
        nouveau_vieux_env: env,
    }
}

#[test]
fn table_layout() {
    let t = pci_table(ids());
    assert_eq!(t.len(), 12);
    assert_eq!(t[0].driver, "i915");
    assert_eq!(t[2].driver, "iris");
    assert_eq!(t[2].pred, PciPredicate::KernelIsI915);
    assert_eq!(t[8].pred, PciPredicate::NouveauVieux);
    assert_eq!(t[11].id, 0x15ad);
    assert_eq!(t[1].pci_ids, vec![0x2a02, 0x0166]);
}

#[test]
fn pci_lookup_by_chip() {
    let t = pci_table(ids());
    let f = facts(None, None, false);
    assert_eq!(driver_name_from_pci(&t, Some((0x8086, 0x0166)), &f), Ok("i965"));
    assert_eq!(driver_name_from_pci(&t, Some((0x1002, 0x9400)), &f), Ok("r600"));
    assert_eq!(driver_name_from_pci(&t, Some((0x1002, 0x7777)), &f), Ok("radeonsi"));
    assert_eq!(driver_name_from_pci(&t, Some((0x1af4, 0x1010)), &f), Ok("virtio_gpu"));
}

#[test]
fn pci_lookup_errors() {
    let t = pci_table(ids());
    let f = facts(None, None, false);
    assert_eq!(driver_name_from_pci(&t, None, &f), Err(LoadError::NoPciIds));
    assert_eq!(driver_name_from_pci(&t, Some((0x8086, 0x9999)), &f), Err(LoadError::NoDriverForId));
    assert_eq!(driver_name_from_pci(&t, Some((0x1234, 1)), &f), Err(LoadError::NoDriverForId));
}

#[test]
fn iris_needs_kernel_i915() {
    let t = pci_table(ids());
    let named = facts(Some(b"i915"), None, false);
    assert_eq!(driver_name_from_pci(&t, Some((0x8086, 0x9999)), &named), Ok("iris"));
    let with_nul = facts(Some(b"i915\0"), None, false);
    assert_eq!(driver_name_from_pci(&t, Some((0x8086, 0x9999)), &with_nul), Err(LoadError::NoDriverForId));
}

#[test]
fn nouveau_old_and_new() {
    let t = pci_table(ids());
    let old = facts(None, Some(0x20), false);
    assert_eq!(driver_name_from_pci(&t, Some((0x10de, 1)), &old), Ok("nouveau_vieux"));
    let mid = facts(None, Some(0x35), false);
    assert_eq!(driver_name_from_pci(&t, Some((0x10de, 1)), &mid), Ok("nouveau"));
    let mid_env = facts(None, Some(0x35), true);
    assert_eq!(driver_name_from_pci(&t, Some((0x10de, 1)), &mid_env), Ok("nouveau_vieux"));
    let unknown = facts(None, None, true);
    assert_eq!(driver_name_from_pci(&t, Some((0x10de, 1)), &unknown), Ok("nouveau"));
}

#[test]
fn nouveau_predicates() {
    assert!(is_nouveau_vieux(Some(0x10), false));
    assert!(!is_nouveau_vieux(Some(0), false));
    assert!(!is_nouveau_vieux(Some(0x30), false));
    assert!(is_nouveau_vieux(Some(0x30), true));
    assert!(!is_nouveau_vieux(Some(0x40), true));
    assert!(!is_nouveau_vieux(None, true));
    assert_eq!(nouveau_chipset(0, 0x1_0000_0050), Some(0x50));
    assert_eq!(nouveau_chipset(-1, 0x50), None);
}

#[test]
fn kernel_names() {
    assert_eq!(driver_name_from_kernel_name(None), Err(LoadError::NoKernelName));
    assert_eq!(driver_name_from_kernel_name(Some(vec![0xff, 0xfe])), Err(LoadError::NameNotUtf8));
    assert_eq!(driver_name_from_kernel_name(Some(b"amdgpu\0".to_vec())), Ok("amdgpu\0".to_string()));
    assert!(is_kernel_i915(Some(b"i915".to_vec())));
    assert!(!is_kernel_i915(Some(b"i915\0".to_vec())));
    assert!(!is_kernel_i915(None));
}

#[test]
fn pci_device_ids() {
    assert_eq!(ids_from_pci_device(0, 0x8086, 0x0166), Some((0x8086, 0x0166)));
    assert_eq!(ids_from_pci_device(1, 0x8086, 0x0166), None);
}

#[test]
fn library_names() {
    let names = dri_lib_name("i965");
    assert_eq!(names[0], "dri/i965-dri.so");
    assert_eq!(names[1], "i965-dri.so");
}

#[test]
fn extension_getter_names() {
    assert_eq!(extension_getter_name("i965"), b"__driDriverGetExtensions_i965".to_vec());
    assert_eq!(extension_getter_name("nouveau-vieux"), b"__driDriverGetExtensions_nouveau_vieux".to_vec());
    assert!(!extension_getter_name("a-b-c").contains(&b'-'));
}

#[test]
fn extension_sources() {
    assert_eq!(extension_source(true, false), Ok(ExtensionSource::Getter));
    assert_eq!(extension_source(false, true), Ok(ExtensionSource::Exported));
    assert_eq!(extension_source(false, false), Err(LoadError::NoExtensions));
}
