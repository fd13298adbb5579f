use mev_zerocopy_node::xdp::{
    bind_flags, poll_rx_step, ring_slot_index, SocketSetup, SocketSetupPhase, UmemConfig,
    UmemSetup, UmemSetupPhase, XdpConfig, XdpError, XdpMode, XdpRingDescriptor,
};

#[test]
fn umem_total_size() {
    let cfg = UmemConfig::default();
    assert_eq!(cfg.total_size(), 4096 * 4096);
}

#[test]
fn frame_offset_bounds_checked() {
    let cfg = UmemConfig::default();
    assert_eq!(cfg.frame_offset(0), Some(0));
    assert_eq!(cfg.frame_offset(1), Some(4096));
    assert_eq!(cfg.frame_offset(4095), Some(4095 * 4096));
    assert_eq!(cfg.frame_offset(4096), None);
}

#[test]
fn ring_descriptor_new_zeroes_options_and_padding() {
    let d = XdpRingDescriptor::new(8192, 1500);
    assert_eq!(d.addr, 8192);
    assert_eq!(d.len, 1500);
    assert_eq!(d.options, 0);
    assert!(d._pad.iter().all(|b| *b == 0));
}

#[test]
fn umem_setup_happy_path_then_single_release() {
    let mut setup = UmemSetup::new(UmemConfig::default());
    setup.socket_opened(7, 0);
    setup.memory_mapped(Some(0x1000), 0);
    setup.memory_locked(true, 0);
    setup.region_registered(true, 0);
    setup.fill_ring_sized();
    setup.completion_ring_sized();
    assert_eq!(setup.phase, UmemSetupPhase::Ready { fd: 7, addr: 0x1000 });

    let (fd, addr) = setup.release();
    assert_eq!((fd, addr), (7, 0x1000));
    assert_eq!(setup.phase, UmemSetupPhase::Closed);
}

#[test]
fn umem_setup_socket_failure_owes_no_cleanup() {
    let mut setup = UmemSetup::new(UmemConfig::default());
    setup.socket_opened(-1, 13);
    assert_eq!(
        setup.phase,
        UmemSetupPhase::Failed {
            error: XdpError::SocketOpen(13),
            close_fd: None,
            unmap_addr: None,
        }
    );
}

#[test]
fn umem_setup_mmap_failure_owes_socket_close_only() {
    let mut setup = UmemSetup::new(UmemConfig::default());
    setup.socket_opened(5, 0);
    setup.memory_mapped(None, 12);
    assert_eq!(
        setup.phase,
        UmemSetupPhase::Failed {
            error: XdpError::MmapFailed(12),
            close_fd: Some(5),
            unmap_addr: None,
        }
    );
}

#[test]
fn umem_setup_mlock_failure_owes_unmap_and_close() {
    let mut setup = UmemSetup::new(UmemConfig::default());
    setup.socket_opened(5, 0);
    setup.memory_mapped(Some(0x2000), 0);
    setup.memory_locked(false, 1);
    assert_eq!(
        setup.phase,
        UmemSetupPhase::Failed {
            error: XdpError::MlockFailed(1),
            close_fd: Some(5),
            unmap_addr: Some(0x2000),
        }
    );
}

#[test]
fn umem_setup_registration_failure_owes_unmap_and_close() {
    let mut setup = UmemSetup::new(UmemConfig::default());
    setup.socket_opened(5, 0);
    setup.memory_mapped(Some(0x2000), 0);
    setup.memory_locked(true, 0);
    setup.region_registered(false, 22);
    assert_eq!(
        setup.phase,
        UmemSetupPhase::Failed {
            error: XdpError::UmemReg(22),
            close_fd: Some(5),
            unmap_addr: Some(0x2000),
        }
    );
}

#[test]
fn socket_setup_paths() {
    let mut setup = SocketSetup::new(XdpConfig::default());
    setup.socket_opened(9, 0);
    setup.rings_sized();
    setup.interface_resolved(3);
    setup.bound(true, 0);
    assert_eq!(setup.phase, SocketSetupPhase::Ready { fd: 9 });

    let mut setup = SocketSetup::new(XdpConfig::default());
    setup.socket_opened(9, 0);
    setup.rings_sized();
    setup.interface_resolved(0);
    assert_eq!(
        setup.phase,
        SocketSetupPhase::Failed { error: XdpError::IfNotFound, close_fd: Some(9) }
    );

    let mut setup = SocketSetup::new(XdpConfig::default());
    setup.socket_opened(9, 0);
    setup.rings_sized();
    setup.interface_resolved(3);
    setup.bound(false, 98);
    assert_eq!(
        setup.phase,
        SocketSetupPhase::Failed { error: XdpError::BindFailed(98), close_fd: Some(9) }
    );
}

#[test]
fn bind_flags_select_copy_mode() {
    assert_eq!(bind_flags(XdpMode::Native), 4); // hardware zero-copy
    assert_eq!(bind_flags(XdpMode::Generic), 2); // kernel-copy fallback
}

#[test]
fn ring_slot_index_masks_cursor() {
    assert_eq!(ring_slot_index(0, 2048), 0);
    assert_eq!(ring_slot_index(2047, 2048), 2047);
    assert_eq!(ring_slot_index(2048, 2048), 0);
    assert_eq!(ring_slot_index(4097, 2048), 1);
}

#[test]
fn poll_rx_step_empty_and_nonempty() {
    let empty = XdpRingDescriptor::new(0, 0);
    let (taken, cursor) = poll_rx_step(empty, 41);
    assert!(taken.is_none());
    assert_eq!(cursor, 41);

    let full = XdpRingDescriptor::new(4096, 64);
    let (taken, cursor) = poll_rx_step(full, 41);
    let desc = taken.expect("a nonzero-length descriptor is taken");
    assert_eq!(desc.addr, 4096);
    assert_eq!(desc.len, 64);
    assert_eq!(cursor, 42);

    // The cursor wraps at the 32-bit boundary.
    let (_, cursor) = poll_rx_step(full, u32::MAX);
    assert_eq!(cursor, 0);
}
