//! Kernel-bypass transport layer: configuration, descriptor layout, and the
//! decision logic of frame-pool setup, socket setup, and receive polling.
//!
//! The frame pool is a pinned memory region shared with the kernel; packets
//! land in it by DMA and descriptor rings carry (offset, length) entries
//! between kernel and userspace. The system calls that acquire and release
//! those resources live outside this library; what stands here is every
//! decision around them: which step follows which, which error each failing
//! step reports, and exactly which already-acquired resources a failure or a
//! teardown must release.

use vstd::prelude::*;

verus! {

/// How the kernel-bypass program attaches to the interface.
#[derive(Clone, Copy, Debug, Eq, PartialEq, Structural)]
pub enum XdpMode {
    /// Driver-level attachment: frames bypass the kernel's buffer allocation.
    Native,
    /// Network-stack-level attachment: works anywhere, bypasses less.
    Generic,
}

/// Transport configuration: interface, hardware queue, attachment mode.
#[derive(Clone, Copy, Debug)]
pub struct XdpConfig {
    /// Network interface name.
    pub interface: &'static str,
    /// Hardware queue index to bind to.
    pub queue_id: u32,
    /// Attachment mode.
    pub mode: XdpMode,
}

impl Default for XdpConfig {
    /// First queue of a virtual test interface, native attachment.
    fn default() -> (c: Self)
        ensures
            c.interface@ == "veth0"@,
            c.queue_id == 0,
            c.mode == XdpMode::Native,
    {
        XdpConfig { interface: "veth0", queue_id: 0, mode: XdpMode::Native }
    }
}

/// Frame-pool sizing: all counts must be powers of two.
#[derive(Clone, Copy, Debug)]
pub struct UmemConfig {
    /// Number of frames in the pool.
    pub frame_count: u32,
    /// Size of each frame in bytes.
    pub frame_size: u32,
    /// Entries in the fill and completion rings.
    pub fill_ring_size: u32,
    /// Entries in the receive and transmit rings.
    pub rx_tx_ring_size: u32,
}

impl Default for UmemConfig {
    /// 4096 page-sized frames and 2048-entry rings.
    fn default() -> (c: Self)
        ensures
            c.frame_count == 4096,
            c.frame_size == 4096,
            c.fill_ring_size == 2048,
            c.rx_tx_ring_size == 2048,
    {
        UmemConfig { frame_count: 4096, frame_size: 4096, fill_ring_size: 2048, rx_tx_ring_size: 2048 }
    }
}

impl UmemConfig {
    /// Total size of the frame-pool region in bytes. The product must fit
    /// the machine's address width.
    pub fn total_size(&self) -> (size: usize)
        requires
            self.frame_count * self.frame_size <= usize::MAX,
        ensures
            size == self.frame_count * self.frame_size,
    {
        self.frame_count as usize * self.frame_size as usize
    }

    /// Byte offset of frame `frame_index` inside the pool region, or nothing
    /// when the index is out of bounds. An in-bounds frame lies entirely
    /// inside the region.
    pub fn frame_offset(&self, frame_index: u32) -> (offset: Option<usize>)
        requires
            self.frame_count * self.frame_size <= usize::MAX,
        ensures
            offset is Some <==> frame_index < self.frame_count,
            offset matches Some(o) ==> o == frame_index * self.frame_size && o + self.frame_size
                <= self.frame_count * self.frame_size,
    {
        if frame_index >= self.frame_count {
            return None;
        }
        proof {
            assert((frame_index as int) * (self.frame_size as int) + (self.frame_size as int) <= (
            self.frame_count as int) * (self.frame_size as int)) by (nonlinear_arith)
                requires
                    (frame_index as int) < (self.frame_count as int),
                    0 <= (frame_index as int),
                    0 <= (self.frame_size as int),
            ;
        }
        Some(frame_index as usize * self.frame_size as usize)
    }
}

/// A descriptor-ring entry: a frame's byte offset into the pool and its
/// valid byte count. Padded out to a full 64-byte cache line so neighbouring
/// entries never share a line.
#[derive(Clone, Copy, Debug)]
pub struct XdpRingDescriptor {
    /// Byte offset of the frame within the pool region.
    pub addr: u64,
    /// Number of valid bytes in the frame; zero means "no frame here".
    pub len: u32,
    /// Kernel-internal options; must stay zero from userspace.
    pub options: u32,
    /// Padding that completes the cache line.
    pub _pad: [u8; 48],
}

impl XdpRingDescriptor {
    /// A descriptor pointing at a pool frame, with zeroed options and padding.
    pub fn new(addr: u64, len: u32) -> (d: Self)
        ensures
            d.addr == addr,
            d.len == len,
            d.options == 0,
            forall|i: int| 0 <= i < 48 ==> d._pad@[i] == 0,
    {
        XdpRingDescriptor { addr, len, options: 0, _pad: [0u8; 48] }
    }
}

/// Errors from transport setup, each carrying the OS error code of the step
/// that failed.
#[derive(Debug, Clone, Copy, PartialEq, Eq, Structural)]
pub enum XdpError {
    /// Opening the kernel-bypass socket failed.
    SocketOpen(i32),
    /// Mapping the frame-pool memory failed.
    MmapFailed(i32),
    /// Pinning the mapping against paging failed.
    MlockFailed(i32),
    /// Registering the region with the kernel failed.
    UmemReg(i32),
    /// The interface name resolved to no index.
    IfNotFound,
    /// Binding the socket to the interface queue failed.
    BindFailed(i32),
}

/// Where frame-pool setup stands. Each failing step records the error to
/// report and names every resource acquired before it — each exactly once —
/// so the caller releases exactly what is held, even when setup stops
/// partway.
#[derive(Clone, Copy, Debug, PartialEq, Eq, Structural)]
pub enum UmemSetupPhase {
    /// Nothing acquired yet; a kernel-bypass socket must be opened.
    NeedSocket,
    /// Socket `fd` is open; the pool region must be mapped.
    NeedMemory { fd: i32 },
    /// The mapping at `addr` must be pinned against paging.
    NeedLock { fd: i32, addr: usize },
    /// The pinned mapping must be registered with the kernel.
    NeedRegistration { fd: i32, addr: usize },
    /// The fill ring must be sized; a refusal here is tolerated.
    NeedFillRing { fd: i32, addr: usize },
    /// The completion ring must be sized; a refusal here is tolerated.
    NeedCompletionRing { fd: i32, addr: usize },
    /// Setup is complete: the frame pool is live.
    Ready { fd: i32, addr: usize },
    /// A step failed: report `error` after releasing exactly the listed
    /// resources.
    Failed { error: XdpError, close_fd: Option<i32>, unmap_addr: Option<usize> },
    /// The pool was torn down; nothing is held.
    Closed,
}

/// The frame-pool setup state machine. The caller performs each system call
/// and reports its outcome; the machine decides the next step, the error to
/// surface, and the cleanup owed — so the resource discipline around the
/// calls is checked even though the calls themselves cannot be.
pub struct UmemSetup {
    /// The sizing this pool is being built with.
    pub config: UmemConfig,
    /// Where setup stands.
    pub phase: UmemSetupPhase,
}

impl UmemSetup {
    /// Begin setting up a frame pool with the given sizing.
    pub fn new(config: UmemConfig) -> (s: Self)
        ensures
            s.phase == UmemSetupPhase::NeedSocket,
            s.config == config,
    {
        UmemSetup { config, phase: UmemSetupPhase::NeedSocket }
    }

    /// Report the socket-open outcome: a negative descriptor is a failure
    /// with `errno`, and nothing is held yet, so nothing needs cleanup.
    pub fn socket_opened(&mut self, fd: i32, errno: i32)
        requires
            old(self).phase == UmemSetupPhase::NeedSocket,
        ensures
            final(self).config == old(self).config,
            fd >= 0 ==> final(self).phase == (UmemSetupPhase::NeedMemory { fd }),
            fd < 0 ==> final(self).phase == (UmemSetupPhase::Failed {
                error: XdpError::SocketOpen(errno),
                close_fd: None,
                unmap_addr: None,
            }),
    {
        if fd >= 0 {
            self.phase = UmemSetupPhase::NeedMemory { fd };
        } else {
            self.phase = UmemSetupPhase::Failed {
                error: XdpError::SocketOpen(errno),
                close_fd: None,
                unmap_addr: None,
            };
        }
    }

    /// Report the mapping outcome: on failure the socket — the only resource
    /// held — must be closed.
    pub fn memory_mapped(&mut self, addr: Option<usize>, errno: i32)
        requires
            old(self).phase matches UmemSetupPhase::NeedMemory { .. },
        ensures
            final(self).config == old(self).config,
            ({
                let fd = old(self).phase->NeedMemory_fd;
                match addr {
                    Some(a) => final(self).phase == (UmemSetupPhase::NeedLock { fd, addr: a }),
                    None => final(self).phase == (UmemSetupPhase::Failed {
                        error: XdpError::MmapFailed(errno),
                        close_fd: Some(fd),
                        unmap_addr: None,
                    }),
                }
            }),
    {
        let fd = match self.phase {
            UmemSetupPhase::NeedMemory { fd } => fd,
            _ => {
                proof {
                    assert(false);
                }
                0
            },
        };
        match addr {
            Some(a) => {
                self.phase = UmemSetupPhase::NeedLock { fd, addr: a };
            },
            None => {
                self.phase = UmemSetupPhase::Failed {
                    error: XdpError::MmapFailed(errno),
                    close_fd: Some(fd),
                    unmap_addr: None,
                };
            },
        }
    }

    /// Report the pinning outcome: on failure both the mapping and the
    /// socket must be released.
    pub fn memory_locked(&mut self, success: bool, errno: i32)
        requires
            old(self).phase matches UmemSetupPhase::NeedLock { .. },
        ensures
            final(self).config == old(self).config,
            ({
                let fd = old(self).phase->NeedLock_fd;
                let addr = old(self).phase->NeedLock_addr;
                if success {
                    final(self).phase == (UmemSetupPhase::NeedRegistration { fd, addr })
                } else {
                    final(self).phase == (UmemSetupPhase::Failed {
                        error: XdpError::MlockFailed(errno),
                        close_fd: Some(fd),
                        unmap_addr: Some(addr),
                    })
                }
            }),
    {
        let (fd, addr) = match self.phase {
            UmemSetupPhase::NeedLock { fd, addr } => (fd, addr),
            _ => {
                proof {
                    assert(false);
                }
                (0, 0)
            },
        };
        if success {
            self.phase = UmemSetupPhase::NeedRegistration { fd, addr };
        } else {
            self.phase = UmemSetupPhase::Failed {
                error: XdpError::MlockFailed(errno),
                close_fd: Some(fd),
                unmap_addr: Some(addr),
            };
        }
    }

    /// Report the kernel-registration outcome: on failure both the mapping
    /// and the socket must be released.
    pub fn region_registered(&mut self, success: bool, errno: i32)
        requires
            old(self).phase matches UmemSetupPhase::NeedRegistration { .. },
        ensures
            final(self).config == old(self).config,
            ({
                let fd = old(self).phase->NeedRegistration_fd;
                let addr = old(self).phase->NeedRegistration_addr;
                if success {
                    final(self).phase == (UmemSetupPhase::NeedFillRing { fd, addr })
                } else {
                    final(self).phase == (UmemSetupPhase::Failed {
                        error: XdpError::UmemReg(errno),
                        close_fd: Some(fd),
                        unmap_addr: Some(addr),
                    })
                }
            }),
    {
        let (fd, addr) = match self.phase {
            UmemSetupPhase::NeedRegistration { fd, addr } => (fd, addr),
            _ => {
                proof {
                    assert(false);
                }
                (0, 0)
            },
        };
        if success {
            self.phase = UmemSetupPhase::NeedFillRing { fd, addr };
        } else {
            self.phase = UmemSetupPhase::Failed {
                error: XdpError::UmemReg(errno),
                close_fd: Some(fd),
                unmap_addr: Some(addr),
            };
        }
    }

    /// The fill ring was sized; a refusal is tolerated, so this always
    /// advances.
    pub fn fill_ring_sized(&mut self)
        requires
            old(self).phase matches UmemSetupPhase::NeedFillRing { .. },
        ensures
            final(self).config == old(self).config,
            final(self).phase == (UmemSetupPhase::NeedCompletionRing {
                fd: old(self).phase->NeedFillRing_fd,
                addr: old(self).phase->NeedFillRing_addr,
            }),
    {
        let (fd, addr) = match self.phase {
            UmemSetupPhase::NeedFillRing { fd, addr } => (fd, addr),
            _ => {
                proof {
                    assert(false);
                }
                (0, 0)
            },
        };
        self.phase = UmemSetupPhase::NeedCompletionRing { fd, addr };
    }

    /// The completion ring was sized; a refusal is tolerated, so the pool is
    /// now live.
    pub fn completion_ring_sized(&mut self)
        requires
            old(self).phase matches UmemSetupPhase::NeedCompletionRing { .. },
        ensures
            final(self).config == old(self).config,
            final(self).phase == (UmemSetupPhase::Ready {
                fd: old(self).phase->NeedCompletionRing_fd,
                addr: old(self).phase->NeedCompletionRing_addr,
            }),
    {
        let (fd, addr) = match self.phase {
            UmemSetupPhase::NeedCompletionRing { fd, addr } => (fd, addr),
            _ => {
                proof {
                    assert(false);
                }
                (0, 0)
            },
        };
        self.phase = UmemSetupPhase::Ready { fd, addr };
    }

    /// Tear down a live pool: the caller must unmap the returned address and
    /// close the returned descriptor, after which nothing is held. The
    /// machine leaves `Ready`, so the same resources can never be handed out
    /// for release twice.
    pub fn release(&mut self) -> (actions: (i32, usize))
        requires
            old(self).phase matches UmemSetupPhase::Ready { .. },
        ensures
            final(self).config == old(self).config,
            final(self).phase == UmemSetupPhase::Closed,
            actions.0 == old(self).phase->Ready_fd,
            actions.1 == old(self).phase->Ready_addr,
    {
        let (fd, addr) = match self.phase {
            UmemSetupPhase::Ready { fd, addr } => (fd, addr),
            _ => {
                proof {
                    assert(false);
                }
                (0, 0)
            },
        };
        self.phase = UmemSetupPhase::Closed;
        (fd, addr)
    }
}

/// Where socket setup stands: opening a second socket on the same pool,
/// sizing its rings, resolving the interface, and binding.
#[derive(Clone, Copy, Debug, PartialEq, Eq, Structural)]
pub enum SocketSetupPhase {
    /// Nothing acquired yet; the socket must be opened.
    NeedSocket,
    /// Socket `fd` is open; receive and transmit rings must be sized.
    NeedRings { fd: i32 },
    /// The interface name must resolve to an index.
    NeedInterfaceIndex { fd: i32 },
    /// The socket must be bound to interface `ifindex` and the queue.
    NeedBind { fd: i32, ifindex: u32 },
    /// The socket is bound and live.
    Ready { fd: i32 },
    /// A step failed: report `error` after closing the listed descriptor.
    Failed { error: XdpError, close_fd: Option<i32> },
}

/// The socket setup state machine, driven like `UmemSetup`.
pub struct SocketSetup {
    /// The transport configuration being bound.
    pub config: XdpConfig,
    /// Where setup stands.
    pub phase: SocketSetupPhase,
}

/// The bind flag each attachment mode requests: hardware zero-copy for
/// native attachment, kernel-copy fallback for generic.
pub fn bind_flags(mode: XdpMode) -> (flags: u16)
    ensures
        mode == XdpMode::Native ==> flags == 4,
        mode == XdpMode::Generic ==> flags == 2,
{
    match mode {
        XdpMode::Native => 4,
        XdpMode::Generic => 2,
    }
}

impl SocketSetup {
    /// Begin binding a socket with the given configuration.
    pub fn new(config: XdpConfig) -> (s: Self)
        ensures
            s.phase == SocketSetupPhase::NeedSocket,
            s.config == config,
    {
        SocketSetup { config, phase: SocketSetupPhase::NeedSocket }
    }

    /// Report the socket-open outcome: a negative descriptor is a failure
    /// with `errno`, and nothing is held yet.
    pub fn socket_opened(&mut self, fd: i32, errno: i32)
        requires
            old(self).phase == SocketSetupPhase::NeedSocket,
        ensures
            final(self).config == old(self).config,
            fd >= 0 ==> final(self).phase == (SocketSetupPhase::NeedRings { fd }),
            fd < 0 ==> final(self).phase == (SocketSetupPhase::Failed {
                error: XdpError::SocketOpen(errno),
                close_fd: None,
            }),
    {
        if fd >= 0 {
            self.phase = SocketSetupPhase::NeedRings { fd };
        } else {
            self.phase = SocketSetupPhase::Failed {
                error: XdpError::SocketOpen(errno),
                close_fd: None,
            };
        }
    }

    /// The receive and transmit rings were sized; refusals are tolerated, so
    /// this always advances.
    pub fn rings_sized(&mut self)
        requires
            old(self).phase matches SocketSetupPhase::NeedRings { .. },
        ensures
            final(self).config == old(self).config,
            final(self).phase == (SocketSetupPhase::NeedInterfaceIndex {
                fd: old(self).phase->NeedRings_fd,
            }),
    {
        let fd = match self.phase {
            SocketSetupPhase::NeedRings { fd } => fd,
            _ => {
                proof {
                    assert(false);
                }
                0
            },
        };
        self.phase = SocketSetupPhase::NeedInterfaceIndex { fd };
    }

    /// Report interface resolution: an index of zero means the name resolved
    /// to no interface, and the open socket must be closed.
    pub fn interface_resolved(&mut self, ifindex: u32)
        requires
            old(self).phase matches SocketSetupPhase::NeedInterfaceIndex { .. },
        ensures
            final(self).config == old(self).config,
            ({
                let fd = old(self).phase->NeedInterfaceIndex_fd;
                if ifindex == 0 {
                    final(self).phase == (SocketSetupPhase::Failed {
                        error: XdpError::IfNotFound,
                        close_fd: Some(fd),
                    })
                } else {
                    final(self).phase == (SocketSetupPhase::NeedBind { fd, ifindex })
                }
            }),
    {
        let fd = match self.phase {
            SocketSetupPhase::NeedInterfaceIndex { fd } => fd,
            _ => {
                proof {
                    assert(false);
                }
                0
            },
        };
        if ifindex == 0 {
            self.phase = SocketSetupPhase::Failed {
                error: XdpError::IfNotFound,
                close_fd: Some(fd),
            };
        } else {
            self.phase = SocketSetupPhase::NeedBind { fd, ifindex };
        }
    }

    /// Report the bind outcome: on failure the open socket must be closed.
    pub fn bound(&mut self, success: bool, errno: i32)
        requires
            old(self).phase matches SocketSetupPhase::NeedBind { .. },
        ensures
            final(self).config == old(self).config,
            ({
                let fd = old(self).phase->NeedBind_fd;
                if success {
                    final(self).phase == (SocketSetupPhase::Ready { fd })
                } else {
                    final(self).phase == (SocketSetupPhase::Failed {
                        error: XdpError::BindFailed(errno),
                        close_fd: Some(fd),
                    })
                }
            }),
    {
        let fd = match self.phase {
            SocketSetupPhase::NeedBind { fd, .. } => fd,
            _ => {
                proof {
                    assert(false);
                }
                0
            },
        };
        if success {
            self.phase = SocketSetupPhase::Ready { fd };
        } else {
            self.phase = SocketSetupPhase::Failed {
                error: XdpError::BindFailed(errno),
                close_fd: Some(fd),
            };
        }
    }
}

/// The slot a cursor selects in a ring of `ring_size` entries: the low bits
/// of the cursor. With a power-of-two size this is the cursor modulo the
/// size; in every case it stays inside the ring.
pub fn ring_slot_index(cursor: u32, ring_size: u32) -> (idx: u32)
    requires
        ring_size >= 1,
    ensures
        idx == cursor & (ring_size - 1) as u32,
        idx < ring_size,
{
    let mask = ring_size - 1;
    let idx = cursor & mask;
    proof {
        assert(cursor & mask <= mask) by (bit_vector);
    }
    idx
}

/// What one receive poll does with the descriptor found at the cursor's
/// slot: a zero-length descriptor means the ring is currently empty, so
/// nothing is returned and the cursor stays; otherwise the descriptor is
/// taken and the cursor advances by one, wrapping.
pub fn poll_rx_step(desc: XdpRingDescriptor, cursor: u32) -> (r: (Option<XdpRingDescriptor>, u32))
    ensures
        desc.len == 0 ==> r.0 is None && r.1 == cursor,
        desc.len != 0 ==> r.0 == Some(desc) && r.1 == if cursor == u32::MAX {
            0u32
        } else {
            (cursor + 1) as u32
        },
{
    if desc.len == 0 {
        (None, cursor)
    } else {
        (Some(desc), cursor.wrapping_add(1))
    }
}

} // verus!
