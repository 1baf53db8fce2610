use vstd::prelude::*;

use crate::host::{Host, Registry};

verus! {

// The engine's callbacks, forwarded to the installed host. Each needs a host,
// so each requires that one has been installed.

pub fn host_scan<H: Host>(registry: &Registry<H>, signature: &str, index: usize) -> Option<usize>
    requires
        registry.is_ready(),
{
    registry.get().scan(signature, index)
}

pub fn host_sleep<H: Host>(registry: &Registry<H>, ms: u64)
    requires
        registry.is_ready(),
{
    registry.get().sleep(ms)
}

pub fn host_outb<H: Host>(registry: &Registry<H>, port: u16, value: u8)
    requires
        registry.is_ready(),
{
    registry.get().outb(port, value)
}

pub fn host_outw<H: Host>(registry: &Registry<H>, port: u16, value: u16)
    requires
        registry.is_ready(),
{
    registry.get().outw(port, value)
}

pub fn host_outd<H: Host>(registry: &Registry<H>, port: u16, value: u32)
    requires
        registry.is_ready(),
{
    registry.get().outd(port, value)
}

pub fn host_inb<H: Host>(registry: &Registry<H>, port: u16) -> u8
    requires
        registry.is_ready(),
{
    registry.get().inb(port)
}

pub fn host_inw<H: Host>(registry: &Registry<H>, port: u16) -> u16
    requires
        registry.is_ready(),
{
    registry.get().inw(port)
}

pub fn host_ind<H: Host>(registry: &Registry<H>, port: u16) -> u32
    requires
        registry.is_ready(),
{
    registry.get().ind(port)
}

pub fn host_pci_readb<H: Host>(
    registry: &Registry<H>,
    seg: u16,
    bus: u8,
    slot: u8,
    fun: u8,
    offset: u16,
) -> u8
    requires
        registry.is_ready(),
{
    registry.get().pci_readb(seg, bus, slot, fun, offset)
}

pub fn host_pci_readw<H: Host>(
    registry: &Registry<H>,
    seg: u16,
    bus: u8,
    slot: u8,
    fun: u8,
    offset: u16,
) -> u16
    requires
        registry.is_ready(),
{
    registry.get().pci_readw(seg, bus, slot, fun, offset)
}

pub fn host_pci_readd<H: Host>(
    registry: &Registry<H>,
    seg: u16,
    bus: u8,
    slot: u8,
    fun: u8,
    offset: u16,
) -> u32
    requires
        registry.is_ready(),
{
    registry.get().pci_readd(seg, bus, slot, fun, offset)
}

pub fn host_map<H: Host>(registry: &Registry<H>, address: usize, count: usize) -> usize
    requires
        registry.is_ready(),
{
    registry.get().map(address, count)
}

pub fn host_malloc<H: Host>(registry: &Registry<H>, size: usize) -> usize
    requires
        registry.is_ready(),
{
    registry.get().allocate(size)
}

pub fn host_free<H: Host>(registry: &Registry<H>, ptr: usize, size: usize)
    requires
        registry.is_ready(),
{
    registry.get().dealloc(ptr, size)
}

pub fn host_realloc<H: Host>(registry: &Registry<H>, ptr: usize, new_size: usize, old_size: usize) -> usize
    requires
        registry.is_ready(),
{
    registry.get().realloc(ptr, new_size, old_size)
}

} // verus!
