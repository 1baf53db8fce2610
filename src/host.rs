use vstd::prelude::*;

verus! {

/// The capabilities that a kernel supplies so that the interpreter engine
/// can run. Addresses are plain integers; zero stands for a null pointer.
pub trait Host {
    /// The address of the `index`-th table whose 4-character signature is
    /// `signature`, or `None` when there is no such table.
    fn scan(&self, signature: &str, index: usize) -> Option<usize>;

    /// Blocks for `ms` milliseconds.
    fn sleep(&self, ms: u64);

    fn outb(&self, port: u16, value: u8);

    fn outw(&self, port: u16, value: u16);

    fn outd(&self, port: u16, value: u32);

    fn inb(&self, port: u16) -> u8;

    fn inw(&self, port: u16) -> u16;

    fn ind(&self, port: u16) -> u32;

    fn pci_readb(&self, seg: u16, bus: u8, slot: u8, fun: u8, offset: u16) -> u8;

    fn pci_readw(&self, seg: u16, bus: u8, slot: u8, fun: u8, offset: u16) -> u16;

    fn pci_readd(&self, seg: u16, bus: u8, slot: u8, fun: u8, offset: u16) -> u32;

    /// Maps `count` bytes from physical `address` and returns an address
    /// through which the engine can reach them. Mappings are never undone.
    fn map(&self, address: usize, count: usize) -> usize;

    /// Allocates `size` zeroed bytes with 16-byte alignment.
    fn allocate(&self, size: usize) -> usize;

    /// Frees a block; `size` is the size it was allocated or last resized with.
    fn dealloc(&self, ptr: usize, size: usize);

    /// Resizes a block of `old_size` bytes to `new_size` bytes.
    fn realloc(&self, ptr: usize, new_size: usize, old_size: usize) -> usize;
}

/// Holds the one capability implementation of the process. It is written
/// once and read from then on.
pub struct Registry<H> {
    host: Option<H>,
}

impl<H> Registry<H> {
    /// The host that has been installed, if any.
    pub closed spec fn installed(&self) -> Option<H> {
        self.host
    }

    /// A host has been installed, so operations that need one may run.
    pub open spec fn is_ready(&self) -> bool {
        self.installed() is Some
    }

    /// No host has been installed yet, so `init` may install one.
    pub open spec fn accepts_init(&self) -> bool {
        self.installed() is None
    }

    /// An empty registry.
    pub fn new() -> (r: Registry<H>)
        ensures
            r.installed() is None,
    {
        Registry { host: None }
    }

    /// Whether a host has been installed.
    pub fn is_initialized(&self) -> (r: bool)
        ensures
            r == self.is_ready(),
    {
        self.host.is_some()
    }

    /// The installed host.
    pub fn get(&self) -> (r: &H)
        requires
            self.is_ready(),
        ensures
            Some(*r) == self.installed(),
    {
        match &self.host {
            Some(h) => h,
            None => {
                unreached()
            },
        }
    }
}

/// Installs the process's capability implementation. Installing a second one
/// is a programmer error that callers rule out.
pub fn init<H>(registry: &mut Registry<H>, host: H)
    requires
        old(registry).accepts_init(),
    ensures
        final(registry).installed() == Some(host),
{
    registry.host = Some(host);
}

/// Installation is one-shot: after `init` has installed a host, the registry
/// no longer accepts `init`, whatever host would be offered.
pub proof fn lemma_second_init_refused<H>(registry: Registry<H>, first: H)
    requires
        registry.installed() == Some(first),
    ensures
        !registry.accepts_init(),
{
}

/// Before any `init`, a registry is not ready, so no operation that needs
/// the host may run.
pub proof fn lemma_uninitialized_not_ready<H>(registry: Registry<H>)
    requires
        registry.accepts_init(),
    ensures
        !registry.is_ready(),
{
}

} // verus!
