use std::cell::Cell;

use lai::{
    AcpiResource, Engine, Error, Host, Registry, create_namespace, enable_acpi, enter_sleep, init,
    pci_route_pin, reset, route_outcome, set_acpi_revision,
};

struct QuietHost;

impl Host for QuietHost {
    fn scan(&self, _signature: &str, _index: usize) -> Option<usize> {
        None
    }
    fn sleep(&self, _ms: u64) {}
    fn outb(&self, _port: u16, _value: u8) {}
    fn outw(&self, _port: u16, _value: u16) {}
    fn outd(&self, _port: u16, _value: u32) {}
    fn inb(&self, _port: u16) -> u8 {
        0
    }
    fn inw(&self, _port: u16) -> u16 {
        0
    }
    fn ind(&self, _port: u16) -> u32 {
        0
    }
    fn pci_readb(&self, _seg: u16, _bus: u8, _slot: u8, _fun: u8, _offset: u16) -> u8 {
        0
    }
    fn pci_readw(&self, _seg: u16, _bus: u8, _slot: u8, _fun: u8, _offset: u16) -> u16 {
        0
    }
    fn pci_readd(&self, _seg: u16, _bus: u8, _slot: u8, _fun: u8, _offset: u16) -> u32 {
        0
    }
    fn map(&self, address: usize, _count: usize) -> usize {
        address
    }
    fn allocate(&self, _size: usize) -> usize {
        0
    }
    fn dealloc(&self, _ptr: usize, _size: usize) {}
    fn realloc(&self, _ptr: usize, _new_size: usize, _old_size: usize) -> usize {
        0
    }
}

/// An engine that answers every fallible entry point with `status` and,
/// on a routing query, writes `resource` in its native layout.
struct MockEngine {
    status: i32,
    resource: AcpiResource,
    revision: Option<i32>,
    namespace_built: bool,
    last_mode: Option<u32>,
    last_sleep: Option<u8>,
    resets: Cell<u32>,
    last_route: Option<(u16, u8, u8, u8, u8)>,
}

impl MockEngine {
    fn answering(status: i32) -> MockEngine {
        MockEngine {
            status,
            resource: AcpiResource {
                ty: 0,
                base: 0,
                length: 0,
                address_space: 0,
                bit_width: 0,
                bit_offset: 0,
                irq_flags: 0,
            },
            revision: None,
            namespace_built: false,
            last_mode: None,
            last_sleep: None,
            resets: Cell::new(0),
            last_route: None,
        }
    }
}

impl Engine<QuietHost> for MockEngine {
    fn set_acpi_revision(&mut self, _host: &QuietHost, revision: i32) {
        self.revision = Some(revision);
    }
    fn create_namespace(&mut self, _host: &QuietHost) {
        self.namespace_built = true;
    }
    fn enable_acpi(&mut self, _host: &QuietHost, mode: u32) -> i32 {
        self.last_mode = Some(mode);
        self.status
    }
    fn enter_sleep(&mut self, _host: &QuietHost, sleep_state: u8) -> i32 {
        self.last_sleep = Some(sleep_state);
        self.status
    }
    fn acpi_reset(&mut self, _host: &QuietHost) -> i32 {
        self.resets.set(self.resets.get() + 1);
        self.status
    }
    fn pci_route_pin(
        &mut self,
        _host: &QuietHost,
        dest: &mut [u8; 32],
        seg: u16,
        bus: u8,
        slot: u8,
        function: u8,
        pin: u8,
    ) -> i32 {
        self.last_route = Some((seg, bus, slot, function, pin));
        if self.status == 0 {
            dest.copy_from_slice(&self.resource.encode());
        }
        self.status
    }
}

fn ready_registry() -> Registry<QuietHost> {
    let mut registry = Registry::new();
    assert!(!registry.is_initialized());
    init(&mut registry, QuietHost);
    assert!(registry.is_initialized());
    registry
}

#[test]
fn revision_then_namespace_succeed() {
    let registry = ready_registry();
    let mut engine = MockEngine::answering(0);
    set_acpi_revision(&registry, &mut engine, 2);
    create_namespace(&registry, &mut engine);
    assert_eq!(engine.revision, Some(2));
    assert!(engine.namespace_built);
}

#[test]
fn enable_acpi_success_gives_no_error() {
    let registry = ready_registry();
    let mut engine = MockEngine::answering(0);
    assert_eq!(enable_acpi(&registry, &mut engine, 1), Ok(()));
    assert_eq!(engine.last_mode, Some(1));
}

#[test]
fn enable_acpi_illegal_arguments() {
    let registry = ready_registry();
    let mut engine = MockEngine::answering(6);
    assert_eq!(enable_acpi(&registry, &mut engine, 1), Err(Error::IllegalArguments));
}

#[test]
fn enable_acpi_unknown_status_is_unexpected_result() {
    let registry = ready_registry();
    let mut engine = MockEngine::answering(-4);
    assert_eq!(enable_acpi(&registry, &mut engine, 1), Err(Error::UnexpectedResult));
}

#[test]
fn enter_sleep_passes_state_and_translates_status() {
    let registry = ready_registry();
    let mut engine = MockEngine::answering(0);
    assert_eq!(enter_sleep(&registry, &mut engine, 5), Ok(()));
    assert_eq!(engine.last_sleep, Some(5));
    let mut failing = MockEngine::answering(9);
    assert_eq!(enter_sleep(&registry, &mut failing, 3), Err(Error::NotSupported));
}

#[test]
fn reset_translates_status() {
    let registry = ready_registry();
    let mut engine = MockEngine::answering(0);
    assert_eq!(reset(&registry, &mut engine), Ok(()));
    assert_eq!(engine.resets.get(), 1);
    let mut failing = MockEngine::answering(5);
    assert_eq!(reset(&registry, &mut failing), Err(Error::ExecutionFailure));
}

#[test]
fn pci_route_pin_returns_descriptor_unchanged() {
    let registry = ready_registry();
    let mut engine = MockEngine::answering(0);
    let expected = AcpiResource {
        ty: 1,
        base: 9,
        length: 0,
        address_space: 3,
        bit_width: 0,
        bit_offset: 0,
        irq_flags: 0,
    };
    engine.resource = expected;
    let got = pci_route_pin(&registry, &mut engine, 0, 0, 2, 0, 0);
    assert_eq!(got, Ok(expected));
    assert_eq!(engine.last_route, Some((0, 0, 2, 0, 0)));
}

#[test]
fn pci_route_pin_no_such_node() {
    let registry = ready_registry();
    let mut engine = MockEngine::answering(3);
    assert_eq!(pci_route_pin(&registry, &mut engine, 0, 0, 2, 0, 0), Err(Error::NoSuchNode));
}

#[test]
fn route_outcome_decodes_on_success_only() {
    let resource = AcpiResource {
        ty: 4,
        base: 0x1122_3344_5566_7788,
        length: 16,
        address_space: 1,
        bit_width: 8,
        bit_offset: 2,
        irq_flags: 0x19,
    };
    let bytes = resource.encode();
    assert_eq!(route_outcome(0, &bytes), Ok(resource));
    assert_eq!(route_outcome(1, &bytes), Err(Error::OutOfMemory));
    assert_eq!(route_outcome(100, &bytes), Err(Error::UnexpectedResult));
}
