use vstd::array::array_as_slice;
use vstd::prelude::*;

use crate::error::{Error, SUCCESS, check_status, error_of, status_result};
use crate::host::{Host, Registry};
use crate::resource::{AcpiResource, RESOURCE_SIZE, decoded};

verus! {

/// The entry points of the interpreter engine. Each one that can fail
/// returns the engine's raw status. The engine may call back into `host`
/// any number of times before it returns.
pub trait Engine<H: Host> {
    fn set_acpi_revision(&mut self, host: &H, revision: i32);

    fn create_namespace(&mut self, host: &H);

    fn enable_acpi(&mut self, host: &H, mode: u32) -> i32;

    fn enter_sleep(&mut self, host: &H, sleep_state: u8) -> i32;

    fn acpi_reset(&mut self, host: &H) -> i32;

    /// Writes the routed resource, in its native layout, into `dest`.
    fn pci_route_pin(
        &mut self,
        host: &H,
        dest: &mut [u8; RESOURCE_SIZE],
        seg: u16,
        bus: u8,
        slot: u8,
        function: u8,
        pin: u8,
    ) -> i32;
}

/// The outcome of a routing query whose raw status is `status` and whose
/// output buffer holds `buf`.
pub open spec fn route_result(status: i32, buf: Seq<u8>) -> Result<AcpiResource, Error> {
    if status == SUCCESS {
        Ok(decoded(buf))
    } else {
        Err(error_of(status))
    }
}

/// A failure that a facade operation reports: the outcome class of some
/// raw status other than the success status.
pub open spec fn is_failure(e: Error) -> bool {
    exists|code: i32| code != SUCCESS && e == error_of(code)
}

/// Selects the ACPI specification revision that the engine follows.
pub fn set_acpi_revision<H: Host, E: Engine<H>>(registry: &Registry<H>, engine: &mut E, revision: i32)
    requires
        registry.is_ready(),
{
    engine.set_acpi_revision(registry.get(), revision);
}

/// Builds the ACPI namespace from the tables that the host finds.
pub fn create_namespace<H: Host, E: Engine<H>>(registry: &Registry<H>, engine: &mut E)
    requires
        registry.is_ready(),
{
    engine.create_namespace(registry.get());
}

/// Switches the hardware into ACPI mode.
pub fn enable_acpi<H: Host, E: Engine<H>>(registry: &Registry<H>, engine: &mut E, mode: u32) -> (r:
    Result<(), Error>)
    requires
        registry.is_ready(),
    ensures
        exists|status: i32| r == status_result(status),
        r matches Err(e) ==> is_failure(e) && e != Error::NoError,
{
    let status = engine.enable_acpi(registry.get(), mode);
    check_status(status)
}

/// Enters the sleep state `sleep_state`.
pub fn enter_sleep<H: Host, E: Engine<H>>(registry: &Registry<H>, engine: &mut E, sleep_state: u8) -> (r:
    Result<(), Error>)
    requires
        registry.is_ready(),
    ensures
        exists|status: i32| r == status_result(status),
        r matches Err(e) ==> is_failure(e) && e != Error::NoError,
{
    let status = engine.enter_sleep(registry.get(), sleep_state);
    check_status(status)
}

/// Resets the platform through the ACPI reset register.
pub fn reset<H: Host, E: Engine<H>>(registry: &Registry<H>, engine: &mut E) -> (r: Result<(), Error>)
    requires
        registry.is_ready(),
    ensures
        exists|status: i32| r == status_result(status),
        r matches Err(e) ==> is_failure(e) && e != Error::NoError,
{
    let status = engine.acpi_reset(registry.get());
    check_status(status)
}

/// Decodes the answer to a routing query: the resource held in `buf` on
/// success, and the outcome class of `status` otherwise.
pub fn route_outcome(status: i32, buf: &[u8]) -> (r: Result<AcpiResource, Error>)
    requires
        buf@.len() == RESOURCE_SIZE,
    ensures
        r == route_result(status, buf@),
{
    match check_status(status) {
        Ok(()) => Ok(AcpiResource::decode(buf)),
        Err(e) => Err(e),
    }
}

/// Asks the engine how interrupt pin `pin` of a PCI function is routed.
pub fn pci_route_pin<H: Host, E: Engine<H>>(
    registry: &Registry<H>,
    engine: &mut E,
    seg: u16,
    bus: u8,
    slot: u8,
    function: u8,
    pin: u8,
) -> (r: Result<AcpiResource, Error>)
    requires
        registry.is_ready(),
    ensures
        exists|status: i32, buf: Seq<u8>| buf.len() == RESOURCE_SIZE && r == route_result(status, buf),
        r matches Err(e) ==> is_failure(e) && e != Error::NoError,
{
    let mut dest: [u8; RESOURCE_SIZE] = [0u8; RESOURCE_SIZE];
    let status = engine.pci_route_pin(registry.get(), &mut dest, seg, bus, slot, function, pin);
    route_outcome(status, array_as_slice(&dest))
}

} // verus!
