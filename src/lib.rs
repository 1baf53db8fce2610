//! Host abstraction layer around an ACPI bytecode interpreter engine: the
//! capabilities a kernel supplies, the one-shot registry that holds them, the
//! typed error model over the engine's raw statuses, the facade over the
//! engine's entry points, and the decoder for the resources it returns.
mod callbacks;
mod error;
mod facade;
mod host;
mod marshal;
mod resource;

pub use callbacks::{
    host_free, host_inb, host_ind, host_inw, host_malloc, host_map, host_outb, host_outd, host_outw,
    host_pci_readb, host_pci_readd, host_pci_readw, host_realloc, host_scan, host_sleep,
};
pub use error::{
    Error, SUCCESS, check_status, error_of, is_documented_status,
    lemma_status_mapping_total_and_unambiguous, status_of, status_result,
};
pub use facade::{
    Engine, create_namespace, enable_acpi, enter_sleep, is_failure, pci_route_pin, reset,
    route_outcome, route_result, set_acpi_revision,
};
pub use host::{Host, Registry, init, lemma_second_init_refused, lemma_uninitialized_not_ready};
pub use marshal::{
    DEBUG_LOG, LogLevel, WARN_LOG, c_str_bytes, c_strlen, is_first_nul, is_terminated,
    lemma_first_nul_unique, log_level, log_level_of,
};
pub use resource::{AcpiResource, RESOURCE_SIZE, decoded, encoded, lemma_decode_encode, u64_at};
