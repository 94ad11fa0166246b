//! Machine-state core of an instruction-level IA-32 emulator: a register
//! file with correct sub-register aliasing, an EFLAGS status word with a
//! mnemonic decoder, a linear memory buffer with a sequential loader, an
//! instruction pointer, and a deterministic textual snapshot of the whole
//! state. No execution logic lives here yet; this layer is the ground truth
//! an execution unit will read and mutate.

mod flags;
mod laws;
mod machine;
mod registers;
mod snapshot;

pub use flags::active_mnemonics;
pub use flags::flag_count;
pub use flags::flag_mask;
pub use flags::flag_name;
pub use flags::spec_active;
pub use flags::spec_active_prefix;
pub use laws::lemma_load_appends_in_order;
pub use laws::lemma_write32_then_read32;
pub use laws::lemma_write8_independent;
pub use laws::lemma_write8_preserves_rest;
pub use laws::lemma_write8_then_read8;
pub use machine::Emulator;
pub use machine::MachineView;
pub use machine::spec_read_byte;
pub use machine::spec_write_byte;
pub use registers::Register;
pub use registers::RegisterError;
pub use snapshot::lemma_snapshot_deterministic;
pub use snapshot::spec_hex8;
pub use snapshot::spec_join;
pub use snapshot::spec_snapshot;
