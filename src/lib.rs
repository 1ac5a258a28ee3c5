//! Classification, sealing and masking of audit records.
//!
//! Floating-point measurements are carried as their raw IEEE-754 binary64
//! bit patterns; comparisons on them follow the IEEE-754 ordering.
pub mod float_bits;
pub mod record;
pub mod hex;
pub mod seal;
pub mod obfuscation;
pub mod report;

pub use hex::{hex_encode, parse_hex_u64};
pub use obfuscation::{recover_bits, secure_obfuscation, OBFUSCATION_MASK};
pub use record::{AuditTarget, SecurityStatus};
pub use report::{audit_report, report_line};
pub use seal::{generate_quantum_seal, seal_message};
