//! One report line per record.
use crate::hex::{hex_digits, push_hex_digits};
use crate::obfuscation::{obfuscated_text, secure_obfuscation};
use crate::record::{label_text, status_of, AuditTarget};
use crate::seal::{generate_quantum_seal, seal_text};
use vstd::prelude::*;

verus! {

/// `[label] ID: 0xID | Vector: 0x... | Seal: ` and the first 16 seal digits;
/// the identifier is in uppercase hex.
pub open spec fn report_text(t: &AuditTarget, ts: i64) -> Seq<char> {
    "["@ + label_text(status_of(t.entropy_source, t.threat_vector)) + "] ID: 0x"@ + hex_digits(
        t.id as nat,
        true,
    ) + " | Vector: "@ + obfuscated_text(t.threat_vector) + " | Seal: "@ + seal_text(
        t,
        ts,
    ).subrange(0, 16)
}

/// The report line of one record at a timestamp.
pub fn report_line(target: &AuditTarget, ts: i64) -> (r: String)
    ensures
        r@ == report_text(target, ts),
{
    let seal = generate_quantum_seal(target, ts);
    let masked = secure_obfuscation(target.threat_vector);
    let mut r = String::new();
    r.append("[");
    r.append(target.get_security_status());
    r.append("] ID: 0x");
    push_hex_digits(&mut r, target.id as u64, true);
    r.append(" | Vector: ");
    r.append(masked.as_str());
    r.append(" | Seal: ");
    r.append(seal.as_str().substring_char(0, 16));
    assert(r@ =~= report_text(target, ts));
    r
}

/// The report lines of a sequence of records, in the same order.
pub fn audit_report(targets: &[AuditTarget], ts: i64) -> (r: Vec<String>)
    ensures
        r@.len() == targets@.len(),
        forall|i: int| 0 <= i < targets@.len() ==> (#[trigger] r@[i])@ == report_text(&targets@[i], ts),
{
    let mut r: Vec<String> = Vec::new();
    let mut i: usize = 0;
    while i < targets.len()
        invariant
            i <= targets@.len(),
            r@.len() == i,
            forall|k: int| 0 <= k < i ==> (#[trigger] r@[k])@ == report_text(&targets@[k], ts),
        decreases targets@.len() - i,
    {
        r.push(report_line(&targets[i], ts));
        i = i + 1;
    }
    r
}

} // verus!
