//! The audit record, its status classifier and its erasure.
use crate::float_bits::{bits_gt, bits_lt, float_gt, float_lt, is_nan};
use vstd::prelude::*;
use zeroize::Zeroize;

verus! {

/// Bit pattern of the binary64 value 1000.0.
pub const CRITICAL_THREAT_BITS: u64 = 0x408F_4000_0000_0000;

/// Bit pattern of the binary64 value 100.0.
pub const LOW_ENTROPY_BITS: u64 = 0x4059_0000_0000_0000;

/// Bit pattern of the binary64 value 500.0.
pub const WARNING_THREAT_BITS: u64 = 0x407F_4000_0000_0000;

/// One audited target. The two measurements are binary64 values held as
/// their raw bit patterns (`f64::to_bits`).
pub struct AuditTarget {
    pub id: u32,
    pub entropy_source: u64,
    pub threat_vector: u64,
}

/// The three outcomes of the classifier.
#[derive(PartialEq, Eq, Structural, Clone, Copy, Debug)]
pub enum SecurityStatus {
    Critical,
    Warning,
    Verified,
}

/// The classification rule, first match wins.
pub open spec fn status_of(entropy_source: u64, threat_vector: u64) -> SecurityStatus {
    if float_gt(threat_vector, CRITICAL_THREAT_BITS) && float_lt(entropy_source, LOW_ENTROPY_BITS) {
        SecurityStatus::Critical
    } else if float_gt(threat_vector, WARNING_THREAT_BITS) {
        SecurityStatus::Warning
    } else {
        SecurityStatus::Verified
    }
}

/// The label text of each outcome.
pub open spec fn label_text(s: SecurityStatus) -> Seq<char> {
    match s {
        SecurityStatus::Critical => "CRITICAL: SECURITY BREACH DETECTED"@,
        SecurityStatus::Warning => "WARNING: HIGH RISK ANOMALY"@,
        SecurityStatus::Verified => "VERIFIED: PROTOCOL COMPLIANT"@,
    }
}

impl SecurityStatus {
    /// The fixed label of this outcome.
    pub fn label(&self) -> (r: &'static str)
        ensures
            r@ == label_text(*self),
    {
        match self {
            SecurityStatus::Critical => "CRITICAL: SECURITY BREACH DETECTED",
            SecurityStatus::Warning => "WARNING: HIGH RISK ANOMALY",
            SecurityStatus::Verified => "VERIFIED: PROTOCOL COMPLIANT",
        }
    }
}

/// Relies on zeroize's `Zeroize` impl for `u32`: a volatile write of zero.
#[verifier::external_body]
fn zeroize_u32(x: &mut u32)
    ensures
        *final(x) == 0,
{
    x.zeroize();
}

/// Relies on zeroize's `Zeroize` impl for `u64`: a volatile write of zero.
#[verifier::external_body]
fn zeroize_u64(x: &mut u64)
    ensures
        *final(x) == 0,
{
    x.zeroize();
}

impl AuditTarget {
    /// A record from an identifier and the bit patterns of its two measurements.
    pub fn new(id: u32, entropy_source: u64, threat_vector: u64) -> (r: AuditTarget)
        ensures
            r.id == id,
            r.entropy_source == entropy_source,
            r.threat_vector == threat_vector,
    {
        AuditTarget { id, entropy_source, threat_vector }
    }

    /// Classifies the record by its two measurements.
    pub fn classify(&self) -> (r: SecurityStatus)
        ensures
            r == status_of(self.entropy_source, self.threat_vector),
    {
        if bits_gt(self.threat_vector, CRITICAL_THREAT_BITS) && bits_lt(
            self.entropy_source,
            LOW_ENTROPY_BITS,
        ) {
            SecurityStatus::Critical
        } else if bits_gt(self.threat_vector, WARNING_THREAT_BITS) {
            SecurityStatus::Warning
        } else {
            SecurityStatus::Verified
        }
    }

    /// The label of the record's classification.
    pub fn get_security_status(&self) -> (r: &'static str)
        ensures
            r@ == label_text(status_of(self.entropy_source, self.threat_vector)),
    {
        self.classify().label()
    }

    /// Overwrites every field with zero. Holders call it at the end of the
    /// record's scope, so that no reading outlives its use.
    pub fn wipe(&mut self)
        ensures
            final(self).id == 0,
            final(self).entropy_source == 0,
            final(self).threat_vector == 0,
    {
        zeroize_u32(&mut self.id);
        zeroize_u64(&mut self.entropy_source);
        zeroize_u64(&mut self.threat_vector);
    }
}

/// Every record receives exactly one of the three distinct labels, chosen by
/// the first rule that matches; a NaN threat reading is never flagged.
pub proof fn lemma_exactly_one_label(entropy_source: u64, threat_vector: u64)
    ensures
        ({
            let l = label_text(status_of(entropy_source, threat_vector));
            l == "CRITICAL: SECURITY BREACH DETECTED"@ || l == "WARNING: HIGH RISK ANOMALY"@ || l
                == "VERIFIED: PROTOCOL COMPLIANT"@
        }),
        "CRITICAL: SECURITY BREACH DETECTED"@ != "WARNING: HIGH RISK ANOMALY"@,
        "CRITICAL: SECURITY BREACH DETECTED"@ != "VERIFIED: PROTOCOL COMPLIANT"@,
        "WARNING: HIGH RISK ANOMALY"@ != "VERIFIED: PROTOCOL COMPLIANT"@,
        (status_of(entropy_source, threat_vector) == SecurityStatus::Critical) <==> (float_gt(
            threat_vector,
            CRITICAL_THREAT_BITS,
        ) && float_lt(entropy_source, LOW_ENTROPY_BITS)),
        (status_of(entropy_source, threat_vector) == SecurityStatus::Warning) <==> (!(float_gt(
            threat_vector,
            CRITICAL_THREAT_BITS,
        ) && float_lt(entropy_source, LOW_ENTROPY_BITS)) && float_gt(
            threat_vector,
            WARNING_THREAT_BITS,
        )),
        is_nan(threat_vector) ==> status_of(entropy_source, threat_vector)
            == SecurityStatus::Verified,
{
    reveal_strlit("CRITICAL: SECURITY BREACH DETECTED");
    reveal_strlit("WARNING: HIGH RISK ANOMALY");
    reveal_strlit("VERIFIED: PROTOCOL COMPLIANT");
    assert("CRITICAL: SECURITY BREACH DETECTED"@[0] != "WARNING: HIGH RISK ANOMALY"@[0]);
    assert("CRITICAL: SECURITY BREACH DETECTED"@[0] != "VERIFIED: PROTOCOL COMPLIANT"@[0]);
    assert("WARNING: HIGH RISK ANOMALY"@[0] != "VERIFIED: PROTOCOL COMPLIANT"@[0]);
}

} // verus!
