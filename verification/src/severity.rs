//! Severity handling for the diagnostics sink: translating the process-wide
//! maximum logging severity into the native API's four-level severity mask,
//! and decoding the native severity values that the sink's callback receives.

use vstd::prelude::*;

verus! {

/// The process-wide maximum logging severity, from silent to most verbose.
#[derive(Clone, Copy, Debug, PartialEq, Eq, Structural)]
pub enum SeverityFilter {
    Off,
    Error,
    Warn,
    Info,
    Debug,
    Trace,
}

/// The four diagnostic severities the native API defines, least severe first.
#[derive(Clone, Copy, Debug, PartialEq, Eq, Structural)]
pub enum Severity {
    Verbose,
    Info,
    Warning,
    Error,
}

/// The four-level severity mask handed to the diagnostics sink, one flag per
/// native severity.
#[derive(Clone, Copy, Debug, PartialEq, Eq, Structural)]
pub struct SeverityMask {
    pub verbose: bool,
    pub info: bool,
    pub warning: bool,
    pub error: bool,
}

/// How verbose a filter is: a higher rank admits every message a lower one does.
pub open spec fn filter_rank(filter: SeverityFilter) -> int {
    match filter {
        SeverityFilter::Off => 0,
        SeverityFilter::Error => 1,
        SeverityFilter::Warn => 2,
        SeverityFilter::Info => 3,
        SeverityFilter::Debug => 4,
        SeverityFilter::Trace => 5,
    }
}

/// How severe a native diagnostic is: higher is more severe.
pub open spec fn severity_rank(severity: Severity) -> int {
    match severity {
        Severity::Verbose => 0,
        Severity::Info => 1,
        Severity::Warning => 2,
        Severity::Error => 3,
    }
}

/// The least filter rank at which a native severity is enabled. Verbose
/// diagnostics are enabled only at the most verbose filter, so the rank just
/// below it enables nothing beyond informational diagnostics.
pub open spec fn severity_threshold(severity: Severity) -> int {
    match severity {
        Severity::Error => 1,
        Severity::Warning => 2,
        Severity::Info => 3,
        Severity::Verbose => 5,
    }
}

/// Whether a mask lets a diagnostic of the given severity through.
pub open spec fn mask_allows(mask: SeverityMask, severity: Severity) -> bool {
    match severity {
        Severity::Verbose => mask.verbose,
        Severity::Info => mask.info,
        Severity::Warning => mask.warning,
        Severity::Error => mask.error,
    }
}

/// The mask a filter configures: each severity flag is set exactly when the
/// filter's rank reaches that severity's threshold.
pub open spec fn spec_mask(filter: SeverityFilter) -> SeverityMask {
    SeverityMask {
        verbose: filter_rank(filter) >= severity_threshold(Severity::Verbose),
        info: filter_rank(filter) >= severity_threshold(Severity::Info),
        warning: filter_rank(filter) >= severity_threshold(Severity::Warning),
        error: filter_rank(filter) >= severity_threshold(Severity::Error),
    }
}

/// Translate the configured maximum logging severity into the four-level
/// severity mask for the diagnostics sink.
pub fn severity_mask(filter: SeverityFilter) -> (mask: SeverityMask)
    ensures
        mask == spec_mask(filter),
        forall|s: Severity| mask_allows(mask, s) <==> filter_rank(filter) >= severity_threshold(s),
{
    let rank: u32 = match filter {
        SeverityFilter::Off => 0,
        SeverityFilter::Error => 1,
        SeverityFilter::Warn => 2,
        SeverityFilter::Info => 3,
        SeverityFilter::Debug => 4,
        SeverityFilter::Trace => 5,
    };
    let mask = SeverityMask {
        verbose: rank >= 5,
        info: rank >= 3,
        warning: rank >= 2,
        error: rank >= 1,
    };
    proof {
        assert(forall|s: Severity|
            mask_allows(mask, s) <==> filter_rank(filter) >= severity_threshold(s)) by {
            assert(mask_allows(mask, Severity::Verbose) <==> filter_rank(filter)
                >= severity_threshold(Severity::Verbose));
            assert(mask_allows(mask, Severity::Info) <==> filter_rank(filter)
                >= severity_threshold(Severity::Info));
            assert(mask_allows(mask, Severity::Warning) <==> filter_rank(filter)
                >= severity_threshold(Severity::Warning));
            assert(mask_allows(mask, Severity::Error) <==> filter_rank(filter)
                >= severity_threshold(Severity::Error));
        }
    }
    mask
}

/// Monotonicity of the configured mask: whenever it permits some severity,
/// it permits every more severe one too, and whenever it excludes some
/// severity, it excludes every less severe one.
pub proof fn lemma_mask_monotonic(filter: SeverityFilter, weaker: Severity, stronger: Severity)
    requires
        severity_rank(weaker) <= severity_rank(stronger),
    ensures
        mask_allows(spec_mask(filter), weaker) ==> mask_allows(spec_mask(filter), stronger),
        !mask_allows(spec_mask(filter), stronger) ==> !mask_allows(spec_mask(filter), weaker),
{
}

/// The configured mask is exact: a severity is permitted if and only if the
/// filter's rank reaches its threshold.
pub proof fn lemma_mask_exact(filter: SeverityFilter, severity: Severity)
    ensures
        mask_allows(spec_mask(filter), severity) <==> filter_rank(filter) >= severity_threshold(
            severity,
        ),
{
}

/// The native encoding of a severity flag: verbose 0x1, info 0x10,
/// warning 0x100, error 0x1000.
pub open spec fn severity_bit(severity: Severity) -> u32 {
    match severity {
        Severity::Verbose => 0x1,
        Severity::Info => 0x10,
        Severity::Warning => 0x100,
        Severity::Error => 0x1000,
    }
}

/// Encode one severity in the native API's bit layout.
pub fn severity_bits(severity: Severity) -> (bits: u32)
    ensures
        bits == severity_bit(severity),
{
    match severity {
        Severity::Verbose => 0x1,
        Severity::Info => 0x10,
        Severity::Warning => 0x100,
        Severity::Error => 0x1000,
    }
}

/// The native encoding of a whole mask: the sum of the flag bits that are set.
pub open spec fn spec_mask_bits(mask: SeverityMask) -> u32 {
    ((if mask.verbose {
        0x1u32
    } else {
        0u32
    }) + (if mask.info {
        0x10u32
    } else {
        0u32
    }) + (if mask.warning {
        0x100u32
    } else {
        0u32
    }) + (if mask.error {
        0x1000u32
    } else {
        0u32
    })) as u32
}

/// Encode a mask in the native API's bit layout.
pub fn mask_bits(mask: &SeverityMask) -> (bits: u32)
    ensures
        bits == spec_mask_bits(*mask),
{
    let mut bits: u32 = 0;
    if mask.verbose {
        bits = bits + 0x1;
    }
    if mask.info {
        bits = bits + 0x10;
    }
    if mask.warning {
        bits = bits + 0x100;
    }
    if mask.error {
        bits = bits + 0x1000;
    }
    bits
}

/// Which severity a native severity value denotes: exactly the four defined
/// flag bits decode, anything else is undefined.
pub open spec fn spec_severity_from_bits(bits: u32) -> Option<Severity> {
    if bits == severity_bit(Severity::Verbose) {
        Some(Severity::Verbose)
    } else if bits == severity_bit(Severity::Info) {
        Some(Severity::Info)
    } else if bits == severity_bit(Severity::Warning) {
        Some(Severity::Warning)
    } else if bits == severity_bit(Severity::Error) {
        Some(Severity::Error)
    } else {
        None
    }
}

/// Decode a native severity value. `None` marks a value outside the four
/// defined levels: a contract violation by the native API, which the caller
/// must treat as fatal rather than silently drop.
pub fn severity_from_bits(bits: u32) -> (severity: Option<Severity>)
    ensures
        severity == spec_severity_from_bits(bits),
{
    if bits == 0x1 {
        Some(Severity::Verbose)
    } else if bits == 0x10 {
        Some(Severity::Info)
    } else if bits == 0x100 {
        Some(Severity::Warning)
    } else if bits == 0x1000 {
        Some(Severity::Error)
    } else {
        None
    }
}

} // verus!
