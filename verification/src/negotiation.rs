//! Capability negotiation: the required extension and layer sets, the
//! subtraction of what the platform reports from what is required, and the
//! one-shot negotiation that yields either a ready-to-use instance
//! configuration or a failure with the missing names to log.

use crate::render_context::{decide_outcome, spec_outcome, RenderContextError};
use vstd::prelude::*;

verus! {

/// The diagnostics extension that every negotiation requires besides the
/// platform's surface extensions.
pub open spec fn debug_utils_extension() -> Seq<char> {
    "VK_EXT_debug_utils"@
}

/// The diagnostics extension's name as a value.
pub fn debug_utils_extension_name() -> (name: String)
    ensures
        name@ == debug_utils_extension(),
{
    String::from_str("VK_EXT_debug_utils")
}

/// The single validation layer that every negotiation requires.
pub open spec fn validation_layer() -> Seq<char> {
    "VK_LAYER_KHRONOS_validation"@
}

/// The validation layer's name as a value.
pub fn validation_layer_name() -> (name: String)
    ensures
        name@ == validation_layer(),
{
    String::from_str("VK_LAYER_KHRONOS_validation")
}

/// The required extension set: the platform's surface extensions, in the
/// order the platform enumerated them, followed by the diagnostics extension.
pub open spec fn spec_required_extensions(platform: Seq<Seq<char>>) -> Seq<Seq<char>> {
    platform.push(debug_utils_extension())
}

/// Compute the required extension set from the platform's surface extensions.
pub fn required_extensions(platform_extensions: Vec<String>) -> (required: Vec<String>)
    ensures
        required.deep_view() == spec_required_extensions(platform_extensions.deep_view()),
{
    let ghost platform = platform_extensions.deep_view();
    let mut required = platform_extensions;
    required.push(debug_utils_extension_name());
    proof {
        assert(required.deep_view() =~= platform.push(debug_utils_extension()));
    }
    required
}

/// The required layer set: exactly the validation layer.
pub fn required_layers() -> (required: Vec<String>)
    ensures
        required.deep_view() == seq![validation_layer()],
{
    let mut required: Vec<String> = Vec::new();
    required.push(validation_layer_name());
    proof {
        assert(required.deep_view() =~= seq![validation_layer()]);
    }
    required
}

/// Exact, case-sensitive membership of a name in a set of names.
pub fn contains_name(names: &Vec<String>, name: &String) -> (found: bool)
    ensures
        found == names.deep_view().contains(name@),
{
    let mut j: usize = 0;
    while j < names.len()
        invariant
            j <= names.len(),
            forall|k: int| 0 <= k < j ==> names.deep_view()[k] != name@,
        decreases names.len() - j,
    {
        if names[j] == *name {
            assert(names.deep_view()[j as int] == name@);
            return true;
        }
        j = j + 1;
    }
    assert(forall|k: int| 0 <= k < names.deep_view().len() ==> names.deep_view()[k] != name@);
    false
}

/// The names in `required` that have no exact match in `available`, in the
/// order of `required`: the subtraction Required \ Available.
pub open spec fn missing_of(required: Seq<Seq<char>>, available: Seq<Seq<char>>) -> Seq<Seq<char>>
    decreases required.len(),
{
    if required.len() == 0 {
        Seq::empty()
    } else {
        let prefix = missing_of(required.drop_last(), available);
        if available.contains(required.last()) {
            prefix
        } else {
            prefix.push(required.last())
        }
    }
}

/// Collect the required names that the available set is missing, in the order
/// the required set enumerates them.
pub fn missing_names(required: &Vec<String>, available: &Vec<String>) -> (missing: Vec<String>)
    ensures
        missing.deep_view() == missing_of(required.deep_view(), available.deep_view()),
{
    let mut missing: Vec<String> = Vec::new();
    let mut i: usize = 0;
    while i < required.len()
        invariant
            i <= required.len(),
            missing.deep_view() == missing_of(
                required.deep_view().take(i as int),
                available.deep_view(),
            ),
        decreases required.len() - i,
    {
        let found = contains_name(available, &required[i]);
        proof {
            assert(required.deep_view().take(i + 1).drop_last() =~= required.deep_view().take(
                i as int,
            ));
            assert(required.deep_view().take(i + 1).last() == required.deep_view()[i as int]);
        }
        if !found {
            missing.push(required[i].clone());
            proof {
                assert(missing.deep_view() =~= missing_of(
                    required.deep_view().take(i as int),
                    available.deep_view(),
                ).push(required.deep_view()[i as int]));
            }
        }
        i = i + 1;
    }
    proof {
        assert(required.deep_view().take(required.deep_view().len() as int) =~= required.deep_view());
    }
    missing
}

/// Nothing is missing exactly when every required name is available: a
/// missing-capability failure is reported if and only if the required set is
/// not contained in the available set.
pub proof fn lemma_missing_empty_iff_subset(required: Seq<Seq<char>>, available: Seq<Seq<char>>)
    ensures
        missing_of(required, available).len() == 0 <==> (forall|i: int|
            0 <= i < required.len() ==> available.contains(#[trigger] required[i])),
    decreases required.len(),
{
    if required.len() == 0 {
    } else {
        lemma_missing_empty_iff_subset(required.drop_last(), available);
        assert(forall|i: int|
            0 <= i < required.len() - 1 ==> #[trigger] required[i] == required.drop_last()[i]);
        assert(required.last() == required[required.len() - 1]);
    }
}

/// A name stands in the missing set exactly when it is required and not
/// available.
pub proof fn lemma_missing_contains(
    required: Seq<Seq<char>>,
    available: Seq<Seq<char>>,
    name: Seq<char>,
)
    ensures
        missing_of(required, available).contains(name) <==> required.contains(name)
            && !available.contains(name),
    decreases required.len(),
{
    if required.len() == 0 {
    } else {
        lemma_missing_contains(required.drop_last(), available, name);
        assert(required.contains(name) <==> required.drop_last().contains(name) || required.last()
            == name) by {
            if required.contains(name) {
                let i = choose|i: int| 0 <= i < required.len() && required[i] == name;
                if i < required.len() - 1 {
                    assert(required.drop_last()[i] == name);
                }
            }
            if required.drop_last().contains(name) {
                let i = choose|i: int|
                    0 <= i < required.drop_last().len() && required.drop_last()[i] == name;
                assert(required[i] == name);
            }
        }
        let prefix = missing_of(required.drop_last(), available);
        if !available.contains(required.last()) {
            assert(prefix.push(required.last()).contains(name) <==> prefix.contains(name)
                || required.last() == name) by {
                if prefix.push(required.last()).contains(name) {
                    let i = choose|i: int|
                        0 <= i < prefix.push(required.last()).len() && prefix.push(
                            required.last(),
                        )[i] == name;
                    if i < prefix.len() {
                        assert(prefix[i] == name);
                    }
                }
                if prefix.contains(name) {
                    let i = choose|i: int| 0 <= i < prefix.len() && prefix[i] == name;
                    assert(prefix.push(required.last())[i] == name);
                }
                if required.last() == name {
                    assert(prefix.push(required.last())[prefix.len() as int] == name);
                }
            }
        }
    }
}

/// The version encoding of the native API: variant, major, minor and patch
/// packed into one 32-bit value, from the most significant field down.
pub open spec fn spec_api_version(variant: u32, major: u32, minor: u32, patch: u32) -> int {
    variant * 0x20000000 + major * 0x400000 + minor * 0x1000 + patch
}

/// Pack an API version from its fields. The bounds are the widths of the
/// encoding's bit fields.
pub fn make_api_version(variant: u32, major: u32, minor: u32, patch: u32) -> (version: u32)
    requires
        variant < 8,
        major < 128,
        minor < 1024,
        patch < 4096,
    ensures
        version == spec_api_version(variant, major, minor, patch),
{
    variant * 0x20000000 + major * 0x400000 + minor * 0x1000 + patch
}

/// The floor version that negotiation falls back to when the library reports
/// no instance version of its own.
pub open spec fn fallback_api_version() -> int {
    spec_api_version(0, 1, 0, 0)
}

/// Resolve the instance version: the version the library reports, or the
/// floor version when it reports none.
pub fn resolve_api_version(reported: Option<u32>) -> (version: u32)
    ensures
        match reported {
            Some(v) => version == v,
            None => version == fallback_api_version(),
        },
{
    match reported {
        Some(v) => v,
        None => make_api_version(0, 1, 0, 0),
    }
}

/// The static application identity every instance is created with.
pub open spec fn application_name() -> Seq<char> {
    "sufat"@
}

/// The static engine identity every instance is created with.
pub open spec fn engine_name() -> Seq<char> {
    "Rageware"@
}

/// A ready-to-use instance configuration: everything instance creation needs.
pub struct InstanceRequest {
    pub api_version: u32,
    pub application_name: String,
    pub application_version: u32,
    pub engine_name: String,
    pub engine_version: u32,
    pub enabled_extensions: Vec<String>,
    pub enabled_layers: Vec<String>,
}

/// A failed negotiation: the error to report, and the missing names to log at
/// error severity, one line each, in the order the required sets enumerate
/// them.
pub struct NegotiationFailure {
    pub error: RenderContextError,
    pub missing_extensions: Vec<String>,
    pub missing_layers: Vec<String>,
}

/// Negotiate an instance configuration. The required extension set is the
/// platform's surface extensions plus the diagnostics extension; the required
/// layer set is the validation layer. Negotiation succeeds exactly when
/// nothing is missing, and then requests the full required sets under the
/// static application identity at the resolved version; otherwise it reports
/// the outcome-table error for the missing capabilities together with the
/// missing names themselves.
pub fn negotiate(
    reported_version: Option<u32>,
    platform_extensions: Vec<String>,
    available_extensions: &Vec<String>,
    available_layers: &Vec<String>,
) -> (outcome: Result<InstanceRequest, NegotiationFailure>)
    ensures
        ({
            let required_exts = spec_required_extensions(platform_extensions.deep_view());
            let required_lays = seq![validation_layer()];
            let missing_exts = missing_of(required_exts, available_extensions.deep_view());
            let missing_lays = missing_of(required_lays, available_layers.deep_view());
            match outcome {
                Ok(request) => {
                    &&& missing_exts.len() == 0
                    &&& missing_lays.len() == 0
                    &&& match reported_version {
                        Some(v) => request.api_version == v,
                        None => request.api_version == fallback_api_version(),
                    }
                    &&& request.application_name@ == application_name()
                    &&& request.application_version == 0
                    &&& request.engine_name@ == engine_name()
                    &&& request.engine_version == 0
                    &&& request.enabled_extensions.deep_view() == required_exts
                    &&& request.enabled_layers.deep_view() == required_lays
                },
                Err(failure) => {
                    &&& missing_exts.len() != 0 || missing_lays.len() != 0
                    &&& failure.missing_extensions.deep_view() == missing_exts
                    &&& failure.missing_layers.deep_view() == missing_lays
                    &&& Some(failure.error) == spec_outcome(
                        missing_exts.len() != 0,
                        missing_lays.len() != 0,
                    )
                },
            }
        }),
{
    let api_version = resolve_api_version(reported_version);
    let required_exts = required_extensions(platform_extensions);
    let required_lays = required_layers();
    let missing_extensions = missing_names(&required_exts, available_extensions);
    let missing_layers = missing_names(&required_lays, available_layers);
    let extensions_missing = missing_extensions.len() > 0;
    let layers_missing = missing_layers.len() > 0;
    match decide_outcome(extensions_missing, layers_missing) {
        Some(error) => Err(NegotiationFailure { error, missing_extensions, missing_layers }),
        None => Ok(
            InstanceRequest {
                api_version,
                application_name: String::from_str("sufat"),
                application_version: 0,
                engine_name: String::from_str("Rageware"),
                engine_version: 0,
                enabled_extensions: required_exts,
                enabled_layers: required_lays,
            },
        ),
    }
}

} // verus!
