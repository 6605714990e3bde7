//! Context bootstrap policy: which instance layers and extensions are
//! requested, how a missing validation layer is reported, what the debug
//! callback lets through, and how the build profile couples validation with
//! shader optimization.

use vstd::prelude::*;
use vstd::string::StringExecFns;

use crate::error::BootstrapError;
use crate::shader::{spec_opt_for_profile, OptLevel};
use crate::text::name_list_has;

verus! {

/// The name of the instance layer that validates API use.
pub open spec fn spec_validation_layer_name() -> Seq<char> {
    "VK_LAYER_KHRONOS_validation"@
}

/// The name of the instance layer that validates API use.
pub fn validation_layer_name() -> (r: String)
    ensures
        r@ == spec_validation_layer_name(),
{
    String::from_str("VK_LAYER_KHRONOS_validation")
}

/// The name of the instance extension that carries debug messages.
pub open spec fn spec_debug_extension_name() -> Seq<char> {
    "VK_EXT_debug_utils"@
}

/// The name of the instance extension that carries debug messages.
pub fn debug_extension_name() -> (r: String)
    ensures
        r@ == spec_debug_extension_name(),
{
    String::from_str("VK_EXT_debug_utils")
}

/// The name of the instance extension that lets enumeration see
/// portability-translated devices.
pub open spec fn spec_portability_enumeration_name() -> Seq<char> {
    "VK_KHR_portability_enumeration"@
}

/// The name of the instance extension that lets enumeration see
/// portability-translated devices.
pub fn portability_enumeration_name() -> (r: String)
    ensures
        r@ == spec_portability_enumeration_name(),
{
    String::from_str("VK_KHR_portability_enumeration")
}

/// Checks the validation-layer requirement: when validation is requested
/// and the expected layer is not among the available ones, the bootstrap
/// fails naming the missing layer; there is no silent downgrade.
pub fn check_validation_layer(available: &Vec<String>, validation: bool) -> (r: Result<
    (),
    BootstrapError,
>)
    ensures
        r is Ok <==> (!validation || available.deep_view().contains(
            spec_validation_layer_name(),
        )),
        r matches Err(e) ==> (e matches BootstrapError::MissingLayer(l)
            && l@ == spec_validation_layer_name()),
{
    if !validation {
        return Ok(());
    }
    let wanted = validation_layer_name();
    if name_list_has(available, &wanted) {
        Ok(())
    } else {
        Err(BootstrapError::MissingLayer(wanted))
    }
}

/// The instance extensions the bootstrap requests: the platform's required
/// list, then the debug extension when validation is on, then the
/// portability-enumeration extension when the target needs it.
pub open spec fn spec_instance_extensions(
    platform: Seq<Seq<char>>,
    validation: bool,
    portability: bool,
) -> Seq<Seq<char>> {
    platform + (if validation {
        seq![spec_debug_extension_name()]
    } else {
        Seq::empty()
    }) + (if portability {
        seq![spec_portability_enumeration_name()]
    } else {
        Seq::empty()
    })
}

/// Assembles the instance extension list from the platform's required
/// extensions and the two conditional ones.
pub fn instance_extensions(platform: &Vec<String>, validation: bool, portability: bool) -> (r: Vec<
    String,
>)
    ensures
        r.deep_view() == spec_instance_extensions(platform.deep_view(), validation, portability),
{
    let mut out: Vec<String> = Vec::new();
    let mut i: usize = 0;
    while i < platform.len()
        invariant
            i <= platform@.len(),
            out.deep_view() =~~= platform.deep_view().subrange(0, i as int),
        decreases platform@.len() - i,
    {
        let ghost before = out.deep_view();
        let c = platform[i].clone();
        proof {
            assert(c@ == platform@[i as int]@);
        }
        out.push(c);
        i += 1;
        proof {
            assert(out.deep_view() =~~= before.push(platform@[i - 1]@));
        }
    }
    proof {
        assert(out.deep_view() =~~= platform.deep_view());
    }
    if validation {
        out.push(debug_extension_name());
    }
    if portability {
        out.push(portability_enumeration_name());
    }
    proof {
        assert(out.deep_view() =~~= spec_instance_extensions(
            platform.deep_view(),
            validation,
            portability,
        ));
    }
    out
}

/// The severity of a driver diagnostic.
#[derive(Clone, Copy, Debug, PartialEq, Eq, Structural)]
pub enum Severity {
    Verbose,
    Info,
    Warning,
    Error,
}

/// The category of a driver diagnostic.
#[derive(Clone, Copy, Debug, PartialEq, Eq, Structural)]
pub enum Category {
    General,
    Validation,
    Performance,
}

/// What the debug callback does with one diagnostic.
#[derive(Clone, Copy, Debug, PartialEq, Eq, Structural)]
pub struct CallbackVerdict {
    /// Whether the diagnostic is routed to the logging collaborator.
    pub log: bool,
    /// What the callback reports back to the driver; it observes and never
    /// intercepts, so this is always false.
    pub abort_call: bool,
}

/// The debug callback's policy: warnings and errors are logged, lower
/// severities are suppressed, and the call is never aborted, whatever the
/// category.
pub fn debug_callback_policy(severity: Severity, category: Category) -> (r: CallbackVerdict)
    ensures
        r.log == (severity == Severity::Warning || severity == Severity::Error),
        !r.abort_call,
{
    let _ = category;
    CallbackVerdict {
        log: match severity {
            Severity::Warning => true,
            Severity::Error => true,
            _ => false,
        },
        abort_call: false,
    }
}

/// What one build profile decides for the whole system.
#[derive(Clone, Copy, Debug, PartialEq, Eq, Structural)]
pub struct ProfilePolicy {
    pub validation: bool,
    pub optimization: OptLevel,
}

/// The one profile signal drives validation and shader optimization
/// together: a release build optimizes fully and turns validation off, any
/// other build keeps validation on and optimization off.  The two can never
/// disagree.
pub fn policy_for_profile(release: bool) -> (r: ProfilePolicy)
    ensures
        r.validation == !release,
        r.optimization == spec_opt_for_profile(release),
        r.validation <==> r.optimization == OptLevel::Zero,
{
    ProfilePolicy {
        validation: !release,
        optimization: if release {
            OptLevel::Performance
        } else {
            OptLevel::Zero
        },
    }
}

} // verus!
