//! What to create the Vulkan instance with.
use vstd::prelude::*;
use crate::app::AppConfig;
use crate::device::{contains_name, has_name, supports_all};
use crate::error::{InitError, VulkanoGlfwError};

verus! {

/// Name of the instance extension that carries validation-layer messages.
pub const DEBUG_REPORT_EXTENSION: &'static str = "VK_EXT_debug_report";

/// The extensions and layers to enable on the instance.
#[derive(Clone, Debug)]
pub struct InstancePlan {
    pub extensions: Vec<String>,
    pub layers: Vec<String>,
}

/// The instance extensions: those the window needs, plus the debug-report extension when the
/// window did not already ask for it.
pub open spec fn instance_extensions_spec(window: Seq<String>) -> Seq<Seq<char>> {
    let names = window.map_values(|s: String| s@);
    if !has_name(window, DEBUG_REPORT_EXTENSION@) {
        names.push(DEBUG_REPORT_EXTENSION@)
    } else {
        names
    }
}

/// Validation layers are on and one of them is not installed.
pub open spec fn layers_missing(config: AppConfig, available_layers: Seq<String>) -> bool {
    config.enable_validation_layers && !supports_all(available_layers, config.validation_layers@)
}

/// `plan` enables the extensions of [`instance_extensions_spec`] and the configured validation
/// layers. The switch for validation only decides whether those layers are checked first.
pub open spec fn is_instance_plan(plan: InstancePlan, window: Seq<String>, config: AppConfig) -> bool {
    &&& plan.extensions@.map_values(|s: String| s@) == instance_extensions_spec(window)
    &&& plan.layers@ == config.validation_layers@
}

/// Whether every requested layer is among the installed ones.
pub fn check_validation_layer_support(requested: &Vec<String>, available: &Vec<String>) -> (r: bool)
    ensures
        r == supports_all(available@, requested@),
{
    let mut i: usize = 0;
    while i < requested.len()
        invariant
            0 <= i <= requested.len(),
            forall|k: int| 0 <= k < i ==> has_name(available@, (#[trigger] requested@[k])@),
        decreases requested.len() - i,
    {
        if !contains_name(available, &requested[i]) {
            return false;
        }
        i = i + 1;
    }
    true
}

/// The instance extensions that the windowing library reported it needs, or `NoExtensions` when
/// it could not report them.
pub fn get_required_raw_instance_extensions(reported: Option<Vec<String>>) -> (r: Result<
    Vec<String>,
    VulkanoGlfwError,
>)
    ensures
        reported is None ==> r == Err::<Vec<String>, VulkanoGlfwError>(VulkanoGlfwError::NoExtensions),
        reported matches Some(names) ==> r matches Ok(v) && v@ == names@,
{
    match reported {
        Some(names) => Ok(names),
        None => Err(VulkanoGlfwError::NoExtensions),
    }
}

/// Decides the extensions and layers of the instance. When validation is on, layers that are not
/// installed are refused first; then an unreported set of window extensions.
pub fn create_instance(
    config: &AppConfig,
    window_extensions: Option<Vec<String>>,
    available_layers: &Vec<String>,
) -> (r: Result<InstancePlan, InitError>)
    ensures
        layers_missing(*config, available_layers@) ==> r == Err::<InstancePlan, InitError>(
            InitError::ValidationLayerUnavailable,
        ),
        !layers_missing(*config, available_layers@) && window_extensions is None ==> r == Err::<
            InstancePlan,
            InitError,
        >(InitError::ExtensionUnavailable),
        !layers_missing(*config, available_layers@) && window_extensions is Some ==> (r matches Ok(
            plan,
        ) && is_instance_plan(plan, window_extensions->Some_0@, *config)),
{
    if config.enable_validation_layers && !check_validation_layer_support(
        &config.validation_layers,
        available_layers,
    ) {
        return Err(InitError::ValidationLayerUnavailable);
    }
    let window = match get_required_raw_instance_extensions(window_extensions) {
        Ok(names) => names,
        Err(_) => {
            return Err(InitError::ExtensionUnavailable);
        },
    };
    let ghost window_names = window@;
    let mut extensions = window;
    if !contains_name(&extensions, &DEBUG_REPORT_EXTENSION.to_owned()) {
        extensions.push(DEBUG_REPORT_EXTENSION.to_owned());
        assert(extensions@.map_values(|s: String| s@) =~= window_names.map_values(|s: String| s@).push(
            DEBUG_REPORT_EXTENSION@,
        ));
    }
    let layers = config.validation_layers.clone();
    Ok(InstancePlan { extensions, layers })
}

} // verus!
