//! The start-up of the application, from configuration and probed devices to what to create.
use vstd::prelude::*;
use crate::device::{is_selection, pick_physical_device, DeviceCandidate, SelectedDevice};
use crate::error::InitError;
use crate::swapchain::{negotiate, parameters_spec, Extent, SurfaceFormat, SwapChainParameters};

verus! {

/// What the application asks for, threaded through start-up in place of global flags.
#[derive(Clone, Debug)]
pub struct AppConfig {
    pub enable_validation_layers: bool,
    pub validation_layers: Vec<String>,
    pub device_extensions: Vec<String>,
    pub preferred_format: SurfaceFormat,
    pub window_extent: Extent,
}

/// The device to create and, when a surface is in scope, the swap chain to create on it.
#[derive(Clone, Copy, Debug, PartialEq, Eq, Structural)]
pub struct AppSetup {
    pub device: SelectedDevice,
    pub swap_chain: Option<SwapChainParameters>,
}

/// What the main loop does next.
#[derive(Clone, Copy, Debug, PartialEq, Eq, Structural)]
pub enum LoopAction {
    /// Poll the window's events and draw a frame.
    PollAndDraw,
    /// Leave the loop and clean up.
    Exit,
}

/// `r` is the start-up that the configuration and the probed devices call for: the first
/// suitable device, and the parameters negotiated with its surface when one is in scope.
pub open spec fn is_app_setup(
    config: AppConfig,
    devices: Seq<DeviceCandidate>,
    r: Result<AppSetup, InitError>,
) -> bool {
    match r {
        Ok(setup) => {
            &&& is_selection(devices, config.device_extensions@, Some(setup.device))
            &&& setup.swap_chain == match devices[setup.device.device as int].surface {
                Some(caps) => Some(parameters_spec(caps, config.preferred_format, config.window_extent)),
                None => None,
            }
        },
        Err(e) => {
            &&& e == InitError::NoSuitableDevice
            &&& is_selection(devices, config.device_extensions@, None)
        },
    }
}

/// Decides the start-up of the application once the instance exists and its devices have been
/// probed: which device and queue family to use, and the swap chain to request. Fails with
/// `NoSuitableDevice` exactly when no candidate is suitable.
pub fn app_main(config: &AppConfig, devices: &Vec<DeviceCandidate>) -> (r: Result<AppSetup, InitError>)
    ensures
        is_app_setup(*config, devices@, r),
{
    match pick_physical_device(devices, &config.device_extensions) {
        None => Err(InitError::NoSuitableDevice),
        Some(sel) => {
            let swap_chain = match &devices[sel.device].surface {
                Some(caps) => Some(negotiate(caps, config.preferred_format, config.window_extent)),
                None => None,
            };
            Ok(AppSetup { device: sel, swap_chain })
        },
    }
}

/// The main loop polls and draws until the window is asked to close.
pub fn next_loop_action(close_requested: bool) -> (r: LoopAction)
    ensures
        r == (if close_requested {
            LoopAction::Exit
        } else {
            LoopAction::PollAndDraw
        }),
{
    if close_requested {
        LoopAction::Exit
    } else {
        LoopAction::PollAndDraw
    }
}

} // verus!
