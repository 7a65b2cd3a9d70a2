use vulkan_tutorial::app::{app_main, next_loop_action, AppConfig, AppSetup, LoopAction};
use vulkan_tutorial::device::{DeviceCandidate, QueueFamilyInfo, SelectedDevice};
use vulkan_tutorial::error::{InitError, VulkanoGlfwError};
use vulkan_tutorial::instance::{
    check_validation_layer_support, create_instance, get_required_raw_instance_extensions,
    DEBUG_REPORT_EXTENSION,
};
use vulkan_tutorial::swapchain::{
    Extent, PresentMode, SupportedPresentModes, SurfaceCapabilities, SurfaceFormat, SwapChainParameters,
};

const VALIDATION: &str = "VK_LAYER_LUNARG_standard_validation";

fn names(list: &[&str]) -> Vec<String> {
    list.iter().map(|s| s.to_string()).collect()
}

fn config(validation: bool) -> AppConfig {
    AppConfig {
        enable_validation_layers: validation,
        validation_layers: names(&[VALIDATION]),
        device_extensions: names(&["VK_KHR_swapchain"]),
        preferred_format: SurfaceFormat { format: 30, color_space: 0 },
        window_extent: Extent { width: 800, height: 600 },
    }
}

fn surface(current: Option<Extent>) -> SurfaceCapabilities {
    SurfaceCapabilities {
        min_image_count: 2,
        max_image_count: Some(3),
        current_extent: current,
        min_image_extent: Extent { width: 640, height: 480 },
        max_image_extent: Extent { width: 1920, height: 1080 },
        supported_formats: vec![SurfaceFormat { format: 44, color_space: 0 }, SurfaceFormat { format: 30, color_space: 0 }],
        present_modes: SupportedPresentModes { immediate: true, mailbox: false, fifo: true, relaxed: false },
    }
}

fn device(exts: &[&str], surface: Option<SurfaceCapabilities>) -> DeviceCandidate {
    DeviceCandidate {
        name: "gpu".to_string(),
        queue_families: vec![QueueFamilyInfo { id: 0, queue_count: 16, graphics: true, presentation: true }],
        extensions: names(exts),
        surface,
    }
}

#[test]
fn layers_found_or_not() {
    let installed = names(&["VK_LAYER_KHRONOS_validation", VALIDATION]);
    assert!(check_validation_layer_support(&names(&[VALIDATION]), &installed));
    assert!(check_validation_layer_support(&names(&[]), &names(&[])));
    assert!(!check_validation_layer_support(&names(&[VALIDATION]), &names(&["VK_LAYER_KHRONOS_validation"])));
}

#[test]
fn raw_instance_extensions() {
    assert_eq!(get_required_raw_instance_extensions(None), Err(VulkanoGlfwError::NoExtensions));
    let exts = names(&["VK_KHR_surface", "VK_KHR_xcb_surface"]);
    assert_eq!(get_required_raw_instance_extensions(Some(exts.clone())), Ok(exts));
}

#[test]
fn error_descriptions() {
    assert_eq!(VulkanoGlfwError::NoExtensions.description(), "Could not load required extensions");
    assert_eq!(VulkanoGlfwError::GlfwError { code: 7 }.description(), "Genral Vulkan GLFW error");
    assert_eq!(InitError::NoSuitableDevice.description(), "failed to find a suitable GPU");
    assert_eq!(
        InitError::ValidationLayerUnavailable.description(),
        "validation layers requested, but not available!"
    );
}

#[test]
fn missing_validation_layer_refused_first() {
    let r = create_instance(&config(true), None, &names(&[]));
    assert_eq!(r.unwrap_err(), InitError::ValidationLayerUnavailable);
}

#[test]
fn unreported_window_extensions_refused() {
    let r = create_instance(&config(false), None, &names(&[]));
    assert_eq!(r.unwrap_err(), InitError::ExtensionUnavailable);
    let r = create_instance(&config(true), None, &names(&[VALIDATION]));
    assert_eq!(r.unwrap_err(), InitError::ExtensionUnavailable);
}

#[test]
fn instance_plan_with_validation() {
    let window = names(&["VK_KHR_surface", "VK_KHR_xlib_surface"]);
    let plan = create_instance(&config(true), Some(window), &names(&[VALIDATION])).unwrap();
    assert_eq!(plan.extensions, names(&["VK_KHR_surface", "VK_KHR_xlib_surface", DEBUG_REPORT_EXTENSION]));
    assert_eq!(plan.layers, names(&[VALIDATION]));
}

#[test]
fn instance_plan_without_validation() {
    let window = names(&["VK_KHR_surface", "VK_KHR_xlib_surface"]);
    let plan = create_instance(&config(false), Some(window), &names(&[])).unwrap();
    assert_eq!(plan.extensions, names(&["VK_KHR_surface", "VK_KHR_xlib_surface", DEBUG_REPORT_EXTENSION]));
    assert_eq!(plan.layers, names(&[VALIDATION]));
}

#[test]
fn debug_report_not_doubled() {
    let window = names(&["VK_EXT_debug_report", "VK_KHR_surface"]);
    let plan = create_instance(&config(true), Some(window.clone()), &names(&[VALIDATION])).unwrap();
    assert_eq!(plan.extensions, window);
}

#[test]
fn app_main_without_suitable_device() {
    let devices = vec![device(&["VK_KHR_maintenance1"], Some(surface(None)))];
    assert_eq!(app_main(&config(false), &devices), Err(InitError::NoSuitableDevice));
    assert_eq!(app_main(&config(false), &Vec::new()), Err(InitError::NoSuitableDevice));
}

#[test]
fn app_main_negotiates_swap_chain() {
    let devices = vec![
        device(&[], Some(surface(None))),
        device(&["VK_KHR_swapchain"], Some(surface(None))),
    ];
    let setup = app_main(&config(false), &devices).unwrap();
    assert_eq!(
        setup,
        AppSetup {
            device: SelectedDevice { device: 1, queue_family: 0 },
            swap_chain: Some(SwapChainParameters {
                image_count: 3,
                format: SurfaceFormat { format: 30, color_space: 0 },
                extent: Extent { width: 800, height: 600 },
                present_mode: PresentMode::Immediate,
            }),
        }
    );
}

#[test]
fn app_main_uses_current_extent() {
    let devices = vec![device(&["VK_KHR_swapchain"], Some(surface(Some(Extent { width: 1024, height: 768 }))))];
    let setup = app_main(&config(false), &devices).unwrap();
    assert_eq!(setup.swap_chain.unwrap().extent, Extent { width: 1024, height: 768 });
}

#[test]
fn app_main_without_surface() {
    let devices = vec![device(&["VK_KHR_swapchain"], None)];
    let setup = app_main(&config(false), &devices).unwrap();
    assert_eq!(setup, AppSetup { device: SelectedDevice { device: 0, queue_family: 0 }, swap_chain: None });
}

#[test]
fn loop_runs_until_close() {
    assert_eq!(next_loop_action(false), LoopAction::PollAndDraw);
    assert_eq!(next_loop_action(true), LoopAction::Exit);
}
