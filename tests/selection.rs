use device_bootstrap::model::{BootstrapError, DeviceClass, QueueFamily, COMPUTE_BIT, GRAPHICS_BIT, TRANSFER_BIT};
use device_bootstrap::queue::{queue_search_step, select_queue, QueueEvent, QueueStep};
use device_bootstrap::select::select_device;
use device_bootstrap::synthetic::{Selection, SyntheticDriver};

fn fam(flags: u32) -> QueueFamily {
    QueueFamily { flags, queue_count: 1 }
}

#[test]
fn discrete_first_in_list_is_chosen() {
    let classes = vec![DeviceClass::DiscreteGpu, DeviceClass::IntegratedGpu];
    assert_eq!(select_device(&classes), Ok(0));
}

#[test]
fn discrete_later_in_list_is_chosen() {
    let classes = vec![DeviceClass::Cpu, DeviceClass::VirtualGpu, DeviceClass::DiscreteGpu];
    assert_eq!(select_device(&classes), Ok(2));
}

#[test]
fn first_of_several_discrete_is_chosen() {
    let classes = vec![
        DeviceClass::IntegratedGpu,
        DeviceClass::DiscreteGpu,
        DeviceClass::Other,
        DeviceClass::DiscreteGpu,
    ];
    assert_eq!(select_device(&classes), Ok(1));
}

#[test]
fn empty_device_list_fails() {
    let classes: Vec<DeviceClass> = Vec::new();
    assert_eq!(select_device(&classes), Err(BootstrapError::NoDeviceFound));
}

#[test]
fn no_discrete_device_fails() {
    let classes = vec![DeviceClass::IntegratedGpu, DeviceClass::Cpu, DeviceClass::Other];
    assert_eq!(select_device(&classes), Err(BootstrapError::NoSuitableDevice));
}

#[test]
fn integrated_only_fails() {
    let classes = vec![DeviceClass::IntegratedGpu];
    assert_eq!(select_device(&classes), Err(BootstrapError::NoSuitableDevice));
}

#[test]
fn graphics_bit_is_read_from_flags() {
    assert!(fam(GRAPHICS_BIT).supports_graphics());
    assert!(fam(GRAPHICS_BIT | COMPUTE_BIT | TRANSFER_BIT).supports_graphics());
    assert!(fam(0b1001).supports_graphics());
    assert!(!fam(COMPUTE_BIT | TRANSFER_BIT).supports_graphics());
    assert!(!fam(0).supports_graphics());
}

#[test]
fn queue_skips_family_that_cannot_present() {
    let fams = vec![fam(GRAPHICS_BIT), fam(GRAPHICS_BIT)];
    let answers = vec![Some(false), Some(true)];
    assert_eq!(select_queue(&fams, &answers), Ok(1));
}

#[test]
fn queue_skips_family_without_graphics() {
    let fams = vec![fam(COMPUTE_BIT), fam(GRAPHICS_BIT)];
    let answers = vec![Some(true), Some(true)];
    assert_eq!(select_queue(&fams, &answers), Ok(1));
}

#[test]
fn queue_lower_of_two_qualifying_wins() {
    let fams = vec![fam(TRANSFER_BIT), fam(GRAPHICS_BIT | COMPUTE_BIT), fam(GRAPHICS_BIT)];
    let answers = vec![Some(false), Some(true), Some(true)];
    assert_eq!(select_queue(&fams, &answers), Ok(1));
}

#[test]
fn queue_none_qualifying_fails() {
    let fams = vec![fam(COMPUTE_BIT), fam(GRAPHICS_BIT), fam(TRANSFER_BIT)];
    let answers = vec![Some(true), Some(false), Some(true)];
    assert_eq!(select_queue(&fams, &answers), Err(BootstrapError::NoSuitableQueue));
    assert_eq!(fams, vec![fam(COMPUTE_BIT), fam(GRAPHICS_BIT), fam(TRANSFER_BIT)]);
    assert_eq!(answers, vec![Some(true), Some(false), Some(true)]);
}

#[test]
fn queue_empty_family_list_fails() {
    let fams: Vec<QueueFamily> = Vec::new();
    let answers: Vec<Option<bool>> = Vec::new();
    assert_eq!(select_queue(&fams, &answers), Err(BootstrapError::NoSuitableQueue));
}

#[test]
fn queue_failed_query_stops_search() {
    let fams = vec![fam(GRAPHICS_BIT), fam(GRAPHICS_BIT)];
    let answers = vec![None, Some(true)];
    assert_eq!(select_queue(&fams, &answers), Err(BootstrapError::QueryFailed));
}

#[test]
fn queue_failed_query_on_unasked_family_is_ignored() {
    let fams = vec![fam(COMPUTE_BIT), fam(GRAPHICS_BIT), fam(GRAPHICS_BIT)];
    let answers = vec![None, Some(true), None];
    assert_eq!(select_queue(&fams, &answers), Ok(1));
}

#[test]
fn queue_search_steps() {
    let fams = vec![fam(COMPUTE_BIT), fam(GRAPHICS_BIT), fam(TRANSFER_BIT), fam(GRAPHICS_BIT)];
    assert_eq!(queue_search_step(&fams, QueueEvent::Start), QueueStep::AskPresentation(1));
    assert_eq!(
        queue_search_step(&fams, QueueEvent::Answered(1, Some(false))),
        QueueStep::AskPresentation(3)
    );
    assert_eq!(queue_search_step(&fams, QueueEvent::Answered(3, Some(true))), QueueStep::Chosen(3));
    assert_eq!(
        queue_search_step(&fams, QueueEvent::Answered(3, Some(false))),
        QueueStep::Failed(BootstrapError::NoSuitableQueue)
    );
    assert_eq!(
        queue_search_step(&fams, QueueEvent::Answered(1, None)),
        QueueStep::Failed(BootstrapError::QueryFailed)
    );
}

#[test]
fn queue_search_start_without_graphics_fails() {
    let fams = vec![fam(COMPUTE_BIT), fam(TRANSFER_BIT)];
    assert_eq!(
        queue_search_step(&fams, QueueEvent::Start),
        QueueStep::Failed(BootstrapError::NoSuitableQueue)
    );
}

fn scenario_driver() -> SyntheticDriver {
    SyntheticDriver {
        devices: vec![DeviceClass::IntegratedGpu, DeviceClass::DiscreteGpu],
        families: vec![vec![fam(GRAPHICS_BIT)], vec![fam(COMPUTE_BIT), fam(GRAPHICS_BIT)]],
        presentation: vec![vec![Some(true)], vec![Some(true), Some(true)]],
    }
}

#[test]
fn bootstrap_picks_discrete_device_and_graphics_queue() {
    let driver = scenario_driver();
    assert_eq!(select_device(&driver.list_devices()), Ok(1));
    let fams = driver.list_queue_families(1);
    assert_eq!(select_queue(&fams, &driver.presentation[1]), Ok(1));
    assert_eq!(driver.bootstrap(), Ok(Selection { device: 1, queue_family: 1 }));
}

#[test]
fn bootstrap_integrated_only_fails() {
    let driver = SyntheticDriver {
        devices: vec![DeviceClass::IntegratedGpu],
        families: vec![vec![fam(GRAPHICS_BIT)]],
        presentation: vec![vec![Some(true)]],
    };
    assert_eq!(driver.bootstrap(), Err(BootstrapError::NoSuitableDevice));
}

#[test]
fn bootstrap_without_devices_fails() {
    let driver = SyntheticDriver { devices: Vec::new(), families: Vec::new(), presentation: Vec::new() };
    assert_eq!(driver.bootstrap(), Err(BootstrapError::NoDeviceFound));
}

#[test]
fn bootstrap_propagates_failed_query() {
    let driver = SyntheticDriver {
        devices: vec![DeviceClass::DiscreteGpu],
        families: vec![vec![fam(GRAPHICS_BIT)]],
        presentation: vec![vec![None]],
    };
    assert_eq!(driver.bootstrap(), Err(BootstrapError::QueryFailed));
    assert_eq!(driver.supports_presentation(0, 0), Err(BootstrapError::QueryFailed));
}

#[test]
fn bootstrap_without_presentable_queue_fails() {
    let driver = SyntheticDriver {
        devices: vec![DeviceClass::DiscreteGpu],
        families: vec![vec![fam(GRAPHICS_BIT), fam(COMPUTE_BIT)]],
        presentation: vec![vec![Some(false), Some(true)]],
    };
    assert_eq!(driver.bootstrap(), Err(BootstrapError::NoSuitableQueue));
}

#[test]
fn repeated_queries_give_same_answers() {
    let driver = scenario_driver();
    assert_eq!(driver.list_devices(), driver.list_devices());
    assert_eq!(driver.list_devices(), vec![DeviceClass::IntegratedGpu, DeviceClass::DiscreteGpu]);
    for d in 0..2 {
        assert_eq!(driver.list_queue_families(d), driver.list_queue_families(d));
    }
    assert_eq!(driver.list_queue_families(1), vec![fam(COMPUTE_BIT), fam(GRAPHICS_BIT)]);
    assert_eq!(driver.supports_presentation(1, 1), Ok(true));
    assert_eq!(driver.supports_presentation(1, 1), driver.supports_presentation(1, 1));
    assert_eq!(driver.bootstrap(), driver.bootstrap());
}
