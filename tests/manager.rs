use ebs_autoscale_rust::aws::MockAWS;
use ebs_autoscale_rust::config::Config;
use ebs_autoscale_rust::disk::MockDiskMgr;
use ebs_autoscale_rust::fs::MockFS;
use ebs_autoscale_rust::{AutoscaleError, EBSManager};

struct Context {
    ebs_manager: Box<EBSManager<MockDiskMgr, MockAWS, MockFS>>,
}

fn setup(
    mock_diskmgr: MockDiskMgr,
    mock_aws: MockAWS,
    mock_fs: MockFS,
) -> Result<Context, AutoscaleError> {
    let config: Config = Config::default();
    Ok(Context {
        ebs_manager: EBSManager::new(config, mock_diskmgr, mock_aws, mock_fs),
    })
}

#[test]
fn test_power_on_self_test() -> Result<(), AutoscaleError> {
    let ctx = setup(MockDiskMgr::default(), MockAWS::default(), MockFS::default()).unwrap();
    assert_eq!(ctx.ebs_manager.power_on_self_test()?, true);
    Ok(())
}

#[test]
fn test_need_more_space_false() -> Result<(), AutoscaleError> {
    let mut ctx = setup(MockDiskMgr::default(), MockAWS::default(), MockFS::default()).unwrap();
    assert_eq!(ctx.ebs_manager.need_more_space()?, false);
    Ok(())
}

#[test]
fn test_need_more_space_true() -> Result<(), AutoscaleError> {
    let mut ctx = setup(
        MockDiskMgr {
            disks: vec!["test".to_string()],
            utilization_percentage: 95,
            total_disk_size: 100,
            sim_no_more_device_names: false,
        },
        MockAWS::default(),
        MockFS::default(),
    )
    .unwrap();
    assert_eq!(ctx.ebs_manager.need_more_space()?, true);
    Ok(())
}

#[test]
fn test_add_more_space_no_available_dev_name() -> Result<(), AutoscaleError> {
    let mut ctx = setup(
        MockDiskMgr {
            disks: vec!["test".to_string()],
            utilization_percentage: 95,
            total_disk_size: 100,
            sim_no_more_device_names: true,
        },
        MockAWS::default(),
        MockFS::default(),
    )
    .unwrap();
    assert!(ctx.ebs_manager.add_more_space(101).is_err());
    Ok(())
}

#[test]
fn test_add_more_space_max_ebs_count() -> Result<(), AutoscaleError> {
    let mut ctx = setup(MockDiskMgr::default(), MockAWS::default(), MockFS::default()).unwrap();
    assert!(ctx.ebs_manager.add_more_space(101).is_err());
    Ok(())
}

#[test]
fn test_add_more_space_max_logical_size() -> Result<(), AutoscaleError> {
    let mut ctx = setup(
        MockDiskMgr {
            disks: vec!["test".to_string()],
            utilization_percentage: 10,
            total_disk_size: 1000,
            sim_no_more_device_names: false,
        },
        MockAWS::default(),
        MockFS::default(),
    )
    .unwrap();
    assert!(ctx.ebs_manager.add_more_space(10).is_err());
    Ok(())
}

#[test]
fn test_add_more_space_aws_err() -> Result<(), AutoscaleError> {
    let mut ctx = setup(
        MockDiskMgr::default(),
        MockAWS {
            simulate_aws_err: true,
            mounted_devices_count: 1,
        },
        MockFS::default(),
    )
    .unwrap();
    assert!(ctx.ebs_manager.add_more_space(1).is_err());
    Ok(())
}

#[test]
fn test_add_more_space_logical_volume_err() -> Result<(), AutoscaleError> {
    let mut ctx = setup(
        MockDiskMgr::default(),
        MockAWS::default(),
        MockFS {
            simulate_fs_err: true,
        },
    )
    .unwrap();
    assert!(ctx.ebs_manager.add_more_space(10).is_err());
    Ok(())
}

#[test]
fn test_add_more_space() -> Result<(), AutoscaleError> {
    let mut ctx = setup(MockDiskMgr::default(), MockAWS::default(), MockFS::default()).unwrap();
    assert!(ctx.ebs_manager.add_more_space(10).is_ok());
    Ok(())
}

#[test]
fn test_calc_threshold() {
    let ctx = setup(MockDiskMgr::default(), MockAWS::default(), MockFS::default()).unwrap();
    assert_eq!(
        ctx.ebs_manager.calc_threshold(1),
        Some(ctx.ebs_manager.config.limits.initial_utilization_threshold)
    );
    for dev_count in [4, 5, 6] {
        assert_eq!(ctx.ebs_manager.calc_threshold(dev_count), Some(80));
    }
    for dev_count in [7, 8, 9, 10] {
        assert_eq!(ctx.ebs_manager.calc_threshold(dev_count), Some(90));
    }
    assert_eq!(ctx.ebs_manager.calc_threshold(11), Some(90));
}
