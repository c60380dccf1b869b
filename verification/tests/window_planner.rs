use memtest_vulkan::params::{
    ELEMENT_SIZE, TEST_WINDOW_MAX_SIZE, TEST_WINDOW_SIZE_GRANULARITY, WG_SIZE,
};
use memtest_vulkan::window::{ConfigurationError, Window, WindowPlan};

const GIB: u64 = 1024 * 1024 * 1024;

#[test]
fn parameters_have_their_documented_values() {
    assert_eq!(WG_SIZE, 128);
    assert_eq!(ELEMENT_SIZE, 4);
    assert_eq!(TEST_WINDOW_SIZE_GRANULARITY, WG_SIZE * ELEMENT_SIZE);
    assert_eq!(TEST_WINDOW_MAX_SIZE, 2 * GIB - WG_SIZE * ELEMENT_SIZE);
}

#[test]
fn five_gib_are_cut_into_three_aligned_windows() {
    let plan = WindowPlan::new(5 * GIB, 2 * GIB - 512, 512).unwrap();
    assert_eq!(plan.window_count(), 3);
    assert_eq!(plan.window_size(), ((5 * GIB / 3) / 512) * 512);
    assert_eq!(plan.window_size(), 1_789_569_536);
    assert_eq!(plan.tested_size(), 5_368_708_608);
    assert!(plan.tested_size() < 5 * GIB);
    assert_eq!(5 * GIB - plan.tested_size(), 512);
}

#[test]
fn default_limits_give_the_same_plan() {
    let plan =
        WindowPlan::new(5 * GIB, TEST_WINDOW_MAX_SIZE, TEST_WINDOW_SIZE_GRANULARITY).unwrap();
    assert_eq!(plan.window_count(), 3);
    assert_eq!(plan.window_size(), 1_789_569_536);
}

#[test]
fn exact_multiples_lose_nothing() {
    let plan = WindowPlan::new(1024, 512, 512).unwrap();
    assert_eq!(plan.window_count(), 2);
    assert_eq!(plan.window_size(), 512);
    assert_eq!(plan.tested_size(), 1024);
}

#[test]
fn a_region_below_the_limit_is_one_window() {
    let plan = WindowPlan::new(1000, 4096, 16).unwrap();
    assert_eq!(plan.window_count(), 1);
    assert_eq!(plan.window_size(), 992);
    assert_eq!(plan.tested_size(), 992);
}

#[test]
fn one_byte_over_the_limit_adds_a_window() {
    let plan = WindowPlan::new(1025, 1024, 1).unwrap();
    assert_eq!(plan.window_count(), 2);
    assert_eq!(plan.window_size(), 512);
    assert_eq!(plan.tested_size(), 1024);
}

#[test]
fn windows_fit_for_many_requests() {
    for total in 1u64..200 {
        for max in 1u64..40 {
            for granularity in 1u64..20 {
                match WindowPlan::new(total, max, granularity) {
                    Ok(plan) => {
                        assert_eq!(plan.window_count(), (total + max - 1) / max);
                        assert_eq!(plan.window_size() % granularity, 0);
                        assert!(plan.window_size() > 0);
                        assert!(plan.window_size() <= max);
                        assert!(plan.window_count() * plan.window_size() <= total);
                        assert_eq!(
                            plan.window_size(),
                            total / plan.window_count() / granularity * granularity
                        );
                    }
                    Err(error) => {
                        assert_eq!(error, ConfigurationError::ZeroSizeWindow);
                        let count = (total + max - 1) / max;
                        assert_eq!(total / count / granularity, 0);
                    }
                }
            }
        }
    }
}

#[test]
fn a_region_smaller_than_a_granule_is_refused() {
    assert_eq!(
        WindowPlan::new(511, 2 * GIB - 512, 512).err(),
        Some(ConfigurationError::ZeroSizeWindow)
    );
    assert!(WindowPlan::new(512, 2 * GIB - 512, 512).is_ok());
}

#[test]
fn a_share_smaller_than_a_granule_is_refused() {
    // Four windows of two bytes each cannot hold a granule of four bytes.
    assert_eq!(WindowPlan::new(10, 3, 4).err(), Some(ConfigurationError::ZeroSizeWindow));
}

#[test]
fn degenerate_limits_are_refused() {
    assert_eq!(WindowPlan::new(0, 1024, 512).err(), Some(ConfigurationError::ZeroSizeWindow));
    assert_eq!(WindowPlan::new(4096, 0, 512).err(), Some(ConfigurationError::ZeroSizeWindow));
    assert_eq!(WindowPlan::new(4096, 1024, 0).err(), Some(ConfigurationError::ZeroSizeWindow));
}

#[test]
fn the_largest_region_is_planned_without_overflow() {
    let plan = WindowPlan::new(u64::MAX, TEST_WINDOW_MAX_SIZE, 512).unwrap();
    assert_eq!(plan.window_count(), u64::MAX / TEST_WINDOW_MAX_SIZE + 1);
    assert!(plan.window_size() <= TEST_WINDOW_MAX_SIZE);
    assert_eq!(plan.window_size() % 512, 0);
    assert_eq!(plan.tested_size(), plan.window_count() * plan.window_size());
}

#[test]
fn windows_follow_each_other_in_planner_order() {
    let plan = WindowPlan::new(5 * GIB, 2 * GIB - 512, 512).unwrap();
    let size = plan.window_size();
    assert_eq!(plan.window(0), Some(Window { offset: 0, size, element_count: size / 4 }));
    assert_eq!(plan.window(1), Some(Window { offset: size, size, element_count: size / 4 }));
    assert_eq!(plan.window(2), Some(Window { offset: 2 * size, size, element_count: size / 4 }));
    assert_eq!(plan.window(3), None);
    assert_eq!(plan.window(u64::MAX), None);
}

#[test]
fn workgroups_are_counted_for_whole_workgroups_only() {
    let plan = WindowPlan::new(5 * GIB, 2 * GIB - 512, 512).unwrap();
    let window = plan.window(0).unwrap();
    assert_eq!(window.element_count, 447_392_384);
    assert_eq!(window.workgroup_count(), Some(3_495_253));
    let ragged = Window { offset: 0, size: 516, element_count: 129 };
    assert_eq!(ragged.workgroup_count(), None);
    let empty = Window { offset: 0, size: 0, element_count: 0 };
    assert_eq!(empty.workgroup_count(), Some(0));
    let huge = Window { offset: 0, size: 0, element_count: 128 * (u32::MAX as u64 + 1) };
    assert_eq!(huge.workgroup_count(), None);
    let largest = Window { offset: 0, size: 0, element_count: 128 * u32::MAX as u64 };
    assert_eq!(largest.workgroup_count(), Some(u32::MAX));
}
