use autores::config::AppConfig;
use autores::display::{change_outcome, find_mode, select_mode, supported_modes, DisplayError, Resolution};
use autores::geometry::{confinement_region, Rect};
use autores::processes::{sort_by_memory, ProcessInfo};

fn mode(width: u32, height: u32, frequency: u32) -> Resolution {
    Resolution { width, height, frequency }
}

#[test]
fn lock_region_is_window_inset_by_padding() {
    let r = confinement_region(Rect { left: 100, top: 100, right: 500, bottom: 400 }, 10, 5);
    assert_eq!(r, Some(Rect { left: 110, top: 105, right: 490, bottom: 395 }));
}

#[test]
fn lock_region_out_of_range_is_refused() {
    let r = confinement_region(Rect { left: i32::MAX - 3, top: 0, right: 0, bottom: 0 }, 4, 0);
    assert_eq!(r, None);
    let r = confinement_region(Rect { left: 0, top: 0, right: 0, bottom: i32::MIN }, 0, 1);
    assert_eq!(r, None);
    let r = confinement_region(Rect { left: -50, top: -20, right: 50, bottom: 20 }, 0, 0);
    assert_eq!(r, Some(Rect { left: -50, top: -20, right: 50, bottom: 20 }));
}

#[test]
fn find_mode_gives_first_position() {
    let modes = vec![mode(800, 600, 60), mode(1920, 1080, 60), mode(1920, 1080, 60)];
    assert_eq!(find_mode(&modes, mode(1920, 1080, 60)), Some(1));
    assert_eq!(find_mode(&modes, mode(1920, 1080, 144)), None);
    assert_eq!(select_mode(&modes, mode(800, 600, 60)), Ok(0));
    assert_eq!(select_mode(&modes, mode(640, 480, 60)), Err(DisplayError::ModeNotSupported));
}

#[test]
fn change_outcome_reads_status_code() {
    assert_eq!(change_outcome(0), Ok(()));
    assert_eq!(change_outcome(-2), Err(DisplayError::Rejected(-2)));
    assert_eq!(change_outcome(1), Err(DisplayError::Rejected(1)));
}

#[test]
fn supported_modes_are_unique_and_largest_first() {
    let raw = vec![
        mode(800, 600, 60),
        mode(1920, 1080, 60),
        mode(1920, 1080, 144),
        mode(800, 600, 60),
        mode(1920, 1200, 60),
        mode(1920, 1080, 60),
    ];
    assert_eq!(
        supported_modes(&raw),
        vec![mode(1920, 1200, 60), mode(1920, 1080, 144), mode(1920, 1080, 60), mode(800, 600, 60)]
    );
    assert_eq!(supported_modes(&Vec::new()), Vec::new());
}

#[test]
fn processes_sorted_by_memory_descending() {
    let p = |pid: u32, memory: u64| ProcessInfo { pid, name: format!("p{}", pid), memory };
    let sorted = sort_by_memory(vec![p(1, 10), p(2, 300), p(3, 20), p(4, 300), p(5, 0)]);
    let mems: Vec<u64> = sorted.iter().map(|x| x.memory).collect();
    assert_eq!(mems, vec![300, 300, 20, 10, 0]);
    let mut pids: Vec<u32> = sorted.iter().map(|x| x.pid).collect();
    pids.sort();
    assert_eq!(pids, vec![1, 2, 3, 4, 5]);
    assert!(sort_by_memory(Vec::new()).is_empty());
}

#[test]
fn default_config_is_empty_with_standard_delay() {
    let c = AppConfig::default();
    assert_eq!(c.ui.theme, "system");
    assert!(!c.system.autostart);
    assert!(!c.system.start_minimized);
    assert_eq!(c.automation.revert_delay, 15000);
    assert_eq!(c.automation.default_profile, None);
    assert!(c.automation.profiles.is_empty());
    assert!(c.automation.mouse_lock.is_empty());
}
