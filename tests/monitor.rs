use monitor_setup::{next_index, previous_index, DisplayError, Monitor, Position, Resolution, ScaleValue};

fn mode(width: u32, height: u32, preferred: bool, current: bool) -> Resolution {
    Resolution { width, height, refresh: 60000, preferred, current }
}

fn display(modes: Vec<Resolution>) -> Monitor {
    Monitor {
        name: "DP-1".to_string(),
        description: None,
        enabled: true,
        modes,
        position: Some(Position { x: 5, y: 7 }),
        scale: Some(1250),
    }
}

#[test]
fn set_current_resolution_leaves_exactly_one_current() {
    let mut m = display(vec![
        mode(1920, 1080, true, true),
        mode(1280, 720, false, true),
        mode(800, 600, false, false),
    ]);
    assert_eq!(m.set_current_resolution(2), Ok(()));
    let current: Vec<usize> = (0..m.modes.len()).filter(|&i| m.modes[i].current).collect();
    assert_eq!(current, vec![2]);
    assert!(m.modes[0].preferred);
    assert_eq!(m.modes[2].width, 800);
}

#[test]
fn set_current_resolution_out_of_range_changes_nothing() {
    let modes = vec![mode(1920, 1080, true, true), mode(1280, 720, false, false)];
    let mut m = display(modes.clone());
    assert_eq!(m.set_current_resolution(2), Err(DisplayError::IndexOutOfRange));
    assert_eq!(m.modes, modes);
    let mut empty = display(vec![]);
    assert_eq!(empty.set_current_resolution(0), Err(DisplayError::IndexOutOfRange));
}

#[test]
fn indices_wrap_at_both_ends() {
    for n in 1..6usize {
        assert_eq!(next_index(n - 1, n), 0);
        assert_eq!(previous_index(0, n), n - 1);
    }
    assert_eq!(next_index(1, 4), 2);
    assert_eq!(previous_index(3, 4), 2);
}

#[test]
fn enable_resets_place_and_scale() {
    let mut m = display(vec![mode(1920, 1080, true, true)]);
    m.enabled = false;
    m.enable();
    assert!(m.enabled);
    assert_eq!(m.position, Some(Position { x: 0, y: 0 }));
    assert_eq!(m.scale, Some(1000));

    let mut unplaced = display(vec![]);
    unplaced.position = None;
    unplaced.scale = None;
    unplaced.enable();
    assert_eq!(unplaced.position, Some(Position { x: 0, y: 0 }));
    assert_eq!(unplaced.scale, Some(1000));
}

#[test]
fn disable_keeps_place_and_scale() {
    let mut m = display(vec![mode(1920, 1080, true, true)]);
    m.disable();
    assert!(!m.enabled);
    assert_eq!(m.position, Some(Position { x: 5, y: 7 }));
    assert_eq!(m.scale, Some(1250));
}

#[test]
fn resolved_mode_falls_back_to_preferred() {
    let m = display(vec![mode(1920, 1080, false, false), mode(1280, 720, true, false)]);
    assert_eq!(m.get_current_resolution(), None);
    assert_eq!(m.get_prefered_resolution(), Some(&mode(1280, 720, true, false)));
    assert_eq!(m.resolved_mode(), Some(mode(1280, 720, true, false)));

    let m = display(vec![mode(1920, 1080, true, false), mode(1280, 720, false, true)]);
    assert_eq!(m.get_current_resolution(), Some(&mode(1280, 720, false, true)));
    assert_eq!(m.resolved_mode(), Some(mode(1280, 720, false, true)));

    let m = display(vec![mode(1920, 1080, false, false)]);
    assert_eq!(m.resolved_mode(), None);
}

#[test]
fn first_flagged_mode_wins() {
    let m = display(vec![
        mode(800, 600, false, false),
        mode(1920, 1080, true, true),
        mode(1280, 720, true, true),
    ]);
    assert_eq!(m.get_current_resolution().unwrap().width, 1920);
    assert_eq!(m.get_prefered_resolution().unwrap().width, 1920);
}

#[test]
fn moves_shift_the_position() {
    let mut m = display(vec![]);
    m.move_vertical(-10);
    m.move_horizontal(100);
    assert_eq!(m.position, Some(Position { x: 105, y: -3 }));

    let mut unplaced = display(vec![]);
    unplaced.position = None;
    unplaced.move_vertical(10);
    unplaced.move_horizontal(10);
    assert_eq!(unplaced.position, None);
}

#[test]
fn scale_table_entries() {
    let table = ScaleValue::table();
    let names: Vec<&str> = table.iter().map(|s| s.name).collect();
    let values: Vec<u32> = table.iter().map(|s| s.value).collect();
    assert_eq!(names, vec!["50%", "66%", "75%", "80%", "100%", "125%", "160%", "175%", "200%"]);
    assert_eq!(values, vec![500, 600, 750, 800, 1000, 1250, 1600, 1750, 2000]);
    let v = ScaleValue::new("150%", 1500);
    assert_eq!((v.name, v.value), ("150%", 1500));
}
