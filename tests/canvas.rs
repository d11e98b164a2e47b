use monitor_setup::{DisplayError, Monitor, MonitorCanvas, Position, Projection, Resolution};

fn placed(name: &str, width: u32, height: u32, x: i32, y: i32, scale: Option<u32>) -> Monitor {
    Monitor {
        name: name.to_string(),
        description: None,
        enabled: true,
        modes: vec![Resolution { width, height, refresh: 60000, preferred: true, current: true }],
        position: Some(Position { x, y }),
        scale,
    }
}

#[test]
fn one_display_box_is_its_mode_plus_margin() {
    let monitors = vec![placed("A", 1920, 1080, 0, 0, Some(1000))];
    let c = Monitor::get_monitors_canvas(&monitors, 100, 30);
    // Padded box: -50 .. 1970 by -50 .. 1130 units, then widened for a
    // viewport of 100 by 30.
    assert_eq!(
        c,
        MonitorCanvas {
            top: 1_080_000,
            x_bounds: (-50_000 - 1_966_666, 1_970_000 + 1_966_666),
            y_bounds: (-50_000 - 303_000, 1_130_000 + 303_000),
            offset_y: 0,
        }
    );
}

#[test]
fn square_box_in_square_viewport_stays_square() {
    let monitors = vec![placed("A", 1000, 1000, 0, 0, Some(1000))];
    let c = Monitor::get_monitors_canvas(&monitors, 40, 40);
    assert_eq!(c.x_bounds, (-50_000 - 550_000, 1_050_000 + 550_000));
    assert_eq!(c.y_bounds, (-50_000 - 550_000, 1_050_000 + 550_000));
}

#[test]
fn no_enabled_display_gives_margin_around_origin() {
    let mut off = placed("A", 1920, 1080, 500, 500, Some(1000));
    off.enabled = false;
    let no_scale = placed("B", 1920, 1080, 0, 0, None);
    let mut no_mode = placed("C", 1920, 1080, 0, 0, Some(1000));
    no_mode.modes[0].current = false;
    no_mode.modes[0].preferred = false;
    let c = Monitor::get_monitors_canvas(&vec![off, no_scale, no_mode], 10, 10);
    assert_eq!(
        c,
        MonitorCanvas { top: 0, x_bounds: (-100_000, 100_000), y_bounds: (-100_000, 100_000), offset_y: 0 }
    );
    let empty = Monitor::get_monitors_canvas(&vec![], 10, 10);
    assert_eq!(empty, c);
}

#[test]
fn scaled_displays_union_and_negative_bottom() {
    let monitors = vec![
        placed("A", 1920, 1080, 0, 0, Some(1250)),
        placed("B", 1280, 1024, 1536, -200, Some(1000)),
    ];
    let c = Monitor::get_monitors_canvas(&monitors, 20, 10);
    // A covers 0 .. 1536 by 0 .. 864; B covers 1536 .. 2816 by -200 .. 824.
    assert_eq!(c.top, 864_000);
    assert_eq!(c.offset_y, 200_000);
    // Padded: -50 .. 2866 by -250 .. 914; width 2916, height 1164.
    assert_eq!(c.y_bounds, (-250_000 - 729_000, 914_000 + 729_000));
    assert_eq!(c.x_bounds, (-50_000 - 1_164_000, 2_866_000 + 1_164_000));
}

#[test]
fn projection_flips_the_vertical_axis() {
    let a = placed("A", 1920, 1080, 0, 0, Some(1000));
    let c = Monitor::get_monitors_canvas(&vec![a.clone()], 100, 30);
    assert_eq!(
        a.project(&c),
        Ok(Projection {
            x: 0,
            y: 0,
            width: 1_920_000,
            height: 1_080_000,
            label_x: 134_400,
            label_y: 1_004_400,
        })
    );

    let top = placed("T", 1000, 500, 100, -500, Some(1000));
    let below = placed("U", 1000, 500, 100, 0, Some(2000));
    let c = Monitor::get_monitors_canvas(&vec![top.clone(), below.clone()], 10, 10);
    assert_eq!((c.top, c.offset_y), (250_000, 500_000));
    let p = top.project(&c).unwrap();
    assert_eq!((p.x, p.y, p.width, p.height), (100_000, -250_000, 1_000_000, 500_000));
    let q = below.project(&c).unwrap();
    assert_eq!((q.x, q.y, q.width, q.height), (100_000, -500_000, 500_000, 250_000));
}

#[test]
fn unplaced_display_has_no_projection() {
    let mut m = placed("X", 800, 600, 0, 0, Some(1000));
    m.position = None;
    let c = Monitor::get_monitors_canvas(&vec![], 10, 10);
    assert_eq!(m.project(&c), Err(DisplayError::UnresolvedDisplay("X".to_string())));
    m.position = Some(Position { x: 0, y: 0 });
    m.scale = Some(0);
    assert_eq!(m.project(&c), Err(DisplayError::UnresolvedDisplay("X".to_string())));
}
