use tracer_core::dispatch::{dispatch_groups, GroupCount};

#[test]
fn initial_window_extent() {
    assert_eq!(dispatch_groups(1280, 720), GroupCount { x: 80, y: 45, z: 1 });
}

#[test]
fn partial_tiles_round_up() {
    assert_eq!(dispatch_groups(17, 16), GroupCount { x: 2, y: 1, z: 1 });
    assert_eq!(dispatch_groups(1, 1), GroupCount { x: 1, y: 1, z: 1 });
    assert_eq!(dispatch_groups(15, 31), GroupCount { x: 1, y: 2, z: 1 });
}

#[test]
fn zero_extent_needs_no_groups() {
    assert_eq!(dispatch_groups(0, 0), GroupCount { x: 0, y: 0, z: 1 });
}

#[test]
fn groups_cover_the_extent() {
    for &(w, h) in &[(1u32, 1u32), (16, 16), (17, 33), (1280, 720), (1920, 1080), (u32::MAX, 3)] {
        let g = dispatch_groups(w, h);
        assert!(16 * g.x as u64 >= w as u64);
        assert!(16 * g.y as u64 >= h as u64);
        if w > 0 {
            assert!(16 * (g.x as u64 - 1) < w as u64);
        }
        if h > 0 {
            assert!(16 * (g.y as u64 - 1) < h as u64);
        }
        assert_eq!(g.z, 1);
    }
}
