use osrs_scene::fixed::Vec3Milli;
use osrs_scene::picking::{cursor_to_ndc, intersect_ground};
use osrs_scene::player::{seek, Player};

fn v(x: i64, y: i64, z: i64) -> Vec3Milli {
    Vec3Milli { x, y, z }
}

#[test]
fn player_starts_without_target() {
    let p = Player::new(v(5, 6, 7));
    assert_eq!(p.position, v(5, 6, 7));
    assert!(p.target_position.is_none());
}

#[test]
fn seek_snaps_when_close() {
    // remaining distance 50 is under the speed 100: snap exactly
    let (pos, reached) = seek(v(0, 0, 0), v(50, 0, 0), 100);
    assert!(reached);
    assert_eq!(pos, v(50, 0, 0));
}

#[test]
fn seek_at_target_reports_arrival() {
    let (pos, reached) = seek(v(9, 9, 9), v(9, 9, 9), 100);
    assert!(reached);
    assert_eq!(pos, v(9, 9, 9));
}

#[test]
fn seek_advances_by_speed_along_axis() {
    let (pos, reached) = seek(v(0, 0, 0), v(1_000, 0, 0), 100);
    assert!(!reached);
    assert_eq!(pos, v(100, 0, 0));
}

#[test]
fn seek_converges_exactly_on_axis() {
    // 1000 milli at speed 100: ten moving ticks plus the final snap tick
    let target = v(1_000, 0, 0);
    let mut pos = v(0, 0, 0);
    let mut ticks = 0;
    loop {
        let (np, reached) = seek(pos, target, 100);
        pos = np;
        ticks += 1;
        if reached {
            break;
        }
        assert!(ticks < 2_000, "seek failed to converge");
    }
    assert_eq!(pos, target);
    assert_eq!(ticks, 11);
}

#[test]
fn seek_converges_exactly_on_diagonal() {
    let target = v(22_000, 0, -8_000);
    let mut pos = v(0, 0, 0);
    let mut ticks: i64 = 0;
    let bound = 22_000 + 8_000 + 1;
    loop {
        let (np, reached) = seek(pos, target, 100);
        pos = np;
        ticks += 1;
        if reached {
            break;
        }
        assert!(ticks <= bound, "seek failed to converge within the bound");
    }
    assert_eq!(pos, target);
    // straight-line distance is about 23409 milli, so about 235 ticks
    assert!(ticks <= 240);
}

#[test]
fn cursor_to_ndc_maps_corners_and_centre() {
    // centre of an 800 by 600 viewport is NDC (0, 0)
    assert_eq!(cursor_to_ndc(400_000, 300_000, 800, 600), (0, 0));
    // top-left pixel corner is (-1, 1)
    assert_eq!(cursor_to_ndc(0, 0, 800, 600), (-1_000, 1_000));
    // bottom-right corner is (1, -1)
    assert_eq!(cursor_to_ndc(800_000, 600_000, 800, 600), (1_000, -1_000));
    // a quarter across, an eighth down
    assert_eq!(cursor_to_ndc(200_000, 75_000, 800, 600), (-500, 750));
}

#[test]
fn ray_straight_down_hits_under_origin() {
    let hit = intersect_ground(v(10_000, 5_000, 40_000), v(0, -1_000, 0));
    assert_eq!(hit, Some(v(10_000, 0, 40_000)));
}

#[test]
fn ray_through_known_ground_point_returns_it() {
    // direction aimed exactly at g = (2500, 0, 4000) from o = (1000, 1500, 5000)
    let o = v(1_000, 1_500, 5_000);
    let d = v(2_500 - 1_000, -1_500, 4_000 - 5_000);
    // the direction is not unit length, but the plane equation only needs its slope
    let hit = intersect_ground(o, d);
    assert_eq!(hit, Some(v(2_500, 0, 4_000)));
}

#[test]
fn shallow_ray_is_a_miss() {
    // |dir.y| within the parallel threshold: no destination
    assert_eq!(intersect_ground(v(0, 5_000, 0), v(1_000, 1, 0)), None);
    assert_eq!(intersect_ground(v(0, 5_000, 0), v(1_000, 0, 0)), None);
}

#[test]
fn ray_away_from_plane_is_a_miss() {
    // looking up from above the plane: intersection lies behind the eye
    assert_eq!(intersect_ground(v(0, 5_000, 0), v(0, 1_000, 0)), None);
}
