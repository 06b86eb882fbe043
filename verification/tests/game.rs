//! Behavior of the game rules: movement, inventory, items, bullets, rooms
//! and the debug log.

use styles::casual_bullet_item;
use styles::console_item;
use styles::constants::{DOOR_WIDTH, WALL_HEIGHT, WALL_THICKNESS, WALL_WIDTH};
use styles::debug_overlay::{
    clear_console, console_log, write_console_log, zoom_in_console_log, zoom_out_console_log,
    DebugLog,
};
use styles::doors::Door;
use styles::dungeon::{move_rooms, Dungeon};
use styles::input::input_as_axis;
use styles::inventory::{use_active_item, use_item_player, Inventory};
use styles::items::{move_bullet, tick_lifetime, ItemEvent, Lifetime, Trajectory};
use styles::math::{Anchor, Vec2I};
use styles::player::{move_player, PlayerBundle};
use styles::player_overlay::update_life;
use styles::stylesheet::{rgb_u8, TextStyle};
use styles::walls::WallLocation;

#[test]
fn axis_adds_up_held_keys() {
    assert_eq!(input_as_axis(false, false, false, false), None);
    assert_eq!(input_as_axis(true, false, false, false), Some((-1, 0)));
    assert_eq!(input_as_axis(false, true, true, false), Some((1, 1)));
    assert_eq!(input_as_axis(true, true, false, true), Some((0, -1)));
    assert_eq!(input_as_axis(true, true, true, true), None);
}

#[test]
fn player_moves_and_clamps() {
    // 500 px/s for 100 ms moves 50 px.
    let moved = move_player(Vec2I::new(0, 0), false, true, false, false, 100);
    assert_eq!(moved, Vec2I::new(50, 0));
    // The right bound is RIGHT_WALL - thickness/2 - sprite/2 = 548.
    let pinned = move_player(Vec2I::new(540, 0), false, true, false, false, 1000);
    assert_eq!(pinned, Vec2I::new(548, 0));
    let bottom = move_player(Vec2I::new(0, -1_000_000), false, false, false, true, 16);
    assert_eq!(bottom.y, -428);
}

#[test]
fn player_bundle_carries_two_hearts() {
    let b = PlayerBundle::new(Vec2I::new(0, 0), 9);
    assert_eq!(b.life.0, 2);
    assert_eq!(b.speed.0, 500);
    assert_eq!(b.collider_radius, 16);
    assert_eq!(b.sprite_size, Vec2I::new(64, 64));
}

#[test]
fn revolver_rotates_even_on_empty_chamber() {
    let mut inv = Inventory::Revolver(vec![10, 20, 30]);
    assert_eq!(use_active_item(&mut inv), Some(10));
    assert_eq!(inv, Inventory::Revolver(vec![20, 30, 10]));
    assert_eq!(use_active_item(&mut inv), Some(20));
    assert_eq!(use_active_item(&mut inv), Some(30));
    // Three uses cycle the cylinder back to where it started.
    assert_eq!(inv, Inventory::Revolver(vec![10, 20, 30]));
    let mut empty = Inventory::Revolver(vec![]);
    assert_eq!(use_active_item(&mut empty), None);
    assert_eq!(empty, Inventory::Revolver(vec![]));
}

#[test]
fn hands_fire_without_rotation() {
    let mut one = Inventory::OneHanded(Some(5));
    assert_eq!(use_active_item(&mut one), Some(5));
    assert_eq!(one, Inventory::OneHanded(Some(5)));
    let mut none = Inventory::OneHanded(None);
    assert_eq!(use_active_item(&mut none), None);
    let mut both = Inventory::DoubleHanded(Some(6), 7);
    assert_eq!(use_active_item(&mut both), Some(6));
    assert_eq!(both, Inventory::DoubleHanded(Some(6), 7));
}

#[test]
fn use_key_gates_the_inventory() {
    let mut inv = Inventory::Revolver(vec![10, 20]);
    let pos = Vec2I::new(3, 4);
    let dir = Vec2I::new(1, 0);
    assert_eq!(use_item_player(false, &mut inv, pos, dir), None);
    assert_eq!(inv, Inventory::Revolver(vec![10, 20]));
    let event = use_item_player(true, &mut inv, pos, dir);
    assert_eq!(
        event,
        Some(ItemEvent::Used { entity: 10, position: pos, direction: dir })
    );
    assert_eq!(inv, Inventory::Revolver(vec![20, 10]));
}

#[test]
fn bullet_flies_straight_and_expires() {
    let start = Vec2I::new(100, 0);
    let dir = Vec2I::new(1, 0);
    let trajectory = Trajectory::straight(start, dir, 1000);
    let mut lifetime = Lifetime { current: 0, lifespan: 2000 };
    // Halfway through its lifetime the bullet is halfway along its path.
    lifetime.current = 1000;
    assert_eq!(move_bullet(&trajectory, &lifetime), Some(Vec2I::new(600, 0)));
    // At the very start it has no bracket yet (t == first waypoint time).
    lifetime.current = 0;
    assert_eq!(move_bullet(&trajectory, &lifetime), None);
    // A lifetime tick past the lifespan retires it.
    let mut l = Lifetime { current: 1990, lifespan: 2000 };
    assert!(!tick_lifetime(&mut l, 5));
    assert!(tick_lifetime(&mut l, 10));
    assert_eq!(l.current, 2005);
}

#[test]
fn bullet_item_spawns_only_for_its_entities() {
    let event = ItemEvent::Used {
        entity: 42,
        position: Vec2I::new(0, 0),
        direction: Vec2I::new(1, 0),
    };
    let spawn = casual_bullet_item::use_item(&event, &vec![41, 42]).unwrap();
    assert_eq!(spawn.lifetime.lifespan, 2000);
    assert_eq!(spawn.trajectory.0[1].0, Vec2I::new(1000, 0));
    assert!(casual_bullet_item::use_item(&event, &vec![41]).is_none());
    let dropped = ItemEvent::Dropped { entity: 42, position: Vec2I::new(0, 0) };
    assert!(casual_bullet_item::use_item(&dropped, &vec![42]).is_none());
}

#[test]
fn console_item_logs_its_message() {
    let mut log = DebugLog::new();
    let event = ItemEvent::Used {
        entity: 8,
        position: Vec2I::new(0, 0),
        direction: Vec2I::new(1, 0),
    };
    console_item::use_item(&event, &vec![(8, String::from("yallo"))], &mut log);
    assert_eq!(log.lines.len(), 1);
    assert_eq!(log.lines[0].key, "Console Item");
    assert_eq!(log.lines[0].value, "yallo");
    // An event for an entity without a console item logs nothing.
    console_item::use_item(
        &ItemEvent::Dropped { entity: 8, position: Vec2I::new(0, 0) },
        &vec![(8, String::from("x"))],
        &mut log,
    );
    assert_eq!(log.lines.len(), 1);
}

#[test]
fn console_log_upserts_by_key() {
    let mut log = DebugLog::new();
    log.changed = false;
    console_log(&mut log, String::from("fps"), String::from("60"));
    assert_eq!(log.lines.len(), 1);
    assert!(log.changed);
    log.changed = false;
    // The same key and value change nothing.
    console_log(&mut log, String::from("fps"), String::from("60"));
    assert!(!log.changed);
    // A new value overwrites in place.
    console_log(&mut log, String::from("fps"), String::from("59"));
    assert_eq!(log.lines.len(), 1);
    assert_eq!(log.lines[0].value, "59");
    assert!(log.changed);
    // A second key appends.
    console_log(&mut log, String::from("pos"), String::from("3,4"));
    assert_eq!(log.lines.len(), 2);
    clear_console(&mut log);
    assert!(log.lines.is_empty());
}

#[test]
fn console_log_drops_new_keys_when_full() {
    let mut log = DebugLog::new();
    for i in 0..100 {
        console_log(&mut log, format!("k{}", i), String::from("v"));
    }
    assert_eq!(log.lines.len(), 100);
    console_log(&mut log, String::from("one-more"), String::from("v"));
    assert_eq!(log.lines.len(), 100);
    // Existing keys still update.
    console_log(&mut log, String::from("k7"), String::from("w"));
    assert_eq!(log.lines[7].value, "w");
}

#[test]
fn overlay_renders_and_zooms() {
    let mut log = DebugLog::new();
    console_log(&mut log, String::from("hp"), String::from("2"));
    let style = TextStyle { font: 0, font_size: 24, color: rgb_u8(255, 255, 255) };
    let mut sections = write_console_log(&log, style);
    assert_eq!(sections.len(), 2);
    assert_eq!(sections[0].text, "DEBUG\n");
    assert_eq!(sections[1].text, "hp: 2\n");
    zoom_in_console_log(&mut sections);
    assert_eq!(sections[0].style.font_size, 25);
    zoom_out_console_log(&mut sections);
    zoom_out_console_log(&mut sections);
    assert_eq!(sections[1].style.font_size, 23);
}

#[test]
fn doors_sit_in_their_walls() {
    assert_eq!(Door::Left.position(0, 0), Vec2I::new(-640, 0));
    assert_eq!(Door::Top.position(0, 0), Vec2I::new(0, 520));
    assert_eq!(Door::Right.position(1920, 0), Vec2I::new(640 + 1920, 0));
    assert_eq!(Door::Bottom.anchor(), Anchor::BottomCenter);
    assert_eq!(Door::Left.exit_delta(), (-1, 0));
    assert_eq!(Door::Top.exit_delta(), (0, 1));
}

#[test]
fn wall_colliders_leave_door_gaps() {
    let pts = WallLocation::BottomRight.collider();
    assert_eq!(pts.len(), 3);
    assert_eq!(pts[0], Vec2I::new(-WALL_WIDTH + DOOR_WIDTH / 2, WALL_THICKNESS));
    assert_eq!(pts[1], Vec2I::new(-WALL_THICKNESS, WALL_THICKNESS));
    assert_eq!(pts[2], Vec2I::new(-WALL_THICKNESS, WALL_HEIGHT - DOOR_WIDTH / 2));
    let tl = WallLocation::TopLeft.collider();
    assert_eq!(tl[0], Vec2I::new(WALL_WIDTH - DOOR_WIDTH / 2, -WALL_THICKNESS));
}

#[test]
fn dungeon_moves_between_its_rooms() {
    let mut d = Dungeon::new();
    assert!(d.get_current_room().is_some());
    // The second room is straight up.
    let spawned = move_rooms(&mut d, 0, 1);
    assert!(spawned.is_some());
    let s = spawned.unwrap();
    assert_eq!(s.walls.len(), 4);
    assert_eq!(s.doors.len(), 4);
    assert_eq!(s.doors[0].door, Door::Left);
    // Door positions carry the one-screen offset upward.
    assert_eq!(s.doors[3].position, Vec2I::new(0, 520 + 1080));
    // There is no room to the right of the start.
    let mut d2 = Dungeon::new();
    assert!(move_rooms(&mut d2, 1, 0).is_none());
    assert_eq!(d2.current_room_x, 1);
}

#[test]
fn room_spawn_keeps_floor_texture() {
    let d = Dungeon::new();
    let room = d.get_current_room().unwrap();
    let s = room.spawn(0, 0);
    assert_eq!(s.floor_texture, "textures/wooden-floor.png");
    assert_eq!(s.floor_size, Vec2I::new(1040, 800));
}

#[test]
fn hearts_above_life_go_black() {
    let hearts = vec![(1u32, 11u64), (2, 12), (3, 13)];
    let tints = update_life(2, &hearts);
    assert_eq!(tints[0], (11, rgb_u8(255, 255, 255)));
    assert_eq!(tints[1], (12, rgb_u8(255, 255, 255)));
    assert_eq!(tints[2], (13, rgb_u8(0, 0, 0)));
    let none_left = update_life(0, &hearts);
    assert_eq!(none_left[0].1, rgb_u8(0, 0, 0));
}

#[test]
fn straight_trajectory_spans_the_lifetime() {
    let t = Trajectory::straight(Vec2I::new(5, 6), Vec2I::new(0, 1), 200);
    assert_eq!(t.0.len(), 2);
    assert_eq!(t.0[0].0, Vec2I::new(5, 6));
    assert_eq!(t.0[0].1, 0);
    assert_eq!(t.0[1].0, Vec2I::new(5, 206));
    assert_eq!(t.0[1].1, 1000);
}

#[test]
fn bullet_stays_put_past_its_path() {
    let trajectory = Trajectory::straight(Vec2I::new(0, 0), Vec2I::new(1, 0), 100);
    // At the end of its lifetime the bullet sits at the end of its path.
    let done = Lifetime { current: 2000, lifespan: 2000 };
    assert_eq!(move_bullet(&trajectory, &done), Some(Vec2I::new(100, 0)));
    // Past the last waypoint there is no bracket to interpolate in.
    let over = Lifetime { current: 2500, lifespan: 2000 };
    assert_eq!(move_bullet(&trajectory, &over), None);
    // A quarter of the way through, a quarter of the path.
    let quarter = Lifetime { current: 500, lifespan: 2000 };
    assert_eq!(move_bullet(&trajectory, &quarter), Some(Vec2I::new(25, 0)));
}

#[test]
fn diagonal_movement_adds_both_axes() {
    let moved = move_player(Vec2I::new(0, 0), false, true, true, false, 100);
    assert_eq!(moved, Vec2I::new(50, 50));
    // Opposite keys cancel.
    let still = move_player(Vec2I::new(10, 10), true, true, false, false, 100);
    assert_eq!(still, Vec2I::new(10, 10));
}
