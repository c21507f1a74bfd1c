use rhythm::{
    did_hit, parse_level, Angle, Ball, Camera, GameState, Head, LevelMap, LoadError,
    MoveNextReturn, Position, TileDirection, DEFAULT_FACING,
};

fn tags(names: &[&str]) -> Vec<String> {
    names.iter().map(|n| n.to_string()).collect()
}

fn game_with(levels: &[&[&str]]) -> GameState {
    let records: Vec<Vec<String>> = levels.iter().map(|l| tags(l)).collect();
    let mut g = GameState::new();
    g.get_map_mut().load_levels(&records).unwrap();
    g
}

fn dirs(map: &LevelMap) -> Vec<TileDirection> {
    map.get_tiles().iter().map(|t| t.next_dir).collect()
}

#[test]
fn angle_normalizes_any_stored_value() {
    assert_eq!(Angle(0).get(), 0);
    assert_eq!(Angle(360).get(), 0);
    assert_eq!(Angle(-90).get(), 270);
    assert_eq!(Angle(725).get(), 5);
    assert_eq!(Angle(-725).get(), 355);
    assert_eq!(Angle(i64::MIN).get(), (i64::MIN).rem_euclid(360));
    assert_eq!(Angle(i64::MAX).get(), (i64::MAX).rem_euclid(360));
    assert_eq!(Angle::default().get(), 270);
}

#[test]
fn angle_accumulates_without_renormalizing() {
    let mut a = Angle::default();
    for _ in 0..100_000 {
        a.sub_assign(Angle(5));
        assert!((0..360).contains(&a.get()));
    }
    assert_eq!(a.0, -90 - 500_000);
    assert_eq!(a.get(), (-90i64 - 500_000).rem_euclid(360));
    let mut b = Angle(10);
    b.add_assign(Angle(i64::MAX - 10));
    assert_eq!(b.0, i64::MAX);
    assert_eq!(b.get(), i64::MAX.rem_euclid(360));
    let mut c = Angle(10);
    c.sub_assign(Angle(15));
    assert_eq!(c.0, -5);
    assert_eq!(c.get(), 355);
    c.add_assign(Angle(730));
    assert_eq!(c.0, 725);
    assert_eq!(c.get(), 5);
}

#[test]
fn down_window_wraps() {
    let r = TileDirection::Down.get_range();
    assert_eq!(r, (335, 25));
    assert!(did_hit(&Angle(358), &r));
    assert!(did_hit(&Angle(2), &r));
    assert!(!did_hit(&Angle(180), &r));
    assert!(did_hit(&Angle(335), &r));
    assert!(did_hit(&Angle(25), &r));
    assert!(!did_hit(&Angle(26), &r));
    assert!(!did_hit(&Angle(334), &r));
}

#[test]
fn right_window_does_not_wrap() {
    let r = TileDirection::Right.get_range();
    assert_eq!(r, (65, 115));
    assert!(did_hit(&Angle(90), &r));
    assert!(!did_hit(&Angle(200), &r));
    assert!(did_hit(&Angle(65), &r));
    assert!(did_hit(&Angle(115), &r));
    assert!(!did_hit(&Angle(116), &r));
    assert!(did_hit(&Angle(90 + 360 * 3), &r));
}

#[test]
fn direction_angles_ranges_and_steps() {
    assert_eq!(TileDirection::Up.get_angle().get(), 180);
    assert_eq!(TileDirection::Down.get_angle().get(), 0);
    assert_eq!(TileDirection::Left.get_angle().get(), 270);
    assert_eq!(TileDirection::Right.get_angle().get(), 90);
    assert_eq!(TileDirection::Up.get_range(), (155, 205));
    assert_eq!(TileDirection::Left.get_range(), (245, 295));
    assert_eq!(TileDirection::Right.get_move_pos(), Position { x: 75, y: 0 });
    assert_eq!(TileDirection::Left.get_move_pos(), Position { x: -75, y: 0 });
    assert_eq!(TileDirection::Up.get_move_pos(), Position { x: 0, y: -75 });
    assert_eq!(TileDirection::Down.get_move_pos(), Position { x: 0, y: 75 });
}

#[test]
fn tags_name_directions() {
    assert_eq!(TileDirection::from_tag("Up"), Some(TileDirection::Up));
    assert_eq!(TileDirection::from_tag("Down"), Some(TileDirection::Down));
    assert_eq!(TileDirection::from_tag("Left"), Some(TileDirection::Left));
    assert_eq!(TileDirection::from_tag("Right"), Some(TileDirection::Right));
    assert_eq!(TileDirection::from_tag("right"), None);
    assert_eq!(TileDirection::from_tag(""), None);
    assert_eq!(TileDirection::from_tag("Upp"), None);
}

#[test]
fn parse_level_reports_first_unknown_tag() {
    let ok = parse_level(&tags(&["Right", "Up"])).unwrap();
    assert_eq!(ok.len(), 2);
    assert_eq!(ok[0].next_dir, TileDirection::Right);
    assert_eq!(ok[1].next_dir, TileDirection::Up);
    assert_eq!(parse_level(&tags(&["Up", "North", "Sideways"])), Err(1));
    assert!(parse_level(&tags(&[])).unwrap().is_empty());
}

#[test]
fn load_round_trip() {
    let g = game_with(&[&["Left", "Down"]]);
    assert_eq!(dirs(g.get_map()), vec![TileDirection::Left, TileDirection::Down]);
    assert_eq!(g.get_map().level_count(), 1);
}

#[test]
fn load_keeps_levels_before_failure() {
    let mut fresh = LevelMap::new();
    assert_eq!(
        fresh.load_levels(&vec![tags(&["Up"]), tags(&["Nowhere"])]),
        Err(LoadError::UnknownDirection { level: 1, tile: 0 })
    );
    assert_eq!(fresh.level_count(), 1);
    assert_eq!(dirs(&fresh), vec![TileDirection::Up]);

    let mut map = LevelMap::new();
    map.load_levels(&vec![tags(&["Up"]), tags(&["Down"]), tags(&["Right"])]).unwrap();
    let bad = vec![tags(&["Left", "Left"]), tags(&["Left", "Nowhere"])];
    assert_eq!(
        map.load_levels(&bad),
        Err(LoadError::UnknownDirection { level: 1, tile: 1 })
    );
    assert_eq!(map.level_count(), 3);
    assert_eq!(dirs(&map), vec![TileDirection::Left, TileDirection::Left]);
}

#[test]
fn load_level_replaces_or_appends() {
    let mut map = LevelMap::new();
    map.load_level(0, &tags(&["Up", "Up"])).unwrap();
    map.load_level(1, &tags(&["Down"])).unwrap();
    assert_eq!(map.level_count(), 2);
    map.load_level(0, &tags(&["Right"])).unwrap();
    assert_eq!(map.level_count(), 2);
    assert_eq!(dirs(&map), vec![TileDirection::Right]);
    assert_eq!(
        map.load_level(1, &tags(&["Down", "Up", "West"])),
        Err(LoadError::UnknownDirection { level: 1, tile: 2 })
    );
    map.next_level();
    assert_eq!(dirs(&map), vec![TileDirection::Down]);
}

#[test]
fn readiness_and_layout_bounds() {
    let mut g = GameState::new();
    assert!(!g.is_ready());
    assert!(!g.get_map().can_lay_out(&Position { x: 0, y: 0 }));
    g.get_map_mut().load_levels(&vec![tags(&["Up", "Down"]), tags(&[])]).unwrap();
    assert!(g.is_ready());
    assert!(g.get_map().can_lay_out(&Position { x: 0, y: 0 }));
    assert!(g.get_map().can_lay_out(&Position { x: i64::MAX - 150, y: i64::MIN + 150 }));
    assert!(!g.get_map().can_lay_out(&Position { x: i64::MAX - 149, y: 0 }));
    assert!(!g.get_map().can_lay_out(&Position { x: 0, y: i64::MIN + 149 }));
    g.move_next(&Angle(180)).unwrap();
    assert_eq!(g.move_next(&Angle(0)), Some(MoveNextReturn::Reset));
    assert!(!g.is_ready());
    assert!(g.get_map().can_lay_out(&Position { x: i64::MAX, y: i64::MIN }));
}

#[test]
fn scenario_hit_advances_tile() {
    let mut g = game_with(&[&["Right", "Right", "Up"], &["Down"]]);
    let r = g.move_next(&Angle(90));
    assert_eq!(r, Some(MoveNextReturn::Move(TileDirection::Right)));
    assert_eq!(g.get_current_tile(), 1);
    assert_eq!(g.get_map().get_current_level(), 0);
}

#[test]
fn scenario_last_tile_resets_and_advances_level() {
    let mut g = game_with(&[&["Right", "Right", "Up"], &["Down"]]);
    g.move_next(&Angle(90)).unwrap();
    g.move_next(&Angle(90)).unwrap();
    assert_eq!(g.get_current_tile(), 2);
    let r = g.move_next(&Angle(180));
    assert_eq!(r, Some(MoveNextReturn::Reset));
    assert_eq!(g.get_current_tile(), 0);
    assert_eq!(g.get_map().get_current_level(), 1);
    assert_eq!(dirs(g.get_map()), vec![TileDirection::Down]);
}

#[test]
fn scenario_down_tile_rejects_thirty_degrees() {
    let mut g = game_with(&[&["Down", "Up"]]);
    assert_eq!(g.move_next(&Angle(30)), None);
    assert_eq!(g.get_current_tile(), 0);
    assert_eq!(g.get_map().get_current_level(), 0);
}

#[test]
fn scenario_down_tile_accepts_359_degrees() {
    let mut g = game_with(&[&["Down", "Up"]]);
    assert_eq!(
        g.move_next(&Angle(359)),
        Some(MoveNextReturn::Move(TileDirection::Down))
    );
    assert_eq!(g.get_current_tile(), 1);
}

#[test]
fn repeated_misses_change_nothing() {
    let mut g = game_with(&[&["Right", "Up"]]);
    for a in [0, 200, 300, 64, 116, -90] {
        assert_eq!(g.move_next(&Angle(a)), None);
        assert_eq!(g.get_current_tile(), 0);
        assert_eq!(g.get_map().get_current_level(), 0);
    }
}

#[test]
fn hits_progress_by_one_tile_or_reset() {
    let mut g = game_with(&[&["Up", "Left"], &["Right"]]);
    assert_eq!(g.move_next(&Angle(180)), Some(MoveNextReturn::Move(TileDirection::Up)));
    assert_eq!((g.get_current_tile(), g.get_map().get_current_level()), (1, 0));
    assert_eq!(g.move_next(&Angle(270)), Some(MoveNextReturn::Reset));
    assert_eq!((g.get_current_tile(), g.get_map().get_current_level()), (0, 1));
    assert_eq!(g.move_next(&Angle(90)), Some(MoveNextReturn::Reset));
    assert_eq!((g.get_current_tile(), g.get_map().get_current_level()), (0, 2));
}

#[test]
fn tile_positions_follow_steps() {
    let g = game_with(&[&["Right", "Up", "Left"]]);
    let ps = g.get_map().tile_positions(&Position { x: 10, y: 20 });
    assert_eq!(
        ps,
        vec![
            Position { x: 10, y: 20 },
            Position { x: 85, y: 20 },
            Position { x: 85, y: -55 },
            Position { x: 10, y: -55 },
        ]
    );
}

#[test]
fn ball_turns_back_by_speed() {
    let g = GameState::new();
    assert_eq!(g.get_speed(), 5);
    let mut ball = Ball::default();
    assert_eq!(ball.get_angle().get(), 270);
    ball.update(&g);
    assert_eq!(ball.get_angle().0, -95);
    assert_eq!(ball.get_angle().get(), 265);
    for _ in 0..54 {
        ball.update(&g);
    }
    assert_eq!(ball.get_angle().0, -365);
    assert_eq!(ball.get_angle().get(), 355);
}

#[test]
fn head_moves_and_reseeds_after_hit() {
    let mut g = game_with(&[&["Right", "Up", "Down"]]);
    let mut head = Head::new(Position { x: 400, y: 300 });
    assert_eq!(head.get_facing_angle().0, DEFAULT_FACING);
    let r = g.move_next(&Angle(90));
    let dir = match r {
        Some(MoveNextReturn::Move(d)) => d,
        other => panic!("unexpected outcome {:?}", other),
    };
    head.move_pos(&g, dir);
    assert_eq!(head.pos, Position { x: 475, y: 300 });
    assert_eq!(head.get_facing_angle().0, 360);
    assert_eq!(head.get_facing_angle().get(), 0);
    head.update(&g);
    assert_eq!(head.get_facing_angle().0, 355);
    assert_eq!(head.get_facing_angle().get(), 355);
    head.reset(Position { x: 1, y: 2 });
    assert_eq!(head.pos, Position { x: 1, y: 2 });
    assert_eq!(head.get_facing_angle().get(), 270);
}

#[test]
fn positions_add_and_subtract() {
    let mut p = Position::default();
    assert_eq!(p, Position { x: 0, y: 0 });
    p.add_assign(&Position { x: 3, y: -4 });
    assert_eq!(p, Position { x: 3, y: -4 });
    p.sub_assign(&Position { x: 1, y: 1 });
    assert_eq!(p, Position { x: 2, y: -5 });
    assert_eq!(p.add(&Position { x: 8, y: 5 }), Position { x: 10, y: 0 });
    assert_eq!(*Camera::new().get_pos(), Position { x: 0, y: 0 });
}
