use polar_game::builder::PolarGameBuilder;
use polar_game::enemy::Enemy;
use polar_game::flare::Flare;
use polar_game::game::{draw_til_flare, ExternalInput, GameSetup, PolarGame, Times};
use polar_game::high_score::HighScore;
use polar_game::object::{angular_overlap, collision, emod_i64, Object, Point};
use polar_game::player::Player;
use polar_game::rng::rng_from_seed;
use polar_game::sun::Sun;

fn default_setup() -> GameSetup {
    GameSetup::default()
}

fn idle_input() -> ExternalInput {
    ExternalInput {
        up: false,
        down: false,
        left: false,
        right: false,
        pause_key: false,
        reset_key: false,
        joy_x: 0,
        joy_y: 0,
    }
}

#[test]
fn angular_overlap_across_seam() {
    // [0.95, 1.05) wraps through the seam and overlaps [0.0, 0.02).
    assert!(angular_overlap(950_000, 1_050_000, 0, 20_000));
    assert!(angular_overlap(0, 20_000, 950_000, 1_050_000));
    // Disjoint arcs do not overlap.
    assert!(!angular_overlap(100_000, 200_000, 300_000, 400_000));
    assert!(!angular_overlap(300_000, 400_000, 100_000, 200_000));
}

#[test]
fn angular_overlap_touching_is_not_overlap() {
    assert!(!angular_overlap(0, 100_000, 100_000, 200_000));
    assert!(!angular_overlap(100_000, 200_000, 0, 100_000));
}

#[test]
fn angular_overlap_degenerate_is_empty() {
    // Zero-width intervals overlap nothing, not even themselves.
    assert!(!angular_overlap(50_000, 50_000, 0, 1_000_000));
    assert!(!angular_overlap(0, 1_000_000, 50_000, 50_000));
}

#[test]
fn angular_overlap_full_circle_hits_everything() {
    assert!(angular_overlap(0, 1_000_000, 123_456, 123_457));
    assert!(angular_overlap(123_456, 123_457, 0, 1_000_000));
}

#[test]
fn emod_normalizes_into_one_revolution() {
    assert_eq!(emod_i64(1_290_000), 290_000);
    assert_eq!(emod_i64(-10_000), 990_000);
    assert_eq!(emod_i64(0), 0);
    assert_eq!(emod_i64(-1_000_000), 0);
}

#[test]
fn collision_is_symmetric_on_object_pairs() {
    let player = Player::new(Point { x: 990_000, y: 750_000 }, Point { x: 20_000, y: 10_000 });
    let sun = Sun::new(1_000_000);
    // The player dips into the sun's radial band.
    assert!(collision(&player, &sun));
    assert_eq!(collision(&player, &sun), collision(&sun, &player));

    let far_player = Player::new(Point { x: 4_000_000, y: 750_000 }, Point { x: 20_000, y: 10_000 });
    assert!(!collision(&far_player, &sun));
    assert_eq!(collision(&far_player, &sun), collision(&sun, &far_player));

    let flare = Flare::new(Point { x: 50_000, y: 10_000 }, 750_000, 300);
    assert_eq!(collision(&flare, &player), collision(&player, &flare));
}

#[test]
fn flare_motion_is_frame_rate_independent() {
    let bystander = Player::new(Point { x: 4_000_000, y: 0 }, Point { x: 20_000, y: 10_000 });
    // Ten steps of 0.1 s ...
    let mut by_tenths = Flare::new(Point { x: 50_000, y: 10_000 }, 500_000, 300);
    for _ in 0..10 {
        by_tenths.update_position(100, &bystander);
    }
    // ... and one step of 1.0 s land at exactly the same radial position.
    let mut in_one = Flare::new(Point { x: 50_000, y: 10_000 }, 500_000, 300);
    in_one.update_position(1_000, &bystander);
    assert_eq!(by_tenths.position.x, in_one.position.x);
    assert_eq!(in_one.position.x, 300_000);
    // Angular position and size never change.
    assert_eq!(by_tenths.position.y, 500_000);
    assert_eq!(by_tenths.size, in_one.size);
}

#[test]
fn flare_cull_boundaries_are_inclusive() {
    let bound = Point { x: -1_000_000, y: 10_000_000 };
    let mut f = Flare::new(Point { x: 50_000, y: 10_000 }, 0, 300);

    f.position.x = -1_000_000; // exactly on the lower bound: kept
    assert!(!f.terminate_flag(bound));
    f.position.x = -1_000_001; // just outside: culled
    assert!(f.terminate_flag(bound));
    f.position.x = 10_000_000; // exactly on the upper bound: kept
    assert!(!f.terminate_flag(bound));
    f.position.x = 10_000_001; // just outside: culled
    assert!(f.terminate_flag(bound));
    f.position.x = 0;
    assert!(!f.terminate_flag(bound));
}

#[test]
fn spawn_gaps_shrink_as_the_run_goes_on() {
    // Spawn waiting times are never negative, and their sample mean at 100 s
    // of survival is far below the sample mean at the start of a run.
    let mut rng = rng_from_seed(7);
    let mut sum_at_start: i64 = 0;
    for _ in 0..400 {
        let (t, _draws) = draw_til_flare(&mut rng, 0);
        assert!(t >= 0);
        sum_at_start += t;
    }
    let mut sum_later: i64 = 0;
    for _ in 0..400 {
        let (t, _draws) = draw_til_flare(&mut rng, 100_000);
        assert!(t >= 0);
        sum_later += t;
    }
    assert!(sum_later < sum_at_start);
}

#[test]
fn reset_clears_the_run_but_keeps_the_record() {
    let mut game = PolarGame::new(default_setup(), 5_000_000, 42);
    // One long tick: the waiting time is capped at 600 s, so a 601 s tick
    // always spawns a flare.
    game.update_logic(601_000);
    assert_eq!(game.get_flares().len(), 1);

    // Request a reset and tick once.
    let mut inp = idle_input();
    inp.reset_key = true;
    game.update_input(inp);
    game.update_logic(100);

    assert_eq!(game.get_flares().len(), 0);
    let p = game.get_player();
    assert_eq!(p.position, Point { x: 4_000_000, y: 750_000 });
    assert!(!p.destroyed);
    let t = game.get_time();
    assert_eq!(t.elapsed, 0);
    assert_eq!(t.previous_flare, 0);
    assert_eq!(t.start, 0);
    let h = game.get_high_score();
    assert_eq!(h.current_score, 0);
    assert_eq!(h.record, 5_000_000);
}

#[test]
fn held_pause_key_toggles_exactly_once() {
    let mut game = PolarGame::new(default_setup(), 0, 1);
    let mut held = idle_input();
    held.pause_key = true;

    // Five consecutive ticks of a held key: exactly one transition.
    for _ in 0..5 {
        game.update_input(held);
    }
    assert!(game.input_keys.pause);
    assert!(game.input_keys.pause_lock);

    // While paused, a tick changes nothing.
    let elapsed_before = game.get_time().elapsed;
    let flares_before = game.get_flares().len();
    game.update_logic(601_000);
    assert_eq!(game.get_time().elapsed, elapsed_before);
    assert_eq!(game.get_flares().len(), flares_before);

    // Releasing the key only releases the latch.
    game.update_input(idle_input());
    assert!(game.input_keys.pause);
    assert!(!game.input_keys.pause_lock);

    // A second press-and-hold unpauses, again exactly once.
    for _ in 0..3 {
        game.update_input(held);
    }
    assert!(!game.input_keys.pause);
    assert!(game.input_keys.pause_lock);
}

#[test]
fn player_descending_into_the_sun_is_destroyed() {
    // With the default setup the player starts at radius 4.0; the sun's band
    // reaches 1.0. Descending at 0.3 units per second with one-second ticks,
    // the parts first overlap when the player reaches radius 1.0.
    let setup = default_setup();
    let mut player = Player::new(setup.player_start, setup.player_width);
    let sun = Sun::new(1_000_000);
    let inward = Point { x: -300, y: 0 };

    let mut first_hit_tick: Option<u32> = None;
    for tick in 1..=12 {
        player.update_position(inward, 1_000, setup);
        if collision(&player, &sun) {
            player.collide();
            first_hit_tick = Some(tick);
            break;
        }
    }
    assert_eq!(first_hit_tick, Some(10));
    assert!(player.destroyed);
    assert_eq!(player.position.x, 4_000_000 - 10 * 300_000);
}

#[test]
fn whole_game_kills_the_descending_player() {
    let mut game = PolarGame::new(default_setup(), 0, 9);
    let mut inp = idle_input();
    inp.down = true; // descend at 0.3 units per second
    game.update_input(inp);
    for _ in 0..10 {
        game.update_logic(1_000);
    }
    // After ten seconds the player has reached the sun (a flare may have
    // struck even earlier); either way the run is over.
    assert!(game.get_player().destroyed);
}

#[test]
fn player_clamps_at_the_origin_and_wraps_the_seam() {
    let setup = default_setup();
    let mut player = Player::new(Point { x: 0, y: 990_000 }, setup.player_width);
    player.update_position(Point { x: -300, y: 300 }, 1_000, setup);
    assert_eq!(player.position.x, 0); // clamped at the tunnel origin
    assert_eq!(player.position.y, 290_000); // wrapped modulo one revolution

    let mut player2 = Player::new(Point { x: 7_900_000, y: 0 }, setup.player_width);
    player2.update_position(Point { x: 300, y: -300 }, 1_000, setup);
    assert_eq!(player2.position.x, 8_000_000); // clamped at the tunnel end
    assert_eq!(player2.position.y, 700_000); // wrapped below the seam
}

#[test]
fn spawned_flares_stay_in_their_documented_ranges() {
    let mut game = PolarGame::new(default_setup(), 0, 1234);
    for _ in 0..25 {
        game.update_logic(601_000);
        let flares = game.get_flares();
        // A 601 s tick always fires the spawn clock, so a flare was pushed
        // this tick and is the last element.
        assert!(!flares.is_empty());
        let f = flares[flares.len() - 1];
        assert_eq!(f.position.x, 0);
        assert!(f.position.y < 1_000_000);
        assert!((20_000..70_000).contains(&f.size.x));
        assert!((5_000..25_000).contains(&f.size.y));
        assert!((100..600).contains(&f.velocity));
    }
}

#[test]
fn score_accrues_only_while_alive_and_record_tracks_best() {
    let mut h = HighScore::new(1_000);
    h.update(500);
    assert_eq!(h.current_score, 500);
    assert_eq!(h.record, 1_000);
    h.update(600);
    assert_eq!(h.current_score, 1_100);
    assert_eq!(h.record, 1_100);
    h.reset();
    assert_eq!(h.current_score, 0);
    assert_eq!(h.record, 1_100);

    // In a running game the score follows the tick length while alive.
    let mut game = PolarGame::new(default_setup(), 0, 3);
    game.update_logic(100);
    game.update_logic(100);
    assert_eq!(game.get_high_score().current_score, 200);
    assert_eq!(game.get_high_score().record, 200);
}

#[test]
fn view_follows_the_player() {
    let mut game = PolarGame::new(default_setup(), 0, 5);
    game.update_view_details();
    let v = game.get_view();
    assert_eq!(v.radial_shift, 4_000_000 - 750_000);
    assert_eq!(v.rotation_angle, 750_000 + 250_000 + 5_000);
    assert_eq!(v.length_total, 4_250_000);
}

#[test]
fn fresh_game_renders_frame_player_and_sun() {
    let game = PolarGame::new(default_setup(), 0, 8);
    let parts = game.get_render_parts();
    // Four frame parts, one player part, no flares, one sun part.
    assert_eq!(parts.len(), 6);
    let sun_part = parts[5];
    assert_eq!(sun_part.radial_min, 0);
    assert_eq!(sun_part.radial_max, 1_000_000);
    assert_eq!(sun_part.angular_min, 0);
    assert_eq!(sun_part.angular_max, 1_000_000);
    let player_part = parts[4];
    assert_eq!(player_part.radial_min, 4_000_000 - 10_000);
    assert_eq!(player_part.radial_max, 4_000_000 + 10_000);
    assert_eq!(player_part.angular_min, 750_000 - 5_000);
    assert_eq!(player_part.angular_max, 750_000 + 5_000);
}

#[test]
fn builder_configures_the_session() {
    let mut b = PolarGameBuilder::default();
    let game = b
        .with_tunnel_length(9_000_000)
        .with_player_start(Point { x: 5_000_000, y: 250_000 })
        .with_player_width(Point { x: 30_000, y: 20_000 })
        .build_game(700, 11);
    assert_eq!(game.setup.radial_max, 9_000_000);
    assert_eq!(game.get_player().position, Point { x: 5_000_000, y: 250_000 });
    assert_eq!(game.get_player().width, Point { x: 30_000, y: 20_000 });
    assert_eq!(game.get_high_score().record, 700);
}

#[test]
fn times_start_aligned_with_waiting_time_drawn() {
    let mut rng = rng_from_seed(21);
    let t = Times::new(0, &mut rng);
    assert_eq!(t.start, 0);
    assert_eq!(t.elapsed, 0);
    assert_eq!(t.previous_flare, 0);
    assert!(t.til_flare >= 0);
    assert!(t.til_flare <= 600_000);
}

#[test]
fn culled_flares_leave_the_active_set_within_their_tick() {
    // A fast flare crosses the far cull bound (radial_max + 2 = 10 units)
    // and is gone at the end of the tick that carried it out.
    let mut game = PolarGame::new(default_setup(), 0, 13);
    game.update_logic(601_000); // spawns one flare at radius 0
    assert_eq!(game.get_flares().len(), 1);
    let v = game.get_flares()[0].velocity; // at least 0.1 units per second
    // 601 s at >= 0.1 units/s carries it past 10 units; a second long tick
    // moves it out and culls it, while spawning one replacement.
    game.update_logic(601_000);
    assert!(v * 601_000 > 10_000_000 + 1_000_000);
    assert_eq!(game.get_flares().len(), 1);
    assert_eq!(game.get_flares()[0].position.x, 0);
}

#[test]
fn render_parts_keep_their_order_with_flares() {
    let mut game = PolarGame::new(default_setup(), 0, 77);
    game.update_logic(601_000); // spawns exactly one flare
    assert_eq!(game.get_flares().len(), 1);
    let flare = game.get_flares()[0];
    let parts = game.get_render_parts();
    // Four frame parts, the player, one flare, the sun.
    assert_eq!(parts.len(), 7);
    assert_eq!(parts[5].radial_min, flare.position.x);
    assert_eq!(parts[5].radial_max, flare.position.x + flare.size.x);
    assert_eq!(parts[6].radial_max, 1_000_000); // the sun comes last
}

#[test]
fn init_restarts_clocks_but_keeps_the_world() {
    let mut game = PolarGame::new(default_setup(), 2_000_000, 31);
    game.update_logic(601_000);
    let player_before = *game.get_player();
    let flares_before = game.get_flares().len();
    game.init();
    assert_eq!(game.get_time().elapsed, 0);
    assert_eq!(game.get_time().previous_flare, 0);
    assert_eq!(game.get_high_score().current_score, 0);
    assert_eq!(game.get_high_score().record, 2_000_000);
    assert_eq!(*game.get_player(), player_before);
    assert_eq!(game.get_flares().len(), flares_before);
}

#[test]
fn reset_works_even_while_paused() {
    let mut game = PolarGame::new(default_setup(), 3_000_000, 57);
    game.update_logic(601_000); // spawns one flare
    assert_eq!(game.get_flares().len(), 1);

    // Pause the game with a press of the pause key.
    let mut held = idle_input();
    held.pause_key = true;
    game.update_input(held);
    assert!(game.input_keys.pause);

    // Release the pause key and request a reset while still paused.
    let mut reset_inp = idle_input();
    reset_inp.reset_key = true;
    game.update_input(reset_inp);
    assert!(game.input_keys.pause);
    game.update_logic(100);

    // The reset went through and the game is running again.
    assert!(!game.input_keys.pause);
    assert_eq!(game.get_flares().len(), 0);
    assert_eq!(game.get_player().position, Point { x: 4_000_000, y: 750_000 });
    assert!(!game.get_player().destroyed);
    assert_eq!(game.get_time().elapsed, 0);
    assert_eq!(game.get_high_score().record, 3_000_000);

    // And the next tick simulates again.
    game.update_input(idle_input());
    game.update_logic(100);
    assert_eq!(game.get_time().elapsed, 100);
}

#[test]
fn score_lines_format_seconds_with_two_decimals() {
    let mut h = HighScore::new(0);
    assert_eq!(h.get_score_string(), "Current Score: 0.00");
    assert_eq!(h.get_record_string(), "Record: 0.00");

    h.update(12_345);
    assert_eq!(h.get_score_string(), "Current Score: 12.34");
    assert_eq!(h.get_record_string(), "Record: 12.34");

    let h2 = HighScore::new(90_060);
    assert_eq!(h2.get_record_string(), "Record: 90.06");

    let mut h3 = HighScore::new(1_000);
    h3.update(999);
    assert_eq!(h3.get_score_string(), "Current Score: 0.99");
    h3.update(11); // 1_010 ms in all
    assert_eq!(h3.get_score_string(), "Current Score: 1.01");

    let h4 = HighScore::new(1_000_000_000);
    assert_eq!(h4.get_record_string(), "Record: 1000000.00");
}

#[test]
fn record_is_stored_exactly_when_matched() {
    let mut h = HighScore::new(1_000);
    assert!(!h.should_store());
    h.update(999);
    assert!(!h.should_store());
    h.update(1); // the run now equals the record
    assert!(h.should_store());
    h.update(5);
    assert!(h.should_store());
}
