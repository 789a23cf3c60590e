use rgame::ball::Ball;
use rgame::ball::EnemyPlugin;
use rgame::game::GamePlugin;
use rgame::game::Input;
use rgame::game::World;
use rgame::motion::Velocity;
use rgame::player::Intent;
use rgame::player::Player;
use rgame::player::PlayerPlugin;
use rgame::random::Draw;
use rgame::spark::Spark;
use rgame::spark::SparkPlugin;
use rgame::spark::SparkState;
use rgame::state::GameState;
use rgame::state::StatePlugin;
use rgame::timer::Timer;
use rgame::wall::is_in_or_on_wall;
use rgame::wall::Point;
use rgame::wall::WallLocation;
use rgame::wall::WallPlugin;

const SECOND: u64 = 1_000_000_000;
const FRAME: u64 = 15_625_000;

fn settings() -> GamePlugin {
    GamePlugin {
        wall: WallPlugin { left: -200, right: 200, bottom: -200, top: 200, thickness: 1 },
        player: PlayerPlugin { radius: 5, speed: 300 },
        enemy: EnemyPlugin {
            gen_num_per_time: 2,
            base_speed: 150,
            fluctuate_range: 250,
            radius: 3,
            period: SECOND,
        },
        spark: SparkPlugin {
            steady: true,
            bursting: true,
            gen_num_per_time: 3,
            base_speed: 150,
            fluctuate_range: 250,
            radius: 3,
            cool_down: SECOND,
            duration: 10 * SECOND,
        },
        state: StatePlugin { on_collision: GameState::Paused },
    }
}

fn resting() -> GamePlugin {
    let mut all = settings();
    all.enemy.base_speed = 0;
    all.enemy.fluctuate_range = 0;
    all.spark.base_speed = 0;
    all.spark.fluctuate_range = 0;
    all
}

fn in_round(settings: GamePlugin, spark: Spark) -> World {
    let mut world = World::new(settings);
    world.state = GameState::Running;
    world.mode = SparkState::Sparking(spark);
    world.player = Some(Player { pos: Point { x: 0, y: 0 }, radius: 5, speed: 300 });
    assert!(world.is_valid());
    world
}

fn input(elapsed: u64) -> Input {
    Input { elapsed, intent: Intent::none(), go_on: false }
}

fn go_on(elapsed: u64) -> Input {
    Input { elapsed, intent: Intent::none(), go_on: true }
}

fn ball(x: i64, y: i64, vx: i64, vy: i64) -> Ball {
    Ball { pos: Point { x, y }, velocity: Velocity { x: vx, y: vy }, radius: 3 }
}

fn some_draws() -> Vec<Draw> {
    vec![
        Draw { wall: WallLocation::Left, along: 0x8000_0000, speed_x: 0, speed_y: u32::MAX },
        Draw { wall: WallLocation::Top, along: 0x4000_0000, speed_x: 0x8000_0000, speed_y: 0x8000_0000 },
        Draw { wall: WallLocation::Right, along: 0, speed_x: 0, speed_y: 0 },
        Draw { wall: WallLocation::Bottom, along: u32::MAX, speed_x: u32::MAX, speed_y: 0 },
        Draw { wall: WallLocation::Left, along: u32::MAX, speed_x: 0x1234_5678, speed_y: 0x9abc_def0 },
        Draw { wall: WallLocation::Right, along: 0x2000_0000, speed_x: 7, speed_y: 9 },
        Draw { wall: WallLocation::Top, along: 0xe000_0000, speed_x: 11, speed_y: 13 },
        Draw { wall: WallLocation::Bottom, along: 0x6000_0000, speed_x: 15, speed_y: 17 },
    ]
}

#[test]
fn new_world_waits_in_the_menu() {
    let world = World::new(settings());
    assert!(world.is_valid());
    assert_eq!(world.state, GameState::Menu);
    assert_eq!(world.next_state, None);
    assert_eq!(world.mode, SparkState::Idle);
    assert_eq!(world.next_mode, None);
    assert_eq!(world.player, None);
    assert!(world.balls.is_empty());
    assert_eq!(world.spawn_timer, Timer { elapsed: 0, period: SECOND, times_finished: 0 });
    assert_eq!(world.cool_down, Timer { elapsed: 0, period: SECOND, times_finished: 0 });
    assert_eq!(world.duration, Timer { elapsed: 0, period: 10 * SECOND, times_finished: 0 });
    assert_eq!(world.round, 0);
    assert_eq!(world.settings, settings());
}

#[test]
fn standard_settings_are_valid() {
    let all = GamePlugin::standard();
    assert!(all.is_valid());
    assert_eq!(all.wall, WallPlugin::standard());
    assert_eq!(all.player, PlayerPlugin::standard());
    assert_eq!(all.enemy, EnemyPlugin::standard());
    assert_eq!(all.spark, SparkPlugin::standard());
    assert_eq!(all.state, StatePlugin::standard());
    assert!(World::new(all).is_valid());
}

#[test]
fn settings_without_room_for_the_player_are_not_valid() {
    let mut all = settings();
    assert!(all.is_valid());
    all.player.radius = 201;
    assert!(!all.is_valid());
    all.player.radius = 200;
    assert!(all.is_valid());
    all.wall.right = all.wall.left;
    assert!(!all.is_valid());
    let mut other = settings();
    other.enemy.period = 0;
    assert!(!other.is_valid());
    let mut third = settings();
    third.spark.steady = false;
    third.spark.bursting = false;
    assert!(!third.is_valid());
    let mut fourth = settings();
    fourth.state.on_collision = GameState::Running;
    assert!(!fourth.is_valid());
}

#[test]
fn world_without_its_player_is_not_valid_in_a_round() {
    let mut world = World::new(settings());
    world.state = GameState::Running;
    assert!(!world.is_valid());
    world.player = Some(Player { pos: Point { x: 196, y: 0 }, radius: 5, speed: 300 });
    assert!(!world.is_valid());
    world.player = Some(Player { pos: Point { x: 195, y: -195 }, radius: 5, speed: 300 });
    assert!(world.is_valid());
    world.duration.elapsed = world.duration.period;
    assert!(!world.is_valid());
}

#[test]
fn tick_outside_a_round_changes_nothing() {
    let mut world = World::new(settings());
    let before = world.clone();
    let held = Input {
        elapsed: 3 * SECOND,
        intent: Intent { up: true, down: false, left: true, right: false },
        go_on: false,
    };
    world.advance(&held, &some_draws(), 0);
    assert_eq!(world, before);
    world.step(&held);
    assert_eq!(world, before);
}

#[test]
fn paused_world_is_frozen() {
    let mut world = in_round(settings(), Spark::Steady);
    world.state = GameState::Paused;
    world.balls = vec![ball(1, 1, 100, 100), ball(500, 500, 1, 1)];
    world.round = 77;
    let before = world.clone();
    world.advance(&input(5 * SECOND), &some_draws(), 0);
    assert_eq!(world, before);
}

#[test]
fn go_on_begins_a_round() {
    let mut world = World::new(settings());
    world.advance(&go_on(FRAME), &some_draws(), 0);
    assert_eq!(world.state, GameState::Running);
    assert_eq!(world.next_state, None);
    assert_eq!(world.player, Some(Player { pos: Point { x: 0, y: 0 }, radius: 5, speed: 300 }));
    assert!(world.balls.is_empty());
    assert_eq!(world.round, 0);
    assert_eq!(world.mode, SparkState::Idle);
    assert_eq!(world.spawn_timer.elapsed, 0);
    assert_eq!(world.cool_down.elapsed, 0);
    assert_eq!(world.duration.elapsed, 0);
    assert!(world.is_valid());
}

#[test]
fn entering_running_leaves_one_player_and_no_ball() {
    let modes = [
        SparkState::Idle,
        SparkState::Sparking(Spark::Steady),
        SparkState::Sparking(Spark::Bursting),
    ];
    let states = [GameState::Menu, GameState::Paused];
    for mode in modes {
        for state in states {
            let mut world = World::new(settings());
            world.state = state;
            world.mode = mode;
            world.player = Some(Player { pos: Point { x: 150, y: -90 }, radius: 5, speed: 300 });
            world.balls = vec![ball(0, 0, 1, 1), ball(150, -90, 0, 0), ball(999, 999, 5, 5)];
            world.round = 42 * SECOND;
            world.duration.elapsed = 7 * SECOND;
            assert!(world.is_valid());
            world.advance(&go_on(FRAME), &some_draws(), 0);
            assert_eq!(world.state, GameState::Running);
            assert_eq!(world.player, Some(Player { pos: Point { x: 0, y: 0 }, radius: 5, speed: 300 }));
            assert!(world.balls.is_empty());
            assert_eq!(world.round, 0);
            assert_eq!(world.mode, mode);
            assert_eq!(world.duration.elapsed, 7 * SECOND);
        }
    }
}

#[test]
fn entering_running_by_chance_leaves_one_player_and_no_ball() {
    let mut world = World::new(settings());
    world.state = GameState::Paused;
    world.player = Some(Player { pos: Point { x: 150, y: -90 }, radius: 5, speed: 300 });
    world.balls = vec![ball(0, 0, 1, 1), ball(150, -90, 0, 0)];
    world.step(&go_on(FRAME));
    assert_eq!(world.state, GameState::Running);
    assert_eq!(world.player, Some(Player { pos: Point { x: 0, y: 0 }, radius: 5, speed: 300 }));
    assert!(world.balls.is_empty());
}

#[test]
fn go_on_is_not_heard_during_a_round() {
    let mut world = in_round(resting(), Spark::Steady);
    world.player = Some(Player { pos: Point { x: 50, y: 60 }, radius: 5, speed: 300 });
    world.balls = vec![ball(-100, -100, 0, 0)];
    world.round = 5;
    world.advance(&go_on(FRAME), &some_draws(), 0);
    assert_eq!(world.state, GameState::Running);
    assert_eq!(world.player.unwrap().pos, Point { x: 50, y: 60 });
    assert_eq!(world.balls, vec![ball(-100, -100, 0, 0)]);
    assert_eq!(world.round, 5 + FRAME);
}

#[test]
fn request_made_twice_is_as_one_request() {
    let mut once = in_round(resting(), Spark::Steady);
    let mut twice = once.clone();
    once.request_state(GameState::Paused);
    twice.request_state(GameState::Paused);
    twice.request_state(GameState::Paused);
    assert_eq!(once, twice);
    once.apply_transitions();
    twice.apply_transitions();
    assert_eq!(once, twice);
    assert_eq!(once.state, GameState::Paused);
    assert_eq!(once.next_state, None);
}

#[test]
fn later_request_replaces_the_earlier_one() {
    let mut world = World::new(settings());
    world.request_state(GameState::Running);
    world.request_state(GameState::Paused);
    assert_eq!(world.next_state, Some(GameState::Paused));
    assert_eq!(world.state, GameState::Menu);
    world.apply_transitions();
    assert_eq!(world.state, GameState::Paused);
    assert_eq!(world.player, None);
}

#[test]
fn request_is_applied_at_the_end_of_the_tick() {
    let mut world = in_round(resting(), Spark::Steady);
    world.balls = vec![ball(-100, 0, 1000, 0)];
    world.request_state(GameState::Menu);
    world.advance(&input(SECOND / 100), &some_draws(), 0);
    assert_eq!(world.state, GameState::Menu);
    assert_eq!(world.balls, vec![ball(-90, 0, 1000, 0)]);
    assert_eq!(world.round, SECOND / 100);
}

#[test]
fn request_for_the_state_that_holds_begins_no_round() {
    let mut world = in_round(resting(), Spark::Steady);
    world.player = Some(Player { pos: Point { x: 50, y: 60 }, radius: 5, speed: 300 });
    world.balls = vec![ball(-100, 0, 0, 0)];
    world.round = 9;
    world.request_state(GameState::Running);
    world.apply_transitions();
    assert_eq!(world.state, GameState::Running);
    assert_eq!(world.player.unwrap().pos, Point { x: 50, y: 60 });
    assert_eq!(world.balls.len(), 1);
    assert_eq!(world.round, 9);
}

#[test]
fn idle_tick_picks_the_spawner() {
    for (pick, spark) in [(0usize, Spark::Steady), (1, Spark::Bursting)] {
        let mut world = World::new(settings());
        world.advance(&go_on(FRAME), &some_draws(), pick);
        assert_eq!(world.mode, SparkState::Idle);
        world.advance(&input(FRAME), &some_draws(), pick);
        assert_eq!(world.mode, SparkState::Sparking(spark));
        assert_eq!(world.next_mode, None);
    }
    let mut only = settings();
    only.spark.steady = false;
    let mut world = World::new(only);
    world.advance(&go_on(FRAME), &some_draws(), 0);
    world.advance(&input(FRAME), &some_draws(), 0);
    assert_eq!(world.mode, SparkState::Sparking(Spark::Bursting));
}

#[test]
fn idle_tick_leaves_the_balls_and_the_timers() {
    let mut world = in_round(settings(), Spark::Steady);
    world.mode = SparkState::Idle;
    world.balls = vec![ball(0, 0, 100, 100), ball(900, 900, 1, 1)];
    world.spawn_timer.elapsed = 999_999_999;
    world.cool_down.elapsed = 999_999_999;
    world.duration.elapsed = 9_999_999_999;
    assert_eq!(world.due_now(SECOND), 0);
    let moving = Input {
        elapsed: SECOND / 10,
        intent: Intent { up: true, down: false, left: false, right: false },
        go_on: false,
    };
    world.advance(&moving, &some_draws(), 1);
    assert_eq!(world.state, GameState::Running);
    assert_eq!(world.balls, vec![ball(0, 0, 100, 100), ball(900, 900, 1, 1)]);
    assert_eq!(world.spawn_timer.elapsed, 999_999_999);
    assert_eq!(world.cool_down.elapsed, 999_999_999);
    assert_eq!(world.duration.elapsed, 9_999_999_999);
    assert_eq!(world.player.unwrap().pos, Point { x: 0, y: 30 });
    assert_eq!(world.round, SECOND / 10);
    assert_eq!(world.mode, SparkState::Sparking(Spark::Bursting));
}

#[test]
fn steady_regime_fires_once_per_period_with_two_balls() {
    let mut only = resting();
    only.spark.bursting = false;
    let mut world = World::new(only);
    world.advance(&go_on(400_000_000), &some_draws(), 0);
    world.advance(&input(400_000_000), &some_draws(), 0);
    assert_eq!(world.mode, SparkState::Sparking(Spark::Steady));
    assert!(world.balls.is_empty());
    let mut fires = 0;
    for frame in 1u64..=12 {
        let before = world.balls.len();
        let due = world.due_now(400_000_000);
        world.advance(&input(400_000_000), &some_draws(), 0);
        let added = world.balls.len() - before;
        assert_eq!(added as u128, due);
        assert!(added == 0 || added == 2);
        if added == 2 {
            fires += 1;
        }
        assert_eq!(world.balls.len() as u64, 2 * (frame * 400_000_000 / SECOND));
        assert_eq!(world.state, GameState::Running);
    }
    assert_eq!(fires, 4);
    assert_eq!(world.spawn_timer.elapsed, 800_000_000);
}

#[test]
fn steady_regime_does_not_depend_on_the_frame_rate() {
    let frames: [u64; 4] = [FRAME, 16_666_667, 50_000_000, 250_000_000];
    for frame in frames {
        let mut only = resting();
        only.spark.bursting = false;
        let mut world = in_round(only, Spark::Steady);
        let mut passed: u64 = 0;
        while passed + frame <= 5 * SECOND {
            world.advance(&input(frame), &some_draws(), 0);
            passed += frame;
            assert_eq!(world.balls.len() as u64, 2 * (passed / SECOND));
        }
        assert!(passed > 4 * SECOND);
        assert!(world.balls.len() >= 8);
    }
}

#[test]
fn burst_regime_ends_once_when_its_time_is_up() {
    let mut only = resting();
    only.spark.steady = false;
    let mut world = World::new(only);
    world.advance(&go_on(500_000_000), &some_draws(), 0);
    world.advance(&input(500_000_000), &some_draws(), 0);
    assert_eq!(world.mode, SparkState::Sparking(Spark::Bursting));
    let mut idles = 0;
    let mut sizes: Vec<usize> = Vec::new();
    for frame in 1..=20 {
        let before = world.balls.len();
        world.advance(&input(500_000_000), &some_draws(), 0);
        if world.balls.len() > before {
            sizes.push(world.balls.len() - before);
        }
        if world.mode == SparkState::Idle {
            idles += 1;
            assert_eq!(frame, 20);
        }
    }
    assert_eq!(idles, 1);
    assert_eq!(sizes, vec![3, 3, 3, 4, 4, 4, 5, 5, 5, 6]);
    assert_eq!(world.balls.len(), 42);
    assert_eq!(world.mode, SparkState::Idle);
    assert_eq!(world.due_now(10 * SECOND), 0);
    world.advance(&input(10 * SECOND), &some_draws(), 0);
    assert_eq!(world.balls.len(), 42);
    assert_eq!(world.mode, SparkState::Sparking(Spark::Bursting));
    assert_eq!(world.state, GameState::Running);
    world.advance(&input(500_000_000), &some_draws(), 0);
    assert_eq!(world.balls.len(), 42);
    world.advance(&input(500_000_000), &some_draws(), 0);
    assert_eq!(world.balls.len(), 45);
    assert_eq!(world.mode, SparkState::Sparking(Spark::Bursting));
}

#[test]
fn steady_regime_ends_when_its_time_is_up_too() {
    let mut world = in_round(resting(), Spark::Steady);
    world.duration.elapsed = 9 * SECOND;
    world.advance(&input(999_999_999), &some_draws(), 0);
    assert_eq!(world.mode, SparkState::Sparking(Spark::Steady));
    world.advance(&input(1), &some_draws(), 0);
    assert_eq!(world.mode, SparkState::Idle);
    assert_eq!(world.duration.elapsed, 0);
    assert_eq!(world.balls.len(), 2);
}

#[test]
fn tick_spawns_moves_and_culls_in_that_order() {
    let mut world = in_round(settings(), Spark::Steady);
    world.spawn_timer.elapsed = 950_000_000;
    world.balls = vec![ball(0, 100, 0, -50), ball(199, 0, 10, 0), ball(199, 50, 20, 0)];
    let moving = Input {
        elapsed: SECOND / 10,
        intent: Intent { up: false, down: false, left: false, right: true },
        go_on: false,
    };
    assert_eq!(world.due_now(SECOND / 10), 2);
    world.advance(&moving, &some_draws(), 0);
    assert_eq!(
        world.balls,
        vec![ball(0, 95, 0, -50), ball(200, 0, 10, 0), ball(-173, 0, 275, 0), ball(-94, 187, 67, -134)]
    );
    assert_eq!(world.player.unwrap().pos, Point { x: 30, y: 0 });
    assert_eq!(world.spawn_timer, Timer { elapsed: 50_000_000, period: SECOND, times_finished: 1 });
    assert_eq!(world.duration.elapsed, SECOND / 10);
    assert_eq!(world.round, SECOND / 10);
    assert_eq!(world.state, GameState::Running);
    assert!(world.is_valid());
}

#[test]
fn burst_tick_uses_the_burst_spawners_settings() {
    let mut all = settings();
    all.spark.radius = 9;
    all.spark.base_speed = 0;
    all.spark.fluctuate_range = 0;
    let mut world = in_round(all, Spark::Bursting);
    world.cool_down.elapsed = 999_999_999;
    world.duration.elapsed = 6 * SECOND;
    assert_eq!(world.due_now(1), 5);
    world.advance(&input(1), &some_draws(), 0);
    assert_eq!(world.balls.len(), 5);
    for made in &world.balls {
        assert_eq!(made.radius, 9);
        assert_eq!(made.velocity, Velocity { x: 0, y: 0 });
    }
    assert_eq!(world.balls[0].pos, Point { x: -200, y: 0 });
    assert_eq!(world.balls[4].pos, Point { x: -200, y: 199 });
    assert_eq!(world.spawn_timer.elapsed, 0);
    assert_eq!(world.cool_down.elapsed, 0);
}

#[test]
fn collision_pauses_the_round() {
    let mut world = in_round(resting(), Spark::Steady);
    world.balls = vec![ball(100, 100, 0, 0), ball(7, 0, 0, 0), ball(0, -7, 0, 0)];
    world.advance(&input(FRAME), &some_draws(), 0);
    assert_eq!(world.state, GameState::Paused);
    assert_eq!(world.next_state, None);
    assert_eq!(world.balls.len(), 3);
    assert_eq!(world.player.unwrap().pos, Point { x: 0, y: 0 });
    assert_eq!(world.round, FRAME);
    let frozen = world.clone();
    world.advance(&input(FRAME), &some_draws(), 0);
    assert_eq!(world, frozen);
    world.advance(&go_on(FRAME), &some_draws(), 0);
    assert_eq!(world.state, GameState::Running);
    assert!(world.balls.is_empty());
    assert_eq!(world.round, 0);
}

#[test]
fn collision_leads_to_the_menu_where_the_settings_say_so() {
    let mut all = resting();
    all.state.on_collision = GameState::Menu;
    let mut world = in_round(all, Spark::Bursting);
    world.balls = vec![ball(5, 5, 0, 0)];
    world.advance(&input(FRAME), &some_draws(), 0);
    assert_eq!(world.state, GameState::Menu);
}

#[test]
fn collision_is_strict_at_the_sum_of_the_radii() {
    let mut apart = in_round(resting(), Spark::Steady);
    apart.balls = vec![ball(8, 0, 0, 0), ball(0, 8, 0, 0), ball(-8, 0, 0, 0)];
    apart.advance(&input(FRAME), &some_draws(), 0);
    assert_eq!(apart.state, GameState::Running);
    let mut close = in_round(resting(), Spark::Steady);
    close.balls = vec![ball(8, 0, 0, 0), ball(0, 8, 0, 0), ball(-7, 0, 0, 0)];
    close.advance(&input(FRAME), &some_draws(), 0);
    assert_eq!(close.state, GameState::Paused);
}

#[test]
fn collision_is_judged_after_the_motion() {
    let mut world = in_round(resting(), Spark::Steady);
    world.balls = vec![ball(20, 0, -130, 0)];
    world.advance(&input(SECOND / 10), &some_draws(), 0);
    assert_eq!(world.balls[0].pos, Point { x: 7, y: 0 });
    assert_eq!(world.state, GameState::Paused);
    let mut fleeing = in_round(resting(), Spark::Steady);
    fleeing.balls = vec![ball(7, 0, 0, 0)];
    let away = Input {
        elapsed: SECOND / 10,
        intent: Intent { up: false, down: false, left: true, right: false },
        go_on: false,
    };
    fleeing.advance(&away, &some_draws(), 0);
    assert_eq!(fleeing.player.unwrap().pos, Point { x: -30, y: 0 });
    assert_eq!(fleeing.state, GameState::Running);
}

#[test]
fn ball_that_leaves_the_arena_is_gone() {
    let mut world = in_round(resting(), Spark::Bursting);
    world.balls = vec![ball(195, 0, 100, 0), ball(-195, 0, 100, 0), ball(0, 198, 0, 40)];
    world.advance(&input(SECOND / 20), &some_draws(), 0);
    assert_eq!(world.balls, vec![ball(200, 0, 100, 0), ball(-190, 0, 100, 0), ball(0, 200, 0, 40)]);
    world.advance(&input(SECOND / 20), &some_draws(), 0);
    assert_eq!(world.balls, vec![ball(-185, 0, 100, 0)]);
}

#[test]
fn round_clock_runs_during_a_round_only() {
    let mut world = World::new(resting());
    world.advance(&input(SECOND), &some_draws(), 0);
    assert_eq!(world.round, 0);
    world.advance(&go_on(SECOND), &some_draws(), 0);
    assert_eq!(world.round, 0);
    world.advance(&input(FRAME), &some_draws(), 0);
    world.advance(&input(FRAME), &some_draws(), 0);
    world.advance(&go_on(FRAME), &some_draws(), 0);
    assert_eq!(world.round, 3 * FRAME);
    world.round = u64::MAX - 1;
    world.advance(&input(FRAME), &some_draws(), 0);
    assert_eq!(world.round, u64::MAX);
}

#[test]
fn advance_gives_the_same_world_for_the_same_draws() {
    let mut first = in_round(settings(), Spark::Bursting);
    let mut second = first.clone();
    for frame in 0..200u64 {
        let held = Input {
            elapsed: FRAME + frame,
            intent: Intent { up: frame % 3 == 0, down: frame % 5 == 0, left: frame % 7 == 0, right: frame % 2 == 0 },
            go_on: frame % 11 == 0,
        };
        first.advance(&held, &some_draws(), (frame % 2) as usize);
        second.advance(&held, &some_draws(), (frame % 2) as usize);
        assert_eq!(first, second);
        assert!(first.is_valid());
    }
}

#[test]
fn advance_ignores_the_draws_that_are_not_due() {
    let mut few = in_round(settings(), Spark::Steady);
    let mut many = few.clone();
    few.spawn_timer.elapsed = 999_999_999;
    many.spawn_timer.elapsed = 999_999_999;
    let two: Vec<Draw> = some_draws().into_iter().take(2).collect();
    few.advance(&input(1), &two, 0);
    many.advance(&input(1), &some_draws(), 0);
    assert_eq!(few, many);
    assert_eq!(few.balls.len(), 2);
}

#[test]
fn due_now_is_zero_outside_a_round() {
    let mut world = World::new(settings());
    world.spawn_timer.elapsed = 999_999_999;
    world.cool_down.elapsed = 999_999_999;
    assert_eq!(world.due_now(10 * SECOND), 0);
    world.state = GameState::Paused;
    world.mode = SparkState::Sparking(Spark::Steady);
    assert_eq!(world.due_now(10 * SECOND), 0);
}

#[test]
fn due_now_goes_by_the_spawner_at_work() {
    let mut world = in_round(settings(), Spark::Steady);
    world.spawn_timer.elapsed = 500_000_000;
    world.cool_down.elapsed = 0;
    world.duration.elapsed = 3 * SECOND;
    assert_eq!(world.due_now(499_999_999), 0);
    assert_eq!(world.due_now(500_000_000), 2);
    assert_eq!(world.due_now(2_500_000_000), 6);
    world.mode = SparkState::Sparking(Spark::Bursting);
    assert_eq!(world.due_now(500_000_000), 0);
    assert_eq!(world.due_now(SECOND), 4);
    assert_eq!(world.due_now(2_500_000_000), 8);
    let before = world.clone();
    world.due_now(SECOND);
    assert_eq!(world, before);
}

#[test]
fn step_adds_the_balls_that_are_due_on_the_walls() {
    let mut world = in_round(resting(), Spark::Steady);
    world.spawn_timer.elapsed = 999_999_999;
    world.step(&input(1));
    assert_eq!(world.balls.len(), 2);
    world.step(&input(3 * SECOND));
    assert_eq!(world.balls.len(), 8);
    for made in &world.balls {
        let on_wall = made.pos.x == -200 || made.pos.x == 200 || made.pos.y == -200 || made.pos.y == 200;
        assert!(on_wall);
        assert!(is_in_or_on_wall(&world.settings.wall, made.pos.x, made.pos.y));
        assert_eq!(made.velocity, Velocity { x: 0, y: 0 });
        assert_eq!(made.radius, 3);
    }
}

#[test]
fn step_aims_every_ball_within_the_fluctuation_range() {
    let mut world = in_round(settings(), Spark::Bursting);
    world.player = Some(Player { pos: Point { x: 40, y: -70 }, radius: 5, speed: 300 });
    world.cool_down.elapsed = 999_999_999;
    world.duration.elapsed = 9 * SECOND;
    for _ in 0..50 {
        world.balls.clear();
        world.cool_down.elapsed = 999_999_999;
        world.state = GameState::Running;
        world.mode = SparkState::Sparking(Spark::Bursting);
        world.duration.elapsed = 9 * SECOND;
        world.step(&input(1));
        assert_eq!(world.balls.len(), 6);
        for made in &world.balls {
            assert!(made.velocity.x.abs() <= 275);
            assert!(made.velocity.y.abs() <= 275);
            assert!(made.velocity.x == 0 || (made.velocity.x > 0) == (40 > made.pos.x));
            assert!(made.velocity.y == 0 || (made.velocity.y > 0) == (-70 > made.pos.y));
        }
    }
}

#[test]
fn step_picks_among_the_spawners_to_pick_from() {
    let mut seen_steady = false;
    let mut seen_bursting = false;
    for _ in 0..400 {
        let mut world = in_round(settings(), Spark::Steady);
        world.mode = SparkState::Idle;
        world.step(&input(FRAME));
        match world.mode {
            SparkState::Sparking(Spark::Steady) => seen_steady = true,
            SparkState::Sparking(Spark::Bursting) => seen_bursting = true,
            SparkState::Idle => panic!("the idle mode was not left"),
        }
    }
    assert!(seen_steady && seen_bursting);
    let mut only = settings();
    only.spark.steady = false;
    for _ in 0..50 {
        let mut world = in_round(only, Spark::Steady);
        world.mode = SparkState::Idle;
        world.step(&input(FRAME));
        assert_eq!(world.mode, SparkState::Sparking(Spark::Bursting));
    }
}

#[test]
fn game_of_many_steps_keeps_the_world_in_order() {
    let all = GamePlugin::standard();
    let mut world = World::new(all);
    let mut rounds = 0;
    let mut pauses = 0;
    let mut most_balls = 0;
    for frame in 0..6000u64 {
        let before = world.state;
        let held = Input {
            elapsed: FRAME,
            intent: Intent {
                up: frame % 128 < 40,
                down: frame % 128 >= 64 && frame % 128 < 100,
                left: frame % 200 < 70,
                right: frame % 200 >= 100 && frame % 200 < 180,
            },
            go_on: true,
        };
        world.step(&held);
        assert!(world.is_valid());
        assert_eq!(world.next_state, None);
        assert_eq!(world.next_mode, None);
        if before != GameState::Running && world.state == GameState::Running {
            rounds += 1;
            assert!(world.balls.is_empty());
            assert_eq!(world.round, 0);
            assert_eq!(world.player.unwrap().pos, Point { x: 0, y: 0 });
        }
        if before == GameState::Running && world.state == GameState::Paused {
            pauses += 1;
        }
        assert_ne!(world.state, GameState::Menu);
        for made in &world.balls {
            assert!(is_in_or_on_wall(&all.wall, made.pos.x, made.pos.y));
            assert!(made.velocity.x.abs() <= 275_000_000);
            assert!(made.velocity.y.abs() <= 275_000_000);
            assert_eq!(made.radius, 3_000_000);
        }
        most_balls = most_balls.max(world.balls.len());
    }
    assert!(rounds >= 1);
    assert_eq!(rounds == pauses || rounds == pauses + 1, true);
    assert!(most_balls >= 3);
}
