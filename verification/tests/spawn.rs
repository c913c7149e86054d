use ebe::catalog::{setup_system, GameTextures, ResourceCatalog};
use ebe::entity::{Entity, Kind, Position, Velocity};
use ebe::spawn::{
    kind_of, mouse_events, scene_position, spawn_projectile, PointerInput, CHICKEN_ODDS,
    PROJECTILE_DEPTH, VEL_X_END, VEL_X_MIN, VEL_Y_END, VEL_Y_MIN,
};
use ebe::store::EntityStore;
use ebe::units::{GAME_SIZE, TICKS_PER_UNIT, VELOCITY_SCALE};
use rand::rngs::StdRng;
use rand::SeedableRng;

fn textures() -> GameTextures {
    let mut catalog = ResourceCatalog::new();
    setup_system(&mut catalog)
}

fn pointer_at(x: i64, y: i64, left: bool, right: bool) -> PointerInput {
    PointerInput {
        cursor: Some(Position { x: x * TICKS_PER_UNIT, y: y * TICKS_PER_UNIT }),
        window: GAME_SIZE,
        left_just_pressed: left,
        right_just_pressed: right,
    }
}

#[test]
fn spawn_constants() {
    assert_eq!(PROJECTILE_DEPTH as f64 / TICKS_PER_UNIT as f64, 10.0);
    assert_eq!(VEL_X_MIN as f64 / VELOCITY_SCALE as f64, -1.0);
    assert_eq!(VEL_X_END as f64 / VELOCITY_SCALE as f64, 1.0);
    assert_eq!(VEL_Y_MIN as f64 / VELOCITY_SCALE as f64, -1.0);
    assert_eq!(VEL_Y_END as f64 / VELOCITY_SCALE as f64, -0.2);
    assert_eq!(CHICKEN_ODDS, (1, 3));
}

#[test]
fn pointer_in_the_middle_of_the_window_is_the_scene_origin() {
    let window = (256 * TICKS_PER_UNIT, 256 * TICKS_PER_UNIT);
    let cursor = Some(Position { x: 128 * TICKS_PER_UNIT, y: 128 * TICKS_PER_UNIT });
    assert_eq!(scene_position(cursor, window), Position { x: 0, y: 0 });
}

#[test]
fn pointer_position_is_taken_from_the_window_middle() {
    let window = (256 * TICKS_PER_UNIT, 256 * TICKS_PER_UNIT);
    let corner = Some(Position { x: 0, y: 0 });
    assert_eq!(
        scene_position(corner, window),
        Position { x: -128 * TICKS_PER_UNIT, y: -128 * TICKS_PER_UNIT }
    );
    let far = Some(Position { x: 256 * TICKS_PER_UNIT, y: 200 * TICKS_PER_UNIT + 30_000_000 });
    assert_eq!(
        scene_position(far, window),
        Position { x: 128 * TICKS_PER_UNIT, y: 72 * TICKS_PER_UNIT + 30_000_000 }
    );
    let wide = (400 * TICKS_PER_UNIT, 100 * TICKS_PER_UNIT);
    assert_eq!(
        scene_position(Some(Position { x: 0, y: 0 }), wide),
        Position { x: -200 * TICKS_PER_UNIT, y: -50 * TICKS_PER_UNIT }
    );
}

#[test]
fn unknown_pointer_falls_back_to_the_origin() {
    assert_eq!(scene_position(None, GAME_SIZE), Position { x: 0, y: 0 });
    assert_eq!(scene_position(None, (7, 9)), Position::origin());
}

#[test]
fn scene_position_stops_at_the_ends_of_the_range() {
    let cursor = Some(Position { x: i64::MIN, y: i64::MAX });
    assert_eq!(
        scene_position(cursor, (10, -10)),
        Position { x: i64::MIN, y: i64::MAX }
    );
}

#[test]
fn kind_of_a_draw() {
    assert_eq!(kind_of(true), Kind::ChickenLike);
    assert_eq!(kind_of(false), Kind::DogLike);
}

#[test]
fn no_press_spawns_nothing() {
    let mut store = EntityStore::new();
    let mut rng = StdRng::seed_from_u64(1);
    let spawned = mouse_events(&mut store, &textures(), &pointer_at(10, 10, false, false), &mut rng);
    assert!(spawned.is_none());
    assert!(store.ids().is_empty());
}

#[test]
fn either_button_spawns_one_projectile() {
    for (left, right) in [(true, false), (false, true)] {
        let mut store = EntityStore::new();
        let mut rng = StdRng::seed_from_u64(2);
        let spawned = mouse_events(&mut store, &textures(), &pointer_at(10, 10, left, right), &mut rng);
        let spawned = spawned.unwrap();
        assert_eq!(store.ids(), vec![spawned.id]);
        assert_eq!(store.get(spawned.id), Some(Entity::Projectile(spawned.projectile)));
    }
}

#[test]
fn both_buttons_in_one_frame_still_spawn_one_projectile() {
    let mut store = EntityStore::new();
    let mut rng = StdRng::seed_from_u64(3);
    let before = store.ids().len();
    let spawned = mouse_events(&mut store, &textures(), &pointer_at(0, 0, true, true), &mut rng);
    assert!(spawned.is_some());
    assert_eq!(store.ids().len(), before + 1);
}

#[test]
fn spawned_projectile_stands_at_the_pointer() {
    let mut store = EntityStore::new();
    let mut rng = StdRng::seed_from_u64(4);
    let input = pointer_at(200, 28, true, false);
    let spawned = mouse_events(&mut store, &textures(), &input, &mut rng).unwrap();
    assert_eq!(
        spawned.projectile.position,
        Position { x: 72 * TICKS_PER_UNIT, y: -100 * TICKS_PER_UNIT }
    );
    assert_eq!(spawned.projectile.depth, 10 * TICKS_PER_UNIT);
    assert!(spawned.projectile.auto_despawn);
}

#[test]
fn press_without_a_pointer_spawns_at_the_origin() {
    let mut store = EntityStore::new();
    let mut rng = StdRng::seed_from_u64(5);
    let input = PointerInput {
        cursor: None,
        window: GAME_SIZE,
        left_just_pressed: true,
        right_just_pressed: false,
    };
    let spawned = mouse_events(&mut store, &textures(), &input, &mut rng).unwrap();
    assert_eq!(spawned.projectile.position, Position { x: 0, y: 0 });
    assert_eq!(store.ids(), vec![spawned.id]);
}

#[test]
fn drawn_velocities_lie_in_their_ranges_and_vary() {
    let mut store = EntityStore::new();
    let mut rng = StdRng::seed_from_u64(6);
    let textures = textures();
    let input = pointer_at(128, 128, true, false);
    let mut velocities: Vec<Velocity> = Vec::new();
    for _ in 0..500 {
        let spawned = mouse_events(&mut store, &textures, &input, &mut rng).unwrap();
        let velocity = spawned.projectile.velocity;
        assert!(-1_000_000 <= velocity.x && velocity.x < 1_000_000);
        assert!(-1_000_000 <= velocity.y && velocity.y < -200_000);
        velocities.push(velocity);
    }
    assert!(velocities.iter().any(|v| v.x != velocities[0].x));
    assert!(velocities.iter().any(|v| v.y != velocities[0].y));
    assert!(velocities.iter().any(|v| v.x != VEL_X_MIN));
    assert!(velocities.iter().any(|v| v.y != VEL_Y_MIN));
    assert!(velocities.iter().any(|v| v.x < 0));
    assert!(velocities.iter().any(|v| v.x > 0));
    assert_eq!(store.ids().len(), 500);
}

#[test]
fn about_one_projectile_in_three_is_chicken_like() {
    let mut store = EntityStore::new();
    let mut rng = StdRng::seed_from_u64(7);
    let textures = textures();
    let input = pointer_at(128, 128, false, true);
    let mut chickens = 0;
    for _ in 0..3000 {
        let spawned = mouse_events(&mut store, &textures, &input, &mut rng).unwrap();
        if spawned.projectile.kind == Kind::ChickenLike {
            chickens += 1;
        }
    }
    assert!(800 < chickens && chickens < 1200);
}

#[test]
fn same_seed_gives_the_same_spawns() {
    let textures = textures();
    let input = pointer_at(100, 100, true, false);
    let mut first_store = EntityStore::new();
    let mut second_store = EntityStore::new();
    let mut first_rng = StdRng::seed_from_u64(8);
    let mut second_rng = StdRng::seed_from_u64(8);
    for _ in 0..20 {
        let a = mouse_events(&mut first_store, &textures, &input, &mut first_rng);
        let b = mouse_events(&mut second_store, &textures, &input, &mut second_rng);
        assert_eq!(a, b);
    }
}

#[test]
fn sound_and_sprite_follow_the_kind() {
    let mut store = EntityStore::new();
    let mut rng = StdRng::seed_from_u64(9);
    let textures = textures();
    let input = pointer_at(128, 128, true, true);
    for _ in 0..200 {
        let spawned = mouse_events(&mut store, &textures, &input, &mut rng).unwrap();
        match spawned.projectile.kind {
            Kind::ChickenLike => {
                assert_eq!(spawned.sprite, textures.chicken);
                assert_eq!(spawned.sound, textures.chicken_sound);
            }
            Kind::DogLike => {
                assert_eq!(spawned.sprite, textures.dog);
                assert_eq!(spawned.sound, textures.dog_sound);
            }
        }
    }
}

#[test]
fn forced_chicken_gives_chicken_sprite_and_chicken_sound() {
    let mut catalog = ResourceCatalog::new();
    let textures = setup_system(&mut catalog);
    let mut store = EntityStore::new();
    let input = pointer_at(128, 128, true, false);
    let velocity = Velocity { x: 250_000, y: -500_000 };
    let spawned = spawn_projectile(&mut store, &textures, &input, velocity, true);
    assert_eq!(spawned.projectile.kind, Kind::ChickenLike);
    assert_eq!(spawned.sprite, textures.chicken);
    assert_eq!(spawned.sound, textures.chicken_sound);
    assert_ne!(spawned.sound, textures.dog_sound);
    assert_ne!(spawned.sprite, textures.dog);
    assert_eq!(catalog.name(spawned.sprite), Some("chicken.png"));
    assert_eq!(catalog.name(spawned.sound), Some("killChicken.wav"));
    assert_eq!(spawned.projectile.velocity, velocity);
    assert_eq!(spawned.projectile.position, Position { x: 0, y: 0 });
    assert_eq!(store.get(spawned.id), Some(Entity::Projectile(spawned.projectile)));
}

#[test]
fn forced_dog_gives_dog_sprite_and_dog_sound() {
    let mut catalog = ResourceCatalog::new();
    let textures = setup_system(&mut catalog);
    let mut store = EntityStore::new();
    let input = pointer_at(128, 128, false, true);
    let spawned =
        spawn_projectile(&mut store, &textures, &input, Velocity { x: -1, y: -200_001 }, false);
    assert_eq!(spawned.projectile.kind, Kind::DogLike);
    assert_eq!(catalog.name(spawned.sprite), Some("dog.png"));
    assert_eq!(catalog.name(spawned.sound), Some("dog03.wav"));
    assert_ne!(spawned.sound, textures.chicken_sound);
}

#[test]
fn pressed_is_the_or_of_the_buttons() {
    assert!(!pointer_at(0, 0, false, false).pressed());
    assert!(pointer_at(0, 0, true, false).pressed());
    assert!(pointer_at(0, 0, false, true).pressed());
    assert!(pointer_at(0, 0, true, true).pressed());
}
