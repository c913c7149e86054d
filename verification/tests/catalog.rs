use ebe::catalog::{
    setup_system, GameTextures, Handle, ResourceCatalog, CHICKEN_SOUND, CHICKEN_SPRITE, DOG_SOUND,
    DOG_SPRITE, PLAYER_SPRITE,
};
use ebe::entity::Kind;

#[test]
fn asset_names() {
    assert_eq!(PLAYER_SPRITE, "farm.png");
    assert_eq!(CHICKEN_SPRITE, "chicken.png");
    assert_eq!(CHICKEN_SOUND, "killChicken.wav");
    assert_eq!(DOG_SPRITE, "dog.png");
    assert_eq!(DOG_SOUND, "dog03.wav");
}

#[test]
fn load_is_idempotent_per_name() {
    let mut catalog = ResourceCatalog::new();
    let first = catalog.load("dog.png");
    let other = catalog.load("farm.png");
    let again = catalog.load("dog.png");
    assert_eq!(first, again);
    assert_ne!(first, other);
    assert_eq!(catalog.len(), 2);
}

#[test]
fn load_hands_out_slots_in_order_of_first_request() {
    let mut catalog = ResourceCatalog::new();
    assert_eq!(catalog.len(), 0);
    assert_eq!(catalog.load("a"), Handle { slot: 0 });
    assert_eq!(catalog.load("b"), Handle { slot: 1 });
    assert_eq!(catalog.load("a"), Handle { slot: 0 });
    assert_eq!(catalog.load("c"), Handle { slot: 2 });
    assert_eq!(catalog.len(), 3);
}

#[test]
fn name_gives_back_what_was_loaded() {
    let mut catalog = ResourceCatalog::new();
    let handle = catalog.load("killChicken.wav");
    assert_eq!(catalog.name(handle), Some("killChicken.wav"));
    assert_eq!(catalog.name(Handle { slot: 1 }), None);
}

#[test]
fn setup_resolves_the_five_assets() {
    let mut catalog = ResourceCatalog::new();
    let textures = setup_system(&mut catalog);
    assert_eq!(
        textures,
        GameTextures {
            player: Handle { slot: 0 },
            chicken: Handle { slot: 1 },
            chicken_sound: Handle { slot: 2 },
            dog: Handle { slot: 3 },
            dog_sound: Handle { slot: 4 },
        }
    );
    assert_eq!(catalog.len(), 5);
    assert_eq!(catalog.name(textures.player), Some("farm.png"));
    assert_eq!(catalog.name(textures.chicken), Some("chicken.png"));
    assert_eq!(catalog.name(textures.chicken_sound), Some("killChicken.wav"));
    assert_eq!(catalog.name(textures.dog), Some("dog.png"));
    assert_eq!(catalog.name(textures.dog_sound), Some("dog03.wav"));
}

#[test]
fn setup_twice_resolves_to_the_same_handles() {
    let mut catalog = ResourceCatalog::new();
    let first = setup_system(&mut catalog);
    let second = setup_system(&mut catalog);
    assert_eq!(first, second);
    assert_eq!(catalog.len(), 5);
}

#[test]
fn setup_keeps_names_that_were_there() {
    let mut catalog = ResourceCatalog::new();
    let dog = catalog.load("dog.png");
    let extra = catalog.load("extra.png");
    let textures = setup_system(&mut catalog);
    assert_eq!(textures.dog, dog);
    assert_eq!(catalog.name(extra), Some("extra.png"));
    assert_eq!(catalog.len(), 6);
    assert_eq!(textures.player, Handle { slot: 2 });
    assert_eq!(textures.dog_sound, Handle { slot: 5 });
}

#[test]
fn kind_picks_sprite_and_sound() {
    let mut catalog = ResourceCatalog::new();
    let textures = setup_system(&mut catalog);
    assert_eq!(textures.sprite(Kind::ChickenLike), textures.chicken);
    assert_eq!(textures.sound(Kind::ChickenLike), textures.chicken_sound);
    assert_eq!(textures.sprite(Kind::DogLike), textures.dog);
    assert_eq!(textures.sound(Kind::DogLike), textures.dog_sound);
    assert_eq!(catalog.name(textures.sound(Kind::ChickenLike)), Some("killChicken.wav"));
    assert_eq!(catalog.name(textures.sound(Kind::DogLike)), Some("dog03.wav"));
}
