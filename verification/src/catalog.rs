//! The resource catalog: asset names and the handles they resolve to.
//!
//! A handle is a position in the catalog's table of names. The host loads the
//! asset behind each name and keeps what it loaded by the same position.

use crate::entity::Kind;
use vstd::prelude::*;

verus! {

/// Image of the anchor.
pub const PLAYER_SPRITE: &'static str = "farm.png";

/// Image of a chicken-like projectile.
pub const CHICKEN_SPRITE: &'static str = "chicken.png";

/// Sound played when a chicken-like projectile appears.
pub const CHICKEN_SOUND: &'static str = "killChicken.wav";

/// Image of a dog-like projectile.
pub const DOG_SPRITE: &'static str = "dog.png";

/// Sound played when a dog-like projectile appears.
pub const DOG_SOUND: &'static str = "dog03.wav";

/// Stands for a loaded asset.
#[derive(Clone, Copy, Debug, PartialEq, Eq, Hash, Structural)]
pub struct Handle {
    /// Position of the asset's name in the catalog.
    pub slot: usize,
}

/// The names that have been asked for, in the order of their first request.
pub struct ResourceCatalog {
    names: Vec<String>,
}

/// `names` with `name` added at the end unless it is there already.
pub open spec fn with_name(names: Seq<Seq<char>>, name: Seq<char>) -> Seq<Seq<char>> {
    if names.contains(name) {
        names
    } else {
        names.push(name)
    }
}

/// Adding a name keeps the table free of duplicates, leaves every earlier name
/// in its place, and the name itself is found afterwards.
pub proof fn lemma_with_name(names: Seq<Seq<char>>, name: Seq<char>)
    requires
        names.no_duplicates(),
    ensures
        with_name(names, name).no_duplicates(),
        with_name(names, name).contains(name),
        names.is_prefix_of(with_name(names, name)),
        forall|earlier: Seq<char>| #[trigger]
            names.contains(earlier) ==> with_name(names, name).index_of(earlier)
                == names.index_of(earlier),
{
    let after = with_name(names, name);
    if !names.contains(name) {
        assert(after[names.len() as int] == name);
    }
    assert forall|earlier: Seq<char>| #[trigger] names.contains(earlier) implies after.index_of(
        earlier,
    ) == names.index_of(earlier) by {
        let i = names.index_of(earlier);
        assert(after[i] == earlier);
        let j = after.index_of(earlier);
        assert(0 <= j < after.len() && after[j] == earlier);
    }
}

/// Asking for a name again changes nothing.
pub proof fn lemma_with_name_is_idempotent(names: Seq<Seq<char>>, name: Seq<char>)
    ensures
        with_name(with_name(names, name), name) == with_name(names, name),
{
    if !names.contains(name) {
        assert(names.push(name)[names.len() as int] == name);
    }
}

impl View for ResourceCatalog {
    type V = Seq<Seq<char>>;

    /// The names by handle slot.
    closed spec fn view(&self) -> Seq<Seq<char>> {
        Seq::new(self.names.len() as nat, |i: int| self.names[i]@)
    }
}

impl ResourceCatalog {
    /// No name stands in the table twice.
    pub open spec fn wf(&self) -> bool {
        self@.no_duplicates()
    }

    /// A catalog without names.
    pub fn new() -> (catalog: ResourceCatalog)
        ensures
            catalog.wf(),
            catalog@ == Seq::<Seq<char>>::empty(),
    {
        let catalog = ResourceCatalog { names: Vec::new() };
        assert(catalog@ =~= Seq::<Seq<char>>::empty());
        catalog
    }

    /// How many names the catalog holds.
    pub fn len(&self) -> (len: usize)
        ensures
            len == self@.len(),
    {
        self.names.len()
    }

    /// The handle for `name`. A name that is asked for again resolves to the
    /// handle it resolved to before, and the catalog stays as it is.
    pub fn load(&mut self, name: &str) -> (handle: Handle)
        requires
            old(self).wf(),
        ensures
            final(self).wf(),
            final(self)@ == with_name(old(self)@, name@),
            handle.slot == final(self)@.index_of(name@),
    {
        let wanted = name.to_owned();
        let mut slot: usize = 0;
        while slot < self.names.len()
            invariant
                slot <= self.names.len(),
                wanted@ == name@,
                self == old(self),
                self.wf(),
                forall|k: int| 0 <= k < slot ==> self@[k] != name@,
            decreases self.names.len() - slot,
        {
            if self.names[slot] == wanted {
                proof {
                    assert(self@[slot as int] == name@);
                    lemma_with_name(self@, name@);
                    let found = self@.index_of(name@);
                    assert(self@[found] == name@);
                }
                return Handle { slot };
            }
            slot += 1;
        }
        proof {
            assert(!self@.contains(name@));
            lemma_with_name(self@, name@);
        }
        self.names.push(wanted);
        proof {
            assert(self@ =~= old(self)@.push(name@));
            let found = self@.index_of(name@);
            assert(self@[slot as int] == name@);
            assert(self@[found] == name@);
        }
        Handle { slot }
    }

    /// The name behind `handle`, if the catalog handed it out.
    pub fn name(&self, handle: Handle) -> (name: Option<&str>)
        ensures
            handle.slot < self@.len() ==> name is Some && name->Some_0@ == self@[handle.slot as int],
            handle.slot >= self@.len() ==> name is None,
    {
        if handle.slot < self.names.len() {
            Some(self.names[handle.slot].as_str())
        } else {
            None
        }
    }
}

/// The handles of the assets that the scene uses.
#[derive(Clone, Copy, Debug, PartialEq, Eq, Structural)]
pub struct GameTextures {
    pub player: Handle,
    pub chicken: Handle,
    pub chicken_sound: Handle,
    pub dog: Handle,
    pub dog_sound: Handle,
}

/// `names` after the scene's five asset names have been asked for.
pub open spec fn with_game_names(names: Seq<Seq<char>>) -> Seq<Seq<char>> {
    with_name(
        with_name(
            with_name(with_name(with_name(names, PLAYER_SPRITE@), CHICKEN_SPRITE@), CHICKEN_SOUND@),
            DOG_SPRITE@,
        ),
        DOG_SOUND@,
    )
}

/// Whether `handle` is the place of `name` in `names`.
pub open spec fn resolves(names: Seq<Seq<char>>, name: Seq<char>, handle: Handle) -> bool {
    names.contains(name) && handle.slot == names.index_of(name)
}

/// The five asset names differ from one another.
pub proof fn lemma_game_names_differ()
    ensures
        seq![PLAYER_SPRITE@, CHICKEN_SPRITE@, CHICKEN_SOUND@, DOG_SPRITE@, DOG_SOUND@]
            .no_duplicates(),
{
    reveal_strlit("farm.png");
    reveal_strlit("chicken.png");
    reveal_strlit("killChicken.wav");
    reveal_strlit("dog.png");
    reveal_strlit("dog03.wav");
    assert(PLAYER_SPRITE@.len() == 8);
    assert(CHICKEN_SPRITE@.len() == 11);
    assert(CHICKEN_SOUND@.len() == 15);
    assert(DOG_SPRITE@.len() == 7);
    assert(DOG_SOUND@.len() == 9);
}

impl GameTextures {
    /// Each handle is the place of its asset's name in `names`.
    pub open spec fn resolved_in(&self, names: Seq<Seq<char>>) -> bool {
        &&& resolves(names, PLAYER_SPRITE@, self.player)
        &&& resolves(names, CHICKEN_SPRITE@, self.chicken)
        &&& resolves(names, CHICKEN_SOUND@, self.chicken_sound)
        &&& resolves(names, DOG_SPRITE@, self.dog)
        &&& resolves(names, DOG_SOUND@, self.dog_sound)
    }

    /// No two of the handles are the same.
    pub open spec fn distinct(&self) -> bool {
        seq![self.player, self.chicken, self.chicken_sound, self.dog, self.dog_sound]
            .no_duplicates()
    }

    /// Handles that were resolved in one table stand for five different assets.
    pub proof fn lemma_resolved_is_distinct(&self, names: Seq<Seq<char>>)
        requires
            self.resolved_in(names),
        ensures
            self.distinct(),
    {
        lemma_game_names_differ();
        let assets = seq![PLAYER_SPRITE@, CHICKEN_SPRITE@, CHICKEN_SOUND@, DOG_SPRITE@, DOG_SOUND@];
        let handles = seq![self.player, self.chicken, self.chicken_sound, self.dog, self.dog_sound];
        assert forall|i: int, j: int| 0 <= i < handles.len() && 0 <= j < handles.len() && i != j
            implies handles[i] != handles[j] by {
            assert(assets[i] != assets[j]);
            assert(names[handles[i].slot as int] == assets[i]);
            assert(names[handles[j].slot as int] == assets[j]);
        }
    }

    /// The image of a projectile of `kind`.
    pub open spec fn spec_sprite(&self, kind: Kind) -> Handle {
        match kind {
            Kind::ChickenLike => self.chicken,
            Kind::DogLike => self.dog,
        }
    }

    /// The sound played when a projectile of `kind` appears.
    pub open spec fn spec_sound(&self, kind: Kind) -> Handle {
        match kind {
            Kind::ChickenLike => self.chicken_sound,
            Kind::DogLike => self.dog_sound,
        }
    }

    /// The image of a projectile of `kind`.
    #[verifier::when_used_as_spec(spec_sprite)]
    pub fn sprite(&self, kind: Kind) -> (handle: Handle)
        ensures
            handle == self.spec_sprite(kind),
    {
        match kind {
            Kind::ChickenLike => self.chicken,
            Kind::DogLike => self.dog,
        }
    }

    /// The sound played when a projectile of `kind` appears.
    #[verifier::when_used_as_spec(spec_sound)]
    pub fn sound(&self, kind: Kind) -> (handle: Handle)
        ensures
            handle == self.spec_sound(kind),
    {
        match kind {
            Kind::ChickenLike => self.chicken_sound,
            Kind::DogLike => self.dog_sound,
        }
    }
}

/// Resolves the scene's five assets, in the order anchor image, chicken image,
/// chicken sound, dog image, dog sound.
pub fn setup_system(catalog: &mut ResourceCatalog) -> (textures: GameTextures)
    requires
        old(catalog).wf(),
    ensures
        final(catalog).wf(),
        final(catalog)@ == with_game_names(old(catalog)@),
        textures.resolved_in(final(catalog)@),
        textures.distinct(),
{
    let player = catalog.load(PLAYER_SPRITE);
    let ghost first = catalog@;
    let chicken = catalog.load(CHICKEN_SPRITE);
    let ghost second = catalog@;
    let chicken_sound = catalog.load(CHICKEN_SOUND);
    let ghost third = catalog@;
    let dog = catalog.load(DOG_SPRITE);
    let ghost fourth = catalog@;
    let dog_sound = catalog.load(DOG_SOUND);
    let textures = GameTextures { player, chicken, chicken_sound, dog, dog_sound };
    proof {
        lemma_with_name(old(catalog)@, PLAYER_SPRITE@);
        lemma_with_name(first, CHICKEN_SPRITE@);
        lemma_with_name(second, CHICKEN_SOUND@);
        lemma_with_name(third, DOG_SPRITE@);
        lemma_with_name(fourth, DOG_SOUND@);
        assert(second.contains(PLAYER_SPRITE@));
        assert(third.contains(PLAYER_SPRITE@) && third.contains(CHICKEN_SPRITE@));
        assert(fourth.contains(PLAYER_SPRITE@) && fourth.contains(CHICKEN_SPRITE@)
            && fourth.contains(CHICKEN_SOUND@));
        textures.lemma_resolved_is_distinct(catalog@);
    }
    textures
}

} // verus!
