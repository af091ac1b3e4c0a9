use crate::models::character::{
    CharacterMutation, PlayerCharacter, PlayerCharacterView, MAX_LEVEL,
};
use crate::services::keyed::{arranges, enumerates, keys_of, lists, unused_key, views_by_key};
use crate::utils::clock::Timestamp;
use crate::utils::error::{
    failure, not_found_text, DmAssistantError, DmResult, ErrorKind, ErrorView,
};
use crate::utils::id_generator::{generate_id, hyphenated, is_v4, uuid_text, Id};
use crate::utils::text::concat3;
use crate::utils::views::{view_of_option, view_of_result, views_of};
use std::collections::HashMap;
use vstd::prelude::*;

verus! {

broadcast use vstd::std_specs::hash::group_hash_axioms;

/// The characters of one campaign, each under its identifier.
pub struct CharacterCollection {
    pub campaign_id: Id,
    pub characters: HashMap<Id, PlayerCharacter>,
    pub created_at: Timestamp,
    pub updated_at: Timestamp,
}

/// A character collection as contracts see it.
pub struct CharacterCollectionView {
    pub campaign_id: Id,
    pub characters: Map<Id, PlayerCharacterView>,
    pub created_at: Timestamp,
    pub updated_at: Timestamp,
}

impl View for CharacterCollection {
    type V = CharacterCollectionView;

    open spec fn view(&self) -> CharacterCollectionView {
        CharacterCollectionView {
            campaign_id: self.campaign_id,
            characters: views_by_key(self.characters@),
            created_at: self.created_at,
            updated_at: self.updated_at,
        }
    }
}

/// The characters of a map that are active.
pub open spec fn active_characters(characters: Map<Id, PlayerCharacterView>) -> Map<
    Id,
    PlayerCharacterView,
> {
    Map::new(
        |id: Id| characters.contains_key(id) && characters[id].is_active,
        |id: Id| characters[id],
    )
}

impl CharacterCollectionView {
    /// The collection of a campaign that has no characters yet, made at the
    /// time `now`.
    pub open spec fn empty(campaign_id: Id, now: Timestamp) -> Self {
        CharacterCollectionView {
            campaign_id,
            characters: Map::empty(),
            created_at: now,
            updated_at: now,
        }
    }

    /// Every character stands under its own identifier, belongs to the
    /// campaign of the collection, has at most one relationship with any
    /// one NPC, and was last changed no earlier than it was created.
    pub open spec fn wf(self) -> bool {
        forall|id: Id|
            self.characters.contains_key(id) ==> {
                &&& (#[trigger] self.characters[id]).id == id
                &&& self.characters[id].campaign_id == self.campaign_id
                &&& self.characters[id].wf()
                &&& self.characters[id].ordered()
            }
    }

    /// The collection with `character` under its identifier, in place of
    /// what stood there.
    pub open spec fn added(self, character: PlayerCharacterView, now: Timestamp) -> Self {
        CharacterCollectionView {
            characters: self.characters.insert(character.id, character),
            updated_at: now,
            ..self
        }
    }

    /// The collection with `character` in place of the character of the same
    /// identifier; a collection without such a character stays as it is.
    pub open spec fn replaced(self, character: PlayerCharacterView, now: Timestamp) -> Self {
        if self.characters.contains_key(character.id) {
            self.added(character, now)
        } else {
            self
        }
    }

    /// The collection without the character `id`; a collection without such
    /// a character stays as it is.
    pub open spec fn removed(self, id: Id, now: Timestamp) -> Self {
        if self.characters.contains_key(id) {
            CharacterCollectionView {
                characters: self.characters.remove(id),
                updated_at: now,
                ..self
            }
        } else {
            self
        }
    }

    /// The character under `id`, if there is one.
    pub open spec fn character(self, id: Id) -> Option<PlayerCharacterView> {
        if self.characters.contains_key(id) {
            Some(self.characters[id])
        } else {
            None
        }
    }
}

/// The error of a lookup of a character that failed.
pub open spec fn character_not_found(id: Id) -> ErrorView {
    failure(ErrorKind::NotFound, not_found_text("Character"@, hyphenated(id)))
}

/// The error of an identifier that is taken.
pub open spec fn character_exists_already(id: Id) -> ErrorView {
    failure(
        ErrorKind::CharacterError,
        "Character with ID "@ + hyphenated(id) + " already exists"@,
    )
}

impl Clone for CharacterCollection {
    fn clone(&self) -> (r: Self)
        ensures
            r@ == self@,
    {
        let r = CharacterCollection {
            campaign_id: self.campaign_id,
            characters: self.characters.clone(),
            created_at: self.created_at,
            updated_at: self.updated_at,
        };
        assert(r@.characters =~= self@.characters);
        r
    }
}

impl CharacterCollection {
    /// An empty collection for the campaign, made at the present time.
    pub fn new(campaign_id: Id) -> (c: Self)
        ensures
            c@ == CharacterCollectionView::empty(campaign_id, c.created_at),
            c@.wf(),
    {
        let now = Timestamp::now();
        CharacterCollection::new_at(campaign_id, now)
    }

    /// An empty collection for the campaign, made at the time `now`.
    pub fn new_at(campaign_id: Id, now: Timestamp) -> (c: Self)
        ensures
            c@ == CharacterCollectionView::empty(campaign_id, now),
            c@.wf(),
    {
        let c = CharacterCollection {
            campaign_id,
            characters: HashMap::new(),
            created_at: now,
            updated_at: now,
        };
        assert(c@.characters =~= Map::<Id, PlayerCharacterView>::empty());
        c
    }

    /// Puts `character` under its identifier at the present time, in place of
    /// what stood there.
    pub fn add_character(&mut self, character: PlayerCharacter)
        ensures
            final(self)@ == old(self)@.added(character@, final(self).updated_at),
    {
        let now = Timestamp::now();
        self.add_character_at(character, now);
    }

    /// Puts `character` under its identifier at the time `now`, in place of
    /// what stood there.
    pub fn add_character_at(&mut self, character: PlayerCharacter, now: Timestamp)
        ensures
            final(self)@ == old(self)@.added(character@, now),
    {
        self.characters.insert(character.id, character);
        self.updated_at = now;
        assert(final(self)@.characters =~= old(self)@.characters.insert(character.id, character@));
    }

    /// Replaces the character of the same identifier at the present time, and
    /// tells whether there was one.
    pub fn update_character(&mut self, character: PlayerCharacter) -> (replaced: bool)
        ensures
            replaced == old(self)@.characters.contains_key(character.id),
            final(self)@ == old(self)@.replaced(character@, final(self).updated_at),
    {
        let now = Timestamp::now();
        self.update_character_at(character, now)
    }

    /// Replaces the character of the same identifier at the time `now`, and
    /// tells whether there was one.
    pub fn update_character_at(&mut self, character: PlayerCharacter, now: Timestamp) -> (replaced:
        bool)
        ensures
            replaced == old(self)@.characters.contains_key(character.id),
            final(self)@ == old(self)@.replaced(character@, now),
    {
        if self.characters.contains_key(&character.id) {
            self.add_character_at(character, now);
            true
        } else {
            false
        }
    }

    /// Removes the character `character_id` at the present time, and tells
    /// whether there was one.
    pub fn remove_character(&mut self, character_id: &Id) -> (removed: bool)
        ensures
            removed == old(self)@.characters.contains_key(*character_id),
            final(self)@ == old(self)@.removed(*character_id, final(self).updated_at),
            old(self)@.wf() ==> final(self)@.wf(),
    {
        let now = Timestamp::now();
        self.remove_character_at(character_id, now)
    }

    /// Removes the character `character_id` at the time `now`, and tells
    /// whether there was one.
    pub fn remove_character_at(&mut self, character_id: &Id, now: Timestamp) -> (removed: bool)
        ensures
            removed == old(self)@.characters.contains_key(*character_id),
            final(self)@ == old(self)@.removed(*character_id, now),
            old(self)@.wf() ==> final(self)@.wf(),
    {
        if self.characters.remove(character_id).is_some() {
            self.updated_at = now;
            assert(final(self)@.characters =~= old(self)@.characters.remove(*character_id));
            true
        } else {
            assert(final(self)@.characters =~= old(self)@.characters);
            false
        }
    }

    /// The character under `character_id`, if there is one.
    pub fn get_character(&self, character_id: &Id) -> (found: Option<&PlayerCharacter>)
        ensures
            view_of_option(found) == self@.character(*character_id),
    {
        self.characters.get(character_id)
    }

    /// Every character, in no particular order.
    pub fn get_all_characters(&self) -> (all: Vec<&PlayerCharacter>)
        ensures
            lists(views_of(all@), self@.characters),
    {
        let keys = keys_of(&self.characters);
        let mut all: Vec<&PlayerCharacter> = Vec::new();
        let mut i: usize = 0;
        while i < keys.len()
            invariant
                enumerates(keys@, self.characters@),
                i <= keys.len(),
                all@.len() == i,
                forall|j: int| 0 <= j < i ==> (#[trigger] all@[j])@ == self@.characters[keys@[j]],
            decreases keys.len() - i,
        {
            assert(keys@.to_set().contains(keys@[i as int]));
            match self.characters.get(&keys[i]) {
                Some(c) => {
                    all.push(c);
                },
                None => {},
            }
            i += 1;
        }
        proof {
            assert(self@.characters.dom() =~= self.characters@.dom());
            assert(arranges(keys@, views_of(all@), self@.characters));
        }
        all
    }

    /// The active characters, in no particular order.
    pub fn get_active_characters(&self) -> (active: Vec<&PlayerCharacter>)
        ensures
            lists(views_of(active@), active_characters(self@.characters)),
    {
        let keys = keys_of(&self.characters);
        let mut active: Vec<&PlayerCharacter> = Vec::new();
        let ghost mut chosen: Seq<Id> = Seq::empty();
        let ghost mut source: Seq<int> = Seq::empty();
        let mut i: usize = 0;
        while i < keys.len()
            invariant
                enumerates(keys@, self.characters@),
                i <= keys.len(),
                active@.len() == chosen.len(),
                source.len() == chosen.len(),
                forall|j: int| 0 <= j < chosen.len() ==> 0 <= (#[trigger] source[j]) < i,
                forall|j: int| 0 <= j < chosen.len() ==> (#[trigger] chosen[j]) == keys@[source[j]],
                forall|j: int|
                    0 <= j < chosen.len() ==> self@.characters[#[trigger] chosen[j]].is_active,
                forall|a: int, b: int|
                    0 <= a < b < source.len() ==> (#[trigger] source[a]) < (#[trigger] source[b]),
                forall|j: int|
                    0 <= j < chosen.len() ==> (#[trigger] active@[j])@ == self@.characters[chosen[j]],
                forall|k: int|
                    0 <= k < i && self@.characters[#[trigger] keys@[k]].is_active ==> chosen.contains(
                        keys@[k],
                    ),
            decreases keys.len() - i,
        {
            assert(keys@.to_set().contains(keys@[i as int]));
            match self.characters.get(&keys[i]) {
                Some(c) => {
                    assert(c@ == self@.characters[keys@[i as int]]);
                    if c.is_active {
                        active.push(c);
                        proof {
                            let before = chosen;
                            chosen = chosen.push(keys@[i as int]);
                            source = source.push(i as int);
                            assert forall|k: int|
                                0 <= k < i + 1 && self@.characters[#[trigger] keys@[k]].is_active implies chosen.contains(
                                keys@[k],
                            ) by {
                                if k < i {
                                    assert(before.contains(keys@[k]));
                                    let j = choose|j: int| 0 <= j < before.len() && before[j] == keys@[k];
                                    assert(chosen[j] == keys@[k]);
                                } else {
                                    assert(chosen[chosen.len() - 1] == keys@[k]);
                                }
                            }
                        }
                    }
                },
                None => {},
            }
            i += 1;
        }
        proof {
            let target = active_characters(self@.characters);
            assert(chosen.no_duplicates()) by {
                assert forall|a: int, b: int|
                    0 <= a < chosen.len() && 0 <= b < chosen.len() && a != b implies chosen[a]
                    != chosen[b] by {
                    if a < b {
                        assert(source[a] < source[b]);
                    } else {
                        assert(source[b] < source[a]);
                    }
                }
            }
            assert(chosen.to_set() =~= target.dom()) by {
                assert forall|id: Id| chosen.to_set().contains(id) <==> target.dom().contains(
                    id,
                ) by {
                    if chosen.to_set().contains(id) {
                        let j = choose|j: int| 0 <= j < chosen.len() && chosen[j] == id;
                        assert(keys@.to_set().contains(keys@[source[j]]));
                    }
                    if target.dom().contains(id) {
                        assert(keys@.to_set().contains(id));
                        let k = choose|k: int| 0 <= k < keys@.len() && keys@[k] == id;
                        assert(self@.characters[keys@[k]].is_active);
                    }
                }
            }
            assert(arranges(chosen, views_of(active@), target));
        }
        active
    }
}


/// What the backing files of the characters hold: for each campaign that has
/// a file, the collection in it.
pub type StoredCharacters = Map<Id, CharacterCollectionView>;

/// The store of the characters of all campaigns, one backing file for each
/// campaign. A value of this type is the content of the files as one
/// operation sees it: the caller reads the file of the campaign in question
/// into it, runs the operation, and writes back what it then holds.
pub struct CharacterStorageService {
    /// The collection in the file of each campaign that has one.
    pub files: HashMap<Id, CharacterCollection>,
}

impl View for CharacterStorageService {
    type V = StoredCharacters;

    open spec fn view(&self) -> StoredCharacters {
        views_by_key(self.files@)
    }
}

/// The collection that an operation on the campaign works on: the stored
/// one, or a new and empty one, made at the time `now`, while the campaign
/// has no file.
pub open spec fn loaded(
    files: StoredCharacters,
    campaign_id: Id,
    now: Timestamp,
) -> CharacterCollectionView {
    if files.contains_key(campaign_id) {
        files[campaign_id]
    } else {
        CharacterCollectionView::empty(campaign_id, now)
    }
}

/// The files once the file of the campaign was opened: a campaign without a
/// file has one now, with a new and empty collection in it.
pub open spec fn opened(files: StoredCharacters, campaign_id: Id, now: Timestamp) -> StoredCharacters {
    if files.contains_key(campaign_id) {
        files
    } else {
        files.insert(campaign_id, CharacterCollectionView::empty(campaign_id, now))
    }
}

/// The files once `collection` was written to the file of its campaign.
pub open spec fn saved(files: StoredCharacters, collection: CharacterCollectionView) -> StoredCharacters {
    files.insert(collection.campaign_id, collection)
}

/// Every file holds a well-formed collection of the campaign it belongs to.
pub open spec fn stored_wf(files: StoredCharacters) -> bool {
    forall|id: Id|
        files.contains_key(id) ==> (#[trigger] files[id]).campaign_id == id && files[id].wf()
}

/// No change to a character touches its identifier, its campaign or the time
/// of its creation.
pub proof fn lemma_change_keeps_identity(
    c: PlayerCharacterView,
    mutation: CharacterMutation,
    fresh: Id,
    now: Timestamp,
)
    ensures
        c.changed(mutation, fresh, now) matches Ok(changed) ==> changed.id == c.id
            && changed.campaign_id == c.campaign_id && changed.created_at == c.created_at,
{
}

impl CharacterStorageService {
    /// The store over the files that were read.
    pub fn open(files: HashMap<Id, CharacterCollection>) -> (service: Self)
        ensures
            service@ == views_by_key(files@),
    {
        CharacterStorageService { files }
    }

    /// The store over no file at all.
    pub fn new() -> (service: Self)
        ensures
            service@ == Map::<Id, CharacterCollectionView>::empty(),
    {
        let service = CharacterStorageService { files: HashMap::new() };
        assert(service@ =~= Map::<Id, CharacterCollectionView>::empty());
        service
    }

    /// What the store holds now, to be written to the backing files.
    pub fn into_files(self) -> (files: HashMap<Id, CharacterCollection>)
        ensures
            views_by_key(files@) == self@,
    {
        self.files
    }

    fn load_at(&mut self, campaign_id: &Id, now: Timestamp) -> (collection: CharacterCollection)
        ensures
            collection@ == loaded(old(self)@, *campaign_id, now),
            final(self)@ == opened(old(self)@, *campaign_id, now),
    {
        match self.files.get(campaign_id) {
            Some(c) => {
                let collection = c.clone();
                assert(final(self)@ =~= opened(old(self)@, *campaign_id, now));
                collection
            },
            None => {
                let collection = CharacterCollection::new_at(*campaign_id, now);
                self.files.insert(*campaign_id, collection.clone());
                assert(final(self)@ =~= opened(old(self)@, *campaign_id, now));
                collection
            },
        }
    }

    /// Loads the characters of a campaign; where the campaign has no file
    /// yet, a new and empty collection is made, stored and handed out.
    pub fn load_characters(&mut self, campaign_id: &Id) -> (collection: CharacterCollection)
        ensures
            exists|now: Timestamp|
                collection@ == #[trigger] loaded(old(self)@, *campaign_id, now) && final(self)@
                    == opened(old(self)@, *campaign_id, now),
    {
        let now = Timestamp::now();
        let collection = self.load_at(campaign_id, now);
        assert(collection@ == loaded(old(self)@, *campaign_id, now));
        collection
    }

    /// Stores `collection` in the file of its campaign, in place of what was
    /// stored there.
    pub fn save_characters(&mut self, collection: &CharacterCollection)
        ensures
            final(self)@ == saved(old(self)@, collection@),
    {
        self.files.insert(collection.campaign_id, collection.clone());
        assert(final(self)@ =~= saved(old(self)@, collection@));
    }

    /// `after` and `stored` are what storing a new character at the time
    /// `now` makes of `before`. The character is stored as it was `wanted`,
    /// under its own identifier where no character of its campaign has that
    /// one, else under another that none has; it stands beside the others
    /// of its campaign, which stay.
    pub open spec fn stores_new(
        before: StoredCharacters,
        wanted: PlayerCharacterView,
        now: Timestamp,
        after: StoredCharacters,
        stored: PlayerCharacterView,
    ) -> bool {
        let c = loaded(before, wanted.campaign_id, now);
        &&& !c.characters.contains_key(stored.id)
        &&& !c.characters.contains_key(wanted.id) ==> stored.id == wanted.id
        &&& stored == wanted.with_id(stored.id)
        &&& after == saved(opened(before, wanted.campaign_id, now), c.added(stored, now))
    }

    /// Stores a new character in the collection of its campaign and hands
    /// it back as it is stored. The character keeps its identifier unless
    /// a character of the campaign has it already; then it gets another,
    /// which none has. This cannot fail.
    pub fn create_new(&mut self, character: PlayerCharacter) -> (stored: PlayerCharacter)
        ensures
            exists|now: Timestamp| #[trigger]
                Self::stores_new(old(self)@, character@, now, final(self)@, stored@),
            stored_wf(old(self)@) && character@.wf() && character@.ordered() ==> stored_wf(
                final(self)@,
            ),
    {
        let now = Timestamp::now();
        let mut collection = self.load_at(&character.campaign_id, now);
        let ghost wanted = character@;
        let mut stored = character;
        stored.id = unused_key(&collection.characters, stored.id);
        collection.add_character_at(stored.clone(), now);
        self.save_characters(&collection);
        assert(Self::stores_new(old(self)@, wanted, now, final(self)@, stored@));
        stored
    }

    /// What `create_character` stores and returns when it runs at the time `now`.
    pub open spec fn create_outcome(
        files: StoredCharacters,
        character: PlayerCharacterView,
        now: Timestamp,
    ) -> (StoredCharacters, Result<PlayerCharacterView, ErrorView>) {
        let c = loaded(files, character.campaign_id, now);
        let files = opened(files, character.campaign_id, now);
        if c.characters.contains_key(character.id) {
            (files, Err(character_exists_already(character.id)))
        } else {
            (saved(files, c.added(character, now)), Ok(character))
        }
    }

    /// Adds a character to the collection of its campaign, or fails with a
    /// character error where its identifier is taken.
    pub fn create_character(&mut self, character: PlayerCharacter) -> (r: DmResult<PlayerCharacter>)
        ensures
            exists|now: Timestamp| #[trigger]
                Self::create_outcome(old(self)@, character@, now) == (
                    final(self)@,
                    view_of_result(r),
                ),
            stored_wf(old(self)@) && character@.wf() && character@.ordered() ==> stored_wf(
                final(self)@,
            ),
    {
        let now = Timestamp::now();
        let mut collection = self.load_at(&character.campaign_id, now);
        if collection.characters.contains_key(&character.id) {
            let r = Err(
                DmAssistantError::CharacterError(
                    concat3(
                        "Character with ID ",
                        uuid_text(character.id).as_str(),
                        " already exists",
                    ),
                ),
            );
            assert(Self::create_outcome(old(self)@, character@, now) == (
                final(self)@,
                view_of_result(r),
            ));
            return r;
        }
        collection.add_character_at(character.clone(), now);
        self.save_characters(&collection);
        let r = Ok(character);
        assert(Self::create_outcome(old(self)@, character@, now) == (
            final(self)@,
            view_of_result(r),
        ));
        r
    }

    /// The character `character_id` of the campaign, if there is one.
    pub fn get_character(&mut self, campaign_id: &Id, character_id: &Id) -> (found: Option<
        PlayerCharacter,
    >)
        ensures
            exists|now: Timestamp|
                final(self)@ == #[trigger] opened(old(self)@, *campaign_id, now) && view_of_option(
                    found,
                ) == loaded(old(self)@, *campaign_id, now).character(*character_id),
    {
        let now = Timestamp::now();
        let collection = self.load_at(campaign_id, now);
        let found = match collection.get_character(character_id) {
            Some(c) => Some(c.clone()),
            None => None,
        };
        assert(final(self)@ == opened(old(self)@, *campaign_id, now));
        found
    }

    fn copies(listed: &Vec<&PlayerCharacter>) -> (all: Vec<PlayerCharacter>)
        ensures
            views_of(all@) == views_of(listed@),
    {
        let mut all: Vec<PlayerCharacter> = Vec::new();
        let mut i: usize = 0;
        while i < listed.len()
            invariant
                i <= listed.len(),
                all@.len() == i,
                forall|j: int| 0 <= j < i ==> (#[trigger] all@[j])@ == listed@[j]@,
            decreases listed.len() - i,
        {
            all.push(listed[i].clone());
            i += 1;
        }
        assert(views_of(all@) =~= views_of(listed@));
        all
    }

    /// Every character of the campaign, in no particular order.
    pub fn get_characters_by_campaign(&mut self, campaign_id: &Id) -> (all: Vec<PlayerCharacter>)
        ensures
            exists|now: Timestamp|
                final(self)@ == #[trigger] opened(old(self)@, *campaign_id, now) && lists(
                    views_of(all@),
                    loaded(old(self)@, *campaign_id, now).characters,
                ),
    {
        let now = Timestamp::now();
        let collection = self.load_at(campaign_id, now);
        let listed = collection.get_all_characters();
        let all = Self::copies(&listed);
        assert(final(self)@ == opened(old(self)@, *campaign_id, now));
        all
    }

    /// The active characters of the campaign, in no particular order.
    pub fn get_active_characters_by_campaign(&mut self, campaign_id: &Id) -> (active: Vec<
        PlayerCharacter,
    >)
        ensures
            exists|now: Timestamp|
                final(self)@ == #[trigger] opened(old(self)@, *campaign_id, now) && lists(
                    views_of(active@),
                    active_characters(loaded(old(self)@, *campaign_id, now).characters),
                ),
    {
        let now = Timestamp::now();
        let collection = self.load_at(campaign_id, now);
        let listed = collection.get_active_characters();
        let active = Self::copies(&listed);
        assert(final(self)@ == opened(old(self)@, *campaign_id, now));
        active
    }

    /// What `update_character` stores and returns when it runs at the time `now`.
    pub open spec fn update_outcome(
        files: StoredCharacters,
        character: PlayerCharacterView,
        now: Timestamp,
    ) -> (StoredCharacters, Result<PlayerCharacterView, ErrorView>) {
        let c = loaded(files, character.campaign_id, now);
        let files = opened(files, character.campaign_id, now);
        if c.characters.contains_key(character.id) {
            (saved(files, c.added(character, now)), Ok(character))
        } else {
            (files, Err(character_not_found(character.id)))
        }
    }

    /// Replaces the character of the same identifier in the collection of its
    /// campaign, or fails with `NotFound`.
    pub fn update_character(&mut self, character: PlayerCharacter) -> (r: DmResult<PlayerCharacter>)
        ensures
            exists|now: Timestamp| #[trigger]
                Self::update_outcome(old(self)@, character@, now) == (
                    final(self)@,
                    view_of_result(r),
                ),
            stored_wf(old(self)@) && character@.wf() && character@.ordered() ==> stored_wf(
                final(self)@,
            ),
    {
        let now = Timestamp::now();
        let mut collection = self.load_at(&character.campaign_id, now);
        if !collection.update_character_at(character.clone(), now) {
            let r = Err(DmAssistantError::not_found("Character", uuid_text(character.id).as_str()));
            assert(Self::update_outcome(old(self)@, character@, now) == (
                final(self)@,
                view_of_result(r),
            ));
            return r;
        }
        self.save_characters(&collection);
        let r = Ok(character);
        assert(Self::update_outcome(old(self)@, character@, now) == (
            final(self)@,
            view_of_result(r),
        ));
        r
    }

    /// What `delete_character` stores and returns when it runs at the time `now`.
    pub open spec fn delete_outcome(
        files: StoredCharacters,
        campaign_id: Id,
        character_id: Id,
        now: Timestamp,
    ) -> (StoredCharacters, Result<bool, ErrorView>) {
        let c = loaded(files, campaign_id, now);
        let files = opened(files, campaign_id, now);
        if c.characters.contains_key(character_id) {
            (saved(files, c.removed(character_id, now)), Ok(true))
        } else {
            (files, Err(character_not_found(character_id)))
        }
    }

    /// Deletes a character of the campaign. Fails with `NotFound` where there
    /// is none under the identifier, and then nothing that was stored changes.
    pub fn delete_character(&mut self, campaign_id: &Id, character_id: &Id) -> (r: DmResult<bool>)
        ensures
            exists|now: Timestamp| #[trigger]
                Self::delete_outcome(old(self)@, *campaign_id, *character_id, now) == (
                    final(self)@,
                    match r {
                        Ok(b) => Ok::<bool, ErrorView>(b),
                        Err(e) => Err::<bool, ErrorView>(e@),
                    },
                ),
            stored_wf(old(self)@) ==> stored_wf(final(self)@),
    {
        let now = Timestamp::now();
        let mut collection = self.load_at(campaign_id, now);
        if !collection.remove_character_at(character_id, now) {
            let r = Err(DmAssistantError::not_found("Character", uuid_text(*character_id).as_str()));
            assert(Self::delete_outcome(old(self)@, *campaign_id, *character_id, now) == (
                final(self)@,
                Err::<bool, ErrorView>(r->Err_0@),
            ));
            return r;
        }
        self.save_characters(&collection);
        assert(Self::delete_outcome(old(self)@, *campaign_id, *character_id, now) == (
            final(self)@,
            Ok::<bool, ErrorView>(true),
        ));
        Ok(true)
    }

    /// What `modify_character` stores and returns when it runs at the time
    /// `now`; `fresh` is the identifier for a record that the change creates.
    pub open spec fn modify_outcome(
        files: StoredCharacters,
        campaign_id: Id,
        character_id: Id,
        mutation: CharacterMutation,
        fresh: Id,
        now: Timestamp,
    ) -> (StoredCharacters, Result<PlayerCharacterView, ErrorView>) {
        let c = loaded(files, campaign_id, now);
        let files = opened(files, campaign_id, now);
        match c.character(character_id) {
            None => (files, Err(character_not_found(character_id))),
            Some(character) => match character.changed(mutation, fresh, now) {
                Err(e) => (files, Err(e)),
                Ok(changed) => {
                    let result = changed.committed(now);
                    (
                        saved(
                            files,
                            CharacterCollectionView {
                                characters: c.characters.insert(character_id, result),
                                ..c
                            },
                        ),
                        Ok(result),
                    )
                },
            },
        }
    }

    /// `after` and `outcome` are what a change to a character, made at some
    /// time and with some new random identifier, makes of `before`.
    pub open spec fn modifies(
        before: StoredCharacters,
        campaign_id: Id,
        character_id: Id,
        mutation: CharacterMutation,
        after: StoredCharacters,
        outcome: Result<PlayerCharacterView, ErrorView>,
    ) -> bool {
        exists|fresh: Id, now: Timestamp|
            is_v4(fresh) && #[trigger] Self::modify_outcome(
                before,
                campaign_id,
                character_id,
                mutation,
                fresh,
                now,
            ) == (after, outcome)
    }

    /// Changes one character in place: loads the collection of the campaign,
    /// finds the character, makes the change, stamps the character with the
    /// time of the change (which is never taken to be earlier than the
    /// creation of the character), stores the whole collection and hands
    /// back a copy of the character. Where the character is missing or the change is
    /// refused, nothing that was stored changes.
    pub fn modify_character(
        &mut self,
        campaign_id: &Id,
        character_id: &Id,
        mutation: CharacterMutation,
    ) -> (r: DmResult<PlayerCharacter>)
        ensures
            Self::modifies(
                old(self)@,
                *campaign_id,
                *character_id,
                mutation,
                final(self)@,
                view_of_result(r),
            ),
            stored_wf(old(self)@) ==> stored_wf(final(self)@),
    {
        let now = Timestamp::now();
        let fresh = generate_id();
        let mut collection = self.load_at(campaign_id, now);
        let ghost before = collection@;
        match collection.characters.remove(character_id) {
            None => {
                let r = Err(
                    DmAssistantError::not_found("Character", uuid_text(*character_id).as_str()),
                );
                assert(Self::modify_outcome(
                    old(self)@,
                    *campaign_id,
                    *character_id,
                    mutation,
                    fresh,
                    now,
                ) == (final(self)@, view_of_result(r)));
                r
            },
            Some(mut character) => {
                let ghost found = character@;
                proof {
                    lemma_change_keeps_identity(found, mutation, fresh, now);
                }
                match character.apply_with(mutation, fresh, now) {
                    Err(e) => {
                        let r = Err(e);
                        assert(Self::modify_outcome(
                            old(self)@,
                            *campaign_id,
                            *character_id,
                            mutation,
                            fresh,
                            now,
                        ) == (final(self)@, view_of_result(r)));
                        r
                    },
                    Ok(_) => {
                        character.updated_at = Timestamp::latest(now, character.created_at);
                        let result = character.clone();
                        collection.characters.insert(*character_id, character);
                        assert(collection@.characters =~= before.characters.insert(
                            *character_id,
                            result@,
                        ));
                        self.save_characters(&collection);
                        let r = Ok(result);
                        assert(Self::modify_outcome(
                            old(self)@,
                            *campaign_id,
                            *character_id,
                            mutation,
                            fresh,
                            now,
                        ) == (final(self)@, view_of_result(r)));
                        r
                    },
                }
            },
        }
    }

    /// The characters that have a relationship with the NPC. The search
    /// would have to go through every campaign and is not provided: the call
    /// always fails with an internal error.
    pub fn get_characters_by_npc_relationship(&self, npc_id: &Id) -> (r: DmResult<
        Vec<PlayerCharacter>,
    >)
        ensures
            r matches Err(e) && e@ == failure(
                ErrorKind::InternalError,
                "Cross-campaign NPC relationship search not implemented yet"@,
            ),
    {
        Err(
            DmAssistantError::internal("Cross-campaign NPC relationship search not implemented yet"),
        )
    }

    /// Tells whether the campaign has a file of characters.
    pub fn characters_file_exists(&self, campaign_id: &Id) -> (b: bool)
        ensures
            b == self@.contains_key(*campaign_id),
    {
        self.files.contains_key(campaign_id)
    }
}

/// A character that was created is found under its identifier in the
/// collection of its campaign, equal in every field to the one handed in.
pub proof fn lemma_create_then_get(
    files: StoredCharacters,
    character: PlayerCharacterView,
    t1: Timestamp,
    t2: Timestamp,
)
    requires
        CharacterStorageService::create_outcome(files, character, t1).1 is Ok,
        files.contains_key(character.campaign_id) ==> files[character.campaign_id].campaign_id
            == character.campaign_id,
    ensures
        loaded(
            CharacterStorageService::create_outcome(files, character, t1).0,
            character.campaign_id,
            t2,
        ).character(character.id) == Some(character),
{
}

/// A new character that is stored stands under an identifier that no
/// character of its campaign had; every character of the campaign that was
/// stored is still there, unchanged. The new character is found under its
/// identifier as it was handed back, with the times it came with.
pub proof fn lemma_stores_new(
    before: StoredCharacters,
    wanted: PlayerCharacterView,
    now: Timestamp,
    after: StoredCharacters,
    stored: PlayerCharacterView,
    later: Timestamp,
)
    requires
        CharacterStorageService::stores_new(before, wanted, now, after, stored),
        before.contains_key(wanted.campaign_id) ==> before[wanted.campaign_id].campaign_id
            == wanted.campaign_id,
    ensures
        !loaded(before, wanted.campaign_id, now).characters.contains_key(stored.id),
        loaded(after, wanted.campaign_id, later).character(stored.id) == Some(stored),
        forall|id: Id| #[trigger]
            loaded(before, wanted.campaign_id, now).characters.contains_key(id) ==> loaded(
                after,
                wanted.campaign_id,
                later,
            ).character(id) == loaded(before, wanted.campaign_id, now).character(id),
        stored.created_at == wanted.created_at && stored.updated_at == wanted.updated_at,
        stored.campaign_id == wanted.campaign_id,
        wanted.ordered() ==> stored.ordered(),
{
}

/// In well-formed files every character was last changed no earlier than
/// it was created, stands under its own identifier and belongs to the
/// campaign of its file.
pub proof fn lemma_stored_is_ordered(
    files: StoredCharacters,
    campaign_id: Id,
    character_id: Id,
    now: Timestamp,
)
    requires
        stored_wf(files),
        loaded(files, campaign_id, now).character(character_id) is Some,
    ensures
        loaded(files, campaign_id, now).character(character_id)->0.ordered(),
        loaded(files, campaign_id, now).character(character_id)->0.id == character_id,
        loaded(files, campaign_id, now).character(character_id)->0.campaign_id == campaign_id,
{
}

/// Deleting under an identifier that names no character fails with
/// `NotFound` and leaves what the files of the campaign held as it was.
pub proof fn lemma_delete_missing(
    files: StoredCharacters,
    campaign_id: Id,
    character_id: Id,
    now: Timestamp,
)
    requires
        !loaded(files, campaign_id, now).characters.contains_key(character_id),
    ensures
        CharacterStorageService::delete_outcome(files, campaign_id, character_id, now).1 == Err::<
            bool,
            ErrorView,
        >(character_not_found(character_id)),
        files.contains_key(campaign_id) ==> CharacterStorageService::delete_outcome(
            files,
            campaign_id,
            character_id,
            now,
        ).0 == files,
{
    if files.contains_key(campaign_id) {
        assert(opened(files, campaign_id, now) =~= files);
    }
}

/// A transaction that succeeds leaves the character with the time of the
/// transaction as the time of its last change, and that time is never
/// before the creation of the character; its identifier, its campaign and
/// the time of its creation stay.
pub proof fn lemma_change_stamps(
    files: StoredCharacters,
    campaign_id: Id,
    character_id: Id,
    mutation: CharacterMutation,
    fresh: Id,
    now: Timestamp,
)
    requires
        files.contains_key(campaign_id),
        files[campaign_id].characters.contains_key(character_id),
        CharacterStorageService::modify_outcome(
            files,
            campaign_id,
            character_id,
            mutation,
            fresh,
            now,
        ).1 is Ok,
    ensures
        ({
            let before = files[campaign_id].characters[character_id];
            let after = CharacterStorageService::modify_outcome(
                files,
                campaign_id,
                character_id,
                mutation,
                fresh,
                now,
            ).1->Ok_0;
            &&& after.updated_at == Timestamp::later_of(now, before.created_at)
            &&& now.not_before(before.created_at) ==> after.updated_at == now
            &&& after.id == before.id
            &&& after.campaign_id == before.campaign_id
            &&& after.created_at == before.created_at
            &&& after.ordered()
        }),
{
    lemma_change_keeps_identity(files[campaign_id].characters[character_id], mutation, fresh, now);
}

/// A character at the highest level cannot rise: the attempt fails with a
/// character error and the stored level stays.
pub proof fn lemma_level_up_at_limit(
    files: StoredCharacters,
    campaign_id: Id,
    character_id: Id,
    fresh: Id,
    now: Timestamp,
)
    requires
        files.contains_key(campaign_id),
        files[campaign_id].characters.contains_key(character_id),
        files[campaign_id].characters[character_id].level >= MAX_LEVEL,
    ensures
        CharacterStorageService::modify_outcome(
            files,
            campaign_id,
            character_id,
            CharacterMutation::LevelUp,
            fresh,
            now,
        ) == (
            files,
            Err::<PlayerCharacterView, ErrorView>(
                failure(ErrorKind::CharacterError, "Character is already at max level (20)"@),
            ),
        ),
{
    assert(opened(files, campaign_id, now) =~= files);
}

} // verus!
