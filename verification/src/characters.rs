use crate::utils::clock::now_rfc3339;
use crate::utils::id_generator::{generate_id_string, hyphenated, is_v4};
use crate::utils::text::{
    is_blank, is_blank_text, lemma_trimmed_twice, same_text, trim, trimmed,
};
use crate::utils::views::views_of;
use vstd::prelude::*;
use vstd::string::StringExecFns;

verus! {

/// The lowest level of a character sheet.
pub const MIN_LEVEL: u8 = 1;

/// The highest level of a character sheet.
pub const MAX_LEVEL: u8 = 20;

/// A character sheet of the stand-alone character list.
#[derive(Debug)]
pub struct Character {
    pub id: String,
    pub name: String,
    pub race: String,
    pub class: String,
    pub level: u8,
    pub background: String,
    pub hit_points: u16,
    pub max_hit_points: u16,
    pub avatar: Option<String>,
    pub created_at: String,
    pub updated_at: String,
}

/// A character sheet as contracts see it.
pub struct CharacterView {
    pub id: Seq<char>,
    pub name: Seq<char>,
    pub race: Seq<char>,
    pub class: Seq<char>,
    pub level: u8,
    pub background: Seq<char>,
    pub hit_points: u16,
    pub max_hit_points: u16,
    pub avatar: Option<Seq<char>>,
    pub created_at: Seq<char>,
    pub updated_at: Seq<char>,
}

/// The text that an optional string holds.
pub open spec fn text_of(value: Option<String>) -> Option<Seq<char>> {
    match value {
        Some(s) => Some(s@),
        None => None,
    }
}

impl View for Character {
    type V = CharacterView;

    open spec fn view(&self) -> CharacterView {
        CharacterView {
            id: self.id@,
            name: self.name@,
            race: self.race@,
            class: self.class@,
            level: self.level,
            background: self.background@,
            hit_points: self.hit_points,
            max_hit_points: self.max_hit_points,
            avatar: text_of(self.avatar),
            created_at: self.created_at@,
            updated_at: self.updated_at@,
        }
    }
}

/// What a new character sheet is made of.
#[derive(Debug)]
pub struct CharacterData {
    pub name: String,
    pub race: String,
    pub class: String,
    pub level: u8,
    pub background: String,
    pub hit_points: u16,
    pub max_hit_points: u16,
}

/// A patch of a character sheet: a field that is `None` is left as it is.
/// The identifier and the two times of a sheet cannot be patched.
#[derive(Debug)]
pub struct PartialCharacter {
    pub name: Option<String>,
    pub race: Option<String>,
    pub class: Option<String>,
    pub level: Option<u8>,
    pub background: Option<String>,
    pub hit_points: Option<u16>,
    pub max_hit_points: Option<u16>,
    pub avatar: Option<Option<String>>,
}

/// The words for a name that is blank.
pub open spec fn name_is_empty() -> Seq<char> {
    "Il nome non può essere vuoto"@
}

/// The words for a level that is not between 1 and 20.
pub open spec fn level_out_of_range() -> Seq<char> {
    "Il livello deve essere tra 1 e 20"@
}

/// The words for a maximum of hit points that is zero.
pub open spec fn no_max_hit_points() -> Seq<char> {
    "I punti ferita massimi devono essere maggiori di 0"@
}

/// The words for hit points above the maximum.
pub open spec fn too_many_hit_points() -> Seq<char> {
    "I punti ferita non possono superare quelli massimi"@
}

/// The words for a sheet that is not in the list.
pub open spec fn character_missing() -> Seq<char> {
    "Personaggio non trovato"@
}

/// The value of an optional patch field, or the current value.
pub open spec fn or_current<T>(patch: Option<T>, current: T) -> T {
    match patch {
        Some(v) => v,
        None => current,
    }
}

/// The text of an optional patch field, or the current text.
pub open spec fn or_current_text(patch: Option<String>, current: Seq<char>) -> Seq<char> {
    match patch {
        Some(s) => s@,
        None => current,
    }
}

impl CharacterView {
    /// The sheet is sound: it has a name, its level lies between 1 and 20,
    /// its hit points do not exceed the maximum, and the maximum is not zero.
    pub open spec fn valid(self) -> bool {
        &&& !is_blank(self.name)
        &&& MIN_LEVEL <= self.level <= MAX_LEVEL
        &&& self.max_hit_points > 0
        &&& self.hit_points <= self.max_hit_points
    }

    /// Why the data of a new sheet is refused, if it is: the first of the
    /// four checks that fails.
    pub open spec fn creation_error(data: CharacterData) -> Option<Seq<char>> {
        if is_blank(data.name@) {
            Some(name_is_empty())
        } else if data.level == 0 || data.level > MAX_LEVEL {
            Some(level_out_of_range())
        } else if data.max_hit_points == 0 {
            Some(no_max_hit_points())
        } else if data.hit_points > data.max_hit_points {
            Some(too_many_hit_points())
        } else {
            None
        }
    }

    /// The sheet made of `data`, under the identifier `id`, at the time `now`.
    pub open spec fn created(data: CharacterData, id: Seq<char>, now: Seq<char>) -> CharacterView {
        CharacterView {
            id,
            name: trimmed(data.name@),
            race: data.race@,
            class: data.class@,
            level: data.level,
            background: data.background@,
            hit_points: data.hit_points,
            max_hit_points: data.max_hit_points,
            avatar: None,
            created_at: now,
            updated_at: now,
        }
    }

    /// Why a patch of this sheet is refused, if it is. A name or a level
    /// that the patch holds is checked as it stands; the hit points are
    /// checked as they would be after the patch, the current value standing
    /// in for each of the two that the patch leaves out.
    pub open spec fn patch_error(self, patch: PartialCharacter) -> Option<Seq<char>> {
        let hit_points = or_current(patch.hit_points, self.hit_points);
        let max_hit_points = or_current(patch.max_hit_points, self.max_hit_points);
        if patch.name matches Some(name) && is_blank(name@) {
            Some(name_is_empty())
        } else if patch.level matches Some(level) && (level == 0 || level > MAX_LEVEL) {
            Some(level_out_of_range())
        } else if max_hit_points == 0 {
            Some(no_max_hit_points())
        } else if hit_points > max_hit_points {
            Some(too_many_hit_points())
        } else {
            None
        }
    }

    /// The sheet after a patch at the time `now`: each field the patch holds
    /// replaces the current one, every other field stays.
    pub open spec fn patched(self, patch: PartialCharacter, now: Seq<char>) -> CharacterView {
        CharacterView {
            name: match patch.name {
                Some(name) => trimmed(name@),
                None => self.name,
            },
            race: or_current_text(patch.race, self.race),
            class: or_current_text(patch.class, self.class),
            level: or_current(patch.level, self.level),
            background: or_current_text(patch.background, self.background),
            hit_points: or_current(patch.hit_points, self.hit_points),
            max_hit_points: or_current(patch.max_hit_points, self.max_hit_points),
            avatar: match patch.avatar {
                Some(avatar) => text_of(avatar),
                None => self.avatar,
            },
            updated_at: now,
            ..self
        }
    }

    /// Why a sheet that comes from elsewhere is refused, if it is.
    pub open spec fn import_error(self) -> Option<Seq<char>> {
        if is_blank(self.name) {
            Some("Nome del personaggio non può essere vuoto"@)
        } else if self.level == 0 || self.level > MAX_LEVEL {
            Some("Livello deve essere tra 1 e 20"@)
        } else if self.max_hit_points == 0 {
            Some("Punti ferita massimi devono essere maggiori di 0"@)
        } else if self.hit_points > self.max_hit_points {
            Some("Punti ferita non possono superare quelli massimi"@)
        } else {
            None
        }
    }
}

/// Every sheet of the list is sound.
pub open spec fn all_valid(sheets: Seq<CharacterView>) -> bool {
    forall|i: int| 0 <= i < sheets.len() ==> (#[trigger] sheets[i]).valid()
}

/// The sheet at index `i` is the first one with the identifier `id`.
pub open spec fn is_first_with_id(sheets: Seq<CharacterView>, id: Seq<char>, i: int) -> bool {
    &&& 0 <= i < sheets.len()
    &&& sheets[i].id == id
    &&& forall|j: int| 0 <= j < i ==> (#[trigger] sheets[j]).id != id
}

/// The list has a sheet with the identifier `id`.
pub open spec fn has_id(sheets: Seq<CharacterView>, id: Seq<char>) -> bool {
    exists|i: int| 0 <= i < sheets.len() && (#[trigger] sheets[i]).id == id
}

/// The index of the first sheet with the identifier `id`.
pub open spec fn position_of(sheets: Seq<CharacterView>, id: Seq<char>) -> int {
    choose|i: int| is_first_with_id(sheets, id, i)
}

/// The sheets with another identifier than `id`, in their order.
pub open spec fn sheets_without(sheets: Seq<CharacterView>, id: Seq<char>) -> Seq<CharacterView> {
    sheets.filter(|c: CharacterView| c.id != id)
}

/// The first sheet of the list that is refused on import, if there is one.
pub open spec fn first_import_error(sheets: Seq<CharacterView>) -> Option<Seq<char>>
    decreases sheets.len(),
{
    if sheets.len() == 0 {
        None
    } else {
        match sheets[0].import_error() {
            Some(e) => Some(e),
            None => first_import_error(sheets.subrange(1, sheets.len() as int)),
        }
    }
}

/// Where the list has a sheet with the identifier, the index of the first
/// one is the only index that is the first.
pub proof fn lemma_position_of(sheets: Seq<CharacterView>, id: Seq<char>, i: int)
    requires
        is_first_with_id(sheets, id, i),
    ensures
        has_id(sheets, id),
        position_of(sheets, id) == i,
{
    let p = position_of(sheets, id);
    assert(is_first_with_id(sheets, id, p));
    if p < i {
        assert(sheets[p].id != id);
    }
    if i < p {
        assert(sheets[i].id != id);
    }
}

/// A list of which no sheet is refused on import is a list of sound sheets.
pub proof fn lemma_import_accepts_valid(sheets: Seq<CharacterView>)
    ensures
        first_import_error(sheets) is None <==> all_valid(sheets),
    decreases sheets.len(),
{
    if sheets.len() > 0 {
        let rest = sheets.subrange(1, sheets.len() as int);
        lemma_import_accepts_valid(rest);
        if first_import_error(sheets) is None {
            assert forall|i: int| 0 <= i < sheets.len() implies (#[trigger] sheets[i]).valid() by {
                if i > 0 {
                    assert(rest[i - 1] == sheets[i]);
                }
            }
        }
        if all_valid(sheets) {
            assert(sheets[0].valid());
            assert forall|i: int| 0 <= i < rest.len() implies (#[trigger] rest[i]).valid() by {
                assert(rest[i] == sheets[i + 1]);
            }
        }
    }
}

/// A patch that is accepted leaves a sound sheet sound, and a patch that was
/// accepted is accepted again by the sheet it made.
pub proof fn lemma_patch_keeps_valid(c: CharacterView, patch: PartialCharacter, now: Seq<char>)
    requires
        c.patch_error(patch) is None,
    ensures
        c.valid() ==> c.patched(patch, now).valid(),
        c.patched(patch, now).hit_points <= c.patched(patch, now).max_hit_points,
        c.patched(patch, now).max_hit_points > 0,
        c.patched(patch, now).patch_error(patch) is None,
{
    if patch.name is Some {
        lemma_trimmed_twice(patch.name->0@);
    }
}

/// A patch applied twice in a row leaves what it leaves when applied once,
/// but for the time of the last change.
pub proof fn lemma_patch_idempotent(
    c: CharacterView,
    patch: PartialCharacter,
    t1: Seq<char>,
    t2: Seq<char>,
)
    ensures
        c.patched(patch, t1).patched(patch, t2) == (CharacterView {
            updated_at: t2,
            ..c.patched(patch, t1)
        }),
{
    if patch.name is Some {
        lemma_trimmed_twice(patch.name->0@);
    }
}

fn clone_option(value: &Option<String>) -> (r: Option<String>)
    ensures
        r == *value,
{
    match value {
        Some(s) => Some(s.clone()),
        None => None,
    }
}

impl Clone for Character {
    fn clone(&self) -> (r: Self)
        ensures
            r == *self,
    {
        Character {
            id: self.id.clone(),
            name: self.name.clone(),
            race: self.race.clone(),
            class: self.class.clone(),
            level: self.level,
            background: self.background.clone(),
            hit_points: self.hit_points,
            max_hit_points: self.max_hit_points,
            avatar: clone_option(&self.avatar),
            created_at: self.created_at.clone(),
            updated_at: self.updated_at.clone(),
        }
    }
}

/// Copies a list of character sheets.
pub fn clone_sheets(sheets: &Vec<Character>) -> (r: Vec<Character>)
    ensures
        r@ == sheets@,
{
    let mut r: Vec<Character> = Vec::new();
    let mut i: usize = 0;
    while i < sheets.len()
        invariant
            i <= sheets.len(),
            r@ == sheets@.take(i as int),
        decreases sheets.len() - i,
    {
        r.push(sheets[i].clone());
        i += 1;
        assert(r@ =~= sheets@.take(i as int));
    }
    assert(sheets@.take(i as int) =~= sheets@);
    r
}

/// What the backing file of the character list holds: nothing while there is
/// no file, else the list.
pub type StoredSheets = Option<Seq<CharacterView>>;

/// The list that an operation works on: the stored one, or the empty list
/// while nothing is stored.
pub open spec fn loaded(stored: StoredSheets) -> Seq<CharacterView> {
    match stored {
        Some(sheets) => sheets,
        None => Seq::empty(),
    }
}

/// The stand-alone list of character sheets. A value of this type is the
/// content of the backing file as one operation sees it: the caller reads
/// the file into it, runs the operation, and writes back what it then holds.
pub struct CharacterService {
    /// The list in the backing file; `None` while the file does not exist.
    pub stored: Option<Vec<Character>>,
}

impl View for CharacterService {
    type V = StoredSheets;

    open spec fn view(&self) -> StoredSheets {
        match self.stored {
            Some(sheets) => Some(views_of(sheets@)),
            None => None,
        }
    }
}

impl CharacterService {
    /// The service over what the backing file holds.
    pub fn open(stored: Option<Vec<Character>>) -> (service: Self)
        ensures
            service.stored == stored,
    {
        CharacterService { stored }
    }

    /// Every stored sheet is sound.
    pub open spec fn wf(self) -> bool {
        all_valid(loaded(self@))
    }

    fn load_characters_from_file(&self) -> (sheets: Vec<Character>)
        ensures
            views_of(sheets@) == loaded(self@),
    {
        match &self.stored {
            Some(sheets) => clone_sheets(sheets),
            None => {
                let sheets: Vec<Character> = Vec::new();
                assert(views_of(sheets@) =~= loaded(self@));
                sheets
            },
        }
    }

    fn save_characters_to_file(&mut self, sheets: &Vec<Character>)
        ensures
            final(self)@ == Some(views_of(sheets@)),
    {
        self.stored = Some(clone_sheets(sheets));
    }

    /// What `create_character` stores and returns for the identifier `id` at
    /// the time `now`.
    pub open spec fn create_outcome(
        stored: StoredSheets,
        data: CharacterData,
        id: Seq<char>,
        now: Seq<char>,
    ) -> (StoredSheets, Result<CharacterView, Seq<char>>) {
        match CharacterView::creation_error(data) {
            Some(e) => (stored, Err(e)),
            None => {
                let sheet = CharacterView::created(data, id, now);
                (Some(loaded(stored).push(sheet)), Ok(sheet))
            },
        }
    }

    /// `after` and `outcome` are what an operation made of `before`.
    pub open spec fn yields(
        after: StoredSheets,
        outcome: Result<Character, String>,
        expected: (StoredSheets, Result<CharacterView, Seq<char>>),
    ) -> bool {
        &&& after == expected.0
        &&& match outcome {
            Ok(sheet) => expected.1 == Ok::<CharacterView, Seq<char>>(sheet@),
            Err(e) => expected.1 == Err::<CharacterView, Seq<char>>(e@),
        }
    }

    /// Checks the data of a new sheet, without a look at the list.
    pub fn check_new(data: &CharacterData) -> (r: Result<(), String>)
        ensures
            match r {
                Ok(_) => CharacterView::creation_error(*data) is None,
                Err(words) => CharacterView::creation_error(*data) == Some(words@),
            },
    {
        if is_blank_text(data.name.as_str()) {
            return Err(String::from_str("Il nome non può essere vuoto"));
        }
        if data.level == 0 || data.level > MAX_LEVEL {
            return Err(String::from_str("Il livello deve essere tra 1 e 20"));
        }
        if data.max_hit_points == 0 {
            return Err(String::from_str("I punti ferita massimi devono essere maggiori di 0"));
        }
        if data.hit_points > data.max_hit_points {
            return Err(String::from_str("I punti ferita non possono superare quelli massimi"));
        }
        Ok(())
    }

    /// Adds a sheet under a new random identifier, at the present time, or
    /// refuses unsound data in words.
    pub fn create_character(&mut self, data: CharacterData) -> (r: Result<Character, String>)
        ensures
            exists|id: u128, now: Seq<char>|
                is_v4(id) && Self::yields(
                    final(self)@,
                    r,
                    #[trigger] Self::create_outcome(old(self)@, data, hyphenated(id), now),
                ),
            old(self).wf() ==> final(self).wf(),
    {
        let id = generate_id_string();
        let now = now_rfc3339();
        let ghost number = choose|number: u128| is_v4(number) && id@ == #[trigger] hyphenated(number);
        let r = self.create_character_with(data, id, now);
        assert(Self::yields(
            final(self)@,
            r,
            Self::create_outcome(old(self)@, data, hyphenated(number), now@),
        ));
        r
    }

    /// Adds a sheet under the identifier `id` at the time `now`, or refuses
    /// unsound data in words; data that is refused leaves the list as it is.
    pub fn create_character_with(&mut self, data: CharacterData, id: String, now: String) -> (r:
        Result<Character, String>)
        ensures
            Self::yields(final(self)@, r, Self::create_outcome(old(self)@, data, id@, now@)),
            old(self).wf() ==> final(self).wf(),
    {
        if let Err(words) = Self::check_new(&data) {
            return Err(words);
        }
        let mut sheets = self.load_characters_from_file();
        let sheet = Character {
            id,
            name: trim(data.name.as_str()),
            race: data.race,
            class: data.class,
            level: data.level,
            background: data.background,
            hit_points: data.hit_points,
            max_hit_points: data.max_hit_points,
            avatar: None,
            created_at: now.clone(),
            updated_at: now,
        };
        let ghost before = views_of(sheets@);
        sheets.push(sheet.clone());
        assert(views_of(sheets@) =~= before.push(sheet@));
        self.save_characters_to_file(&sheets);
        proof {
            lemma_trimmed_twice(data.name@);
            if old(self).wf() {
                assert forall|i: int| 0 <= i < views_of(sheets@).len() implies (
                #[trigger] views_of(sheets@)[i]).valid() by {
                    if i < before.len() {
                        assert(views_of(sheets@)[i] == before[i]);
                    }
                }
            }
        }
        Ok(sheet)
    }

    /// Every sheet, in the order of the list.
    pub fn load_characters(&self) -> (sheets: Vec<Character>)
        ensures
            views_of(sheets@) == loaded(self@),
    {
        self.load_characters_from_file()
    }

    /// What `update_character` stores and returns at the time `now`.
    pub open spec fn update_outcome(
        stored: StoredSheets,
        id: Seq<char>,
        patch: PartialCharacter,
        now: Seq<char>,
    ) -> (StoredSheets, Result<CharacterView, Seq<char>>) {
        let sheets = loaded(stored);
        if !has_id(sheets, id) {
            (stored, Err(character_missing()))
        } else {
            let i = position_of(sheets, id);
            match sheets[i].patch_error(patch) {
                Some(e) => (stored, Err(e)),
                None => {
                    let sheet = sheets[i].patched(patch, now);
                    (Some(sheets.update(i, sheet)), Ok(sheet))
                },
            }
        }
    }

    /// Patches the first sheet with the identifier `id`, at the present time.
    pub fn update_character(&mut self, id: &str, updates: PartialCharacter) -> (r: Result<
        Character,
        String,
    >)
        ensures
            exists|now: Seq<char>|
                Self::yields(
                    final(self)@,
                    r,
                    #[trigger] Self::update_outcome(old(self)@, id@, updates, now),
                ),
            old(self).wf() ==> final(self).wf(),
    {
        let now = now_rfc3339();
        let r = self.update_character_at(id, updates, now);
        assert(Self::yields(final(self)@, r, Self::update_outcome(old(self)@, id@, updates, now@)));
        r
    }

    /// Patches the first sheet with the identifier `id` at the time `now`.
    /// The patch is checked before anything is written: each field it holds
    /// by itself, and the hit points as they would be after the patch. A
    /// patch that is refused, or that finds no sheet, leaves the list as it is.
    pub fn update_character_at(&mut self, id: &str, updates: PartialCharacter, now: String) -> (r:
        Result<Character, String>)
        ensures
            Self::yields(final(self)@, r, Self::update_outcome(old(self)@, id@, updates, now@)),
            old(self).wf() ==> final(self).wf(),
    {
        let mut sheets = self.load_characters_from_file();
        let ghost before = views_of(sheets@);
        let mut i: usize = 0;
        while i < sheets.len() && !same_text(sheets[i].id.as_str(), id)
            invariant
                i <= sheets.len(),
                views_of(sheets@) == before,
                forall|j: int| 0 <= j < i ==> (#[trigger] before[j]).id != id@,
            decreases sheets.len() - i,
        {
            assert(before[i as int] == sheets@[i as int]@);
            i += 1;
        }
        if i >= sheets.len() {
            assert(!has_id(before, id@));
            return Err(String::from_str("Personaggio non trovato"));
        }
        proof {
            assert(before[i as int] == sheets@[i as int]@);
            lemma_position_of(before, id@, i as int);
        }
        let new_hit_points = match updates.hit_points {
            Some(v) => v,
            None => sheets[i].hit_points,
        };
        let new_max_hit_points = match updates.max_hit_points {
            Some(v) => v,
            None => sheets[i].max_hit_points,
        };
        if let Some(name) = &updates.name {
            if is_blank_text(name.as_str()) {
                return Err(String::from_str("Il nome non può essere vuoto"));
            }
        }
        if let Some(level) = updates.level {
            if level == 0 || level > MAX_LEVEL {
                return Err(String::from_str("Il livello deve essere tra 1 e 20"));
            }
        }
        if new_max_hit_points == 0 {
            return Err(String::from_str("I punti ferita massimi devono essere maggiori di 0"));
        }
        if new_hit_points > new_max_hit_points {
            return Err(String::from_str("I punti ferita non possono superare quelli massimi"));
        }
        let mut sheet = sheets.remove(i);
        if let Some(name) = updates.name {
            sheet.name = trim(name.as_str());
        }
        if let Some(race) = updates.race {
            sheet.race = race;
        }
        if let Some(class) = updates.class {
            sheet.class = class;
        }
        if let Some(level) = updates.level {
            sheet.level = level;
        }
        if let Some(background) = updates.background {
            sheet.background = background;
        }
        if let Some(hit_points) = updates.hit_points {
            sheet.hit_points = hit_points;
        }
        if let Some(max_hit_points) = updates.max_hit_points {
            sheet.max_hit_points = max_hit_points;
        }
        if let Some(avatar) = updates.avatar {
            sheet.avatar = avatar;
        }
        sheet.updated_at = now;
        let updated = sheet.clone();
        sheets.insert(i, sheet);
        assert(views_of(sheets@) =~= before.update(i as int, updated@));
        self.save_characters_to_file(&sheets);
        proof {
            lemma_patch_keeps_valid(before[i as int], updates, now@);
            if old(self).wf() {
                assert forall|k: int| 0 <= k < views_of(sheets@).len() implies (
                #[trigger] views_of(sheets@)[k]).valid() by {
                    if k != i {
                        assert(views_of(sheets@)[k] == before[k]);
                    }
                }
            }
        }
        Ok(updated)
    }

    /// What `delete_character` stores and returns.
    pub open spec fn delete_outcome(stored: StoredSheets, id: Seq<char>) -> (
        StoredSheets,
        Result<(), Seq<char>>,
    ) {
        if has_id(loaded(stored), id) {
            (Some(sheets_without(loaded(stored), id)), Ok(()))
        } else {
            (stored, Err(character_missing()))
        }
    }

    /// Removes every sheet with the identifier `id`; where there is none, the
    /// call fails and the list stays as it is.
    pub fn delete_character(&mut self, id: &str) -> (r: Result<(), String>)
        ensures
            final(self)@ == Self::delete_outcome(old(self)@, id@).0,
            match r {
                Ok(_) => Self::delete_outcome(old(self)@, id@).1 is Ok,
                Err(e) => Self::delete_outcome(old(self)@, id@).1 == Err::<(), Seq<char>>(e@),
            },
            old(self).wf() ==> final(self).wf(),
    {
        let sheets = self.load_characters_from_file();
        let ghost before = views_of(sheets@);
        let mut kept: Vec<Character> = Vec::new();
        let mut found = false;
        let mut i: usize = 0;
        let ghost mut source: Seq<int> = Seq::empty();
        proof {
            reveal(Seq::filter);
            assert(before.take(0) =~= Seq::<CharacterView>::empty());
            assert(views_of(kept@) =~= Seq::<CharacterView>::empty());
        }
        while i < sheets.len()
            invariant
                before == views_of(sheets@),
                i <= sheets.len(),
                views_of(kept@) == sheets_without(before.take(i as int), id@),
                found <==> exists|j: int| 0 <= j < i && (#[trigger] before[j]).id == id@,
                source.len() == kept@.len(),
                forall|k: int|
                    0 <= k < source.len() ==> 0 <= (#[trigger] source[k]) < i && kept@[k]@
                        == before[source[k]],
            decreases sheets.len() - i,
        {
            proof {
                reveal(Seq::filter);
                assert(before.take(i + 1).drop_last() =~= before.take(i as int));
                assert(before.take(i + 1).last() == before[i as int]);
                assert(before[i as int] == sheets@[i as int]@);
            }
            let ghost kept_before = views_of(kept@);
            if same_text(sheets[i].id.as_str(), id) {
                found = true;
            } else {
                kept.push(sheets[i].clone());
                proof {
                    source = source.push(i as int);
                }
                assert(views_of(kept@) =~= kept_before.push(before[i as int]));
            }
            i += 1;
        }
        assert(before.take(i as int) =~= before);
        if !found {
            return Err(String::from_str("Personaggio non trovato"));
        }
        self.save_characters_to_file(&kept);
        proof {
            if old(self).wf() {
                assert forall|k: int| 0 <= k < views_of(kept@).len() implies (
                #[trigger] views_of(kept@)[k]).valid() by {
                    assert(before[source[k]].valid());
                }
            }
        }
        Ok(())
    }

    /// Replaces the list with one that comes from elsewhere, if every sheet
    /// of it is sound; else the call fails with the words for the first
    /// unsound sheet, and the list stays as it is.
    pub fn import_characters(&mut self, imported: Vec<Character>) -> (r: Result<(), String>)
        ensures
            match first_import_error(views_of(imported@)) {
                None => r is Ok && final(self)@ == Some(views_of(imported@)),
                Some(e) => r matches Err(words) && words@ == e && final(self)@ == old(self)@,
            },
            r is Ok ==> final(self).wf(),
    {
        let ghost sheets = views_of(imported@);
        let mut i: usize = 0;
        assert(sheets.subrange(0, sheets.len() as int) =~= sheets);
        while i < imported.len()
            invariant
                sheets == views_of(imported@),
                i <= imported.len(),
                *self == *old(self),
                first_import_error(sheets) == first_import_error(
                    sheets.subrange(i as int, sheets.len() as int),
                ),
            decreases imported.len() - i,
        {
            let ghost rest = sheets.subrange(i as int, sheets.len() as int);
            proof {
                assert(rest[0] == imported@[i as int]@);
                assert(rest.subrange(1, rest.len() as int) =~= sheets.subrange(
                    i + 1,
                    sheets.len() as int,
                ));
            }
            let sheet = &imported[i];
            if is_blank_text(sheet.name.as_str()) {
                return Err(String::from_str("Nome del personaggio non può essere vuoto"));
            }
            if sheet.level == 0 || sheet.level > MAX_LEVEL {
                return Err(String::from_str("Livello deve essere tra 1 e 20"));
            }
            if sheet.max_hit_points == 0 {
                return Err(String::from_str("Punti ferita massimi devono essere maggiori di 0"));
            }
            if sheet.hit_points > sheet.max_hit_points {
                return Err(String::from_str("Punti ferita non possono superare quelli massimi"));
            }
            i += 1;
        }
        proof {
            assert(sheets.subrange(i as int, sheets.len() as int) =~= Seq::<CharacterView>::empty());
            lemma_import_accepts_valid(sheets);
        }
        self.save_characters_to_file(&imported);
        Ok(())
    }
}

} // verus!
