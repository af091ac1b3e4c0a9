use crate::utils::clock::Timestamp;
use crate::utils::error::{
    empty_field_text, failure, not_found_text, out_of_range_text, validate_non_empty,
    validate_range, DmAssistantError, DmResult, ErrorKind, ErrorView,
};
use crate::utils::id_generator::{generate_id, is_v4, Id};
use crate::utils::sorting::{is_sorted_arrangement, sorted_order, SortKey};
use crate::utils::views::{view_of_unit_result, views_of};
use crate::models::campaign::{text_or, value_or};
use vstd::prelude::*;
use vstd::string::StringExecFns;

verus! {

/// The highest level a character can reach.
pub const MAX_LEVEL: u8 = 20;

/// Types of achievements for categorization
#[derive(Debug)]
pub enum AchievementType {
    QuestCompleted,
    PuzzleSolved,
    SocialInteraction,
    CombatVictory,
    Discovery,
    Roleplay,
    Custom(String),
}

/// An achievement type as contracts see it.
pub enum AchievementTypeView {
    QuestCompleted,
    PuzzleSolved,
    SocialInteraction,
    CombatVictory,
    Discovery,
    Roleplay,
    Custom(Seq<char>),
}

impl View for AchievementType {
    type V = AchievementTypeView;

    open spec fn view(&self) -> AchievementTypeView {
        match self {
            AchievementType::QuestCompleted => AchievementTypeView::QuestCompleted,
            AchievementType::PuzzleSolved => AchievementTypeView::PuzzleSolved,
            AchievementType::SocialInteraction => AchievementTypeView::SocialInteraction,
            AchievementType::CombatVictory => AchievementTypeView::CombatVictory,
            AchievementType::Discovery => AchievementTypeView::Discovery,
            AchievementType::Roleplay => AchievementTypeView::Roleplay,
            AchievementType::Custom(label) => AchievementTypeView::Custom(label@),
        }
    }
}

/// Simple relationship states
#[derive(Clone, Copy, Debug, PartialEq, Eq, Structural)]
pub enum RelationshipType {
    Neutral,
    Friendly,
    Hostile,
    Suspicious,
    Romantic,
    Ally,
    Enemy,
    Respected,
    Feared,
}

/// Achievement: a significant moment in a character's story
#[derive(Debug)]
pub struct Achievement {
    pub id: Id,
    pub title: String,
    pub description: String,
    /// The quest this belongs to, if any
    pub quest_id: Option<Id>,
    pub session_date: Option<Timestamp>,
    pub achievement_type: AchievementType,
    pub created_at: Timestamp,
}

/// An achievement as contracts see it.
pub struct AchievementView {
    pub id: Id,
    pub title: Seq<char>,
    pub description: Seq<char>,
    pub quest_id: Option<Id>,
    pub session_date: Option<Timestamp>,
    pub achievement_type: AchievementTypeView,
    pub created_at: Timestamp,
}

impl View for Achievement {
    type V = AchievementView;

    open spec fn view(&self) -> AchievementView {
        AchievementView {
            id: self.id,
            title: self.title@,
            description: self.description@,
            quest_id: self.quest_id,
            session_date: self.session_date,
            achievement_type: self.achievement_type@,
            created_at: self.created_at,
        }
    }
}

/// Relationship between a character and an NPC
#[derive(Debug)]
pub struct CharacterRelationship {
    pub id: Id,
    pub character_id: Id,
    pub npc_id: Id,
    pub relationship_type: RelationshipType,
    /// Context about the relationship
    pub notes: String,
    pub last_interaction: Option<Timestamp>,
    pub created_at: Timestamp,
    pub updated_at: Timestamp,
}

/// A relationship as contracts see it.
pub struct CharacterRelationshipView {
    pub id: Id,
    pub character_id: Id,
    pub npc_id: Id,
    pub relationship_type: RelationshipType,
    pub notes: Seq<char>,
    pub last_interaction: Option<Timestamp>,
    pub created_at: Timestamp,
    pub updated_at: Timestamp,
}

impl View for CharacterRelationship {
    type V = CharacterRelationshipView;

    open spec fn view(&self) -> CharacterRelationshipView {
        CharacterRelationshipView {
            id: self.id,
            character_id: self.character_id,
            npc_id: self.npc_id,
            relationship_type: self.relationship_type,
            notes: self.notes@,
            last_interaction: self.last_interaction,
            created_at: self.created_at,
            updated_at: self.updated_at,
        }
    }
}

/// Player character from the DM's perspective
#[derive(Debug)]
pub struct PlayerCharacter {
    pub id: Id,
    pub campaign_id: Id,
    pub name: String,
    pub race: String,
    pub class: String,
    pub level: u8,
    pub max_hp: u16,
    pub background: String,
    pub achievements: Vec<Achievement>,
    pub relationships: Vec<CharacterRelationship>,
    /// The DM's private notes about the character
    pub notes: String,
    /// Whether the character still takes part in the campaign
    pub is_active: bool,
    pub created_at: Timestamp,
    pub updated_at: Timestamp,
}

/// A player character as contracts see it.
pub struct PlayerCharacterView {
    pub id: Id,
    pub campaign_id: Id,
    pub name: Seq<char>,
    pub race: Seq<char>,
    pub class: Seq<char>,
    pub level: u8,
    pub max_hp: u16,
    pub background: Seq<char>,
    pub achievements: Seq<AchievementView>,
    pub relationships: Seq<CharacterRelationshipView>,
    pub notes: Seq<char>,
    pub is_active: bool,
    pub created_at: Timestamp,
    pub updated_at: Timestamp,
}

impl View for PlayerCharacter {
    type V = PlayerCharacterView;

    open spec fn view(&self) -> PlayerCharacterView {
        PlayerCharacterView {
            id: self.id,
            campaign_id: self.campaign_id,
            name: self.name@,
            race: self.race@,
            class: self.class@,
            level: self.level,
            max_hp: self.max_hp,
            background: self.background@,
            achievements: views_of(self.achievements@),
            relationships: views_of(self.relationships@),
            notes: self.notes@,
            is_active: self.is_active,
            created_at: self.created_at,
            updated_at: self.updated_at,
        }
    }
}

/// Request to create a new character
#[derive(Debug)]
pub struct CreateCharacterRequest {
    pub campaign_id: Id,
    pub name: String,
    pub race: String,
    pub class: String,
    pub level: u8,
    pub max_hp: u16,
    pub background: String,
    pub notes: Option<String>,
}

/// Request to update a character: a field that is `None` is left as it is.
#[derive(Debug)]
pub struct UpdateCharacterRequest {
    pub name: Option<String>,
    pub race: Option<String>,
    pub class: Option<String>,
    pub level: Option<u8>,
    pub max_hp: Option<u16>,
    pub background: Option<String>,
    pub notes: Option<String>,
    pub is_active: Option<bool>,
}

/// Request to add an achievement
#[derive(Debug)]
pub struct AddAchievementRequest {
    pub character_id: Id,
    pub title: String,
    pub description: String,
    pub quest_id: Option<Id>,
    pub session_date: Option<Timestamp>,
    pub achievement_type: AchievementType,
}

/// Request to set the relationship of a character with an NPC
#[derive(Debug)]
pub struct UpdateRelationshipRequest {
    pub character_id: Id,
    pub npc_id: Id,
    pub relationship_type: RelationshipType,
    pub notes: Option<String>,
}

/// A change to one character, to be made inside a transaction of the store.
#[derive(Debug)]
pub enum CharacterMutation {
    /// Replace the fields that the request holds.
    Update(UpdateCharacterRequest),
    /// Append an achievement.
    AddAchievement(AddAchievementRequest),
    /// Remove the achievement with this identifier; `given` is the identifier
    /// as the caller wrote it, for the error message.
    RemoveAchievement { achievement_id: Id, given: String },
    /// Set the relationship with an NPC.
    UpdateRelationship(UpdateRelationshipRequest),
    /// Remove the relationship with this NPC; the two texts are the
    /// identifiers as the caller wrote them, for the error message.
    RemoveRelationship { npc_id: Id, character_given: String, npc_given: String },
    /// Raise the level by one.
    LevelUp,
    /// Switch between active and inactive.
    ToggleActive,
}

/// Why a patch of a character is refused, if it is. Only the fields that the
/// patch holds are checked, each by itself: a name has to hold more than
/// whitespace, a level has to lie between 1 and 20, and the maximum of hit
/// points cannot be zero. The first check that fails gives the error.
pub open spec fn patch_error(req: UpdateCharacterRequest) -> Option<ErrorView> {
    if req.name matches Some(name) && crate::utils::text::is_blank(name@) {
        Some(failure(ErrorKind::ValidationError, empty_field_text("Character name"@)))
    } else if req.level matches Some(level) && (level == 0 || level > MAX_LEVEL) {
        Some(
            failure(
                ErrorKind::ValidationError,
                out_of_range_text("Character level"@, 1, MAX_LEVEL as int),
            ),
        )
    } else if req.max_hp == Some(0u16) {
        Some(failure(ErrorKind::ValidationError, "Character max HP must be greater than 0"@))
    } else {
        None
    }
}

/// Checks a patch of a character.
pub fn validate_update_request(req: &UpdateCharacterRequest) -> (r: DmResult<()>)
    ensures
        match r {
            Ok(_) => patch_error(*req) is None,
            Err(e) => patch_error(*req) == Some(e@),
        },
{
    if let Some(name) = &req.name {
        if let Err(e) = validate_non_empty(name.as_str(), "Character name") {
            return Err(e);
        }
    }
    if let Some(level) = req.level {
        if let Err(e) = validate_range(level as i64, 1, MAX_LEVEL as i64, "Character level") {
            return Err(e);
        }
    }
    if let Some(max_hp) = req.max_hp {
        if max_hp == 0 {
            return Err(DmAssistantError::validation("Character max HP must be greater than 0"));
        }
    }
    Ok(())
}

/// The achievements other than the one with the identifier `id`.
pub open spec fn achievements_without(items: Seq<AchievementView>, id: Id) -> Seq<AchievementView> {
    items.filter(|a: AchievementView| a.id != id)
}

/// The relationships with NPCs other than `npc_id`.
pub open spec fn relationships_without(
    items: Seq<CharacterRelationshipView>,
    npc_id: Id,
) -> Seq<CharacterRelationshipView> {
    items.filter(|r: CharacterRelationshipView| r.npc_id != npc_id)
}

/// The message of a relationship that was looked for and is not there.
pub open spec fn missing_relationship_subject(character: Seq<char>, npc: Seq<char>) -> Seq<char> {
    "Character "@ + character + " with NPC "@ + npc
}

/// The key by which achievements are listed: the later one first.
pub open spec fn achievement_key(a: AchievementView) -> SortKey {
    SortKey { rank: 0, first: a.created_at, second: Timestamp { secs: 0, nanos: 0 } }
}

impl PlayerCharacterView {
    /// The character that a request creates under `id` at the time `now`.
    pub open spec fn created(req: CreateCharacterRequest, id: Id, now: Timestamp) -> Self {
        PlayerCharacterView {
            id,
            campaign_id: req.campaign_id,
            name: req.name@,
            race: req.race@,
            class: req.class@,
            level: req.level,
            max_hp: req.max_hp,
            background: req.background@,
            achievements: Seq::empty(),
            relationships: Seq::empty(),
            notes: text_or(req.notes, Seq::empty()),
            is_active: true,
            created_at: now,
            updated_at: now,
        }
    }

    /// The character after a patch at the time `now`: each field the patch
    /// holds replaces the current one, every other field stays.
    pub open spec fn updated(self, req: UpdateCharacterRequest, now: Timestamp) -> Self {
        PlayerCharacterView {
            name: text_or(req.name, self.name),
            race: text_or(req.race, self.race),
            class: text_or(req.class, self.class),
            level: value_or(req.level, self.level),
            max_hp: value_or(req.max_hp, self.max_hp),
            background: text_or(req.background, self.background),
            notes: text_or(req.notes, self.notes),
            is_active: value_or(req.is_active, self.is_active),
            updated_at: now,
            ..self
        }
    }

    /// The character under another identifier.
    pub open spec fn with_id(self, id: Id) -> Self {
        PlayerCharacterView { id, ..self }
    }

    /// The time of the last change is not before the time of creation.
    pub open spec fn ordered(self) -> bool {
        self.updated_at.not_before(self.created_at)
    }

    /// The character after a transaction that commits when the clock reads
    /// `now`: the time of its last change is `now`, or the time of its
    /// creation where the clock reads an earlier time than that.
    pub open spec fn committed(self, now: Timestamp) -> Self {
        self.stamped(Timestamp::later_of(now, self.created_at))
    }

    /// The character with another time of last change.
    pub open spec fn stamped(self, now: Timestamp) -> Self {
        PlayerCharacterView { updated_at: now, ..self }
    }

    /// The achievement that a request creates under `id` at the time `now`.
    pub open spec fn new_achievement(req: AddAchievementRequest, id: Id, now: Timestamp) -> AchievementView {
        AchievementView {
            id,
            title: req.title@,
            description: req.description@,
            quest_id: req.quest_id,
            session_date: req.session_date,
            achievement_type: req.achievement_type@,
            created_at: now,
        }
    }

    /// The character with one more achievement at the end of its list.
    pub open spec fn with_achievement(self, req: AddAchievementRequest, id: Id, now: Timestamp) -> Self {
        PlayerCharacterView {
            achievements: self.achievements.push(Self::new_achievement(req, id, now)),
            updated_at: now,
            ..self
        }
    }

    /// The character has an achievement with the identifier `id`.
    pub open spec fn has_achievement(self, id: Id) -> bool {
        exists|i: int| 0 <= i < self.achievements.len() && (#[trigger] self.achievements[i]).id == id
    }

    /// The character has a relationship with the NPC.
    pub open spec fn knows_npc(self, npc_id: Id) -> bool {
        exists|i: int|
            0 <= i < self.relationships.len() && (#[trigger] self.relationships[i]).npc_id
                == npc_id
    }

    /// The relationship at index `i` is the first one with the NPC.
    pub open spec fn is_first_with(self, npc_id: Id, i: int) -> bool {
        &&& 0 <= i < self.relationships.len()
        &&& self.relationships[i].npc_id == npc_id
        &&& forall|j: int| 0 <= j < i ==> (#[trigger] self.relationships[j]).npc_id != npc_id
    }

    /// The index of the first relationship with the NPC.
    pub open spec fn npc_position(self, npc_id: Id) -> int {
        choose|i: int| self.is_first_with(npc_id, i)
    }

    /// The relationship with the NPC, if there is one.
    pub open spec fn relationship_with(self, npc_id: Id) -> Option<CharacterRelationshipView> {
        if self.knows_npc(npc_id) {
            Some(self.relationships[self.npc_position(npc_id)])
        } else {
            None
        }
    }

    /// No two relationships of the character are with the same NPC.
    pub open spec fn wf(self) -> bool {
        forall|i: int, j: int|
            0 <= i < self.relationships.len() && 0 <= j < self.relationships.len() && i != j ==> (
            #[trigger] self.relationships[i]).npc_id != (#[trigger] self.relationships[j]).npc_id
    }

    /// A relationship after it was set again at the time `now`: its type is
    /// the new one, its notes are the new ones where the request holds notes.
    pub open spec fn refreshed(
        current: CharacterRelationshipView,
        req: UpdateRelationshipRequest,
        now: Timestamp,
    ) -> CharacterRelationshipView {
        CharacterRelationshipView {
            relationship_type: req.relationship_type,
            notes: text_or(req.notes, current.notes),
            last_interaction: Some(now),
            updated_at: now,
            ..current
        }
    }

    /// The relationship that a request creates under `id` at the time `now`.
    pub open spec fn new_relationship(req: UpdateRelationshipRequest, id: Id, now: Timestamp) -> CharacterRelationshipView {
        CharacterRelationshipView {
            id,
            character_id: req.character_id,
            npc_id: req.npc_id,
            relationship_type: req.relationship_type,
            notes: text_or(req.notes, Seq::empty()),
            last_interaction: Some(now),
            created_at: now,
            updated_at: now,
        }
    }

    /// The character after its relationship with an NPC was set: the record
    /// for that NPC is refreshed where there is one, else a new record, under
    /// the identifier `id`, is added at the end.
    pub open spec fn with_relationship(
        self,
        req: UpdateRelationshipRequest,
        id: Id,
        now: Timestamp,
    ) -> Self {
        let relationships = if self.knows_npc(req.npc_id) {
            let i = self.npc_position(req.npc_id);
            self.relationships.update(i, Self::refreshed(self.relationships[i], req, now))
        } else {
            self.relationships.push(Self::new_relationship(req, id, now))
        };
        PlayerCharacterView { relationships, updated_at: now, ..self }
    }

    /// The character one level higher.
    pub open spec fn leveled_up(self) -> Self {
        PlayerCharacterView { level: (self.level + 1) as u8, ..self }
    }

    /// The character switched between active and inactive.
    pub open spec fn toggled(self) -> Self {
        PlayerCharacterView { is_active: !self.is_active, ..self }
    }

    /// What a change makes of the character at the time `now`, or the error it
    /// is refused with; `fresh` is the identifier for a record that it creates.
    pub open spec fn changed(self, mutation: CharacterMutation, fresh: Id, now: Timestamp) -> Result<
        Self,
        ErrorView,
    > {
        match mutation {
            CharacterMutation::Update(req) => match patch_error(req) {
                Some(e) => Err(e),
                None => Ok(self.updated(req, now)),
            },
            CharacterMutation::AddAchievement(req) => Ok(self.with_achievement(req, fresh, now)),
            CharacterMutation::RemoveAchievement { achievement_id, given } => {
                if self.has_achievement(achievement_id) {
                    Ok(
                        PlayerCharacterView {
                            achievements: achievements_without(self.achievements, achievement_id),
                            ..self
                        },
                    )
                } else {
                    Err(failure(ErrorKind::NotFound, not_found_text("Achievement"@, given@)))
                }
            },
            CharacterMutation::UpdateRelationship(req) => Ok(
                self.with_relationship(req, fresh, now),
            ),
            CharacterMutation::RemoveRelationship { npc_id, character_given, npc_given } => {
                if self.knows_npc(npc_id) {
                    Ok(
                        PlayerCharacterView {
                            relationships: relationships_without(self.relationships, npc_id),
                            ..self
                        },
                    )
                } else {
                    Err(
                        failure(
                            ErrorKind::NotFound,
                            not_found_text(
                                "Relationship"@,
                                missing_relationship_subject(character_given@, npc_given@),
                            ),
                        ),
                    )
                }
            },
            CharacterMutation::LevelUp => {
                if self.level >= MAX_LEVEL {
                    Err(
                        failure(
                            ErrorKind::CharacterError,
                            "Character is already at max level (20)"@,
                        ),
                    )
                } else {
                    Ok(self.leveled_up())
                }
            },
            CharacterMutation::ToggleActive => Ok(self.toggled()),
        }
    }
}


/// The keys by which a list of achievements is ordered.
pub open spec fn achievement_keys(items: Seq<AchievementView>) -> Seq<SortKey> {
    Seq::new(items.len(), |i: int| achievement_key(items[i]))
}

impl Clone for AchievementType {
    fn clone(&self) -> (r: Self)
        ensures
            r@ == self@,
    {
        match self {
            AchievementType::QuestCompleted => AchievementType::QuestCompleted,
            AchievementType::PuzzleSolved => AchievementType::PuzzleSolved,
            AchievementType::SocialInteraction => AchievementType::SocialInteraction,
            AchievementType::CombatVictory => AchievementType::CombatVictory,
            AchievementType::Discovery => AchievementType::Discovery,
            AchievementType::Roleplay => AchievementType::Roleplay,
            AchievementType::Custom(label) => AchievementType::Custom(label.clone()),
        }
    }
}

impl Clone for Achievement {
    fn clone(&self) -> (r: Self)
        ensures
            r@ == self@,
    {
        Achievement {
            id: self.id,
            title: self.title.clone(),
            description: self.description.clone(),
            quest_id: self.quest_id,
            session_date: self.session_date,
            achievement_type: self.achievement_type.clone(),
            created_at: self.created_at,
        }
    }
}

impl Clone for CharacterRelationship {
    fn clone(&self) -> (r: Self)
        ensures
            r@ == self@,
    {
        CharacterRelationship {
            id: self.id,
            character_id: self.character_id,
            npc_id: self.npc_id,
            relationship_type: self.relationship_type,
            notes: self.notes.clone(),
            last_interaction: self.last_interaction,
            created_at: self.created_at,
            updated_at: self.updated_at,
        }
    }
}

fn clone_achievements(items: &Vec<Achievement>) -> (r: Vec<Achievement>)
    ensures
        views_of(r@) == views_of(items@),
{
    let mut r: Vec<Achievement> = Vec::new();
    let mut i: usize = 0;
    while i < items.len()
        invariant
            i <= items.len(),
            r@.len() == i,
            forall|j: int| 0 <= j < i ==> (#[trigger] r@[j])@ == items@[j]@,
        decreases items.len() - i,
    {
        r.push(items[i].clone());
        i += 1;
    }
    assert(views_of(r@) =~= views_of(items@));
    r
}

fn clone_relationships(items: &Vec<CharacterRelationship>) -> (r: Vec<CharacterRelationship>)
    ensures
        views_of(r@) == views_of(items@),
{
    let mut r: Vec<CharacterRelationship> = Vec::new();
    let mut i: usize = 0;
    while i < items.len()
        invariant
            i <= items.len(),
            r@.len() == i,
            forall|j: int| 0 <= j < i ==> (#[trigger] r@[j])@ == items@[j]@,
        decreases items.len() - i,
    {
        r.push(items[i].clone());
        i += 1;
    }
    assert(views_of(r@) =~= views_of(items@));
    r
}

impl Clone for PlayerCharacter {
    fn clone(&self) -> (r: Self)
        ensures
            r@ == self@,
    {
        PlayerCharacter {
            id: self.id,
            campaign_id: self.campaign_id,
            name: self.name.clone(),
            race: self.race.clone(),
            class: self.class.clone(),
            level: self.level,
            max_hp: self.max_hp,
            background: self.background.clone(),
            achievements: clone_achievements(&self.achievements),
            relationships: clone_relationships(&self.relationships),
            notes: self.notes.clone(),
            is_active: self.is_active,
            created_at: self.created_at,
            updated_at: self.updated_at,
        }
    }
}

/// Where the list has a relationship with the NPC, the index of the first one
/// is the only index that is the first.
pub proof fn lemma_npc_position(c: PlayerCharacterView, npc_id: Id, i: int)
    requires
        c.is_first_with(npc_id, i),
    ensures
        c.knows_npc(npc_id),
        c.npc_position(npc_id) == i,
{
    let p = c.npc_position(npc_id);
    assert(c.is_first_with(npc_id, p));
    if p < i {
        assert(c.relationships[p].npc_id != npc_id);
    }
    if i < p {
        assert(c.relationships[i].npc_id != npc_id);
    }
}

impl PlayerCharacter {
    /// Creates a character under a new random identifier, at the present time.
    pub fn new(req: CreateCharacterRequest) -> (c: Self)
        ensures
            c@ == PlayerCharacterView::created(req, c.id, c.created_at),
            is_v4(c.id),
            c@.wf(),
            c@.ordered(),
    {
        let now = Timestamp::now();
        let id = generate_id();
        PlayerCharacter::new_with(req, id, now)
    }

    /// Creates a character under the identifier `id` at the time `now`.
    pub fn new_with(req: CreateCharacterRequest, id: Id, now: Timestamp) -> (c: Self)
        ensures
            c@ == PlayerCharacterView::created(req, id, now),
            c@.wf(),
            c@.ordered(),
    {
        let c = PlayerCharacter {
            id,
            campaign_id: req.campaign_id,
            name: req.name,
            race: req.race,
            class: req.class,
            level: req.level,
            max_hp: req.max_hp,
            background: req.background,
            achievements: Vec::new(),
            relationships: Vec::new(),
            notes: match req.notes {
                Some(notes) => notes,
                None => String::new(),
            },
            is_active: true,
            created_at: now,
            updated_at: now,
        };
        assert(c@.achievements =~= Seq::empty());
        assert(c@.relationships =~= Seq::empty());
        c
    }

    /// Applies a patch at the present time.
    pub fn update(&mut self, req: UpdateCharacterRequest)
        ensures
            final(self)@ == old(self)@.updated(req, final(self).updated_at),
    {
        let now = Timestamp::now();
        self.update_at(req, now);
    }

    /// Applies a patch at the time `now`.
    pub fn update_at(&mut self, req: UpdateCharacterRequest, now: Timestamp)
        ensures
            final(self)@ == old(self)@.updated(req, now),
    {
        if let Some(name) = req.name {
            self.name = name;
        }
        if let Some(race) = req.race {
            self.race = race;
        }
        if let Some(class) = req.class {
            self.class = class;
        }
        if let Some(level) = req.level {
            self.level = level;
        }
        if let Some(max_hp) = req.max_hp {
            self.max_hp = max_hp;
        }
        if let Some(background) = req.background {
            self.background = background;
        }
        if let Some(notes) = req.notes {
            self.notes = notes;
        }
        if let Some(is_active) = req.is_active {
            self.is_active = is_active;
        }
        self.updated_at = now;
    }

    /// Appends an achievement under a new random identifier, at the present time.
    pub fn add_achievement(&mut self, req: AddAchievementRequest)
        ensures
            exists|id: Id|
                is_v4(id) && final(self)@ == #[trigger] old(self)@.with_achievement(
                    req,
                    id,
                    final(self).updated_at,
                ),
    {
        let now = Timestamp::now();
        let id = generate_id();
        self.add_achievement_with(req, id, now);
    }

    /// Appends an achievement under the identifier `id` at the time `now`.
    pub fn add_achievement_with(&mut self, req: AddAchievementRequest, id: Id, now: Timestamp)
        ensures
            final(self)@ == old(self)@.with_achievement(req, id, now),
    {
        let achievement = Achievement {
            id,
            title: req.title,
            description: req.description,
            quest_id: req.quest_id,
            session_date: req.session_date,
            achievement_type: req.achievement_type,
            created_at: now,
        };
        self.achievements.push(achievement);
        self.updated_at = now;
        assert(final(self)@.achievements =~= old(self)@.with_achievement(req, id, now).achievements);
    }

    /// Sets the relationship with an NPC at the present time; a record that it
    /// creates gets a new random identifier.
    pub fn update_relationship(&mut self, req: UpdateRelationshipRequest)
        ensures
            exists|id: Id|
                is_v4(id) && final(self)@ == #[trigger] old(self)@.with_relationship(
                    req,
                    id,
                    final(self).updated_at,
                ),
            old(self)@.wf() ==> final(self)@.wf(),
    {
        let now = Timestamp::now();
        let id = generate_id();
        self.update_relationship_with(req, id, now);
    }

    /// Sets the relationship with an NPC at the time `now`: the record for that
    /// NPC is refreshed where there is one, else a new record is added under
    /// the identifier `id`.
    pub fn update_relationship_with(&mut self, req: UpdateRelationshipRequest, id: Id, now: Timestamp)
        ensures
            final(self)@ == old(self)@.with_relationship(req, id, now),
            old(self)@.wf() ==> final(self)@.wf(),
    {
        let mut i: usize = 0;
        while i < self.relationships.len() && self.relationships[i].npc_id != req.npc_id
            invariant
                *self == *old(self),
                i <= self.relationships.len(),
                forall|j: int| 0 <= j < i ==> (#[trigger] self.relationships@[j]).npc_id != req.npc_id,
            decreases self.relationships.len() - i,
        {
            i += 1;
        }
        let ghost before = self@;
        if i < self.relationships.len() {
            proof {
                assert forall|j: int| 0 <= j < i implies (#[trigger] before.relationships[j]).npc_id
                    != req.npc_id by {
                    assert(before.relationships[j] == self.relationships@[j]@);
                }
                lemma_npc_position(before, req.npc_id, i as int);
            }
            let mut relationship = self.relationships.remove(i);
            relationship.relationship_type = req.relationship_type;
            if let Some(notes) = req.notes {
                relationship.notes = notes;
            }
            relationship.last_interaction = Some(now);
            relationship.updated_at = now;
            self.relationships.insert(i, relationship);
            self.updated_at = now;
            proof {
                let after = final(self)@.relationships;
                let wanted = before.relationships.update(
                    i as int,
                    PlayerCharacterView::refreshed(before.relationships[i as int], req, now),
                );
                assert(after =~= wanted);
                if before.wf() {
                    assert forall|a: int, b: int|
                        0 <= a < after.len() && 0 <= b < after.len() && a != b implies (
                    #[trigger] after[a]).npc_id != (#[trigger] after[b]).npc_id by {
                        assert(after[a].npc_id == before.relationships[a].npc_id);
                        assert(after[b].npc_id == before.relationships[b].npc_id);
                    }
                }
            }
        } else {
            proof {
                assert(!before.knows_npc(req.npc_id)) by {
                    if before.knows_npc(req.npc_id) {
                        let j = choose|j: int|
                            0 <= j < before.relationships.len() && (
                            #[trigger] before.relationships[j]).npc_id == req.npc_id;
                        assert(before.relationships[j] == self.relationships@[j]@);
                    }
                }
            }
            let relationship = CharacterRelationship {
                id,
                character_id: req.character_id,
                npc_id: req.npc_id,
                relationship_type: req.relationship_type,
                notes: match req.notes {
                    Some(notes) => notes,
                    None => String::new(),
                },
                last_interaction: Some(now),
                created_at: now,
                updated_at: now,
            };
            self.relationships.push(relationship);
            self.updated_at = now;
            proof {
                let after = final(self)@.relationships;
                let wanted = before.relationships.push(
                    PlayerCharacterView::new_relationship(req, id, now),
                );
                assert(after =~= wanted);
                if before.wf() {
                    assert forall|a: int, b: int|
                        0 <= a < after.len() && 0 <= b < after.len() && a != b implies (
                    #[trigger] after[a]).npc_id != (#[trigger] after[b]).npc_id by {
                        if a < before.relationships.len() {
                            assert(after[a] == before.relationships[a]);
                        }
                        if b < before.relationships.len() {
                            assert(after[b] == before.relationships[b]);
                        }
                    }
                }
            }
        }
    }

    /// The achievements, the latest first; achievements of one and the same
    /// moment keep the order in which they were added.
    pub fn get_achievements_sorted(&self) -> (sorted: Vec<&Achievement>)
        ensures
            exists|order: Seq<usize>|
                {
                    &&& #[trigger] is_sorted_arrangement(
                        achievement_keys(self@.achievements),
                        order,
                    )
                    &&& sorted@.len() == order.len()
                    &&& forall|i: int|
                        0 <= i < order.len() ==> *(#[trigger] sorted@[i])
                            == self.achievements@[order[i] as int]
                },
    {
        let mut keys: Vec<SortKey> = Vec::new();
        let mut i: usize = 0;
        while i < self.achievements.len()
            invariant
                i <= self.achievements.len(),
                keys@.len() == i,
                forall|j: int| 0 <= j < i ==> #[trigger] keys@[j] == achievement_key(self.achievements@[j]@),
            decreases self.achievements.len() - i,
        {
            keys.push(
                SortKey {
                    rank: 0,
                    first: self.achievements[i].created_at,
                    second: Timestamp { secs: 0, nanos: 0 },
                },
            );
            i += 1;
        }
        assert(keys@ =~= achievement_keys(self@.achievements));
        let order = sorted_order(&keys);
        let mut sorted: Vec<&Achievement> = Vec::new();
        let mut k: usize = 0;
        while k < order.len()
            invariant
                k <= order.len(),
                is_sorted_arrangement(keys@, order@),
                keys@.len() == self.achievements@.len(),
                sorted@.len() == k,
                forall|j: int|
                    0 <= j < k ==> *(#[trigger] sorted@[j]) == self.achievements@[order@[j] as int],
            decreases order.len() - k,
        {
            sorted.push(&self.achievements[order[k]]);
            k += 1;
        }
        sorted
    }

    /// The relationship with the NPC, if there is one.
    pub fn get_relationship(&self, npc_id: Id) -> (found: Option<&CharacterRelationship>)
        ensures
            match found {
                Some(r) => self@.relationship_with(npc_id) == Some(r@),
                None => self@.relationship_with(npc_id) is None,
            },
    {
        let mut i: usize = 0;
        while i < self.relationships.len() && self.relationships[i].npc_id != npc_id
            invariant
                i <= self.relationships.len(),
                forall|j: int| 0 <= j < i ==> (#[trigger] self.relationships@[j]).npc_id != npc_id,
            decreases self.relationships.len() - i,
        {
            i += 1;
        }
        if i < self.relationships.len() {
            proof {
                assert forall|j: int| 0 <= j < i implies (#[trigger] self@.relationships[j]).npc_id
                    != npc_id by {
                    assert(self@.relationships[j] == self.relationships@[j]@);
                }
                lemma_npc_position(self@, npc_id, i as int);
            }
            Some(&self.relationships[i])
        } else {
            proof {
                assert(!self@.knows_npc(npc_id)) by {
                    if self@.knows_npc(npc_id) {
                        let j = choose|j: int|
                            0 <= j < self@.relationships.len() && (
                            #[trigger] self@.relationships[j]).npc_id == npc_id;
                        assert(self@.relationships[j] == self.relationships@[j]@);
                    }
                }
            }
            None
        }
    }
}

impl PlayerCharacter {
    /// Removes the achievement with the identifier `achievement_id` and tells
    /// whether there was one.
    pub fn remove_achievement(&mut self, achievement_id: Id) -> (found: bool)
        ensures
            found == old(self)@.has_achievement(achievement_id),
            final(self)@ == (PlayerCharacterView {
                achievements: achievements_without(old(self)@.achievements, achievement_id),
                ..old(self)@
            }),
            !found ==> final(self)@ == old(self)@,
    {
        let ghost before = self@.achievements;
        let mut kept: Vec<Achievement> = Vec::new();
        let mut found = false;
        let mut i: usize = 0;
        proof {
            reveal(Seq::filter);
            assert(before.take(0) =~= Seq::<AchievementView>::empty());
            assert(views_of(kept@) =~= Seq::<AchievementView>::empty());
        }
        while i < self.achievements.len()
            invariant
                *self == *old(self),
                before == self@.achievements,
                i <= self.achievements.len(),
                views_of(kept@) == achievements_without(before.take(i as int), achievement_id),
                found <==> exists|j: int| 0 <= j < i && (#[trigger] before[j]).id == achievement_id,
                !found ==> views_of(kept@) == before.take(i as int),
            decreases self.achievements.len() - i,
        {
            proof {
                reveal(Seq::filter);
                assert(before.take(i + 1).drop_last() =~= before.take(i as int));
                assert(before.take(i + 1).last() == before[i as int]);
                assert(before[i as int] == self.achievements@[i as int]@);
            }
            let ghost kept_before = views_of(kept@);
            if self.achievements[i].id == achievement_id {
                found = true;
            } else {
                kept.push(self.achievements[i].clone());
                assert(views_of(kept@) =~= kept_before.push(before[i as int]));
                assert(before.take(i + 1) =~= before.take(i as int).push(before[i as int]));
            }
            i += 1;
        }
        assert(before.take(i as int) =~= before);
        self.achievements = kept;
        found
    }

    /// Removes the relationship with the NPC and tells whether there was one.
    pub fn remove_relationship(&mut self, npc_id: Id) -> (found: bool)
        ensures
            found == old(self)@.knows_npc(npc_id),
            final(self)@ == (PlayerCharacterView {
                relationships: relationships_without(old(self)@.relationships, npc_id),
                ..old(self)@
            }),
            !found ==> final(self)@ == old(self)@,
            old(self)@.wf() ==> final(self)@.wf(),
    {
        let ghost before = self@.relationships;
        let mut kept: Vec<CharacterRelationship> = Vec::new();
        let mut found = false;
        let mut i: usize = 0;
        let ghost mut source: Seq<int> = Seq::empty();
        proof {
            reveal(Seq::filter);
            assert(before.take(0) =~= Seq::<CharacterRelationshipView>::empty());
            assert(views_of(kept@) =~= Seq::<CharacterRelationshipView>::empty());
        }
        while i < self.relationships.len()
            invariant
                *self == *old(self),
                before == self@.relationships,
                i <= self.relationships.len(),
                views_of(kept@) == relationships_without(before.take(i as int), npc_id),
                found <==> exists|j: int| 0 <= j < i && (#[trigger] before[j]).npc_id == npc_id,
                !found ==> views_of(kept@) == before.take(i as int),
                source.len() == kept@.len(),
                forall|a: int|
                    0 <= a < source.len() ==> 0 <= (#[trigger] source[a]) < i && kept@[a]@
                        == before[source[a]],
                forall|a: int, b: int|
                    0 <= a < b < source.len() ==> (#[trigger] source[a]) < (#[trigger] source[b]),
            decreases self.relationships.len() - i,
        {
            proof {
                reveal(Seq::filter);
                assert(before.take(i + 1).drop_last() =~= before.take(i as int));
                assert(before.take(i + 1).last() == before[i as int]);
                assert(before[i as int] == self.relationships@[i as int]@);
            }
            let ghost kept_before = views_of(kept@);
            if self.relationships[i].npc_id == npc_id {
                found = true;
            } else {
                kept.push(self.relationships[i].clone());
                proof {
                    source = source.push(i as int);
                }
                assert(views_of(kept@) =~= kept_before.push(before[i as int]));
                assert(before.take(i + 1) =~= before.take(i as int).push(before[i as int]));
            }
            i += 1;
        }
        assert(before.take(i as int) =~= before);
        self.relationships = kept;
        proof {
            let after = final(self)@.relationships;
            if old(self)@.wf() {
                assert forall|a: int, b: int|
                    0 <= a < after.len() && 0 <= b < after.len() && a != b implies (
                #[trigger] after[a]).npc_id != (#[trigger] after[b]).npc_id by {
                    assert(after[a] == before[source[a]]);
                    assert(after[b] == before[source[b]]);
                    if a < b {
                        assert(source[a] < source[b]);
                    } else {
                        assert(source[b] < source[a]);
                    }
                }
            }
        }
        found
    }

    /// Makes a change at the present time; a record that the change creates
    /// gets a new random identifier.
    pub fn apply(&mut self, mutation: CharacterMutation) -> (r: DmResult<()>)
        ensures
            exists|fresh: Id, now: Timestamp|
                is_v4(fresh) && Self::applies(old(self)@, mutation, fresh, now, final(self)@, r),
            old(self)@.wf() ==> final(self)@.wf(),
    {
        let now = Timestamp::now();
        let fresh = generate_id();
        let r = self.apply_with(mutation, fresh, now);
        assert(Self::applies(old(self)@, mutation, fresh, now, final(self)@, r));
        r
    }

    /// `after` and `outcome` are what the change makes of `before`: the changed
    /// character and success, or the unchanged character and the error.
    pub open spec fn applies(
        before: PlayerCharacterView,
        mutation: CharacterMutation,
        fresh: Id,
        now: Timestamp,
        after: PlayerCharacterView,
        outcome: DmResult<()>,
    ) -> bool {
        match before.changed(mutation, fresh, now) {
            Ok(changed) => outcome is Ok && after == changed,
            Err(e) => view_of_unit_result(outcome) == Err::<(), ErrorView>(e) && after == before,
        }
    }

    /// Makes a change at the time `now`; `fresh` is the identifier for a record
    /// that the change creates. A change that is refused leaves the character
    /// as it was.
    pub fn apply_with(&mut self, mutation: CharacterMutation, fresh: Id, now: Timestamp) -> (r:
        DmResult<()>)
        ensures
            Self::applies(old(self)@, mutation, fresh, now, final(self)@, r),
            old(self)@.wf() ==> final(self)@.wf(),
    {
        match mutation {
            CharacterMutation::Update(req) => {
                if let Err(e) = validate_update_request(&req) {
                    return Err(e);
                }
                self.update_at(req, now);
                Ok(())
            },
            CharacterMutation::AddAchievement(req) => {
                self.add_achievement_with(req, fresh, now);
                Ok(())
            },
            CharacterMutation::RemoveAchievement { achievement_id, given } => {
                if self.remove_achievement(achievement_id) {
                    Ok(())
                } else {
                    Err(DmAssistantError::not_found("Achievement", given.as_str()))
                }
            },
            CharacterMutation::UpdateRelationship(req) => {
                self.update_relationship_with(req, fresh, now);
                Ok(())
            },
            CharacterMutation::RemoveRelationship { npc_id, character_given, npc_given } => {
                if self.remove_relationship(npc_id) {
                    Ok(())
                } else {
                    let mut subject = String::from_str("Character ");
                    subject.append(character_given.as_str());
                    subject.append(" with NPC ");
                    subject.append(npc_given.as_str());
                    Err(DmAssistantError::not_found("Relationship", subject.as_str()))
                }
            },
            CharacterMutation::LevelUp => {
                if self.level >= MAX_LEVEL {
                    Err(DmAssistantError::character("Character is already at max level (20)"))
                } else {
                    self.level += 1;
                    Ok(())
                }
            },
            CharacterMutation::ToggleActive => {
                self.is_active = !self.is_active;
                Ok(())
            },
        }
    }
}

/// The notes of the relationship with the NPC, or no notes where there is
/// no such relationship.
pub open spec fn notes_about(c: PlayerCharacterView, npc_id: Id) -> Seq<char> {
    match c.relationship_with(npc_id) {
        Some(r) => r.notes,
        None => Seq::empty(),
    }
}

/// The character has exactly one relationship with the NPC.
pub open spec fn has_one_with(c: PlayerCharacterView, npc_id: Id) -> bool {
    &&& c.knows_npc(npc_id)
    &&& forall|i: int, j: int|
        0 <= i < c.relationships.len() && 0 <= j < c.relationships.len() && (
        #[trigger] c.relationships[i]).npc_id == npc_id && (#[trigger] c.relationships[j]).npc_id
            == npc_id ==> i == j
}

/// The character after its relationships were set one after the other: the
/// `i`-th request is made at the time `times[i]`, and a record that it
/// creates gets the identifier `ids[i]`.
pub open spec fn after_upserts(
    c: PlayerCharacterView,
    reqs: Seq<UpdateRelationshipRequest>,
    ids: Seq<Id>,
    times: Seq<Timestamp>,
) -> PlayerCharacterView
    decreases reqs.len(),
{
    if reqs.len() == 0 {
        c
    } else {
        after_upserts(c, reqs.drop_last(), ids, times).with_relationship(
            reqs.last(),
            ids[reqs.len() - 1],
            times[reqs.len() - 1],
        )
    }
}

/// Setting the relationship with an NPC leaves a character with relationships
/// to distinct NPCs as such a character. It then has exactly one record for
/// that NPC: of the type asked for, with the notes asked for or, where none
/// were given, the notes it had, and with the time of the request as the
/// time of the last interaction. Relationships with other NPCs stay.
pub proof fn lemma_upsert(
    c: PlayerCharacterView,
    req: UpdateRelationshipRequest,
    id: Id,
    now: Timestamp,
)
    requires
        c.wf(),
    ensures
        c.with_relationship(req, id, now).wf(),
        has_one_with(c.with_relationship(req, id, now), req.npc_id),
        c.with_relationship(req, id, now).relationship_with(req.npc_id) matches Some(r)
            && r.relationship_type == req.relationship_type && r.notes == text_or(
            req.notes,
            notes_about(c, req.npc_id),
        ) && r.last_interaction == Some(now) && r.npc_id == req.npc_id,
        forall|other: Id|
            other != req.npc_id ==> #[trigger] c.with_relationship(req, id, now).relationship_with(
                other,
            ) == c.relationship_with(other),
{
    let after = c.with_relationship(req, id, now);
    let npc = req.npc_id;
    let at: int = if c.knows_npc(npc) {
        let i = choose|i: int|
            0 <= i < c.relationships.len() && (#[trigger] c.relationships[i]).npc_id == npc;
        assert(c.is_first_with(npc, i)) by {
            assert forall|j: int| 0 <= j < i implies (#[trigger] c.relationships[j]).npc_id
                != npc by {}
        }
        lemma_npc_position(c, npc, i);
        i
    } else {
        c.relationships.len() as int
    };
    assert(after.relationships[at].npc_id == npc);
    assert forall|j: int| 0 <= j < after.relationships.len() && j != at implies (
    #[trigger] after.relationships[j]).npc_id != npc by {
        if c.knows_npc(npc) {
            assert(after.relationships[j] == c.relationships[j]);
            assert(c.relationships[at].npc_id == npc);
        } else {
            assert(after.relationships[j] == c.relationships[j]);
        }
    }
    assert(after.is_first_with(npc, at));
    lemma_npc_position(after, npc, at);
    assert(after.wf()) by {
        assert forall|a: int, b: int|
            0 <= a < after.relationships.len() && 0 <= b < after.relationships.len() && a
                != b implies (#[trigger] after.relationships[a]).npc_id != (
        #[trigger] after.relationships[b]).npc_id by {
            if a != at && b != at {
                assert(after.relationships[a] == c.relationships[a]);
                assert(after.relationships[b] == c.relationships[b]);
            }
        }
    }
    assert forall|other: Id| other != npc implies #[trigger] after.relationship_with(other)
        == c.relationship_with(other) by {
        if c.knows_npc(other) {
            let i = choose|i: int|
                0 <= i < c.relationships.len() && (#[trigger] c.relationships[i]).npc_id == other;
            assert(c.is_first_with(other, i)) by {
                assert forall|j: int| 0 <= j < i implies (#[trigger] c.relationships[j]).npc_id
                    != other by {}
            }
            lemma_npc_position(c, other, i);
            assert(after.relationships[i] == c.relationships[i]);
            assert(after.is_first_with(other, i)) by {
                assert forall|j: int| 0 <= j < i implies (#[trigger] after.relationships[j]).npc_id
                    != other by {
                    if j != at {
                        assert(after.relationships[j] == c.relationships[j]);
                    }
                }
            }
            lemma_npc_position(after, other, i);
        } else {
            assert(!after.knows_npc(other)) by {
                if after.knows_npc(other) {
                    let j = choose|j: int|
                        0 <= j < after.relationships.len() && (
                        #[trigger] after.relationships[j]).npc_id == other;
                    if j != at {
                        assert(after.relationships[j] == c.relationships[j]);
                    }
                }
            }
        }
    }
}

/// However often, and with whatever types, the relationship with one NPC is
/// set: the character ends with exactly one record for that NPC, of the
/// type of the last request, with the notes of the last request or, where
/// it gave none, the notes that stood before it.
pub proof fn lemma_upserts_leave_one(
    c: PlayerCharacterView,
    reqs: Seq<UpdateRelationshipRequest>,
    ids: Seq<Id>,
    times: Seq<Timestamp>,
    npc_id: Id,
)
    requires
        c.wf(),
        reqs.len() > 0,
        ids.len() == reqs.len(),
        times.len() == reqs.len(),
        forall|i: int| 0 <= i < reqs.len() ==> (#[trigger] reqs[i]).npc_id == npc_id,
    ensures
        after_upserts(c, reqs, ids, times).wf(),
        has_one_with(after_upserts(c, reqs, ids, times), npc_id),
        after_upserts(c, reqs, ids, times).relationship_with(npc_id) matches Some(r)
            && r.relationship_type == reqs.last().relationship_type && r.notes == text_or(
            reqs.last().notes,
            notes_about(after_upserts(c, reqs.drop_last(), ids, times), npc_id),
        ),
    decreases reqs.len(),
{
    let front = reqs.drop_last();
    lemma_upserts_keep_wf(c, front, ids, times);
    lemma_upsert(
        after_upserts(c, front, ids, times),
        reqs.last(),
        ids[reqs.len() - 1],
        times[reqs.len() - 1],
    );
}

/// Setting relationships one after the other leaves a character with
/// relationships to distinct NPCs as such a character.
pub proof fn lemma_upserts_keep_wf(
    c: PlayerCharacterView,
    reqs: Seq<UpdateRelationshipRequest>,
    ids: Seq<Id>,
    times: Seq<Timestamp>,
)
    requires
        c.wf(),
    ensures
        after_upserts(c, reqs, ids, times).wf(),
    decreases reqs.len(),
{
    if reqs.len() > 0 {
        lemma_upserts_keep_wf(c, reqs.drop_last(), ids, times);
        lemma_upsert(
            after_upserts(c, reqs.drop_last(), ids, times),
            reqs.last(),
            ids[reqs.len() - 1],
            times[reqs.len() - 1],
        );
    }
}

/// A patch applied twice in a row leaves what it leaves when applied once,
/// but for the time of the last change.
pub proof fn lemma_update_idempotent(
    c: PlayerCharacterView,
    req: UpdateCharacterRequest,
    t1: Timestamp,
    t2: Timestamp,
)
    ensures
        c.updated(req, t1).updated(req, t2) == c.updated(req, t1).stamped(t2),
{
}

impl Achievement {
    /// Tells whether the achievement belongs to a quest.
    pub fn is_quest_related(&self) -> (b: bool)
        ensures
            b == self.quest_id is Some,
    {
        self.quest_id.is_some()
    }
}

impl RelationshipType {
    /// Every relationship type.
    pub open spec fn every() -> Seq<RelationshipType> {
        seq![
            RelationshipType::Neutral,
            RelationshipType::Friendly,
            RelationshipType::Hostile,
            RelationshipType::Suspicious,
            RelationshipType::Romantic,
            RelationshipType::Ally,
            RelationshipType::Enemy,
            RelationshipType::Respected,
            RelationshipType::Feared,
        ]
    }

    /// The Italian word for the relationship type.
    pub open spec fn display_text(self) -> Seq<char> {
        match self {
            RelationshipType::Neutral => "Neutrale"@,
            RelationshipType::Friendly => "Amichevole"@,
            RelationshipType::Hostile => "Ostile"@,
            RelationshipType::Suspicious => "Diffidente"@,
            RelationshipType::Romantic => "Romantico"@,
            RelationshipType::Ally => "Alleato"@,
            RelationshipType::Enemy => "Nemico"@,
            RelationshipType::Respected => "Rispettato"@,
            RelationshipType::Feared => "Temuto"@,
        }
    }

    /// Every relationship type.
    pub fn all() -> (v: Vec<RelationshipType>)
        ensures
            v@ == RelationshipType::every(),
    {
        let mut v: Vec<RelationshipType> = Vec::new();
        v.push(RelationshipType::Neutral);
        v.push(RelationshipType::Friendly);
        v.push(RelationshipType::Hostile);
        v.push(RelationshipType::Suspicious);
        v.push(RelationshipType::Romantic);
        v.push(RelationshipType::Ally);
        v.push(RelationshipType::Enemy);
        v.push(RelationshipType::Respected);
        v.push(RelationshipType::Feared);
        assert(v@ =~= RelationshipType::every());
        v
    }

    /// The Italian word for the relationship type.
    pub fn display(&self) -> (s: &'static str)
        ensures
            s@ == self.display_text(),
    {
        match self {
            RelationshipType::Neutral => "Neutrale",
            RelationshipType::Friendly => "Amichevole",
            RelationshipType::Hostile => "Ostile",
            RelationshipType::Suspicious => "Diffidente",
            RelationshipType::Romantic => "Romantico",
            RelationshipType::Ally => "Alleato",
            RelationshipType::Enemy => "Nemico",
            RelationshipType::Respected => "Rispettato",
            RelationshipType::Feared => "Temuto",
        }
    }
}

} // verus!
