use crate::utils::clock::Timestamp;
use crate::utils::error::{failure, DmAssistantError, DmResult, ErrorKind, ErrorView};
use crate::utils::id_generator::{generate_id, is_v4, Id};
use crate::utils::views::view_of_unit_result;
use crate::utils::text::{decimal_digits, u64_to_string};
use vstd::prelude::*;
use vstd::string::StringExecFns;

verus! {

/// The bit pattern of the single-precision number 1.0.
pub const LEVEL_ONE_BITS: u32 = 0x3f80_0000;

/// The bit pattern of the single-precision number 20.0.
pub const LEVEL_TWENTY_BITS: u32 = 0x41a0_0000;

/// The most campaigns that the list of recently used campaigns keeps.
pub const MAX_RECENT_CAMPAIGNS: usize = 5;

/// The average level of a party, held as the bit pattern of a single-precision
/// number. Patterns of numbers from 1.0 to 20.0 are ordered as the numbers are,
/// so the test for that range is a comparison of integers; the pattern of any
/// number outside it, and of what is not a number, falls outside.
#[derive(Clone, Copy, Debug, PartialEq, Eq, Structural)]
pub struct AverageLevel {
    pub bits: u32,
}

impl AverageLevel {
    /// The level lies between 1.0 and 20.0, both included.
    pub open spec fn in_level_range(self) -> bool {
        LEVEL_ONE_BITS <= self.bits <= LEVEL_TWENTY_BITS
    }

    /// The level 1.0, at which every campaign starts.
    pub fn one() -> (l: Self)
        ensures
            l.bits == LEVEL_ONE_BITS,
            l.in_level_range(),
    {
        AverageLevel { bits: LEVEL_ONE_BITS }
    }

    /// The level with the given bit pattern.
    pub fn from_bits(bits: u32) -> (l: Self)
        ensures
            l.bits == bits,
    {
        AverageLevel { bits }
    }

    /// The bit pattern of the level.
    pub fn to_bits(&self) -> (bits: u32)
        ensures
            bits == self.bits,
    {
        self.bits
    }

    /// Tells whether the level lies between 1.0 and 20.0.
    pub fn is_in_level_range(&self) -> (b: bool)
        ensures
            b == self.in_level_range(),
    {
        LEVEL_ONE_BITS <= self.bits && self.bits <= LEVEL_TWENTY_BITS
    }
}

/// Campaign status for workflow management
#[derive(Clone, Copy, Debug, PartialEq, Eq, Structural)]
pub enum CampaignStatus {
    /// Campaign in planning phase
    Planning,
    /// Currently running
    Active,
    /// Temporarily paused
    OnHold,
    /// Campaign finished
    Completed,
    /// Old campaign, not active
    Archived,
}

/// Difficulty level for encounter balancing
#[derive(Clone, Copy, Debug, PartialEq, Eq, Structural)]
pub enum DifficultyLevel {
    /// Easy, story-focused
    Casual,
    /// Standard difficulty
    Normal,
    /// Challenging encounters
    Hard,
    /// High-risk campaign
    Deadly,
}

/// Campaign metadata and statistics
#[derive(Clone, Copy, Debug, PartialEq, Eq, Structural)]
pub struct CampaignInfo {
    pub total_sessions: u32,
    pub total_characters: u32,
    pub active_characters: u32,
    pub total_npcs: u32,
    pub total_locations: u32,
    pub total_quests: u32,
    pub completed_quests: u32,
    pub total_encounters: u32,
    pub campaign_status: CampaignStatus,
    pub difficulty_level: DifficultyLevel,
}

/// Main campaign entity
#[derive(Debug)]
pub struct Campaign {
    pub id: Id,
    pub name: String,
    pub description: String,
    pub setting: String,
    pub dm_notes: String,
    pub current_session: u32,
    pub is_active: bool,
    pub campaign_info: CampaignInfo,
    pub player_count: u8,
    pub average_level: AverageLevel,
    pub created_at: Timestamp,
    pub updated_at: Timestamp,
    pub last_session_date: Option<Timestamp>,
}

/// A campaign as contracts see it.
pub struct CampaignView {
    pub id: Id,
    pub name: Seq<char>,
    pub description: Seq<char>,
    pub setting: Seq<char>,
    pub dm_notes: Seq<char>,
    pub current_session: u32,
    pub is_active: bool,
    pub campaign_info: CampaignInfo,
    pub player_count: u8,
    pub average_level: AverageLevel,
    pub created_at: Timestamp,
    pub updated_at: Timestamp,
    pub last_session_date: Option<Timestamp>,
}

impl View for Campaign {
    type V = CampaignView;

    open spec fn view(&self) -> CampaignView {
        CampaignView {
            id: self.id,
            name: self.name@,
            description: self.description@,
            setting: self.setting@,
            dm_notes: self.dm_notes@,
            current_session: self.current_session,
            is_active: self.is_active,
            campaign_info: self.campaign_info,
            player_count: self.player_count,
            average_level: self.average_level,
            created_at: self.created_at,
            updated_at: self.updated_at,
            last_session_date: self.last_session_date,
        }
    }
}

/// Request to create a new campaign
#[derive(Debug)]
pub struct CreateCampaignRequest {
    pub name: String,
    pub description: String,
    pub setting: String,
    pub dm_notes: Option<String>,
    pub difficulty_level: DifficultyLevel,
    pub player_count: Option<u8>,
}

/// Request to update a campaign: a field that is `None` is left as it is.
#[derive(Debug)]
pub struct UpdateCampaignRequest {
    pub name: Option<String>,
    pub description: Option<String>,
    pub setting: Option<String>,
    pub dm_notes: Option<String>,
    pub difficulty_level: Option<DifficultyLevel>,
    pub player_count: Option<u8>,
    pub is_active: Option<bool>,
}

/// Campaign summary for lists and selection
#[derive(Debug)]
pub struct CampaignSummary {
    pub id: Id,
    pub name: String,
    pub description: String,
    pub status: CampaignStatus,
    pub current_session: u32,
    pub active_characters: u32,
    pub average_level: AverageLevel,
    pub last_session_date: Option<Timestamp>,
    pub created_at: Timestamp,
    pub is_active: bool,
}

/// A campaign summary as contracts see it.
pub struct CampaignSummaryView {
    pub id: Id,
    pub name: Seq<char>,
    pub description: Seq<char>,
    pub status: CampaignStatus,
    pub current_session: u32,
    pub active_characters: u32,
    pub average_level: AverageLevel,
    pub last_session_date: Option<Timestamp>,
    pub created_at: Timestamp,
    pub is_active: bool,
}

impl View for CampaignSummary {
    type V = CampaignSummaryView;

    open spec fn view(&self) -> CampaignSummaryView {
        CampaignSummaryView {
            id: self.id,
            name: self.name@,
            description: self.description@,
            status: self.status,
            current_session: self.current_session,
            active_characters: self.active_characters,
            average_level: self.average_level,
            last_session_date: self.last_session_date,
            created_at: self.created_at,
            is_active: self.is_active,
        }
    }
}

/// App settings including current campaign
#[derive(Debug)]
pub struct AppSettings {
    pub current_campaign_id: Option<Id>,
    /// The campaigns used last, the most recent first.
    pub recent_campaigns: Vec<Id>,
    pub auto_backup: bool,
    pub backup_frequency_hours: u32,
    pub theme: String,
    pub created_at: Timestamp,
    pub updated_at: Timestamp,
}

/// The app settings as contracts see them.
pub struct AppSettingsView {
    pub current_campaign_id: Option<Id>,
    pub recent_campaigns: Seq<Id>,
    pub auto_backup: bool,
    pub backup_frequency_hours: u32,
    pub theme: Seq<char>,
    pub created_at: Timestamp,
    pub updated_at: Timestamp,
}

impl View for AppSettings {
    type V = AppSettingsView;

    open spec fn view(&self) -> AppSettingsView {
        AppSettingsView {
            current_campaign_id: self.current_campaign_id,
            recent_campaigns: self.recent_campaigns@,
            auto_backup: self.auto_backup,
            backup_frequency_hours: self.backup_frequency_hours,
            theme: self.theme@,
            created_at: self.created_at,
            updated_at: self.updated_at,
        }
    }
}

/// The value of an optional text, or `current` where it is absent.
pub open spec fn text_or(patch: Option<String>, current: Seq<char>) -> Seq<char> {
    match patch {
        Some(s) => s@,
        None => current,
    }
}

/// The value of an optional field, or `current` where it is absent.
pub open spec fn value_or<T>(patch: Option<T>, current: T) -> T {
    match patch {
        Some(v) => v,
        None => current,
    }
}

impl CampaignInfo {
    /// The counters of a campaign that nothing has happened in yet.
    pub open spec fn initial(difficulty_level: DifficultyLevel) -> CampaignInfo {
        CampaignInfo {
            total_sessions: 0,
            total_characters: 0,
            active_characters: 0,
            total_npcs: 0,
            total_locations: 0,
            total_quests: 0,
            completed_quests: 0,
            total_encounters: 0,
            campaign_status: CampaignStatus::Planning,
            difficulty_level,
        }
    }

    /// The counters of a campaign that nothing has happened in yet.
    pub fn new(difficulty_level: DifficultyLevel) -> (info: Self)
        ensures
            info == CampaignInfo::initial(difficulty_level),
    {
        CampaignInfo {
            total_sessions: 0,
            total_characters: 0,
            active_characters: 0,
            total_npcs: 0,
            total_locations: 0,
            total_quests: 0,
            completed_quests: 0,
            total_encounters: 0,
            campaign_status: CampaignStatus::Planning,
            difficulty_level,
        }
    }
}

impl CampaignView {
    /// The campaign that a request creates under `id` at the time `now`.
    pub open spec fn created(req: CreateCampaignRequest, id: Id, now: Timestamp) -> CampaignView {
        CampaignView {
            id,
            name: req.name@,
            description: req.description@,
            setting: req.setting@,
            dm_notes: text_or(req.dm_notes, Seq::empty()),
            current_session: 0,
            is_active: true,
            campaign_info: CampaignInfo::initial(req.difficulty_level),
            player_count: value_or(req.player_count, 4u8),
            average_level: AverageLevel { bits: LEVEL_ONE_BITS },
            created_at: now,
            updated_at: now,
            last_session_date: None,
        }
    }

    /// The campaign after a patch at the time `now`: each field the patch holds
    /// replaces the current one, every other field stays.
    pub open spec fn updated(self, req: UpdateCampaignRequest, now: Timestamp) -> CampaignView {
        CampaignView {
            name: text_or(req.name, self.name),
            description: text_or(req.description, self.description),
            setting: text_or(req.setting, self.setting),
            dm_notes: text_or(req.dm_notes, self.dm_notes),
            campaign_info: CampaignInfo {
                difficulty_level: value_or(req.difficulty_level, self.campaign_info.difficulty_level),
                ..self.campaign_info
            },
            player_count: value_or(req.player_count, self.player_count),
            is_active: value_or(req.is_active, self.is_active),
            updated_at: now,
            ..self
        }
    }

    /// The campaign after one more session has started at the time `now`.
    pub open spec fn session_started(self, now: Timestamp) -> CampaignView {
        CampaignView {
            current_session: (self.current_session + 1) as u32,
            campaign_info: CampaignInfo {
                total_sessions: (self.campaign_info.total_sessions + 1) as u32,
                campaign_status: if self.campaign_info.campaign_status == CampaignStatus::Planning {
                    CampaignStatus::Active
                } else {
                    self.campaign_info.campaign_status
                },
                ..self.campaign_info
            },
            last_session_date: Some(now),
            updated_at: now,
            ..self
        }
    }

    /// The campaign after its character statistics were replaced.
    pub open spec fn stats_updated(
        self,
        active_chars: u32,
        total_chars: u32,
        avg_level: AverageLevel,
        now: Timestamp,
    ) -> CampaignView {
        CampaignView {
            campaign_info: CampaignInfo {
                active_characters: active_chars,
                total_characters: total_chars,
                ..self.campaign_info
            },
            player_count: (active_chars % 256) as u8,
            average_level: avg_level,
            updated_at: now,
            ..self
        }
    }

    /// The campaign with another status.
    pub open spec fn with_status(self, status: CampaignStatus) -> CampaignView {
        CampaignView {
            campaign_info: CampaignInfo { campaign_status: status, ..self.campaign_info },
            ..self
        }
    }

    /// The campaign as it is taken in from elsewhere: under another
    /// identifier, with another time of last change.
    pub open spec fn taken_in(self, id: Id, now: Timestamp) -> CampaignView {
        CampaignView { id, updated_at: now, ..self }
    }

    /// A copy of the campaign to start over with: under the identifier `id`
    /// and the name `name`, made at the time `now`, planned, with no session
    /// played and no character counted.
    pub open spec fn duplicated(self, id: Id, name: Seq<char>, now: Timestamp) -> CampaignView {
        CampaignView {
            id,
            name,
            current_session: 0,
            campaign_info: CampaignInfo {
                total_sessions: 0,
                campaign_status: CampaignStatus::Planning,
                total_characters: 0,
                active_characters: 0,
                ..self.campaign_info
            },
            last_session_date: None,
            created_at: now,
            updated_at: now,
            player_count: 0,
            average_level: AverageLevel { bits: LEVEL_ONE_BITS },
            ..self
        }
    }

    /// The campaign under another identifier.
    pub open spec fn with_id(self, id: Id) -> CampaignView {
        CampaignView { id, ..self }
    }

    /// The time of the last change is not before the time of creation.
    pub open spec fn ordered(self) -> bool {
        self.updated_at.not_before(self.created_at)
    }

    /// The campaign after a transaction that commits when the clock reads
    /// `now`: the time of its last change is `now`, or the time of its
    /// creation where the clock reads an earlier time than that.
    pub open spec fn committed(self, now: Timestamp) -> CampaignView {
        self.stamped(Timestamp::later_of(now, self.created_at))
    }

    /// The campaign with another time of last change.
    pub open spec fn stamped(self, now: Timestamp) -> CampaignView {
        CampaignView { updated_at: now, ..self }
    }

    /// The campaign closed as completed.
    pub open spec fn completed(self, now: Timestamp) -> CampaignView {
        CampaignView { is_active: false, ..self.with_status(CampaignStatus::Completed).stamped(now) }
    }

    /// The campaign put away in the archive.
    pub open spec fn archived(self, now: Timestamp) -> CampaignView {
        CampaignView { is_active: false, ..self.with_status(CampaignStatus::Archived).stamped(now) }
    }

    /// What lists show of the campaign.
    pub open spec fn summary(self) -> CampaignSummaryView {
        CampaignSummaryView {
            id: self.id,
            name: self.name,
            description: self.description,
            status: self.campaign_info.campaign_status,
            current_session: self.current_session,
            active_characters: self.campaign_info.active_characters,
            average_level: self.average_level,
            last_session_date: self.last_session_date,
            created_at: self.created_at,
            is_active: self.is_active,
        }
    }

    /// A campaign can be played while it is active and either planned or running.
    pub open spec fn playable(self) -> bool {
        self.is_active && (self.campaign_info.campaign_status == CampaignStatus::Active
            || self.campaign_info.campaign_status == CampaignStatus::Planning)
    }

    /// The session counter in words.
    pub open spec fn session_text(self) -> Seq<char> {
        "Sessione "@ + decimal_digits(self.current_session as nat) + " di "@ + decimal_digits(
            self.campaign_info.total_sessions as nat,
        )
    }

    /// Both session counters can still be raised by one.
    pub open spec fn can_count_session(self) -> bool {
        self.current_session < u32::MAX && self.campaign_info.total_sessions < u32::MAX
    }
}

fn clone_text(s: &Option<String>) -> (r: Option<String>)
    ensures
        r == *s,
{
    match s {
        Some(t) => Some(t.clone()),
        None => None,
    }
}

impl Clone for Campaign {
    fn clone(&self) -> (r: Self)
        ensures
            r == *self,
    {
        Campaign {
            id: self.id,
            name: self.name.clone(),
            description: self.description.clone(),
            setting: self.setting.clone(),
            dm_notes: self.dm_notes.clone(),
            current_session: self.current_session,
            is_active: self.is_active,
            campaign_info: self.campaign_info,
            player_count: self.player_count,
            average_level: self.average_level,
            created_at: self.created_at,
            updated_at: self.updated_at,
            last_session_date: self.last_session_date,
        }
    }
}

impl Clone for CampaignSummary {
    fn clone(&self) -> (r: Self)
        ensures
            r == *self,
    {
        CampaignSummary {
            id: self.id,
            name: self.name.clone(),
            description: self.description.clone(),
            status: self.status,
            current_session: self.current_session,
            active_characters: self.active_characters,
            average_level: self.average_level,
            last_session_date: self.last_session_date,
            created_at: self.created_at,
            is_active: self.is_active,
        }
    }
}

impl Clone for CreateCampaignRequest {
    fn clone(&self) -> (r: Self)
        ensures
            r == *self,
    {
        CreateCampaignRequest {
            name: self.name.clone(),
            description: self.description.clone(),
            setting: self.setting.clone(),
            dm_notes: clone_text(&self.dm_notes),
            difficulty_level: self.difficulty_level,
            player_count: self.player_count,
        }
    }
}

impl Clone for UpdateCampaignRequest {
    fn clone(&self) -> (r: Self)
        ensures
            r == *self,
    {
        UpdateCampaignRequest {
            name: clone_text(&self.name),
            description: clone_text(&self.description),
            setting: clone_text(&self.setting),
            dm_notes: clone_text(&self.dm_notes),
            difficulty_level: self.difficulty_level,
            player_count: self.player_count,
            is_active: self.is_active,
        }
    }
}

impl Campaign {
    /// Creates a campaign under a new random identifier, at the present time.
    pub fn new(req: CreateCampaignRequest) -> (c: Self)
        ensures
            c@ == CampaignView::created(req, c.id, c.created_at),
            c@.ordered(),
            is_v4(c.id),
    {
        let now = Timestamp::now();
        let id = generate_id();
        Campaign::new_with(req, id, now)
    }

    /// Creates a campaign under the identifier `id` at the time `now`.
    pub fn new_with(req: CreateCampaignRequest, id: Id, now: Timestamp) -> (c: Self)
        ensures
            c@ == CampaignView::created(req, id, now),
            c@.ordered(),
    {
        Campaign {
            id,
            name: req.name,
            description: req.description,
            setting: req.setting,
            dm_notes: match req.dm_notes {
                Some(notes) => notes,
                None => String::new(),
            },
            current_session: 0,
            is_active: true,
            campaign_info: CampaignInfo::new(req.difficulty_level),
            player_count: match req.player_count {
                Some(count) => count,
                None => 4,
            },
            average_level: AverageLevel::one(),
            created_at: now,
            updated_at: now,
            last_session_date: None,
        }
    }

    /// Applies a patch at the present time.
    pub fn update(&mut self, req: UpdateCampaignRequest)
        ensures
            final(self)@ == old(self)@.updated(req, final(self).updated_at),
    {
        let now = Timestamp::now();
        self.update_at(req, now);
    }

    /// Applies a patch at the time `now`.
    pub fn update_at(&mut self, req: UpdateCampaignRequest, now: Timestamp)
        ensures
            final(self)@ == old(self)@.updated(req, now),
    {
        if let Some(name) = req.name {
            self.name = name;
        }
        if let Some(description) = req.description {
            self.description = description;
        }
        if let Some(setting) = req.setting {
            self.setting = setting;
        }
        if let Some(dm_notes) = req.dm_notes {
            self.dm_notes = dm_notes;
        }
        if let Some(difficulty_level) = req.difficulty_level {
            self.campaign_info.difficulty_level = difficulty_level;
        }
        if let Some(player_count) = req.player_count {
            self.player_count = player_count;
        }
        if let Some(is_active) = req.is_active {
            self.is_active = is_active;
        }
        self.updated_at = now;
    }

    /// Starts a new session at the present time.
    pub fn start_session(&mut self)
        requires
            old(self)@.can_count_session(),
        ensures
            final(self)@ == old(self)@.session_started(final(self).updated_at),
    {
        let now = Timestamp::now();
        self.start_session_at(now);
    }

    /// Starts a new session at the time `now`: both session counters go up by
    /// one, and a campaign that was planned is now running.
    pub fn start_session_at(&mut self, now: Timestamp)
        requires
            old(self)@.can_count_session(),
        ensures
            final(self)@ == old(self)@.session_started(now),
    {
        self.current_session += 1;
        self.campaign_info.total_sessions += 1;
        self.last_session_date = Some(now);
        self.updated_at = now;
        if self.campaign_info.campaign_status == CampaignStatus::Planning {
            self.campaign_info.campaign_status = CampaignStatus::Active;
        }
    }

    /// Replaces the character statistics at the present time.
    pub fn update_stats(&mut self, active_chars: u32, total_chars: u32, avg_level: AverageLevel)
        ensures
            final(self)@ == old(self)@.stats_updated(
                active_chars,
                total_chars,
                avg_level,
                final(self).updated_at,
            ),
    {
        let now = Timestamp::now();
        self.update_stats_at(active_chars, total_chars, avg_level, now);
    }

    /// Replaces the character statistics at the time `now`. The player count
    /// keeps the low eight bits of the number of active characters.
    pub fn update_stats_at(
        &mut self,
        active_chars: u32,
        total_chars: u32,
        avg_level: AverageLevel,
        now: Timestamp,
    )
        ensures
            final(self)@ == old(self)@.stats_updated(active_chars, total_chars, avg_level, now),
    {
        self.campaign_info.active_characters = active_chars;
        self.campaign_info.total_characters = total_chars;
        self.player_count = (active_chars % 256) as u8;
        self.average_level = avg_level;
        self.updated_at = now;
    }

    /// Marks the campaign as completed at the present time.
    pub fn complete(&mut self)
        ensures
            final(self)@ == old(self)@.completed(final(self).updated_at),
    {
        let now = Timestamp::now();
        self.complete_at(now);
    }

    /// Marks the campaign as completed at the time `now`.
    pub fn complete_at(&mut self, now: Timestamp)
        ensures
            final(self)@ == old(self)@.completed(now),
    {
        self.campaign_info.campaign_status = CampaignStatus::Completed;
        self.is_active = false;
        self.updated_at = now;
    }

    /// Archives the campaign at the present time.
    pub fn archive(&mut self)
        ensures
            final(self)@ == old(self)@.archived(final(self).updated_at),
    {
        let now = Timestamp::now();
        self.archive_at(now);
    }

    /// Archives the campaign at the time `now`.
    pub fn archive_at(&mut self, now: Timestamp)
        ensures
            final(self)@ == old(self)@.archived(now),
    {
        self.campaign_info.campaign_status = CampaignStatus::Archived;
        self.is_active = false;
        self.updated_at = now;
    }

    /// A copy of the campaign to start over with, under a new identifier and
    /// name; see `CampaignView::duplicated`.
    pub fn duplicate_with(&self, id: Id, new_name: String, now: Timestamp) -> (copy: Campaign)
        ensures
            copy@ == self@.duplicated(id, new_name@, now),
            copy@.ordered(),
    {
        let mut copy = self.clone();
        copy.id = id;
        copy.name = new_name;
        copy.current_session = 0;
        copy.campaign_info.total_sessions = 0;
        copy.campaign_info.campaign_status = CampaignStatus::Planning;
        copy.last_session_date = None;
        copy.created_at = now;
        copy.updated_at = now;
        copy.campaign_info.total_characters = 0;
        copy.campaign_info.active_characters = 0;
        copy.player_count = 0;
        copy.average_level = AverageLevel::one();
        copy
    }

    /// What lists show of the campaign.
    pub fn to_summary(&self) -> (s: CampaignSummary)
        ensures
            s@ == self@.summary(),
    {
        CampaignSummary {
            id: self.id,
            name: self.name.clone(),
            description: self.description.clone(),
            status: self.campaign_info.campaign_status,
            current_session: self.current_session,
            active_characters: self.campaign_info.active_characters,
            average_level: self.average_level,
            last_session_date: self.last_session_date,
            created_at: self.created_at,
            is_active: self.is_active,
        }
    }

    /// Tells whether the campaign can be played.
    pub fn is_playable(&self) -> (b: bool)
        ensures
            b == self@.playable(),
    {
        (self.campaign_info.campaign_status == CampaignStatus::Active
            || self.campaign_info.campaign_status == CampaignStatus::Planning) && self.is_active
    }

    /// The session counter in words.
    pub fn session_info(&self) -> (s: String)
        ensures
            s@ == self@.session_text(),
    {
        let mut s = String::from_str("Sessione ");
        s.append(u64_to_string(self.current_session as u64).as_str());
        s.append(" di ");
        s.append(u64_to_string(self.campaign_info.total_sessions as u64).as_str());
        s
    }
}

/// A change to one campaign, to be made inside a transaction of the store.
#[derive(Debug)]
pub enum CampaignMutation {
    /// Replace the fields that the request holds.
    Update(UpdateCampaignRequest),
    /// Put the campaign away in the archive.
    Archive,
    /// Start the next session.
    StartSession,
    /// Replace the character statistics.
    UpdateStats { active_characters: u32, total_characters: u32, average_level: AverageLevel },
    /// Close the campaign as completed.
    Complete,
    /// Put a running campaign on hold.
    Pause,
    /// Take a campaign off hold.
    Resume,
}

impl CampaignView {
    /// What a change makes of the campaign at the time `now`, or the error it
    /// is refused with.
    pub open spec fn changed(self, mutation: CampaignMutation, now: Timestamp) -> Result<
        CampaignView,
        ErrorView,
    > {
        match mutation {
            CampaignMutation::Update(req) => Ok(self.updated(req, now)),
            CampaignMutation::Archive => Ok(self.archived(now)),
            CampaignMutation::StartSession => {
                if !self.playable() {
                    Err(
                        failure(
                            ErrorKind::CampaignError,
                            "Cannot start session in non-playable campaign"@,
                        ),
                    )
                } else if !self.can_count_session() {
                    Err(
                        failure(
                            ErrorKind::CampaignError,
                            "Cannot start session: the session counter is at its limit"@,
                        ),
                    )
                } else {
                    Ok(self.session_started(now))
                }
            },
            CampaignMutation::UpdateStats { active_characters, total_characters, average_level } => Ok(
                self.stats_updated(active_characters, total_characters, average_level, now),
            ),
            CampaignMutation::Complete => {
                if !self.playable() {
                    Err(
                        failure(
                            ErrorKind::CampaignError,
                            "Cannot complete a non-playable campaign"@,
                        ),
                    )
                } else {
                    Ok(self.completed(now))
                }
            },
            CampaignMutation::Pause => {
                if self.campaign_info.campaign_status != CampaignStatus::Active {
                    Err(failure(ErrorKind::CampaignError, "Can only pause active campaigns"@))
                } else {
                    Ok(self.with_status(CampaignStatus::OnHold))
                }
            },
            CampaignMutation::Resume => {
                if self.campaign_info.campaign_status != CampaignStatus::OnHold {
                    Err(failure(ErrorKind::CampaignError, "Can only resume paused campaigns"@))
                } else {
                    Ok(self.with_status(CampaignStatus::Active))
                }
            },
        }
    }
}

impl Campaign {
    /// `after` and `outcome` are what the change makes of `before`: the changed
    /// campaign and success, or the unchanged campaign and the error.
    pub open spec fn applies(
        before: CampaignView,
        mutation: CampaignMutation,
        now: Timestamp,
        after: CampaignView,
        outcome: DmResult<()>,
    ) -> bool {
        match before.changed(mutation, now) {
            Ok(changed) => outcome is Ok && after == changed,
            Err(e) => view_of_unit_result(outcome) == Err::<(), ErrorView>(e) && after == before,
        }
    }

    /// Makes a change at the present time.
    pub fn apply(&mut self, mutation: CampaignMutation) -> (r: DmResult<()>)
        ensures
            exists|now: Timestamp|
                Self::applies(old(self)@, mutation, now, final(self)@, r),
    {
        let now = Timestamp::now();
        let r = self.apply_at(mutation, now);
        assert(Self::applies(old(self)@, mutation, now, final(self)@, r));
        r
    }

    /// Makes a change at the time `now`. A change that is refused leaves the
    /// campaign as it was.
    pub fn apply_at(&mut self, mutation: CampaignMutation, now: Timestamp) -> (r: DmResult<()>)
        ensures
            Self::applies(old(self)@, mutation, now, final(self)@, r),
    {
        match mutation {
            CampaignMutation::Update(req) => {
                self.update_at(req, now);
                Ok(())
            },
            CampaignMutation::Archive => {
                self.archive_at(now);
                Ok(())
            },
            CampaignMutation::StartSession => {
                if !self.is_playable() {
                    Err(DmAssistantError::campaign("Cannot start session in non-playable campaign"))
                } else if self.current_session == u32::MAX || self.campaign_info.total_sessions
                    == u32::MAX {
                    Err(
                        DmAssistantError::campaign(
                            "Cannot start session: the session counter is at its limit",
                        ),
                    )
                } else {
                    self.start_session_at(now);
                    Ok(())
                }
            },
            CampaignMutation::UpdateStats { active_characters, total_characters, average_level } => {
                self.update_stats_at(active_characters, total_characters, average_level, now);
                Ok(())
            },
            CampaignMutation::Complete => {
                if !self.is_playable() {
                    Err(DmAssistantError::campaign("Cannot complete a non-playable campaign"))
                } else {
                    self.complete_at(now);
                    Ok(())
                }
            },
            CampaignMutation::Pause => {
                if self.campaign_info.campaign_status != CampaignStatus::Active {
                    Err(DmAssistantError::campaign("Can only pause active campaigns"))
                } else {
                    self.campaign_info.campaign_status = CampaignStatus::OnHold;
                    Ok(())
                }
            },
            CampaignMutation::Resume => {
                if self.campaign_info.campaign_status != CampaignStatus::OnHold {
                    Err(DmAssistantError::campaign("Can only resume paused campaigns"))
                } else {
                    self.campaign_info.campaign_status = CampaignStatus::Active;
                    Ok(())
                }
            },
        }
    }
}

/// A running campaign can be put on hold, and once it is taken off hold again
/// it is the campaign it was, running.
pub proof fn lemma_pause_then_resume(c: CampaignView, t1: Timestamp, t2: Timestamp)
    requires
        c.campaign_info.campaign_status == CampaignStatus::Active,
    ensures
        c.changed(CampaignMutation::Pause, t1) is Ok,
        c.changed(CampaignMutation::Pause, t1)->Ok_0.changed(CampaignMutation::Resume, t2) == Ok::<
            CampaignView,
            ErrorView,
        >(c),
{
    let paused = c.changed(CampaignMutation::Pause, t1)->Ok_0;
    assert(paused.with_status(CampaignStatus::Active) == c);
}

/// Pausing a campaign that is not running is refused with a campaign error.
pub proof fn lemma_pause_needs_active(c: CampaignView, t: Timestamp)
    requires
        c.campaign_info.campaign_status != CampaignStatus::Active,
    ensures
        c.changed(CampaignMutation::Pause, t) == Err::<CampaignView, ErrorView>(
            failure(ErrorKind::CampaignError, "Can only pause active campaigns"@),
        ),
{
}

/// A patch applied twice in a row leaves what it leaves when applied once.
pub proof fn lemma_update_idempotent(
    c: CampaignView,
    req: UpdateCampaignRequest,
    t1: Timestamp,
    t2: Timestamp,
)
    ensures
        c.updated(req, t1).updated(req, t2) == c.updated(req, t1).stamped(t2),
{
}

/// A change to the app settings, to be made inside a transaction of the store.
#[derive(Debug)]
pub enum SettingsMutation {
    /// Choose another theme.
    Theme(String),
    /// Switch automatic backups on or off and set how often they are made.
    Backup { auto_backup: bool, backup_frequency_hours: u32 },
}

impl AppSettingsView {
    /// The settings after a change at the time `now`.
    pub open spec fn changed(self, mutation: SettingsMutation, now: Timestamp) -> AppSettingsView {
        match mutation {
            SettingsMutation::Theme(theme) => AppSettingsView {
                theme: theme@,
                updated_at: now,
                ..self
            },
            SettingsMutation::Backup { auto_backup, backup_frequency_hours } => AppSettingsView {
                auto_backup,
                backup_frequency_hours,
                updated_at: now,
                ..self
            },
        }
    }
}

impl AppSettings {
    /// Makes a change at the time `now`.
    pub fn apply_at(&mut self, mutation: SettingsMutation, now: Timestamp)
        ensures
            final(self)@ == old(self)@.changed(mutation, now),
            old(self)@.wf() ==> final(self)@.wf(),
    {
        match mutation {
            SettingsMutation::Theme(theme) => {
                self.theme = theme;
            },
            SettingsMutation::Backup { auto_backup, backup_frequency_hours } => {
                self.auto_backup = auto_backup;
                self.backup_frequency_hours = backup_frequency_hours;
            },
        }
        self.updated_at = now;
    }
}

/// No change to a campaign touches its identifier or the time of its creation.
pub proof fn lemma_change_keeps_identity(c: CampaignView, mutation: CampaignMutation, now: Timestamp)
    ensures
        c.changed(mutation, now) matches Ok(changed) ==> changed.id == c.id && changed.created_at
            == c.created_at,
{
}

impl CampaignStatus {
    /// Every status, in the order of a campaign's life.
    pub open spec fn every() -> Seq<CampaignStatus> {
        seq![
            CampaignStatus::Planning,
            CampaignStatus::Active,
            CampaignStatus::OnHold,
            CampaignStatus::Completed,
            CampaignStatus::Archived,
        ]
    }

    /// The Italian word for the status.
    pub open spec fn display_text(self) -> Seq<char> {
        match self {
            CampaignStatus::Planning => "In Pianificazione"@,
            CampaignStatus::Active => "Attiva"@,
            CampaignStatus::OnHold => "In Pausa"@,
            CampaignStatus::Completed => "Completata"@,
            CampaignStatus::Archived => "Archiviata"@,
        }
    }

    /// A campaign may be changed while it is planned, running or paused.
    pub open spec fn modifiable(self) -> bool {
        self == CampaignStatus::Planning || self == CampaignStatus::Active || self
            == CampaignStatus::OnHold
    }

    /// Every status, in the order of a campaign's life.
    pub fn all() -> (v: Vec<CampaignStatus>)
        ensures
            v@ == CampaignStatus::every(),
    {
        let mut v: Vec<CampaignStatus> = Vec::new();
        v.push(CampaignStatus::Planning);
        v.push(CampaignStatus::Active);
        v.push(CampaignStatus::OnHold);
        v.push(CampaignStatus::Completed);
        v.push(CampaignStatus::Archived);
        assert(v@ =~= CampaignStatus::every());
        v
    }

    /// The Italian word for the status.
    pub fn display(&self) -> (s: &'static str)
        ensures
            s@ == self.display_text(),
    {
        match self {
            CampaignStatus::Planning => "In Pianificazione",
            CampaignStatus::Active => "Attiva",
            CampaignStatus::OnHold => "In Pausa",
            CampaignStatus::Completed => "Completata",
            CampaignStatus::Archived => "Archiviata",
        }
    }

    /// Tells whether a campaign of this status may be changed.
    pub fn allows_modifications(&self) -> (b: bool)
        ensures
            b == self.modifiable(),
    {
        match self {
            CampaignStatus::Planning => true,
            CampaignStatus::Active => true,
            CampaignStatus::OnHold => true,
            _ => false,
        }
    }
}

impl DifficultyLevel {
    /// Every difficulty, the easiest first.
    pub open spec fn every() -> Seq<DifficultyLevel> {
        seq![
            DifficultyLevel::Casual,
            DifficultyLevel::Normal,
            DifficultyLevel::Hard,
            DifficultyLevel::Deadly,
        ]
    }

    /// The Italian word for the difficulty.
    pub open spec fn display_text(self) -> Seq<char> {
        match self {
            DifficultyLevel::Casual => "Casual"@,
            DifficultyLevel::Normal => "Normale"@,
            DifficultyLevel::Hard => "Difficile"@,
            DifficultyLevel::Deadly => "Letale"@,
        }
    }

    /// The factor applied to encounter ratings, in hundredths.
    pub open spec fn multiplier_percent(self) -> int {
        match self {
            DifficultyLevel::Casual => 75,
            DifficultyLevel::Normal => 100,
            DifficultyLevel::Hard => 125,
            DifficultyLevel::Deadly => 150,
        }
    }

    /// Every difficulty, the easiest first.
    pub fn all() -> (v: Vec<DifficultyLevel>)
        ensures
            v@ == DifficultyLevel::every(),
    {
        let mut v: Vec<DifficultyLevel> = Vec::new();
        v.push(DifficultyLevel::Casual);
        v.push(DifficultyLevel::Normal);
        v.push(DifficultyLevel::Hard);
        v.push(DifficultyLevel::Deadly);
        assert(v@ =~= DifficultyLevel::every());
        v
    }

    /// The Italian word for the difficulty.
    pub fn display(&self) -> (s: &'static str)
        ensures
            s@ == self.display_text(),
    {
        match self {
            DifficultyLevel::Casual => "Casual",
            DifficultyLevel::Normal => "Normale",
            DifficultyLevel::Hard => "Difficile",
            DifficultyLevel::Deadly => "Letale",
        }
    }

    /// The factor applied to encounter ratings, in hundredths.
    pub fn encounter_multiplier_percent(&self) -> (p: u32)
        ensures
            p == self.multiplier_percent(),
    {
        match self {
            DifficultyLevel::Casual => 75,
            DifficultyLevel::Normal => 100,
            DifficultyLevel::Hard => 125,
            DifficultyLevel::Deadly => 150,
        }
    }
}


/// The identifiers of `ids` other than `id`, in their order.
pub open spec fn without_id(ids: Seq<Id>, id: Id) -> Seq<Id> {
    ids.filter(|x: Id| x != id)
}

/// The list of recently used campaigns once `id` was used: `id` first, then
/// the others in their order, and no more than five in all.
pub open spec fn most_recent_first(id: Id, recent: Seq<Id>) -> Seq<Id> {
    let all = seq![id] + without_id(recent, id);
    if all.len() > MAX_RECENT_CAMPAIGNS {
        all.subrange(0, MAX_RECENT_CAMPAIGNS as int)
    } else {
        all
    }
}

/// Leaving one identifier out keeps the order of the others, loses that
/// identifier, and brings in nothing twice that was there once.
pub proof fn lemma_without_id(ids: Seq<Id>, id: Id)
    ensures
        !without_id(ids, id).contains(id),
        without_id(ids, id).len() <= ids.len(),
        forall|x: Id| x != id ==> (without_id(ids, id).contains(x) <==> ids.contains(x)),
        ids.no_duplicates() ==> without_id(ids, id).no_duplicates(),
        !ids.contains(id) ==> without_id(ids, id) == ids,
    decreases ids.len(),
{
    reveal(Seq::filter);
    if ids.len() == 0 {
        assert(without_id(ids, id) =~= ids);
    } else {
        let front = ids.drop_last();
        let last = ids.last();
        lemma_without_id(front, id);
        let kept = without_id(front, id);
        assert(ids =~= front.push(last));
        assert(without_id(ids, id) == if last != id {
            kept.push(last)
        } else {
            kept
        });
        assert forall|x: Id| x != id implies (without_id(ids, id).contains(x) <==> ids.contains(
            x,
        )) by {
            if without_id(ids, id).contains(x) {
                let i = choose|i: int|
                    0 <= i < without_id(ids, id).len() && without_id(ids, id)[i] == x;
                if i < kept.len() {
                    assert(kept[i] == x);
                    assert(kept.contains(x));
                    assert(front.contains(x));
                    let j = choose|j: int| 0 <= j < front.len() && front[j] == x;
                    assert(ids[j] == x);
                } else {
                    assert(ids[ids.len() - 1] == x);
                }
            }
            if ids.contains(x) {
                let j = choose|j: int| 0 <= j < ids.len() && ids[j] == x;
                if j < front.len() {
                    assert(front[j] == x);
                    assert(kept.contains(x));
                    let i = choose|i: int| 0 <= i < kept.len() && kept[i] == x;
                    assert(without_id(ids, id)[i] == x);
                } else {
                    assert(without_id(ids, id)[kept.len() as int] == x);
                }
            }
        }
        if ids.no_duplicates() {
            assert(front.no_duplicates());
            if last != id {
                assert(!kept.contains(last)) by {
                    if kept.contains(last) {
                        assert(front.contains(last));
                        let j = choose|j: int| 0 <= j < front.len() && front[j] == last;
                        assert(ids[j] == ids[ids.len() - 1]);
                    }
                }
            }
        }
        if !ids.contains(id) {
            assert(!front.contains(id)) by {
                if front.contains(id) {
                    let j = choose|j: int| 0 <= j < front.len() && front[j] == id;
                    assert(ids[j] == id);
                }
            }
            assert(last != id) by {
                assert(ids[ids.len() - 1] == last);
            }
            assert(without_id(ids, id) =~= ids);
        }
    }
}

/// A list that was well formed stays so when an identifier moves to its front.
pub proof fn lemma_most_recent_first(id: Id, recent: Seq<Id>)
    ensures
        most_recent_first(id, recent).len() <= MAX_RECENT_CAMPAIGNS,
        most_recent_first(id, recent).len() >= 1,
        most_recent_first(id, recent)[0] == id,
        recent.no_duplicates() ==> most_recent_first(id, recent).no_duplicates(),
{
    lemma_without_id(recent, id);
    let rest = without_id(recent, id);
    let all = seq![id] + rest;
    if recent.no_duplicates() {
        assert forall|i: int, j: int| 0 <= i < all.len() && 0 <= j < all.len() && i != j implies all[i]
            != all[j] by {
            if i == 0 {
                assert(rest[j - 1] == all[j]);
                assert(rest.contains(all[j]));
            } else if j == 0 {
                assert(rest[i - 1] == all[i]);
                assert(rest.contains(all[i]));
            } else {
                assert(rest[i - 1] == all[i]);
                assert(rest[j - 1] == all[j]);
            }
        }
    }
}

/// Copies a list of identifiers without `id`.
pub fn remove_id(ids: &Vec<Id>, id: Id) -> (kept: Vec<Id>)
    ensures
        kept@ == without_id(ids@, id),
{
    let mut kept: Vec<Id> = Vec::new();
    let mut i: usize = 0;
    proof {
        reveal(Seq::filter);
        assert(ids@.take(0) =~= Seq::<Id>::empty());
    }
    while i < ids.len()
        invariant
            i <= ids.len(),
            kept@ == without_id(ids@.take(i as int), id),
        decreases ids.len() - i,
    {
        proof {
            reveal(Seq::filter);
            assert(ids@.take(i + 1).drop_last() =~= ids@.take(i as int));
        }
        if ids[i] != id {
            kept.push(ids[i]);
        }
        i += 1;
    }
    assert(ids@.take(i as int) =~= ids@);
    kept
}

impl AppSettingsView {
    /// The settings of a fresh installation.
    pub open spec fn initial(now: Timestamp) -> AppSettingsView {
        AppSettingsView {
            current_campaign_id: None,
            recent_campaigns: Seq::empty(),
            auto_backup: true,
            backup_frequency_hours: 24,
            theme: "dark"@,
            created_at: now,
            updated_at: now,
        }
    }

    /// The list of recent campaigns names no campaign twice and at most five.
    pub open spec fn wf(self) -> bool {
        self.recent_campaigns.no_duplicates() && self.recent_campaigns.len()
            <= MAX_RECENT_CAMPAIGNS
    }

    /// The settings once the campaign `id` became the current one.
    pub open spec fn with_current(self, id: Id, now: Timestamp) -> AppSettingsView {
        AppSettingsView {
            current_campaign_id: Some(id),
            recent_campaigns: most_recent_first(id, self.recent_campaigns),
            updated_at: now,
            ..self
        }
    }

    /// The settings with no current campaign.
    pub open spec fn cleared(self, now: Timestamp) -> AppSettingsView {
        AppSettingsView { current_campaign_id: None, updated_at: now, ..self }
    }

    /// The settings once the campaign `id` is gone: it is no longer current,
    /// nor among the recent ones. Where it was current, the time of the last
    /// change moves to `now`.
    pub open spec fn forgetting(self, id: Id, now: Timestamp) -> AppSettingsView {
        let base = if self.current_campaign_id == Some(id) {
            self.cleared(now)
        } else {
            self
        };
        AppSettingsView { recent_campaigns: without_id(self.recent_campaigns, id), ..base }
    }
}

impl Clone for AppSettings {
    fn clone(&self) -> (r: Self)
        ensures
            r@ == self@,
    {
        let mut recent: Vec<Id> = Vec::new();
        let mut i: usize = 0;
        while i < self.recent_campaigns.len()
            invariant
                i <= self.recent_campaigns.len(),
                recent@ == self.recent_campaigns@.take(i as int),
            decreases self.recent_campaigns.len() - i,
        {
            recent.push(self.recent_campaigns[i]);
            i += 1;
            assert(recent@ =~= self.recent_campaigns@.take(i as int));
        }
        assert(recent@ =~= self.recent_campaigns@);
        AppSettings {
            current_campaign_id: self.current_campaign_id,
            recent_campaigns: recent,
            auto_backup: self.auto_backup,
            backup_frequency_hours: self.backup_frequency_hours,
            theme: self.theme.clone(),
            created_at: self.created_at,
            updated_at: self.updated_at,
        }
    }
}

impl AppSettings {
    /// The settings of a fresh installation, made at the present time.
    pub fn new() -> (s: Self)
        ensures
            s@ == AppSettingsView::initial(s.created_at),
    {
        let now = Timestamp::now();
        AppSettings::new_at(now)
    }

    /// The settings of a fresh installation, made at the time `now`.
    pub fn new_at(now: Timestamp) -> (s: Self)
        ensures
            s@ == AppSettingsView::initial(now),
            s@.wf(),
    {
        AppSettings {
            current_campaign_id: None,
            recent_campaigns: Vec::new(),
            auto_backup: true,
            backup_frequency_hours: 24,
            theme: String::from_str("dark"),
            created_at: now,
            updated_at: now,
        }
    }

    /// Makes `campaign_id` the current campaign, at the present time.
    pub fn set_current_campaign(&mut self, campaign_id: Id)
        ensures
            final(self)@ == old(self)@.with_current(campaign_id, final(self).updated_at),
            old(self)@.wf() ==> final(self)@.wf(),
    {
        let now = Timestamp::now();
        self.set_current_campaign_at(campaign_id, now);
    }

    /// Makes `campaign_id` the current campaign at the time `now`, and moves it
    /// to the front of the recent campaigns.
    pub fn set_current_campaign_at(&mut self, campaign_id: Id, now: Timestamp)
        ensures
            final(self)@ == old(self)@.with_current(campaign_id, now),
            old(self)@.wf() ==> final(self)@.wf(),
    {
        let others = remove_id(&self.recent_campaigns, campaign_id);
        let mut recent: Vec<Id> = Vec::new();
        recent.push(campaign_id);
        let mut i: usize = 0;
        while i < others.len() && recent.len() < MAX_RECENT_CAMPAIGNS
            invariant
                i <= others.len(),
                recent@.len() == i + 1,
                recent@.len() <= MAX_RECENT_CAMPAIGNS,
                recent@ == (seq![campaign_id] + others@).take(i + 1),
            decreases others.len() - i,
        {
            recent.push(others[i]);
            i += 1;
            assert(recent@ =~= (seq![campaign_id] + others@).take(i + 1));
        }
        proof {
            lemma_most_recent_first(campaign_id, self.recent_campaigns@);
            assert(recent@ =~= most_recent_first(campaign_id, self.recent_campaigns@));
        }
        self.current_campaign_id = Some(campaign_id);
        self.recent_campaigns = recent;
        self.updated_at = now;
    }

    /// Leaves no campaign current, at the present time.
    pub fn clear_current_campaign(&mut self)
        ensures
            final(self)@ == old(self)@.cleared(final(self).updated_at),
    {
        let now = Timestamp::now();
        self.clear_current_campaign_at(now);
    }

    /// Leaves no campaign current, at the time `now`.
    pub fn clear_current_campaign_at(&mut self, now: Timestamp)
        ensures
            final(self)@ == old(self)@.cleared(now),
    {
        self.current_campaign_id = None;
        self.updated_at = now;
    }
}

} // verus!
