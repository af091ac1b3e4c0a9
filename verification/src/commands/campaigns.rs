use crate::models::campaign::{
    AppSettings, AppSettingsView, AverageLevel, Campaign, CampaignMutation, CampaignStatus,
    CampaignSummary, CampaignView, CreateCampaignRequest, SettingsMutation, UpdateCampaignRequest,
};
use crate::services::campaign_storage::{
    active_campaigns, campaign_not_found, campaign_summaries, loaded, stored_wf,
    summaries_in_order, CampaignStorageService, StoredCampaigns,
};
use crate::services::keyed::{arranges, lists};
use crate::utils::clock::Timestamp;
use crate::utils::error::{
    empty_field_text, failure, invalid_id_text, not_found_text, validate_non_empty, validate_uuid,
    DmAssistantError, DmResult, ErrorKind, ErrorView,
};
use crate::utils::id_generator::{generate_id, is_v4, uuid_parse, Id};
use crate::utils::text::{
    concat2, eq_ignore_ascii_case, equal_ignoring_ascii_case, is_blank, same_text,
};
use crate::utils::views::{view_of_option, view_of_result, views_of};
use vstd::prelude::*;
use vstd::string::StringExecFns;

verus! {

/// The fewest players a campaign can be set up for.
pub const MIN_PLAYERS: u8 = 1;

/// The most players a campaign can be set up for.
pub const MAX_PLAYERS: u8 = 12;

/// The longest time between two automatic backups, in hours: one week.
pub const MAX_BACKUP_FREQUENCY_HOURS: u32 = 168;

/// The error of a campaign identifier that cannot be read.
pub open spec fn invalid_campaign_id() -> ErrorView {
    failure(ErrorKind::InvalidInput, invalid_id_text("Campaign"@))
}

/// The error of a field that holds nothing but whitespace.
pub open spec fn empty_field(field_name: Seq<char>) -> ErrorView {
    failure(ErrorKind::ValidationError, empty_field_text(field_name))
}

/// The error of a player count outside its range.
pub open spec fn bad_player_count() -> ErrorView {
    failure(ErrorKind::ValidationError, "Player count must be between 1 and 12"@)
}

/// The player count, where one is given, lies between 1 and 12.
pub open spec fn player_count_ok(count: Option<u8>) -> bool {
    count matches Some(n) ==> MIN_PLAYERS <= n <= MAX_PLAYERS
}

/// Why a request to create a campaign is refused, if it is: the first check
/// that fails, of name, description, setting and player count.
pub open spec fn create_request_error(req: CreateCampaignRequest) -> Option<ErrorView> {
    if is_blank(req.name@) {
        Some(empty_field("Campaign name"@))
    } else if is_blank(req.description@) {
        Some(empty_field("Campaign description"@))
    } else if is_blank(req.setting@) {
        Some(empty_field("Campaign setting"@))
    } else if !player_count_ok(req.player_count) {
        Some(bad_player_count())
    } else {
        None
    }
}

/// Why a patch of a campaign is refused, if it is: only the fields that the
/// patch holds are checked.
pub open spec fn update_request_error(req: UpdateCampaignRequest) -> Option<ErrorView> {
    if req.name matches Some(name) && is_blank(name@) {
        Some(empty_field("Campaign name"@))
    } else if req.description matches Some(description) && is_blank(description@) {
        Some(empty_field("Campaign description"@))
    } else if req.setting matches Some(setting) && is_blank(setting@) {
        Some(empty_field("Campaign setting"@))
    } else if !player_count_ok(req.player_count) {
        Some(bad_player_count())
    } else {
        None
    }
}

/// `after` and `outcome` are what a change to the campaign that `id_text`
/// names makes of `before`: an identifier that cannot be read is refused
/// before the store is touched; else the change runs as a transaction of
/// the store at some time.
pub open spec fn modifies(
    before: StoredCampaigns,
    id_text: Seq<char>,
    mutation: CampaignMutation,
    after: StoredCampaigns,
    outcome: Result<CampaignView, ErrorView>,
) -> bool {
    match uuid_parse(id_text) {
        None => outcome == Err::<CampaignView, ErrorView>(invalid_campaign_id()) && after == before,
        Some(id) => exists|now: Timestamp| #[trigger]
            CampaignStorageService::modify_outcome(before, id, mutation, now) == (after, outcome),
    }
}

/// `after` is what reading the store at some time makes of `before`.
pub open spec fn reads(before: StoredCampaigns, after: StoredCampaigns) -> bool {
    exists|now: Timestamp| after == Some(#[trigger] loaded(before, now))
}

fn check_player_count(count: Option<u8>) -> (r: DmResult<()>)
    ensures
        match r {
            Ok(_) => player_count_ok(count),
            Err(e) => !player_count_ok(count) && e@ == bad_player_count(),
        },
{
    if let Some(n) = count {
        if n == 0 || n > MAX_PLAYERS {
            return Err(DmAssistantError::validation("Player count must be between 1 and 12"));
        }
    }
    Ok(())
}

/// Checks a request to create a campaign.
pub fn validate_create_request(req: &CreateCampaignRequest) -> (r: DmResult<()>)
    ensures
        match r {
            Ok(_) => create_request_error(*req) is None,
            Err(e) => create_request_error(*req) == Some(e@),
        },
{
    if let Err(e) = validate_non_empty(req.name.as_str(), "Campaign name") {
        return Err(e);
    }
    if let Err(e) = validate_non_empty(req.description.as_str(), "Campaign description") {
        return Err(e);
    }
    if let Err(e) = validate_non_empty(req.setting.as_str(), "Campaign setting") {
        return Err(e);
    }
    check_player_count(req.player_count)
}

/// Checks a patch of a campaign.
pub fn validate_update_request(req: &UpdateCampaignRequest) -> (r: DmResult<()>)
    ensures
        match r {
            Ok(_) => update_request_error(*req) is None,
            Err(e) => update_request_error(*req) == Some(e@),
        },
{
    if let Some(name) = &req.name {
        if let Err(e) = validate_non_empty(name.as_str(), "Campaign name") {
            return Err(e);
        }
    }
    if let Some(description) = &req.description {
        if let Err(e) = validate_non_empty(description.as_str(), "Campaign description") {
            return Err(e);
        }
    }
    if let Some(setting) = &req.setting {
        if let Err(e) = validate_non_empty(setting.as_str(), "Campaign setting") {
            return Err(e);
        }
    }
    check_player_count(req.player_count)
}

/// Creates a campaign from a request and stores it. A request with a blank
/// name, description or setting, or with a player count outside 1 to 12, is
/// refused before the store is touched; every other request succeeds: the
/// campaign gets a new random identifier, or another one that no stored
/// campaign has where that one is taken.
pub fn create_campaign(service: &mut CampaignStorageService, req: CreateCampaignRequest) -> (r:
    DmResult<Campaign>)
    ensures
        match create_request_error(req) {
            Some(e) => view_of_result(r) == Err::<CampaignView, ErrorView>(e) && final(service)@
                == old(service)@,
            None => r matches Ok(stored) && exists|id: Id, made: Timestamp, now: Timestamp|
                is_v4(id) && #[trigger] CampaignStorageService::stores_new(
                    old(service)@,
                    CampaignView::created(req, id, made),
                    now,
                    final(service)@,
                    stored@,
                ),
        },
        stored_wf(old(service)@) ==> stored_wf(final(service)@),
{
    if let Err(e) = validate_create_request(&req) {
        return Err(e);
    }
    let campaign = Campaign::new(req);
    Ok(service.create_new(campaign))
}

/// The campaign that `campaign_id` names, if there is one.
pub fn get_campaign(service: &mut CampaignStorageService, campaign_id: String) -> (r: DmResult<
    Option<Campaign>,
>)
    ensures
        match uuid_parse(campaign_id@) {
            None => r matches Err(e) && e@ == invalid_campaign_id() && final(service)@ == old(service)@,
            Some(id) => r matches Ok(found) && exists|now: Timestamp|
                final(service)@ == Some(#[trigger] loaded(old(service)@, now)) && view_of_option(
                    found,
                ) == loaded(old(service)@, now).campaign(id),
        },
{
    match validate_uuid(campaign_id.as_str(), "Campaign") {
        Err(e) => Err(e),
        Ok(id) => Ok(service.get_campaign(&id)),
    }
}

/// Every campaign, in no particular order.
pub fn get_all_campaigns(service: &mut CampaignStorageService) -> (r: DmResult<Vec<Campaign>>)
    ensures
        r matches Ok(all) && exists|now: Timestamp|
            final(service)@ == Some(#[trigger] loaded(old(service)@, now)) && lists(
                views_of(all@),
                loaded(old(service)@, now).campaigns,
            ),
{
    Ok(service.get_all_campaigns())
}

/// The active campaigns, in no particular order.
pub fn get_active_campaigns(service: &mut CampaignStorageService) -> (r: DmResult<Vec<Campaign>>)
    ensures
        r matches Ok(active) && exists|now: Timestamp|
            final(service)@ == Some(#[trigger] loaded(old(service)@, now)) && lists(
                views_of(active@),
                active_campaigns(loaded(old(service)@, now).campaigns),
            ),
{
    Ok(service.get_active_campaigns())
}

/// The summaries of all campaigns, ordered for display.
pub fn get_campaign_summaries(service: &mut CampaignStorageService) -> (r: DmResult<
    Vec<CampaignSummary>,
>)
    ensures
        r matches Ok(summaries) && summaries_in_order(views_of(summaries@)) && exists|
            now: Timestamp,
        |
            final(service)@ == Some(#[trigger] loaded(old(service)@, now)) && lists(
                views_of(summaries@),
                campaign_summaries(loaded(old(service)@, now).campaigns),
            ),
{
    Ok(service.get_campaign_summaries())
}

/// Reads the identifier and checks the patch, without a look at the store.
pub fn check_update_campaign(campaign_id: &str, req: &UpdateCampaignRequest) -> (r: DmResult<Id>)
    ensures
        match (uuid_parse(campaign_id@), update_request_error(*req)) {
            (None, _) => r matches Err(e) && e@ == invalid_campaign_id(),
            (Some(_), Some(x)) => r matches Err(e) && e@ == x,
            (Some(id), None) => r == Ok::<Id, DmAssistantError>(id),
        },
{
    let id = match validate_uuid(campaign_id, "Campaign") {
        Err(e) => {
            return Err(e);
        },
        Ok(id) => id,
    };
    if let Err(e) = validate_update_request(req) {
        return Err(e);
    }
    Ok(id)
}

/// Patches a campaign. The identifier is read first, then the patch is
/// checked; only then does the store run the change.
pub fn update_campaign(
    service: &mut CampaignStorageService,
    campaign_id: String,
    req: UpdateCampaignRequest,
) -> (r: DmResult<Campaign>)
    ensures
        match (uuid_parse(campaign_id@), update_request_error(req)) {
            (None, _) => view_of_result(r) == Err::<CampaignView, ErrorView>(
                invalid_campaign_id(),
            ) && final(service)@ == old(service)@,
            (Some(_), Some(e)) => view_of_result(r) == Err::<CampaignView, ErrorView>(e) && final(service)@ == old(service)@,
            (Some(_), None) => modifies(
                old(service)@,
                campaign_id@,
                CampaignMutation::Update(req),
                final(service)@,
                view_of_result(r),
            ),
        },
        stored_wf(old(service)@) ==> stored_wf(final(service)@),
{
    let id = match check_update_campaign(campaign_id.as_str(), &req) {
        Err(e) => {
            return Err(e);
        },
        Ok(id) => id,
    };
    service.modify_campaign(&id, CampaignMutation::Update(req))
}

fn change(service: &mut CampaignStorageService, campaign_id: &str, mutation: CampaignMutation) -> (r:
    DmResult<Campaign>)
    ensures
        modifies(old(service)@, campaign_id@, mutation, final(service)@, view_of_result(r)),
        stored_wf(old(service)@) ==> stored_wf(final(service)@),
{
    match validate_uuid(campaign_id, "Campaign") {
        Err(e) => Err(e),
        Ok(id) => service.modify_campaign(&id, mutation),
    }
}

/// Deletes a campaign; see `CampaignStorageService::delete_campaign`.
pub fn delete_campaign(service: &mut CampaignStorageService, campaign_id: String) -> (r: DmResult<
    bool,
>)
    ensures
        match uuid_parse(campaign_id@) {
            None => r matches Err(e) && e@ == invalid_campaign_id() && final(service)@ == old(service)@,
            Some(id) => exists|now: Timestamp| #[trigger]
                CampaignStorageService::delete_outcome(old(service)@, id, now) == (
                    final(service)@,
                    match r {
                        Ok(b) => Ok::<bool, ErrorView>(b),
                        Err(e) => Err::<bool, ErrorView>(e@),
                    },
                ),
        },
        stored_wf(old(service)@) ==> stored_wf(final(service)@),
{
    match validate_uuid(campaign_id.as_str(), "Campaign") {
        Err(e) => Err(e),
        Ok(id) => service.delete_campaign(&id),
    }
}

/// Archives a campaign.
pub fn archive_campaign(service: &mut CampaignStorageService, campaign_id: String) -> (r: DmResult<
    Campaign,
>)
    ensures
        modifies(
            old(service)@,
            campaign_id@,
            CampaignMutation::Archive,
            final(service)@,
            view_of_result(r),
        ),
        stored_wf(old(service)@) ==> stored_wf(final(service)@),
{
    change(service, campaign_id.as_str(), CampaignMutation::Archive)
}

/// Makes a campaign the current one.
pub fn set_current_campaign(service: &mut CampaignStorageService, campaign_id: String) -> (r:
    DmResult<Campaign>)
    ensures
        match uuid_parse(campaign_id@) {
            None => view_of_result(r) == Err::<CampaignView, ErrorView>(invalid_campaign_id())
                && final(service)@ == old(service)@,
            Some(id) => exists|now: Timestamp| #[trigger]
                CampaignStorageService::set_current_outcome(old(service)@, id, now) == (
                    final(service)@,
                    view_of_result(r),
                ),
        },
        stored_wf(old(service)@) ==> stored_wf(final(service)@),
{
    match validate_uuid(campaign_id.as_str(), "Campaign") {
        Err(e) => Err(e),
        Ok(id) => service.set_current_campaign(&id),
    }
}

/// The current campaign, if one is set and exists.
pub fn get_current_campaign(service: &mut CampaignStorageService) -> (r: DmResult<Option<Campaign>>)
    ensures
        r matches Ok(found) && exists|now: Timestamp|
            final(service)@ == Some(#[trigger] loaded(old(service)@, now)) && view_of_option(found)
                == loaded(old(service)@, now).current(),
{
    Ok(service.get_current_campaign())
}

/// Leaves no campaign current.
pub fn clear_current_campaign(service: &mut CampaignStorageService) -> (r: DmResult<()>)
    ensures
        r is Ok,
        exists|now: Timestamp| #[trigger]
            CampaignStorageService::clear_current_outcome(old(service)@, now) == final(service)@,
        stored_wf(old(service)@) ==> stored_wf(final(service)@),
{
    service.clear_current_campaign();
    Ok(())
}

/// The campaigns used last, the most recent first.
pub fn get_recent_campaigns(service: &mut CampaignStorageService) -> (r: DmResult<Vec<Campaign>>)
    ensures
        r matches Ok(recent) && exists|now: Timestamp|
            final(service)@ == Some(#[trigger] loaded(old(service)@, now)) && views_of(recent@)
                == loaded(old(service)@, now).recent(),
{
    Ok(service.get_recent_campaigns())
}

/// Starts the next session of a campaign.
pub fn start_campaign_session(service: &mut CampaignStorageService, campaign_id: String) -> (r:
    DmResult<Campaign>)
    ensures
        modifies(
            old(service)@,
            campaign_id@,
            CampaignMutation::StartSession,
            final(service)@,
            view_of_result(r),
        ),
        stored_wf(old(service)@) ==> stored_wf(final(service)@),
{
    change(service, campaign_id.as_str(), CampaignMutation::StartSession)
}

/// Why a set of character statistics is refused, if it is.
pub open spec fn stats_error(active: u32, total: u32, average_level: AverageLevel) -> Option<
    ErrorView,
> {
    if total < active {
        Some(
            failure(
                ErrorKind::ValidationError,
                "Total characters cannot be less than active characters"@,
            ),
        )
    } else if !average_level.in_level_range() {
        Some(failure(ErrorKind::ValidationError, "Average level must be between 1.0 and 20.0"@))
    } else {
        None
    }
}

/// Reads the identifier and checks the statistics, without a look at the store.
pub fn check_campaign_stats(
    campaign_id: &str,
    active_characters: u32,
    total_characters: u32,
    average_level: AverageLevel,
) -> (r: DmResult<Id>)
    ensures
        match (
            uuid_parse(campaign_id@),
            stats_error(active_characters, total_characters, average_level),
        ) {
            (None, _) => r matches Err(e) && e@ == invalid_campaign_id(),
            (Some(_), Some(x)) => r matches Err(e) && e@ == x,
            (Some(id), None) => r == Ok::<Id, DmAssistantError>(id),
        },
{
    let id = match validate_uuid(campaign_id, "Campaign") {
        Err(e) => {
            return Err(e);
        },
        Ok(id) => id,
    };
    if total_characters < active_characters {
        return Err(
            DmAssistantError::validation("Total characters cannot be less than active characters"),
        );
    }
    if !average_level.is_in_level_range() {
        return Err(DmAssistantError::validation("Average level must be between 1.0 and 20.0"));
    }
    Ok(id)
}

/// Replaces the character statistics of a campaign. There cannot be more
/// active characters than characters, and the average level lies between
/// 1.0 and 20.0.
pub fn update_campaign_stats(
    service: &mut CampaignStorageService,
    campaign_id: String,
    active_characters: u32,
    total_characters: u32,
    average_level: AverageLevel,
) -> (r: DmResult<Campaign>)
    ensures
        match (
            uuid_parse(campaign_id@),
            stats_error(active_characters, total_characters, average_level),
        ) {
            (None, _) => view_of_result(r) == Err::<CampaignView, ErrorView>(
                invalid_campaign_id(),
            ) && final(service)@ == old(service)@,
            (Some(_), Some(e)) => view_of_result(r) == Err::<CampaignView, ErrorView>(e) && final(service)@ == old(service)@,
            (Some(_), None) => modifies(
                old(service)@,
                campaign_id@,
                CampaignMutation::UpdateStats {
                    active_characters,
                    total_characters,
                    average_level,
                },
                final(service)@,
                view_of_result(r),
            ),
        },
        stored_wf(old(service)@) ==> stored_wf(final(service)@),
{
    let id = match check_campaign_stats(
        campaign_id.as_str(),
        active_characters,
        total_characters,
        average_level,
    ) {
        Err(e) => {
            return Err(e);
        },
        Ok(id) => id,
    };
    service.update_campaign_stats(&id, active_characters, total_characters, average_level)
}

/// Closes a campaign as completed; only a campaign that can be played can
/// be completed.
pub fn complete_campaign(service: &mut CampaignStorageService, campaign_id: String) -> (r: DmResult<
    Campaign,
>)
    ensures
        modifies(
            old(service)@,
            campaign_id@,
            CampaignMutation::Complete,
            final(service)@,
            view_of_result(r),
        ),
        stored_wf(old(service)@) ==> stored_wf(final(service)@),
{
    change(service, campaign_id.as_str(), CampaignMutation::Complete)
}

/// Puts a campaign on hold; only a running campaign can be paused.
pub fn pause_campaign(service: &mut CampaignStorageService, campaign_id: String) -> (r: DmResult<
    Campaign,
>)
    ensures
        modifies(
            old(service)@,
            campaign_id@,
            CampaignMutation::Pause,
            final(service)@,
            view_of_result(r),
        ),
        stored_wf(old(service)@) ==> stored_wf(final(service)@),
{
    change(service, campaign_id.as_str(), CampaignMutation::Pause)
}

/// Takes a campaign off hold; only a paused campaign can be resumed.
pub fn resume_campaign(service: &mut CampaignStorageService, campaign_id: String) -> (r: DmResult<
    Campaign,
>)
    ensures
        modifies(
            old(service)@,
            campaign_id@,
            CampaignMutation::Resume,
            final(service)@,
            view_of_result(r),
        ),
        stored_wf(old(service)@) ==> stored_wf(final(service)@),
{
    change(service, campaign_id.as_str(), CampaignMutation::Resume)
}


/// `after` and `outcome` are what copying the campaign that `id_text` names
/// makes of `before`. An identifier that cannot be read and a blank name
/// are refused before the store is touched; a campaign that is not there
/// is reported with the identifier as the caller wrote it; else the copy,
/// see `CampaignView::duplicated`, is stored beside the others.
pub open spec fn duplicates(
    before: StoredCampaigns,
    id_text: Seq<char>,
    new_name: Seq<char>,
    after: StoredCampaigns,
    outcome: Result<CampaignView, ErrorView>,
) -> bool {
    match uuid_parse(id_text) {
        None => outcome == Err::<CampaignView, ErrorView>(invalid_campaign_id()) && after == before,
        Some(source_id) => {
            if is_blank(new_name) {
                outcome == Err::<CampaignView, ErrorView>(empty_field("New campaign name"@))
                    && after == before
            } else {
                exists|read: Timestamp|
                    match (#[trigger] loaded(before, read)).campaign(source_id) {
                        None => outcome == Err::<CampaignView, ErrorView>(
                            failure(ErrorKind::NotFound, not_found_text("Campaign"@, id_text)),
                        ) && after == Some(loaded(before, read)),
                        Some(source) => outcome matches Ok(stored) && exists|
                            id: Id,
                            made: Timestamp,
                            now: Timestamp,
                        |
                            is_v4(id) && #[trigger] CampaignStorageService::stores_new(
                                Some(loaded(before, read)),
                                source.duplicated(id, new_name, made),
                                now,
                                after,
                                stored,
                            ),
                    }
            }
        },
    }
}

/// Reads the identifier of the campaign to copy and checks the name of the
/// copy, without a look at the store.
pub fn check_duplicate(campaign_id: &str, new_name: &str) -> (r: DmResult<Id>)
    ensures
        match uuid_parse(campaign_id@) {
            None => r matches Err(e) && e@ == invalid_campaign_id(),
            Some(id) => if is_blank(new_name@) {
                r matches Err(e) && e@ == empty_field("New campaign name"@)
            } else {
                r == Ok::<Id, DmAssistantError>(id)
            },
        },
{
    let id = match validate_uuid(campaign_id, "Campaign") {
        Err(e) => {
            return Err(e);
        },
        Ok(id) => id,
    };
    if let Err(e) = validate_non_empty(new_name, "New campaign name") {
        return Err(e);
    }
    Ok(id)
}

/// Stores a copy of a campaign under a new name and an identifier of its
/// own; the copy starts over, see `CampaignView::duplicated`.
pub fn duplicate_campaign(
    service: &mut CampaignStorageService,
    campaign_id: String,
    new_name: String,
) -> (r: DmResult<Campaign>)
    ensures
        duplicates(old(service)@, campaign_id@, new_name@, final(service)@, view_of_result(r)),
        stored_wf(old(service)@) ==> stored_wf(final(service)@),
{
    let source_id = match check_duplicate(campaign_id.as_str(), new_name.as_str()) {
        Err(e) => {
            return Err(e);
        },
        Ok(id) => id,
    };
    let found = service.get_campaign(&source_id);
    let ghost read = choose|read: Timestamp|
        service@ == Some(#[trigger] loaded(old(service)@, read)) && view_of_option(found) == loaded(
            old(service)@,
            read,
        ).campaign(source_id);
    let ghost middle = service@;
    let source = match found {
        None => {
            let r = Err(DmAssistantError::not_found("Campaign", campaign_id.as_str()));
            assert(loaded(old(service)@, read).campaign(source_id) is None);
            return r;
        },
        Some(c) => c,
    };
    let id = generate_id();
    let made = Timestamp::now();
    let copy = source.duplicate_with(id, new_name, made);
    let stored = service.create_new(copy);
    proof {
        let now = choose|now: Timestamp| #[trigger]
            CampaignStorageService::stores_new(middle, copy@, now, final(service)@, stored@);
        assert(CampaignStorageService::stores_new(
            Some(loaded(old(service)@, read)),
            source@.duplicated(id, new_name@, made),
            now,
            final(service)@,
            stored@,
        ));
        assert(loaded(old(service)@, read).campaign(source_id) == Some(source@));
    }
    Ok(stored)
}

/// The campaign to export, or `NotFound`.
pub fn export_campaign(service: &mut CampaignStorageService, campaign_id: String) -> (r: DmResult<
    Campaign,
>)
    ensures
        match uuid_parse(campaign_id@) {
            None => view_of_result(r) == Err::<CampaignView, ErrorView>(invalid_campaign_id())
                && final(service)@ == old(service)@,
            Some(id) => exists|now: Timestamp|
                final(service)@ == Some(#[trigger] loaded(old(service)@, now)) && view_of_result(r)
                    == match loaded(old(service)@, now).campaign(id) {
                    Some(c) => Ok::<CampaignView, ErrorView>(c),
                    None => Err::<CampaignView, ErrorView>(campaign_not_found(id)),
                },
        },
{
    match validate_uuid(campaign_id.as_str(), "Campaign") {
        Err(e) => Err(e),
        Ok(id) => service.export_campaign(&id),
    }
}

/// The app settings.
pub fn get_app_settings(service: &mut CampaignStorageService) -> (r: DmResult<AppSettings>)
    ensures
        r matches Ok(settings) && exists|now: Timestamp|
            final(service)@ == Some(#[trigger] loaded(old(service)@, now)) && settings@ == loaded(
                old(service)@,
                now,
            ).app_settings,
{
    Ok(service.get_app_settings())
}

/// The theme is one of the three that the application has.
pub open spec fn is_known_theme(theme: Seq<char>) -> bool {
    theme == "light"@ || theme == "dark"@ || theme == "system"@
}

/// Why a theme is refused, if it is.
pub open spec fn theme_error(theme: Seq<char>) -> Option<ErrorView> {
    if is_blank(theme) {
        Some(empty_field("Theme"@))
    } else if !is_known_theme(theme) {
        Some(failure(ErrorKind::ValidationError, "Theme must be 'light', 'dark', or 'system'"@))
    } else {
        None
    }
}

/// `after` and `outcome` are what a change to the settings, made at some
/// time, makes of `before`.
pub open spec fn changes_settings(
    before: StoredCampaigns,
    mutation: SettingsMutation,
    after: StoredCampaigns,
    outcome: AppSettingsView,
) -> bool {
    exists|now: Timestamp|
        after == Some(#[trigger] CampaignStorageService::settings_outcome(before, mutation, now))
            && outcome == CampaignStorageService::settings_outcome(
            before,
            mutation,
            now,
        ).app_settings
}

/// Accepts one of the three themes that the application has.
pub fn validate_theme(theme: &str) -> (r: DmResult<()>)
    ensures
        match r {
            Ok(_) => theme_error(theme@) is None,
            Err(e) => theme_error(theme@) == Some(e@),
        },
{
    if let Err(e) = validate_non_empty(theme, "Theme") {
        return Err(e);
    }
    if !(same_text(theme, "light") || same_text(theme, "dark") || same_text(theme, "system")) {
        return Err(DmAssistantError::validation("Theme must be 'light', 'dark', or 'system'"));
    }
    Ok(())
}

/// Accepts a time between two backups of one hour at the least and one
/// week at the most.
pub fn validate_backup_frequency(backup_frequency_hours: u32) -> (r: DmResult<()>)
    ensures
        match r {
            Ok(_) => 1 <= backup_frequency_hours <= MAX_BACKUP_FREQUENCY_HOURS,
            Err(e) => !(1 <= backup_frequency_hours <= MAX_BACKUP_FREQUENCY_HOURS) && e@
                == failure(
                ErrorKind::ValidationError,
                "Backup frequency must be between 1 and 168 hours"@,
            ),
        },
{
    if backup_frequency_hours == 0 || backup_frequency_hours > MAX_BACKUP_FREQUENCY_HOURS {
        return Err(
            DmAssistantError::validation("Backup frequency must be between 1 and 168 hours"),
        );
    }
    Ok(())
}

/// Chooses the theme of the application: `light`, `dark` or `system`.
pub fn update_app_theme(service: &mut CampaignStorageService, theme: String) -> (r: DmResult<
    AppSettings,
>)
    ensures
        match theme_error(theme@) {
            Some(e) => r matches Err(x) && x@ == e && final(service)@ == old(service)@,
            None => r matches Ok(settings) && changes_settings(
                old(service)@,
                SettingsMutation::Theme(theme),
                final(service)@,
                settings@,
            ),
        },
        stored_wf(old(service)@) ==> stored_wf(final(service)@),
{
    if let Err(e) = validate_theme(theme.as_str()) {
        return Err(e);
    }
    Ok(service.update_app_settings(SettingsMutation::Theme(theme)))
}

/// Switches automatic backups on or off and sets how often they are made:
/// every hour at the most, once a week at the least.
pub fn update_backup_settings(
    service: &mut CampaignStorageService,
    auto_backup: bool,
    backup_frequency_hours: u32,
) -> (r: DmResult<AppSettings>)
    ensures
        if 1 <= backup_frequency_hours <= MAX_BACKUP_FREQUENCY_HOURS {
            r matches Ok(settings) && changes_settings(
                old(service)@,
                SettingsMutation::Backup { auto_backup, backup_frequency_hours },
                final(service)@,
                settings@,
            )
        } else {
            r matches Err(e) && e@ == failure(
                ErrorKind::ValidationError,
                "Backup frequency must be between 1 and 168 hours"@,
            ) && final(service)@ == old(service)@
        },
        stored_wf(old(service)@) ==> stored_wf(final(service)@),
{
    if let Err(e) = validate_backup_frequency(backup_frequency_hours) {
        return Err(e);
    }
    Ok(service.update_app_settings(SettingsMutation::Backup { auto_backup, backup_frequency_hours }))
}

/// Some campaign of the list other than `exclude` has the name, the case of
/// ASCII letters aside.
pub open spec fn name_taken(campaigns: Seq<CampaignView>, name: Seq<char>, exclude: Option<Id>) -> bool {
    exists|i: int|
        0 <= i < campaigns.len() && Some((#[trigger] campaigns[i]).id) != exclude
            && equal_ignoring_ascii_case(campaigns[i].name, name)
}

fn is_name_taken(campaigns: &Vec<Campaign>, name: &str, exclude: Option<Id>) -> (taken: bool)
    ensures
        taken == name_taken(views_of(campaigns@), name@, exclude),
{
    let mut i: usize = 0;
    while i < campaigns.len()
        invariant
            i <= campaigns.len(),
            forall|j: int|
                0 <= j < i ==> !(Some((#[trigger] views_of(campaigns@)[j]).id) != exclude
                    && equal_ignoring_ascii_case(views_of(campaigns@)[j].name, name@)),
        decreases campaigns.len() - i,
    {
        let other = match exclude {
            Some(x) => campaigns[i].id != x,
            None => true,
        };
        if other && eq_ignore_ascii_case(campaigns[i].name.as_str(), name) {
            assert(Some(views_of(campaigns@)[i as int].id) != exclude);
            return true;
        }
        i += 1;
    }
    false
}

/// Tells whether a name is free: no campaign has it, the case of ASCII
/// letters aside. A blank name is refused.
pub fn validate_campaign_name(service: &mut CampaignStorageService, name: String) -> (r: DmResult<
    bool,
>)
    ensures
        if is_blank(name@) {
            r matches Err(e) && e@ == empty_field("Campaign name"@) && final(service)@ == old(service)@
        } else {
            r matches Ok(free) && exists|now: Timestamp, all: Seq<CampaignView>|
                final(service)@ == Some(#[trigger] loaded(old(service)@, now)) && #[trigger] lists(
                    all,
                    loaded(old(service)@, now).campaigns,
                ) && free == !name_taken(all, name@, None)
        },
{
    if let Err(e) = validate_non_empty(name.as_str(), "Campaign name") {
        return Err(e);
    }
    let campaigns = service.get_all_campaigns();
    let taken = is_name_taken(&campaigns, name.as_str(), None);
    Ok(!taken)
}

/// Accepts a name that no campaign other than `exclude_id` has, the case of
/// ASCII letters aside.
pub fn validate_name_unique_excluding(
    service: &mut CampaignStorageService,
    name: &str,
    exclude_id: &Id,
) -> (r: DmResult<()>)
    ensures
        exists|now: Timestamp, all: Seq<CampaignView>|
            final(service)@ == Some(#[trigger] loaded(old(service)@, now)) && #[trigger] lists(
                all,
                loaded(old(service)@, now).campaigns,
            ) && match r {
                Ok(_) => !name_taken(all, name@, Some(*exclude_id)),
                Err(e) => name_taken(all, name@, Some(*exclude_id)) && e@ == failure(
                    ErrorKind::ValidationError,
                    "Campaign name already exists"@,
                ),
            },
{
    let campaigns = service.get_all_campaigns();
    if is_name_taken(&campaigns, name, Some(*exclude_id)) {
        return Err(DmAssistantError::validation("Campaign name already exists"));
    }
    Ok(())
}

fn count_of(n: usize) -> (c: u32)
    ensures
        c == if n <= u32::MAX { n as int } else { u32::MAX as int },
{
    if n <= u32::MAX as usize {
        n as u32
    } else {
        u32::MAX
    }
}

/// The number of campaigns; a number too large for the result is given as
/// the largest that fits.
pub fn get_campaign_count(service: &mut CampaignStorageService) -> (r: DmResult<u32>)
    ensures
        r matches Ok(n) && exists|now: Timestamp|
            final(service)@ == Some(#[trigger] loaded(old(service)@, now)) && n == if loaded(
                old(service)@,
                now,
            ).campaigns.dom().len() <= u32::MAX {
                loaded(old(service)@, now).campaigns.dom().len() as int
            } else {
                u32::MAX as int
            },
{
    let campaigns = service.get_all_campaigns();
    proof {
        let now = choose|now: Timestamp|
            service@ == Some(#[trigger] loaded(old(service)@, now)) && lists(
                views_of(campaigns@),
                loaded(old(service)@, now).campaigns,
            );
        let map = loaded(old(service)@, now).campaigns;
        let keys = choose|keys: Seq<Id>|
            arranges(keys, views_of(campaigns@), map);
        keys.unique_seq_to_set();
    }
    Ok(count_of(campaigns.len()))
}

/// The number of active campaigns; a number too large for the result is
/// given as the largest that fits.
pub fn get_active_campaign_count(service: &mut CampaignStorageService) -> (r: DmResult<u32>)
    ensures
        r matches Ok(n) && exists|now: Timestamp|
            final(service)@ == Some(#[trigger] loaded(old(service)@, now)) && n == if active_campaigns(
                loaded(old(service)@, now).campaigns,
            ).dom().len() <= u32::MAX {
                active_campaigns(loaded(old(service)@, now).campaigns).dom().len() as int
            } else {
                u32::MAX as int
            },
{
    let campaigns = service.get_active_campaigns();
    proof {
        let now = choose|now: Timestamp|
            service@ == Some(#[trigger] loaded(old(service)@, now)) && lists(
                views_of(campaigns@),
                active_campaigns(loaded(old(service)@, now).campaigns),
            );
        let map = active_campaigns(loaded(old(service)@, now).campaigns);
        let keys = choose|keys: Seq<Id>|
            arranges(keys, views_of(campaigns@), map);
        keys.unique_seq_to_set();
    }
    Ok(count_of(campaigns.len()))
}

/// The whole numbers of the dashboard: how many campaigns there are, how
/// many of them are active and how many completed, and how many sessions
/// and characters they have between them. A number too large for its field
/// is given as the largest that fits.
#[derive(Clone, Copy, Debug, PartialEq, Eq, Structural)]
pub struct CampaignCounts {
    pub total_campaigns: u32,
    pub active_campaigns: u32,
    pub completed_campaigns: u32,
    pub total_sessions: u32,
    pub total_characters: u32,
}

/// A number as a field of the counts holds it.
pub open spec fn capped(n: int) -> int {
    if n <= u32::MAX {
        n
    } else {
        u32::MAX as int
    }
}

/// How many campaigns of the list are active.
pub open spec fn active_among(campaigns: Seq<CampaignView>) -> int
    decreases campaigns.len(),
{
    if campaigns.len() == 0 {
        0
    } else {
        active_among(campaigns.drop_last()) + if campaigns.last().is_active {
            1int
        } else {
            0int
        }
    }
}

/// How many campaigns of the list are completed.
pub open spec fn completed_among(campaigns: Seq<CampaignView>) -> int
    decreases campaigns.len(),
{
    if campaigns.len() == 0 {
        0
    } else {
        completed_among(campaigns.drop_last()) + if campaigns.last().campaign_info.campaign_status
            == CampaignStatus::Completed {
            1int
        } else {
            0int
        }
    }
}

/// The sessions of all campaigns of the list together.
pub open spec fn sessions_among(campaigns: Seq<CampaignView>) -> int
    decreases campaigns.len(),
{
    if campaigns.len() == 0 {
        0
    } else {
        sessions_among(campaigns.drop_last()) + campaigns.last().campaign_info.total_sessions
    }
}

/// The characters of all campaigns of the list together.
pub open spec fn characters_among(campaigns: Seq<CampaignView>) -> int
    decreases campaigns.len(),
{
    if campaigns.len() == 0 {
        0
    } else {
        characters_among(campaigns.drop_last()) + campaigns.last().campaign_info.total_characters
    }
}

fn add_capped(total: u32, more: u32) -> (sum: u32)
    ensures
        sum == capped(total + more),
{
    if total > u32::MAX - more {
        u32::MAX
    } else {
        total + more
    }
}

/// Counts the campaigns of a list for the dashboard.
pub fn count_campaigns(campaigns: &Vec<Campaign>) -> (counts: CampaignCounts)
    ensures
        counts.total_campaigns == capped(campaigns@.len() as int),
        counts.active_campaigns == capped(active_among(views_of(campaigns@))),
        counts.completed_campaigns == capped(completed_among(views_of(campaigns@))),
        counts.total_sessions == capped(sessions_among(views_of(campaigns@))),
        counts.total_characters == capped(characters_among(views_of(campaigns@))),
{
    let ghost all = views_of(campaigns@);
    let mut active: u32 = 0;
    let mut completed: u32 = 0;
    let mut sessions: u32 = 0;
    let mut characters: u32 = 0;
    let mut i: usize = 0;
    assert(all.take(0) =~= Seq::<CampaignView>::empty());
    while i < campaigns.len()
        invariant
            all == views_of(campaigns@),
            i <= campaigns.len(),
            active == capped(active_among(all.take(i as int))),
            completed == capped(completed_among(all.take(i as int))),
            sessions == capped(sessions_among(all.take(i as int))),
            characters == capped(characters_among(all.take(i as int))),
            active_among(all.take(i as int)) >= 0,
            completed_among(all.take(i as int)) >= 0,
            sessions_among(all.take(i as int)) >= 0,
            characters_among(all.take(i as int)) >= 0,
        decreases campaigns.len() - i,
    {
        proof {
            assert(all.take(i + 1).drop_last() =~= all.take(i as int));
            assert(all.take(i + 1).last() == campaigns@[i as int]@);
        }
        let c = &campaigns[i];
        if c.is_active {
            active = add_capped(active, 1);
        }
        if c.campaign_info.campaign_status == CampaignStatus::Completed {
            completed = add_capped(completed, 1);
        }
        sessions = add_capped(sessions, c.campaign_info.total_sessions);
        characters = add_capped(characters, c.campaign_info.total_characters);
        i += 1;
    }
    assert(all.take(i as int) =~= all);
    CampaignCounts {
        total_campaigns: count_of(campaigns.len()),
        active_campaigns: active,
        completed_campaigns: completed,
        total_sessions: sessions,
        total_characters: characters,
    }
}

/// Tells whether anything is stored yet.
pub fn campaigns_file_exists(service: &CampaignStorageService) -> (r: DmResult<bool>)
    ensures
        r matches Ok(b) && b == service@ is Some,
{
    Ok(service.campaigns_file_exists())
}

/// The words that report a successful start, with the name of the current
/// campaign or `None` in its place.
pub open spec fn initialized_text(current: Option<CampaignView>) -> Seq<char> {
    "App initialized successfully. Current campaign: "@ + match current {
        Some(c) => c.name,
        None => "None"@,
    }
}

/// Makes sure that a collection is stored and reports the current campaign.
pub fn initialize_app(service: &mut CampaignStorageService) -> (r: DmResult<String>)
    ensures
        r matches Ok(status) && exists|now: Timestamp|
            final(service)@ == Some(#[trigger] loaded(old(service)@, now)) && status@
                == initialized_text(loaded(old(service)@, now).current()),
        stored_wf(old(service)@) ==> stored_wf(final(service)@),
{
    service.initialize_app();
    let ghost first = choose|now: Timestamp| service@ == Some(#[trigger] loaded(old(service)@, now));
    let exists_now = service.campaigns_file_exists();
    let current = service.get_current_campaign();
    assert(service@ == Some(loaded(old(service)@, first)));
    let status = if exists_now {
        match current {
            Some(c) => concat2("App initialized successfully. Current campaign: ", c.name.as_str()),
            None => concat2("App initialized successfully. Current campaign: ", "None"),
        }
    } else {
        String::from_str("App initialized with default settings. No campaigns found.")
    };
    Ok(status)
}

/// The campaign that `campaign_id` names, or the error of its absence; the
/// error names the identifier as the caller wrote it.
pub fn get_campaign_or_error(service: &mut CampaignStorageService, campaign_id: &str) -> (r:
    DmResult<Campaign>)
    ensures
        match uuid_parse(campaign_id@) {
            None => view_of_result(r) == Err::<CampaignView, ErrorView>(invalid_campaign_id())
                && final(service)@ == old(service)@,
            Some(id) => exists|now: Timestamp|
                final(service)@ == Some(#[trigger] loaded(old(service)@, now)) && view_of_result(r)
                    == match loaded(old(service)@, now).campaign(id) {
                    Some(c) => Ok::<CampaignView, ErrorView>(c),
                    None => Err::<CampaignView, ErrorView>(
                        failure(
                            ErrorKind::NotFound,
                            not_found_text("Campaign"@, campaign_id@),
                        ),
                    ),
                },
        },
{
    let id = match validate_uuid(campaign_id, "Campaign") {
        Err(e) => {
            return Err(e);
        },
        Ok(id) => id,
    };
    match service.get_campaign(&id) {
        Some(c) => Ok(c),
        None => Err(DmAssistantError::not_found("Campaign", campaign_id)),
    }
}

/// Accepts a campaign whose status allows changes: planned, running or on hold.
pub fn validate_campaign_modifiable(campaign: &Campaign) -> (r: DmResult<()>)
    ensures
        match r {
            Ok(_) => campaign.campaign_info.campaign_status.modifiable(),
            Err(e) => !campaign.campaign_info.campaign_status.modifiable() && e@ == failure(
                ErrorKind::CampaignError,
                "Cannot modify campaign in current status. Only Planning, Active, and OnHold campaigns can be modified."@,
            ),
        },
{
    if !campaign.campaign_info.campaign_status.allows_modifications() {
        return Err(
            DmAssistantError::campaign(
                "Cannot modify campaign in current status. Only Planning, Active, and OnHold campaigns can be modified.",
            ),
        );
    }
    Ok(())
}

} // verus!
