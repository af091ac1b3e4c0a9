use crate::models::character::{
    patch_error, validate_update_request, AddAchievementRequest, CharacterMutation,
    CreateCharacterRequest, PlayerCharacter, PlayerCharacterView, UpdateCharacterRequest,
    UpdateRelationshipRequest,
};
use crate::services::character_storage::{
    active_characters, loaded, opened, stored_wf, CharacterStorageService, StoredCharacters,
};
use crate::services::keyed::lists;
use crate::utils::clock::Timestamp;
use crate::utils::error::{
    failure, invalid_id_text, validate_uuid, DmAssistantError, DmResult, ErrorKind, ErrorView,
};
use crate::utils::id_generator::{is_v4, uuid_parse, uuid_text, Id};
use crate::utils::views::{view_of_option, view_of_result, views_of};
use vstd::prelude::*;

verus! {

/// The error of an identifier of the given kind of thing that cannot be read.
pub open spec fn invalid_id(entity: Seq<char>) -> ErrorView {
    failure(ErrorKind::InvalidInput, invalid_id_text(entity))
}

/// The first of two identifiers that cannot be read, as an error; the
/// campaign is read before the character.
pub open spec fn ids_error(campaign_id: Seq<char>, character_id: Seq<char>) -> Option<ErrorView> {
    if uuid_parse(campaign_id) is None {
        Some(invalid_id("Campaign"@))
    } else if uuid_parse(character_id) is None {
        Some(invalid_id("Character"@))
    } else {
        None
    }
}

/// `after` and `outcome` are what a change to the character that the two
/// texts name makes of `before`: an identifier that cannot be read is
/// refused before the store is touched; else the change runs as a
/// transaction of the store.
pub open spec fn modifies(
    before: StoredCharacters,
    campaign_id: Seq<char>,
    character_id: Seq<char>,
    mutation: CharacterMutation,
    after: StoredCharacters,
    outcome: Result<PlayerCharacterView, ErrorView>,
) -> bool {
    match ids_error(campaign_id, character_id) {
        Some(e) => outcome == Err::<PlayerCharacterView, ErrorView>(e) && after == before,
        None => CharacterStorageService::modifies(
            before,
            uuid_parse(campaign_id)->0,
            uuid_parse(character_id)->0,
            mutation,
            after,
            outcome,
        ),
    }
}

/// `after` and `outcome` are what a change to the character `character_id`
/// of the campaign that `campaign_id` names makes of `before`.
pub open spec fn modifies_known(
    before: StoredCharacters,
    campaign_id: Seq<char>,
    character_id: Id,
    mutation: CharacterMutation,
    after: StoredCharacters,
    outcome: Result<PlayerCharacterView, ErrorView>,
) -> bool {
    match uuid_parse(campaign_id) {
        None => outcome == Err::<PlayerCharacterView, ErrorView>(invalid_id("Campaign"@)) && after
            == before,
        Some(campaign) => CharacterStorageService::modifies(
            before,
            campaign,
            character_id,
            mutation,
            after,
            outcome,
        ),
    }
}

/// Reads the identifier of a campaign and that of a character, the campaign
/// first.
pub fn validate_ids(campaign_id: &str, character_id: &str) -> (r: DmResult<(Id, Id)>)
    ensures
        match r {
            Ok(ids) => ids_error(campaign_id@, character_id@) is None && uuid_parse(campaign_id@)
                == Some(ids.0) && uuid_parse(character_id@) == Some(ids.1),
            Err(e) => ids_error(campaign_id@, character_id@) == Some(e@),
        },
{
    let campaign = match validate_uuid(campaign_id, "Campaign") {
        Err(e) => {
            return Err(e);
        },
        Ok(id) => id,
    };
    let character = match validate_uuid(character_id, "Character") {
        Err(e) => {
            return Err(e);
        },
        Ok(id) => id,
    };
    Ok((campaign, character))
}

fn change(
    service: &mut CharacterStorageService,
    campaign_id: &str,
    character_id: &str,
    mutation: CharacterMutation,
) -> (r: DmResult<PlayerCharacter>)
    ensures
        modifies(
            old(service)@,
            campaign_id@,
            character_id@,
            mutation,
            final(service)@,
            view_of_result(r),
        ),
        stored_wf(old(service)@) ==> stored_wf(final(service)@),
{
    match validate_ids(campaign_id, character_id) {
        Err(e) => Err(e),
        Ok(ids) => service.modify_character(&ids.0, &ids.1, mutation),
    }
}

/// Creates a character from a request and stores it in the collection of
/// its campaign. This always succeeds: the character gets a new random
/// identifier, or another one that no character of the campaign has where
/// that one is taken.
pub fn create_character(service: &mut CharacterStorageService, req: CreateCharacterRequest) -> (r:
    DmResult<PlayerCharacter>)
    ensures
        r matches Ok(stored) && exists|id: Id, made: Timestamp, now: Timestamp|
            is_v4(id) && #[trigger] CharacterStorageService::stores_new(
                old(service)@,
                PlayerCharacterView::created(req, id, made),
                now,
                final(service)@,
                stored@,
            ),
        stored_wf(old(service)@) ==> stored_wf(final(service)@),
{
    // The canonical text of an identifier always reads back, so this check
    // cannot fail; it stands for the boundary check that every command makes.
    let campaign_id = uuid_text(req.campaign_id);
    let read = validate_uuid(campaign_id.as_str(), "Campaign");
    assert(read is Ok);
    if let Err(e) = read {
        return Err(e);
    }
    let character = PlayerCharacter::new(req);
    let ghost wanted = character@;
    let stored = service.create_new(character);
    proof {
        let now = choose|now: Timestamp| #[trigger]
            CharacterStorageService::stores_new(old(service)@, wanted, now, final(service)@, stored@);
        assert(CharacterStorageService::stores_new(
            old(service)@,
            PlayerCharacterView::created(req, wanted.id, wanted.created_at),
            now,
            final(service)@,
            stored@,
        ));
    }
    let r = Ok(stored);
    assert(is_v4(wanted.id));
    assert(r matches Ok(x) && x@ == stored@);
    r
}

/// Looking a character up takes the campaign too: the call reads the
/// identifier and then always fails with an internal error.
pub fn get_character(character_id: String) -> (r: DmResult<Option<PlayerCharacter>>)
    ensures
        r matches Err(e) && e@ == match uuid_parse(character_id@) {
            None => invalid_id("Character"@),
            Some(_) => failure(
                ErrorKind::InternalError,
                "get_character requires campaign context - use get_character_with_campaign instead"@,
            ),
        },
{
    if let Err(e) = validate_uuid(character_id.as_str(), "Character") {
        return Err(e);
    }
    Err(
        DmAssistantError::internal(
            "get_character requires campaign context - use get_character_with_campaign instead",
        ),
    )
}

/// The character of the campaign, if there is one.
pub fn get_character_with_campaign(
    service: &mut CharacterStorageService,
    campaign_id: String,
    character_id: String,
) -> (r: DmResult<Option<PlayerCharacter>>)
    ensures
        match ids_error(campaign_id@, character_id@) {
            Some(e) => r matches Err(x) && x@ == e && final(service)@ == old(service)@,
            None => r matches Ok(found) && exists|now: Timestamp|
                final(service)@ == #[trigger] opened(
                    old(service)@,
                    uuid_parse(campaign_id@)->0,
                    now,
                ) && view_of_option(found) == loaded(
                    old(service)@,
                    uuid_parse(campaign_id@)->0,
                    now,
                ).character(uuid_parse(character_id@)->0),
        },
{
    match validate_ids(campaign_id.as_str(), character_id.as_str()) {
        Err(e) => Err(e),
        Ok(ids) => {
            assert(uuid_parse(campaign_id@)->0 == ids.0 && uuid_parse(character_id@)->0 == ids.1);
            Ok(service.get_character(&ids.0, &ids.1))
        },
    }
}

/// Every character of the campaign, in no particular order.
pub fn get_characters_by_campaign(service: &mut CharacterStorageService, campaign_id: String) -> (r:
    DmResult<Vec<PlayerCharacter>>)
    ensures
        match uuid_parse(campaign_id@) {
            None => r matches Err(e) && e@ == invalid_id("Campaign"@) && final(service)@ == old(service)@,
            Some(id) => r matches Ok(all) && exists|now: Timestamp|
                final(service)@ == #[trigger] opened(old(service)@, id, now) && lists(
                    views_of(all@),
                    loaded(old(service)@, id, now).characters,
                ),
        },
{
    match validate_uuid(campaign_id.as_str(), "Campaign") {
        Err(e) => Err(e),
        Ok(id) => Ok(service.get_characters_by_campaign(&id)),
    }
}

/// The active characters of the campaign, in no particular order.
pub fn get_active_characters_by_campaign(
    service: &mut CharacterStorageService,
    campaign_id: String,
) -> (r: DmResult<Vec<PlayerCharacter>>)
    ensures
        match uuid_parse(campaign_id@) {
            None => r matches Err(e) && e@ == invalid_id("Campaign"@) && final(service)@ == old(service)@,
            Some(id) => r matches Ok(active) && exists|now: Timestamp|
                final(service)@ == #[trigger] opened(old(service)@, id, now) && lists(
                    views_of(active@),
                    active_characters(loaded(old(service)@, id, now).characters),
                ),
        },
{
    match validate_uuid(campaign_id.as_str(), "Campaign") {
        Err(e) => Err(e),
        Ok(id) => Ok(service.get_active_characters_by_campaign(&id)),
    }
}

/// Patching a character takes the campaign too: the call reads the
/// identifier and then always fails with an internal error.
pub fn update_character(character_id: String, req: UpdateCharacterRequest) -> (r: DmResult<
    PlayerCharacter,
>)
    ensures
        r matches Err(e) && e@ == match uuid_parse(character_id@) {
            None => invalid_id("Character"@),
            Some(_) => failure(
                ErrorKind::InternalError,
                "update_character requires campaign context - use update_character_with_campaign instead"@,
            ),
        },
{
    if let Err(e) = validate_uuid(character_id.as_str(), "Character") {
        return Err(e);
    }
    Err(
        DmAssistantError::internal(
            "update_character requires campaign context - use update_character_with_campaign instead",
        ),
    )
}

/// Why a request to patch a character is refused before the store is
/// touched, if it is: the two identifiers are read first, then the patch is
/// checked.
pub open spec fn update_request_error(
    campaign_id: Seq<char>,
    character_id: Seq<char>,
    req: UpdateCharacterRequest,
) -> Option<ErrorView> {
    match ids_error(campaign_id, character_id) {
        Some(e) => Some(e),
        None => patch_error(req),
    }
}

/// Reads the two identifiers and checks the patch, without a look at the store.
pub fn check_update_character(campaign_id: &str, character_id: &str, req: &UpdateCharacterRequest) -> (r:
    DmResult<(Id, Id)>)
    ensures
        match r {
            Ok(ids) => update_request_error(campaign_id@, character_id@, *req) is None
                && uuid_parse(campaign_id@) == Some(ids.0) && uuid_parse(character_id@) == Some(
                ids.1,
            ),
            Err(e) => update_request_error(campaign_id@, character_id@, *req) == Some(e@),
        },
{
    let ids = match validate_ids(campaign_id, character_id) {
        Err(e) => {
            return Err(e);
        },
        Ok(ids) => ids,
    };
    if let Err(e) = validate_update_request(req) {
        return Err(e);
    }
    Ok(ids)
}

/// Patches a character of the campaign. The identifiers are read and the
/// patch is checked before the store is touched: a patch with a blank name,
/// a level outside 1 to 20 or a maximum of hit points of zero is refused as
/// a whole, and nothing of it is written.
pub fn update_character_with_campaign(
    service: &mut CharacterStorageService,
    campaign_id: String,
    character_id: String,
    req: UpdateCharacterRequest,
) -> (r: DmResult<PlayerCharacter>)
    ensures
        match update_request_error(campaign_id@, character_id@, req) {
            Some(e) => view_of_result(r) == Err::<PlayerCharacterView, ErrorView>(e) && final(service)@
                == old(service)@,
            None => modifies(
                old(service)@,
                campaign_id@,
                character_id@,
                CharacterMutation::Update(req),
                final(service)@,
                view_of_result(r),
            ),
        },
        stored_wf(old(service)@) ==> stored_wf(final(service)@),
{
    let ids = match check_update_character(campaign_id.as_str(), character_id.as_str(), &req) {
        Err(e) => {
            return Err(e);
        },
        Ok(ids) => ids,
    };
    service.modify_character(&ids.0, &ids.1, CharacterMutation::Update(req))
}

/// Deletes a character of the campaign; see
/// `CharacterStorageService::delete_character`.
pub fn delete_character(
    service: &mut CharacterStorageService,
    campaign_id: String,
    character_id: String,
) -> (r: DmResult<bool>)
    ensures
        match ids_error(campaign_id@, character_id@) {
            Some(e) => r matches Err(x) && x@ == e && final(service)@ == old(service)@,
            None => exists|now: Timestamp| #[trigger]
                CharacterStorageService::delete_outcome(
                    old(service)@,
                    uuid_parse(campaign_id@)->0,
                    uuid_parse(character_id@)->0,
                    now,
                ) == (
                    final(service)@,
                    match r {
                        Ok(b) => Ok::<bool, ErrorView>(b),
                        Err(e) => Err::<bool, ErrorView>(e@),
                    },
                ),
        },
        stored_wf(old(service)@) ==> stored_wf(final(service)@),
{
    match validate_ids(campaign_id.as_str(), character_id.as_str()) {
        Err(e) => Err(e),
        Ok(ids) => {
            assert(uuid_parse(campaign_id@)->0 == ids.0 && uuid_parse(character_id@)->0 == ids.1);
            service.delete_character(&ids.0, &ids.1)
        },
    }
}

/// Appends an achievement to the character that the request names.
pub fn add_character_achievement(
    service: &mut CharacterStorageService,
    campaign_id: String,
    req: AddAchievementRequest,
) -> (r: DmResult<PlayerCharacter>)
    ensures
        modifies_known(
            old(service)@,
            campaign_id@,
            req.character_id,
            CharacterMutation::AddAchievement(req),
            final(service)@,
            view_of_result(r),
        ),
        stored_wf(old(service)@) ==> stored_wf(final(service)@),
{
    let campaign = match validate_uuid(campaign_id.as_str(), "Campaign") {
        Err(e) => {
            return Err(e);
        },
        Ok(id) => id,
    };
    let character_id = req.character_id;
    service.modify_character(&campaign, &character_id, CharacterMutation::AddAchievement(req))
}

/// The first of three identifiers that cannot be read, as an error.
pub open spec fn three_ids_error(
    campaign_id: Seq<char>,
    character_id: Seq<char>,
    third: Seq<char>,
    third_entity: Seq<char>,
) -> Option<ErrorView> {
    match ids_error(campaign_id, character_id) {
        Some(e) => Some(e),
        None => if uuid_parse(third) is None {
            Some(invalid_id(third_entity))
        } else {
            None
        },
    }
}

/// Reads the identifiers of a campaign, of a character and of a third thing
/// of the kind `third_entity`, in that order.
pub fn validate_three_ids(campaign_id: &str, character_id: &str, third: &str, third_entity: &str) -> (r:
    DmResult<(Id, Id, Id)>)
    ensures
        match r {
            Ok(ids) => three_ids_error(campaign_id@, character_id@, third@, third_entity@) is None
                && uuid_parse(campaign_id@) == Some(ids.0) && uuid_parse(character_id@) == Some(
                ids.1,
            ) && uuid_parse(third@) == Some(ids.2),
            Err(e) => three_ids_error(campaign_id@, character_id@, third@, third_entity@) == Some(
                e@,
            ),
        },
{
    let ids = match validate_ids(campaign_id, character_id) {
        Err(e) => {
            return Err(e);
        },
        Ok(ids) => ids,
    };
    match validate_uuid(third, third_entity) {
        Err(e) => Err(e),
        Ok(id) => Ok((ids.0, ids.1, id)),
    }
}

/// Removes an achievement of a character; fails with `NotFound` where the
/// character has no achievement under the identifier.
pub fn remove_character_achievement(
    service: &mut CharacterStorageService,
    campaign_id: String,
    character_id: String,
    achievement_id: String,
) -> (r: DmResult<PlayerCharacter>)
    ensures
        match three_ids_error(campaign_id@, character_id@, achievement_id@, "Achievement"@) {
            Some(e) => view_of_result(r) == Err::<PlayerCharacterView, ErrorView>(e) && final(service)@ == old(service)@,
            None => CharacterStorageService::modifies(
                old(service)@,
                uuid_parse(campaign_id@)->0,
                uuid_parse(character_id@)->0,
                CharacterMutation::RemoveAchievement {
                    achievement_id: uuid_parse(achievement_id@)->0,
                    given: achievement_id,
                },
                final(service)@,
                view_of_result(r),
            ),
        },
        stored_wf(old(service)@) ==> stored_wf(final(service)@),
{
    let ids = match validate_three_ids(
        campaign_id.as_str(),
        character_id.as_str(),
        achievement_id.as_str(),
        "Achievement",
    ) {
        Err(e) => {
            return Err(e);
        },
        Ok(ids) => ids,
    };
    service.modify_character(
        &ids.0,
        &ids.1,
        CharacterMutation::RemoveAchievement { achievement_id: ids.2, given: achievement_id },
    )
}

/// Sets the relationship of the character that the request names with an NPC.
pub fn update_character_relationship(
    service: &mut CharacterStorageService,
    campaign_id: String,
    req: UpdateRelationshipRequest,
) -> (r: DmResult<PlayerCharacter>)
    ensures
        modifies_known(
            old(service)@,
            campaign_id@,
            req.character_id,
            CharacterMutation::UpdateRelationship(req),
            final(service)@,
            view_of_result(r),
        ),
        stored_wf(old(service)@) ==> stored_wf(final(service)@),
{
    let campaign = match validate_uuid(campaign_id.as_str(), "Campaign") {
        Err(e) => {
            return Err(e);
        },
        Ok(id) => id,
    };
    let character_id = req.character_id;
    service.modify_character(&campaign, &character_id, CharacterMutation::UpdateRelationship(req))
}

/// Removes the relationship of a character with an NPC; fails with
/// `NotFound` where the character has none with that NPC.
pub fn remove_character_relationship(
    service: &mut CharacterStorageService,
    campaign_id: String,
    character_id: String,
    npc_id: String,
) -> (r: DmResult<PlayerCharacter>)
    ensures
        match three_ids_error(campaign_id@, character_id@, npc_id@, "NPC"@) {
            Some(e) => view_of_result(r) == Err::<PlayerCharacterView, ErrorView>(e) && final(service)@ == old(service)@,
            None => CharacterStorageService::modifies(
                old(service)@,
                uuid_parse(campaign_id@)->0,
                uuid_parse(character_id@)->0,
                CharacterMutation::RemoveRelationship {
                    npc_id: uuid_parse(npc_id@)->0,
                    character_given: character_id,
                    npc_given: npc_id,
                },
                final(service)@,
                view_of_result(r),
            ),
        },
        stored_wf(old(service)@) ==> stored_wf(final(service)@),
{
    let ids = match validate_three_ids(
        campaign_id.as_str(),
        character_id.as_str(),
        npc_id.as_str(),
        "NPC",
    ) {
        Err(e) => {
            return Err(e);
        },
        Ok(ids) => ids,
    };
    service.modify_character(
        &ids.0,
        &ids.1,
        CharacterMutation::RemoveRelationship {
            npc_id: ids.2,
            character_given: character_id,
            npc_given: npc_id,
        },
    )
}

/// The characters that have a relationship with the NPC: not provided, see
/// `CharacterStorageService::get_characters_by_npc_relationship`.
pub fn get_characters_by_npc_relationship(service: &CharacterStorageService, npc_id: String) -> (r:
    DmResult<Vec<PlayerCharacter>>)
    ensures
        r matches Err(e) && e@ == match uuid_parse(npc_id@) {
            None => invalid_id("NPC"@),
            Some(_) => failure(
                ErrorKind::InternalError,
                "Cross-campaign NPC relationship search not implemented yet"@,
            ),
        },
{
    match validate_uuid(npc_id.as_str(), "NPC") {
        Err(e) => Err(e),
        Ok(id) => service.get_characters_by_npc_relationship(&id),
    }
}

/// Raises the level of a character by one; a character at level 20 cannot
/// rise.
pub fn level_up_character(
    service: &mut CharacterStorageService,
    campaign_id: String,
    character_id: String,
) -> (r: DmResult<PlayerCharacter>)
    ensures
        modifies(
            old(service)@,
            campaign_id@,
            character_id@,
            CharacterMutation::LevelUp,
            final(service)@,
            view_of_result(r),
        ),
        stored_wf(old(service)@) ==> stored_wf(final(service)@),
{
    change(service, campaign_id.as_str(), character_id.as_str(), CharacterMutation::LevelUp)
}

/// Switches a character between active and inactive.
pub fn toggle_character_active(
    service: &mut CharacterStorageService,
    campaign_id: String,
    character_id: String,
) -> (r: DmResult<PlayerCharacter>)
    ensures
        modifies(
            old(service)@,
            campaign_id@,
            character_id@,
            CharacterMutation::ToggleActive,
            final(service)@,
            view_of_result(r),
        ),
        stored_wf(old(service)@) ==> stored_wf(final(service)@),
{
    change(service, campaign_id.as_str(), character_id.as_str(), CharacterMutation::ToggleActive)
}

/// Every character of the campaign, as the file holds them.
pub fn load_characters_from_file(service: &mut CharacterStorageService, campaign_id: String) -> (r:
    DmResult<Vec<PlayerCharacter>>)
    ensures
        match uuid_parse(campaign_id@) {
            None => r matches Err(e) && e@ == invalid_id("Campaign"@) && final(service)@ == old(service)@,
            Some(id) => r matches Ok(all) && exists|now: Timestamp|
                final(service)@ == #[trigger] opened(old(service)@, id, now) && lists(
                    views_of(all@),
                    loaded(old(service)@, id, now).characters,
                ),
        },
{
    get_characters_by_campaign(service, campaign_id)
}

/// Tells whether the campaign has a file of characters.
pub fn characters_file_exists(service: &CharacterStorageService, campaign_id: String) -> (r:
    DmResult<bool>)
    ensures
        match uuid_parse(campaign_id@) {
            None => r matches Err(e) && e@ == invalid_id("Campaign"@),
            Some(id) => r matches Ok(b) && b == service@.contains_key(id),
        },
{
    match validate_uuid(campaign_id.as_str(), "Campaign") {
        Err(e) => Err(e),
        Ok(id) => Ok(service.characters_file_exists(&id)),
    }
}

} // verus!
