use crate::models::campaign::{
    lemma_change_keeps_identity, lemma_without_id, remove_id, without_id, AppSettings,
    AppSettingsView, AverageLevel, Campaign, CampaignMutation, CampaignStatus, CampaignSummary,
    CampaignSummaryView, CampaignView, SettingsMutation,
};
use crate::utils::id_generator::{generate_id, is_v4};
use crate::utils::sorting::{is_sorted_arrangement, sorted_order, SortKey};
use crate::utils::text::concat3;
use crate::services::keyed::{arranges, enumerates, keys_of, lists, unused_key, views_by_key};
use crate::utils::clock::Timestamp;
use crate::utils::error::{
    failure, not_found_text, DmAssistantError, DmResult, ErrorKind, ErrorView,
};
use crate::utils::id_generator::{hyphenated, uuid_text, Id};
use crate::utils::views::{view_of_option, view_of_result, view_of_unit_result, views_of};
use std::collections::HashMap;
use vstd::prelude::*;

verus! {

broadcast use vstd::std_specs::hash::group_hash_axioms;

/// Every campaign of the application under its identifier, and the app settings.
pub struct CampaignCollection {
    pub campaigns: HashMap<Id, Campaign>,
    pub app_settings: AppSettings,
    pub created_at: Timestamp,
    pub updated_at: Timestamp,
}

/// A campaign collection as contracts see it.
pub struct CampaignCollectionView {
    pub campaigns: Map<Id, CampaignView>,
    pub app_settings: AppSettingsView,
    pub created_at: Timestamp,
    pub updated_at: Timestamp,
}

impl View for CampaignCollection {
    type V = CampaignCollectionView;

    open spec fn view(&self) -> CampaignCollectionView {
        CampaignCollectionView {
            campaigns: views_by_key(self.campaigns@),
            app_settings: self.app_settings@,
            created_at: self.created_at,
            updated_at: self.updated_at,
        }
    }
}

/// The campaigns of a map that are active.
pub open spec fn active_campaigns(campaigns: Map<Id, CampaignView>) -> Map<Id, CampaignView> {
    Map::new(|id: Id| campaigns.contains_key(id) && campaigns[id].is_active, |id: Id| campaigns[id])
}

/// The summaries of the campaigns of a map.
pub open spec fn campaign_summaries(campaigns: Map<Id, CampaignView>) -> Map<
    Id,
    CampaignSummaryView,
> {
    Map::new(|id: Id| campaigns.contains_key(id), |id: Id| campaigns[id].summary())
}

/// The campaigns that the identifiers of `ids` name, in that order; an
/// identifier that names no campaign is passed over.
pub open spec fn campaigns_named(ids: Seq<Id>, campaigns: Map<Id, CampaignView>) -> Seq<
    CampaignView,
>
    decreases ids.len(),
{
    if ids.len() == 0 {
        Seq::empty()
    } else {
        let front = campaigns_named(ids.drop_last(), campaigns);
        if campaigns.contains_key(ids.last()) {
            front.push(campaigns[ids.last()])
        } else {
            front
        }
    }
}

impl CampaignCollectionView {
    /// The collection of a fresh installation, made at the time `now`.
    pub open spec fn empty(now: Timestamp) -> Self {
        CampaignCollectionView {
            campaigns: Map::empty(),
            app_settings: AppSettingsView::initial(now),
            created_at: now,
            updated_at: now,
        }
    }

    /// Every campaign stands under its own identifier and was last changed
    /// no earlier than it was created; the settings name no campaign twice
    /// among the recent ones, at most five of them, and only campaigns of
    /// the collection, as current or as recent.
    pub open spec fn wf(self) -> bool {
        &&& forall|id: Id|
            self.campaigns.contains_key(id) ==> (#[trigger] self.campaigns[id]).id == id
                && self.campaigns[id].ordered()
        &&& self.app_settings.wf()
        &&& self.app_settings.current_campaign_id matches Some(id) ==> self.campaigns.contains_key(id)
        &&& forall|i: int|
            0 <= i < self.app_settings.recent_campaigns.len() ==> self.campaigns.contains_key(
                #[trigger] self.app_settings.recent_campaigns[i],
            )
    }

    /// The collection with `campaign` under its identifier, in place of what
    /// stood there.
    pub open spec fn added(self, campaign: CampaignView, now: Timestamp) -> Self {
        CampaignCollectionView {
            campaigns: self.campaigns.insert(campaign.id, campaign),
            updated_at: now,
            ..self
        }
    }

    /// The collection with `campaign` in place of the campaign of the same
    /// identifier; a collection without such a campaign stays as it is.
    pub open spec fn replaced(self, campaign: CampaignView, now: Timestamp) -> Self {
        if self.campaigns.contains_key(campaign.id) {
            self.added(campaign, now)
        } else {
            self
        }
    }

    /// The collection without the campaign `id`, which the settings forget
    /// too; a collection without such a campaign stays as it is.
    pub open spec fn removed(self, id: Id, now: Timestamp) -> Self {
        if self.campaigns.contains_key(id) {
            CampaignCollectionView {
                campaigns: self.campaigns.remove(id),
                app_settings: self.app_settings.forgetting(id, now),
                updated_at: now,
                ..self
            }
        } else {
            self
        }
    }

    /// The collection once the campaign `id` became the current one.
    pub open spec fn with_current(self, id: Id, now: Timestamp) -> Self {
        CampaignCollectionView {
            app_settings: self.app_settings.with_current(id, now),
            updated_at: now,
            ..self
        }
    }

    /// The campaign under `id`, if there is one.
    pub open spec fn campaign(self, id: Id) -> Option<CampaignView> {
        if self.campaigns.contains_key(id) {
            Some(self.campaigns[id])
        } else {
            None
        }
    }

    /// The current campaign, if one is set and exists.
    pub open spec fn current(self) -> Option<CampaignView> {
        match self.app_settings.current_campaign_id {
            Some(id) => self.campaign(id),
            None => None,
        }
    }

    /// The campaigns used last, the most recent first.
    pub open spec fn recent(self) -> Seq<CampaignView> {
        campaigns_named(self.app_settings.recent_campaigns, self.campaigns)
    }
}

/// The message of a lookup of a campaign that failed.
pub open spec fn campaign_not_found(id: Id) -> ErrorView {
    failure(ErrorKind::NotFound, not_found_text("Campaign"@, hyphenated(id)))
}

impl Clone for CampaignCollection {
    fn clone(&self) -> (r: Self)
        ensures
            r@ == self@,
    {
        let r = CampaignCollection {
            campaigns: self.campaigns.clone(),
            app_settings: self.app_settings.clone(),
            created_at: self.created_at,
            updated_at: self.updated_at,
        };
        assert(r@.campaigns =~= self@.campaigns);
        r
    }
}

impl CampaignCollection {
    /// An empty collection with the settings of a fresh installation, made at
    /// the present time.
    pub fn new() -> (c: Self)
        ensures
            c@ == CampaignCollectionView::empty(c.created_at),
            c@.wf(),
    {
        let now = Timestamp::now();
        CampaignCollection::new_at(now)
    }

    /// An empty collection with the settings of a fresh installation, made at
    /// the time `now`.
    pub fn new_at(now: Timestamp) -> (c: Self)
        ensures
            c@ == CampaignCollectionView::empty(now),
            c@.wf(),
    {
        let c = CampaignCollection {
            campaigns: HashMap::new(),
            app_settings: AppSettings::new_at(now),
            created_at: now,
            updated_at: now,
        };
        assert(c@.campaigns =~= Map::<Id, CampaignView>::empty());
        c
    }

    /// Puts `campaign` under its identifier at the present time, in place of
    /// what stood there.
    pub fn add_campaign(&mut self, campaign: Campaign)
        ensures
            final(self)@ == old(self)@.added(campaign@, final(self).updated_at),
            old(self)@.wf() && campaign@.ordered() ==> final(self)@.wf(),
    {
        let now = Timestamp::now();
        self.add_campaign_at(campaign, now);
    }

    /// Puts `campaign` under its identifier at the time `now`, in place of
    /// what stood there.
    pub fn add_campaign_at(&mut self, campaign: Campaign, now: Timestamp)
        ensures
            final(self)@ == old(self)@.added(campaign@, now),
            old(self)@.wf() && campaign@.ordered() ==> final(self)@.wf(),
    {
        self.campaigns.insert(campaign.id, campaign);
        self.updated_at = now;
        assert(final(self)@.campaigns =~= old(self)@.campaigns.insert(campaign.id, campaign@));
    }

    /// Replaces the campaign of the same identifier at the present time, and
    /// tells whether there was one.
    pub fn update_campaign(&mut self, campaign: Campaign) -> (replaced: bool)
        ensures
            replaced == old(self)@.campaigns.contains_key(campaign.id),
            final(self)@ == old(self)@.replaced(campaign@, final(self).updated_at),
            old(self)@.wf() && campaign@.ordered() ==> final(self)@.wf(),
    {
        let now = Timestamp::now();
        self.update_campaign_at(campaign, now)
    }

    /// Replaces the campaign of the same identifier at the time `now`, and
    /// tells whether there was one.
    pub fn update_campaign_at(&mut self, campaign: Campaign, now: Timestamp) -> (replaced: bool)
        ensures
            replaced == old(self)@.campaigns.contains_key(campaign.id),
            final(self)@ == old(self)@.replaced(campaign@, now),
            old(self)@.wf() && campaign@.ordered() ==> final(self)@.wf(),
    {
        if self.campaigns.contains_key(&campaign.id) {
            self.add_campaign_at(campaign, now);
            true
        } else {
            false
        }
    }

    /// Removes the campaign `campaign_id` at the present time, and tells
    /// whether there was one.
    pub fn remove_campaign(&mut self, campaign_id: &Id) -> (removed: bool)
        ensures
            removed == old(self)@.campaigns.contains_key(*campaign_id),
            final(self)@ == old(self)@.removed(*campaign_id, final(self).updated_at),
            old(self)@.wf() ==> final(self)@.wf(),
    {
        let now = Timestamp::now();
        self.remove_campaign_at(campaign_id, now)
    }

    /// Removes the campaign `campaign_id` at the time `now`, and tells whether
    /// there was one. The settings no longer name it, as current or as recent.
    pub fn remove_campaign_at(&mut self, campaign_id: &Id, now: Timestamp) -> (removed: bool)
        ensures
            removed == old(self)@.campaigns.contains_key(*campaign_id),
            final(self)@ == old(self)@.removed(*campaign_id, now),
            old(self)@.wf() ==> final(self)@.wf(),
    {
        if self.campaigns.remove(campaign_id).is_some() {
            if self.app_settings.current_campaign_id == Some(*campaign_id) {
                self.app_settings.clear_current_campaign_at(now);
            }
            self.app_settings.recent_campaigns = remove_id(
                &self.app_settings.recent_campaigns,
                *campaign_id,
            );
            self.updated_at = now;
            proof {
                assert(final(self)@.campaigns =~= old(self)@.campaigns.remove(*campaign_id));
                lemma_without_id(old(self)@.app_settings.recent_campaigns, *campaign_id);
                if old(self)@.wf() {
                    let kept = final(self)@.app_settings.recent_campaigns;
                    let left = final(self)@.campaigns;
                    assert forall|i: int| 0 <= i < kept.len() implies left.contains_key(
                        #[trigger] kept[i],
                    ) by {
                        assert(kept.contains(kept[i]));
                        assert(old(self)@.app_settings.recent_campaigns.contains(kept[i]));
                    }
                }
            }
            true
        } else {
            assert(final(self)@.campaigns =~= old(self)@.campaigns);
            false
        }
    }

    /// The campaign under `campaign_id`, if there is one.
    pub fn get_campaign(&self, campaign_id: &Id) -> (found: Option<&Campaign>)
        ensures
            view_of_option(found) == self@.campaign(*campaign_id),
    {
        self.campaigns.get(campaign_id)
    }

    /// Every campaign, in no particular order.
    pub fn get_all_campaigns(&self) -> (all: Vec<&Campaign>)
        ensures
            lists(views_of(all@), self@.campaigns),
    {
        let keys = keys_of(&self.campaigns);
        let mut all: Vec<&Campaign> = Vec::new();
        let mut i: usize = 0;
        while i < keys.len()
            invariant
                enumerates(keys@, self.campaigns@),
                i <= keys.len(),
                all@.len() == i,
                forall|j: int| 0 <= j < i ==> (#[trigger] all@[j])@ == self@.campaigns[keys@[j]],
            decreases keys.len() - i,
        {
            assert(keys@.to_set().contains(keys@[i as int]));
            match self.campaigns.get(&keys[i]) {
                Some(c) => {
                    all.push(c);
                },
                None => {},
            }
            i += 1;
        }
        proof {
            assert(self@.campaigns.dom() =~= self.campaigns@.dom());
            assert(arranges(keys@, views_of(all@), self@.campaigns));
        }
        all
    }

    /// The active campaigns, in no particular order.
    pub fn get_active_campaigns(&self) -> (active: Vec<&Campaign>)
        ensures
            lists(views_of(active@), active_campaigns(self@.campaigns)),
    {
        let keys = keys_of(&self.campaigns);
        let mut active: Vec<&Campaign> = Vec::new();
        let ghost mut chosen: Seq<Id> = Seq::empty();
        let ghost mut source: Seq<int> = Seq::empty();
        let mut i: usize = 0;
        while i < keys.len()
            invariant
                enumerates(keys@, self.campaigns@),
                i <= keys.len(),
                active@.len() == chosen.len(),
                source.len() == chosen.len(),
                forall|j: int| 0 <= j < chosen.len() ==> 0 <= (#[trigger] source[j]) < i,
                forall|j: int| 0 <= j < chosen.len() ==> (#[trigger] chosen[j]) == keys@[source[j]],
                forall|j: int|
                    0 <= j < chosen.len() ==> self@.campaigns[#[trigger] chosen[j]].is_active,
                forall|a: int, b: int|
                    0 <= a < b < source.len() ==> (#[trigger] source[a]) < (#[trigger] source[b]),
                forall|j: int| 0 <= j < chosen.len() ==> (#[trigger] active@[j])@ == self@.campaigns[chosen[j]],
                forall|k: int|
                    0 <= k < i && self@.campaigns[#[trigger] keys@[k]].is_active ==> chosen.contains(
                        keys@[k],
                    ),
            decreases keys.len() - i,
        {
            assert(keys@.to_set().contains(keys@[i as int]));
            match self.campaigns.get(&keys[i]) {
                Some(c) => {
                    assert(c@ == self@.campaigns[keys@[i as int]]);
                    if c.is_active {
                        active.push(c);
                        proof {
                            let before = chosen;
                            chosen = chosen.push(keys@[i as int]);
                            source = source.push(i as int);
                            assert forall|k: int|
                                0 <= k < i + 1 && self@.campaigns[#[trigger] keys@[k]].is_active implies chosen.contains(
                                keys@[k],
                            ) by {
                                if k < i {
                                    assert(before.contains(keys@[k]));
                                    let j = choose|j: int| 0 <= j < before.len() && before[j] == keys@[k];
                                    assert(chosen[j] == keys@[k]);
                                } else {
                                    assert(chosen[chosen.len() - 1] == keys@[k]);
                                }
                            }
                        }
                    }
                },
                None => {},
            }
            i += 1;
        }
        proof {
            let target = active_campaigns(self@.campaigns);
            assert(chosen.no_duplicates()) by {
                assert forall|a: int, b: int|
                    0 <= a < chosen.len() && 0 <= b < chosen.len() && a != b implies chosen[a]
                    != chosen[b] by {
                    if a < b {
                        assert(source[a] < source[b]);
                    } else {
                        assert(source[b] < source[a]);
                    }
                }
            }
            assert(chosen.to_set() =~= target.dom()) by {
                assert forall|id: Id| chosen.to_set().contains(id) <==> target.dom().contains(
                    id,
                ) by {
                    if chosen.to_set().contains(id) {
                        let j = choose|j: int| 0 <= j < chosen.len() && chosen[j] == id;
                        assert(keys@.to_set().contains(keys@[source[j]]));
                    }
                    if target.dom().contains(id) {
                        assert(keys@.to_set().contains(id));
                        let k = choose|k: int| 0 <= k < keys@.len() && keys@[k] == id;
                        assert(self@.campaigns[keys@[k]].is_active);
                    }
                }
            }
            assert(arranges(chosen, views_of(active@), target));
        }
        active
    }

    /// The summaries of all campaigns, in no particular order.
    pub fn get_campaign_summaries(&self) -> (summaries: Vec<CampaignSummary>)
        ensures
            lists(views_of(summaries@), campaign_summaries(self@.campaigns)),
    {
        let keys = keys_of(&self.campaigns);
        let mut summaries: Vec<CampaignSummary> = Vec::new();
        let mut i: usize = 0;
        while i < keys.len()
            invariant
                enumerates(keys@, self.campaigns@),
                i <= keys.len(),
                summaries@.len() == i,
                forall|j: int|
                    0 <= j < i ==> (#[trigger] summaries@[j])@ == self@.campaigns[keys@[j]].summary(),
            decreases keys.len() - i,
        {
            assert(keys@.to_set().contains(keys@[i as int]));
            match self.campaigns.get(&keys[i]) {
                Some(c) => {
                    summaries.push(c.to_summary());
                },
                None => {},
            }
            i += 1;
        }
        proof {
            assert(campaign_summaries(self@.campaigns).dom() =~= self.campaigns@.dom());
            assert(arranges(keys@, views_of(summaries@), campaign_summaries(self@.campaigns)));
        }
        summaries
    }

    /// Makes the campaign `campaign_id` the current one, at the present time.
    pub fn set_current_campaign(&mut self, campaign_id: Id) -> (r: DmResult<()>)
        ensures
            exists|now: Timestamp|
                Self::sets_current(old(self)@, campaign_id, now, final(self)@, r),
            old(self)@.wf() ==> final(self)@.wf(),
    {
        let now = Timestamp::now();
        let r = self.set_current_campaign_at(campaign_id, now);
        assert(Self::sets_current(old(self)@, campaign_id, now, final(self)@, r));
        r
    }

    /// `after` and `outcome` are what making `campaign_id` current at the time
    /// `now` makes of `before`.
    pub open spec fn sets_current(
        before: CampaignCollectionView,
        campaign_id: Id,
        now: Timestamp,
        after: CampaignCollectionView,
        outcome: DmResult<()>,
    ) -> bool {
        if before.campaigns.contains_key(campaign_id) {
            outcome is Ok && after == before.with_current(campaign_id, now)
        } else {
            view_of_unit_result(outcome) == Err::<(), ErrorView>(campaign_not_found(campaign_id))
                && after == before
        }
    }

    /// Makes the campaign `campaign_id` the current one at the time `now`, or
    /// fails with `NotFound` where the collection has no such campaign.
    pub fn set_current_campaign_at(&mut self, campaign_id: Id, now: Timestamp) -> (r: DmResult<()>)
        ensures
            Self::sets_current(old(self)@, campaign_id, now, final(self)@, r),
            old(self)@.wf() ==> final(self)@.wf(),
    {
        if !self.campaigns.contains_key(&campaign_id) {
            return Err(DmAssistantError::not_found("Campaign", uuid_text(campaign_id).as_str()));
        }
        self.app_settings.set_current_campaign_at(campaign_id, now);
        self.updated_at = now;
        proof {
            lemma_without_id(old(self)@.app_settings.recent_campaigns, campaign_id);
            if old(self)@.wf() {
                let before = old(self)@.app_settings.recent_campaigns;
                let rest = without_id(before, campaign_id);
                let after = final(self)@.app_settings.recent_campaigns;
                let held = final(self)@.campaigns;
                assert forall|i: int| 0 <= i < after.len() implies held.contains_key(
                    #[trigger] after[i],
                ) by {
                    if i > 0 {
                        assert(after[i] == rest[i - 1]);
                        assert(rest.contains(rest[i - 1]));
                        assert(before.contains(rest[i - 1]));
                    }
                }
            }
        }
        Ok(())
    }

    /// The current campaign, if one is set and exists.
    pub fn get_current_campaign(&self) -> (found: Option<&Campaign>)
        ensures
            view_of_option(found) == self@.current(),
    {
        match self.app_settings.current_campaign_id {
            Some(id) => self.campaigns.get(&id),
            None => None,
        }
    }

    /// The campaigns used last, the most recent first.
    pub fn get_recent_campaigns(&self) -> (recent: Vec<&Campaign>)
        ensures
            views_of(recent@) == self@.recent(),
    {
        let mut recent: Vec<&Campaign> = Vec::new();
        let mut i: usize = 0;
        let ghost ids = self.app_settings.recent_campaigns@;
        assert(ids.take(0) =~= Seq::<Id>::empty());
        assert(views_of(recent@) =~= campaigns_named(ids.take(0), self@.campaigns));
        while i < self.app_settings.recent_campaigns.len()
            invariant
                ids == self.app_settings.recent_campaigns@,
                i <= ids.len(),
                views_of(recent@) == campaigns_named(ids.take(i as int), self@.campaigns),
            decreases self.app_settings.recent_campaigns.len() - i,
        {
            proof {
                assert(ids.take(i + 1).drop_last() =~= ids.take(i as int));
                assert(ids.take(i + 1).last() == ids[i as int]);
            }
            let ghost listed = views_of(recent@);
            match self.campaigns.get(&self.app_settings.recent_campaigns[i]) {
                Some(c) => {
                    recent.push(c);
                    assert(views_of(recent@) =~= listed.push(self@.campaigns[ids[i as int]]));
                },
                None => {},
            }
            i += 1;
        }
        assert(ids.take(i as int) =~= ids);
        recent
    }
}


/// What the backing file of the campaigns holds: nothing while there is no
/// file, else one collection.
pub type StoredCampaigns = Option<CampaignCollectionView>;

/// The store of all campaigns and of the app settings. A value of this type is
/// the content of the backing file as one operation sees it: the caller reads
/// the file into it, runs the operation, and writes back what it then holds.
pub struct CampaignStorageService {
    /// The collection in the backing file; `None` while the file does not exist.
    pub stored: Option<CampaignCollection>,
}

impl View for CampaignStorageService {
    type V = StoredCampaigns;

    open spec fn view(&self) -> StoredCampaigns {
        view_of_option(self.stored)
    }
}

/// The collection that an operation works on: the stored one, or a new and
/// empty one, made at the time `now`, while nothing is stored.
pub open spec fn loaded(stored: StoredCampaigns, now: Timestamp) -> CampaignCollectionView {
    match stored {
        Some(c) => c,
        None => CampaignCollectionView::empty(now),
    }
}

/// The stored collection is well formed, if there is one.
pub open spec fn stored_wf(stored: StoredCampaigns) -> bool {
    stored matches Some(c) ==> c.wf()
}

/// The error of an identifier that is taken.
pub open spec fn campaign_exists_already(id: Id) -> ErrorView {
    failure(
        ErrorKind::CampaignError,
        "Campaign with ID "@ + hyphenated(id) + " already exists"@,
    )
}

/// The key by which summaries are listed: a campaign that was played comes
/// before one that never was; of two that were played, the one played last
/// comes first; what is still equal is ordered by creation, the newest first.
pub open spec fn summary_key(s: CampaignSummaryView) -> SortKey {
    match s.last_session_date {
        Some(date) => SortKey { rank: 1, first: date, second: s.created_at },
        None => SortKey { rank: 0, first: Timestamp { secs: 0, nanos: 0 }, second: s.created_at },
    }
}

/// No summary of the list stands behind one that it outranks.
pub open spec fn summaries_in_order(summaries: Seq<CampaignSummaryView>) -> bool {
    forall|i: int, j: int|
        0 <= i < j < summaries.len() ==> !summary_key(#[trigger] summaries[j]).outranks(
            summary_key(#[trigger] summaries[i]),
        )
}

impl CampaignStorageService {
    /// The store over what the backing file holds.
    pub fn open(stored: Option<CampaignCollection>) -> (service: Self)
        ensures
            service@ == view_of_option(stored),
    {
        CampaignStorageService { stored }
    }

    /// What the store holds now, to be written to the backing file.
    pub fn into_stored(self) -> (stored: Option<CampaignCollection>)
        ensures
            view_of_option(stored) == self@,
    {
        self.stored
    }

    fn load_at(&mut self, now: Timestamp) -> (collection: CampaignCollection)
        ensures
            collection@ == loaded(old(self)@, now),
            final(self)@ == Some(collection@),
    {
        match &self.stored {
            Some(c) => c.clone(),
            None => {
                let collection = CampaignCollection::new_at(now);
                self.stored = Some(collection.clone());
                collection
            },
        }
    }

    /// Loads the collection; where nothing is stored yet, a new and empty
    /// collection is made, stored and handed out.
    pub fn load_collection(&mut self) -> (collection: CampaignCollection)
        ensures
            exists|now: Timestamp| collection@ == #[trigger] loaded(old(self)@, now),
            final(self)@ == Some(collection@),
    {
        let now = Timestamp::now();
        let collection = self.load_at(now);
        assert(collection@ == loaded(old(self)@, now));
        collection
    }

    /// Stores `collection` in place of what was stored.
    pub fn save_collection(&mut self, collection: &CampaignCollection)
        ensures
            final(self)@ == Some(collection@),
    {
        self.stored = Some(collection.clone());
    }

    /// `after` and `stored` are what storing a new campaign at the time `now`
    /// makes of `before`. The campaign is stored as it was `wanted`, under
    /// its own identifier where no stored campaign has that one, else under
    /// another that none has; it stands beside the others, which stay.
    pub open spec fn stores_new(
        before: StoredCampaigns,
        wanted: CampaignView,
        now: Timestamp,
        after: StoredCampaigns,
        stored: CampaignView,
    ) -> bool {
        let c = loaded(before, now);
        &&& !c.campaigns.contains_key(stored.id)
        &&& !c.campaigns.contains_key(wanted.id) ==> stored.id == wanted.id
        &&& stored == wanted.with_id(stored.id)
        &&& after == Some(c.added(stored, now))
    }

    /// Stores a new campaign and hands it back as it is stored. The
    /// campaign keeps its identifier unless a stored campaign has it
    /// already; then it gets another, which none has. This cannot fail.
    pub fn create_new(&mut self, campaign: Campaign) -> (stored: Campaign)
        ensures
            exists|now: Timestamp| #[trigger]
                Self::stores_new(old(self)@, campaign@, now, final(self)@, stored@),
            stored_wf(old(self)@) && campaign@.ordered() ==> stored_wf(final(self)@),
    {
        let now = Timestamp::now();
        let mut collection = self.load_at(now);
        let ghost wanted = campaign@;
        let mut stored = campaign;
        stored.id = unused_key(&collection.campaigns, stored.id);
        collection.add_campaign_at(stored.clone(), now);
        self.save_collection(&collection);
        assert(Self::stores_new(old(self)@, wanted, now, final(self)@, stored@));
        stored
    }

    /// What `create_campaign` stores and returns when it runs at the time `now`.
    pub open spec fn create_outcome(
        stored: StoredCampaigns,
        campaign: CampaignView,
        now: Timestamp,
    ) -> (StoredCampaigns, Result<CampaignView, ErrorView>) {
        let c = loaded(stored, now);
        if c.campaigns.contains_key(campaign.id) {
            (Some(c), Err(campaign_exists_already(campaign.id)))
        } else {
            (Some(c.added(campaign, now)), Ok(campaign))
        }
    }

    /// Adds a campaign, or fails with a campaign error where its identifier
    /// is taken.
    pub fn create_campaign(&mut self, campaign: Campaign) -> (r: DmResult<Campaign>)
        ensures
            exists|now: Timestamp| #[trigger]
                Self::create_outcome(old(self)@, campaign@, now) == (
                    final(self)@,
                    view_of_result(r),
                ),
            stored_wf(old(self)@) && campaign@.ordered() ==> stored_wf(final(self)@),
    {
        let now = Timestamp::now();
        let mut collection = self.load_at(now);
        if collection.campaigns.contains_key(&campaign.id) {
            let r = Err(
                DmAssistantError::CampaignError(
                    concat3("Campaign with ID ", uuid_text(campaign.id).as_str(), " already exists"),
                ),
            );
            assert(Self::create_outcome(old(self)@, campaign@, now) == (
                final(self)@,
                view_of_result(r),
            ));
            return r;
        }
        collection.add_campaign_at(campaign.clone(), now);
        self.save_collection(&collection);
        let r = Ok(campaign);
        assert(Self::create_outcome(old(self)@, campaign@, now) == (final(self)@, view_of_result(r)));
        r
    }

    /// The campaign under `campaign_id`, if there is one.
    pub fn get_campaign(&mut self, campaign_id: &Id) -> (found: Option<Campaign>)
        ensures
            exists|now: Timestamp|
                final(self)@ == Some(#[trigger] loaded(old(self)@, now)) && view_of_option(found)
                    == loaded(old(self)@, now).campaign(*campaign_id),
    {
        let now = Timestamp::now();
        let collection = self.load_at(now);
        let found = match collection.get_campaign(campaign_id) {
            Some(c) => Some(c.clone()),
            None => None,
        };
        assert(final(self)@ == Some(loaded(old(self)@, now)));
        found
    }

    /// Every campaign, in no particular order.
    pub fn get_all_campaigns(&mut self) -> (all: Vec<Campaign>)
        ensures
            exists|now: Timestamp|
                final(self)@ == Some(#[trigger] loaded(old(self)@, now)) && lists(
                    views_of(all@),
                    loaded(old(self)@, now).campaigns,
                ),
    {
        let now = Timestamp::now();
        let collection = self.load_at(now);
        let listed = collection.get_all_campaigns();
        let all = Self::copies(&listed);
        assert(views_of(all@) =~= views_of(listed@));
        assert(final(self)@ == Some(loaded(old(self)@, now)));
        all
    }

    fn copies(listed: &Vec<&Campaign>) -> (all: Vec<Campaign>)
        ensures
            views_of(all@) == views_of(listed@),
    {
        let mut all: Vec<Campaign> = Vec::new();
        let mut i: usize = 0;
        while i < listed.len()
            invariant
                i <= listed.len(),
                all@.len() == i,
                forall|j: int| 0 <= j < i ==> (#[trigger] all@[j])@ == listed@[j]@,
            decreases listed.len() - i,
        {
            all.push(listed[i].clone());
            i += 1;
        }
        assert(views_of(all@) =~= views_of(listed@));
        all
    }

    /// The active campaigns, in no particular order.
    pub fn get_active_campaigns(&mut self) -> (active: Vec<Campaign>)
        ensures
            exists|now: Timestamp|
                final(self)@ == Some(#[trigger] loaded(old(self)@, now)) && lists(
                    views_of(active@),
                    active_campaigns(loaded(old(self)@, now).campaigns),
                ),
    {
        let now = Timestamp::now();
        let collection = self.load_at(now);
        let listed = collection.get_active_campaigns();
        let active = Self::copies(&listed);
        assert(final(self)@ == Some(loaded(old(self)@, now)));
        active
    }

    /// The summaries of all campaigns, ordered for display: the campaign that
    /// was played last comes first, campaigns that were never played come
    /// last, and what is still equal is ordered by creation, the newest first.
    pub fn get_campaign_summaries(&mut self) -> (summaries: Vec<CampaignSummary>)
        ensures
            exists|now: Timestamp|
                final(self)@ == Some(#[trigger] loaded(old(self)@, now)) && lists(
                    views_of(summaries@),
                    campaign_summaries(loaded(old(self)@, now).campaigns),
                ),
            summaries_in_order(views_of(summaries@)),
    {
        let now = Timestamp::now();
        let collection = self.load_at(now);
        let unordered = collection.get_campaign_summaries();
        let summaries = Self::ordered(&unordered, Ghost(campaign_summaries(collection@.campaigns)));
        assert(final(self)@ == Some(loaded(old(self)@, now)));
        summaries
    }

    fn ordered(
        unordered: &Vec<CampaignSummary>,
        Ghost(map): Ghost<Map<Id, CampaignSummaryView>>,
    ) -> (summaries: Vec<CampaignSummary>)
        requires
            lists(views_of(unordered@), map),
        ensures
            lists(views_of(summaries@), map),
            summaries_in_order(views_of(summaries@)),
    {
        let mut keys: Vec<SortKey> = Vec::new();
        let mut i: usize = 0;
        while i < unordered.len()
            invariant
                i <= unordered.len(),
                keys@.len() == i,
                forall|j: int| 0 <= j < i ==> #[trigger] keys@[j] == summary_key(unordered@[j]@),
            decreases unordered.len() - i,
        {
            let s = &unordered[i];
            let key = match s.last_session_date {
                Some(date) => SortKey { rank: 1, first: date, second: s.created_at },
                None => SortKey {
                    rank: 0,
                    first: Timestamp { secs: 0, nanos: 0 },
                    second: s.created_at,
                },
            };
            keys.push(key);
            i += 1;
        }
        let order = sorted_order(&keys);
        let mut summaries: Vec<CampaignSummary> = Vec::new();
        let mut k: usize = 0;
        while k < order.len()
            invariant
                k <= order.len(),
                is_sorted_arrangement(keys@, order@),
                keys@.len() == unordered@.len(),
                summaries@.len() == k,
                forall|j: int|
                    0 <= j < k ==> (#[trigger] summaries@[j])@ == unordered@[order@[j] as int]@,
            decreases order.len() - k,
        {
            summaries.push(unordered[order[k]].clone());
            k += 1;
        }
        proof {
            let ids = choose|ids: Seq<Id>| arranges(ids, views_of(unordered@), map);
            let moved = Seq::new(order@.len(), |j: int| ids[order@[j] as int]);
            assert(moved.no_duplicates()) by {
                assert forall|a: int, b: int|
                    0 <= a < moved.len() && 0 <= b < moved.len() && a != b implies moved[a]
                    != moved[b] by {
                    assert(order@[a] != order@[b]);
                }
            }
            assert(moved.to_set() =~= ids.to_set()) by {
                assert forall|id: Id| moved.to_set().contains(id) <==> ids.to_set().contains(
                    id,
                ) by {
                    if moved.to_set().contains(id) {
                        let a = choose|a: int| 0 <= a < moved.len() && moved[a] == id;
                        assert(ids[order@[a] as int] == id);
                    }
                    if ids.to_set().contains(id) {
                        let x = choose|x: int| 0 <= x < ids.len() && ids[x] == id;
                        assert(order@.contains(x as usize));
                        let a = choose|a: int| 0 <= a < order@.len() && order@[a] == x as usize;
                        assert(moved[a] == id);
                    }
                }
            }
            assert forall|j: int| 0 <= j < moved.len() implies #[trigger] views_of(summaries@)[j]
                == map[moved[j]] by {
                assert(views_of(unordered@)[order@[j] as int] == map[ids[order@[j] as int]]);
            }
            assert(arranges(moved, views_of(summaries@), map));
            assert forall|a: int, b: int| 0 <= a < b < summaries@.len() implies !summary_key(
                #[trigger] views_of(summaries@)[b],
            ).outranks(summary_key(#[trigger] views_of(summaries@)[a])) by {
                assert(keys@[order@[a] as int] == summary_key(unordered@[order@[a] as int]@));
                assert(keys@[order@[b] as int] == summary_key(unordered@[order@[b] as int]@));
            }
        }
        summaries
    }

    /// What `update_campaign` stores and returns when it runs at the time `now`.
    pub open spec fn update_outcome(
        stored: StoredCampaigns,
        campaign: CampaignView,
        now: Timestamp,
    ) -> (StoredCampaigns, Result<CampaignView, ErrorView>) {
        let c = loaded(stored, now);
        if c.campaigns.contains_key(campaign.id) {
            (Some(c.added(campaign, now)), Ok(campaign))
        } else {
            (Some(c), Err(campaign_not_found(campaign.id)))
        }
    }

    /// Replaces the campaign of the same identifier, or fails with `NotFound`.
    pub fn update_campaign(&mut self, campaign: Campaign) -> (r: DmResult<Campaign>)
        ensures
            exists|now: Timestamp| #[trigger]
                Self::update_outcome(old(self)@, campaign@, now) == (
                    final(self)@,
                    view_of_result(r),
                ),
            stored_wf(old(self)@) && campaign@.ordered() ==> stored_wf(final(self)@),
    {
        let now = Timestamp::now();
        let mut collection = self.load_at(now);
        if !collection.update_campaign_at(campaign.clone(), now) {
            let r = Err(DmAssistantError::not_found("Campaign", uuid_text(campaign.id).as_str()));
            assert(Self::update_outcome(old(self)@, campaign@, now) == (
                final(self)@,
                view_of_result(r),
            ));
            return r;
        }
        self.save_collection(&collection);
        let r = Ok(campaign);
        assert(Self::update_outcome(old(self)@, campaign@, now) == (final(self)@, view_of_result(r)));
        r
    }

    /// What `delete_campaign` stores and returns when it runs at the time `now`.
    pub open spec fn delete_outcome(stored: StoredCampaigns, id: Id, now: Timestamp) -> (
        StoredCampaigns,
        Result<bool, ErrorView>,
    ) {
        let c = loaded(stored, now);
        match c.campaign(id) {
            None => (Some(c), Err(campaign_not_found(id))),
            Some(campaign) => {
                if campaign.is_active && campaign.campaign_info.total_characters > 0 {
                    (
                        Some(c),
                        Err(
                            failure(
                                ErrorKind::CampaignError,
                                "Cannot delete active campaign with characters. Archive it first."@,
                            ),
                        ),
                    )
                } else {
                    (Some(c.removed(id, now)), Ok(true))
                }
            },
        }
    }

    /// Deletes a campaign. Fails with `NotFound` where there is none under
    /// the identifier, and with a campaign error where the campaign is active
    /// and has characters; either way nothing that was stored changes.
    pub fn delete_campaign(&mut self, campaign_id: &Id) -> (r: DmResult<bool>)
        ensures
            exists|now: Timestamp| #[trigger]
                Self::delete_outcome(old(self)@, *campaign_id, now) == (
                    final(self)@,
                    match r {
                        Ok(b) => Ok::<bool, ErrorView>(b),
                        Err(e) => Err::<bool, ErrorView>(e@),
                    },
                ),
            stored_wf(old(self)@) ==> stored_wf(final(self)@),
    {
        let now = Timestamp::now();
        let mut collection = self.load_at(now);
        let blocked = match collection.get_campaign(campaign_id) {
            None => {
                let r = Err(DmAssistantError::not_found("Campaign", uuid_text(*campaign_id).as_str()));
                assert(Self::delete_outcome(old(self)@, *campaign_id, now) == (
                    final(self)@,
                    Err::<bool, ErrorView>(r->Err_0@),
                ));
                return r;
            },
            Some(campaign) => campaign.is_active && campaign.campaign_info.total_characters > 0,
        };
        if blocked {
            let r = Err(
                DmAssistantError::campaign(
                    "Cannot delete active campaign with characters. Archive it first.",
                ),
            );
            assert(Self::delete_outcome(old(self)@, *campaign_id, now) == (
                final(self)@,
                Err::<bool, ErrorView>(r->Err_0@),
            ));
            return r;
        }
        let removed = collection.remove_campaign_at(campaign_id, now);
        if removed {
            self.save_collection(&collection);
        }
        assert(Self::delete_outcome(old(self)@, *campaign_id, now) == (
            final(self)@,
            Ok::<bool, ErrorView>(removed),
        ));
        Ok(removed)
    }

    /// What `modify_campaign` stores and returns when it runs at the time `now`.
    pub open spec fn modify_outcome(
        stored: StoredCampaigns,
        id: Id,
        mutation: CampaignMutation,
        now: Timestamp,
    ) -> (StoredCampaigns, Result<CampaignView, ErrorView>) {
        let c = loaded(stored, now);
        match c.campaign(id) {
            None => (Some(c), Err(campaign_not_found(id))),
            Some(campaign) => match campaign.changed(mutation, now) {
                Err(e) => (Some(c), Err(e)),
                Ok(changed) => {
                    let result = changed.committed(now);
                    (
                        Some(
                            CampaignCollectionView {
                                campaigns: c.campaigns.insert(id, result),
                                ..c
                            },
                        ),
                        Ok(result),
                    )
                },
            },
        }
    }

    /// Changes one campaign in place: loads the collection, finds the
    /// campaign, makes the change, stamps the campaign with the time of the
    /// change (which is never taken to be earlier than the creation of the
    /// campaign), stores the whole collection and hands back a copy of the
    /// campaign. Where the campaign is missing or the change is refused,
    /// nothing that was stored changes.
    pub fn modify_campaign(&mut self, campaign_id: &Id, mutation: CampaignMutation) -> (r: DmResult<
        Campaign,
    >)
        ensures
            exists|now: Timestamp| #[trigger]
                Self::modify_outcome(old(self)@, *campaign_id, mutation, now) == (
                    final(self)@,
                    view_of_result(r),
                ),
            stored_wf(old(self)@) ==> stored_wf(final(self)@),
    {
        let now = Timestamp::now();
        let mut collection = self.load_at(now);
        let ghost before = collection@;
        match collection.campaigns.remove(campaign_id) {
            None => {
                let r = Err(DmAssistantError::not_found("Campaign", uuid_text(*campaign_id).as_str()));
                assert(Self::modify_outcome(old(self)@, *campaign_id, mutation, now) == (
                    final(self)@,
                    view_of_result(r),
                ));
                r
            },
            Some(mut campaign) => {
                let ghost found = campaign@;
                proof {
                    lemma_change_keeps_identity(found, mutation, now);
                }
                match campaign.apply_at(mutation, now) {
                    Err(e) => {
                        let r = Err(e);
                        assert(Self::modify_outcome(old(self)@, *campaign_id, mutation, now) == (
                            final(self)@,
                            view_of_result(r),
                        ));
                        r
                    },
                    Ok(_) => {
                        campaign.updated_at = Timestamp::latest(now, campaign.created_at);
                        let result = campaign.clone();
                        collection.campaigns.insert(*campaign_id, campaign);
                        assert(collection@.campaigns =~= before.campaigns.insert(
                            *campaign_id,
                            result@,
                        ));
                        self.save_collection(&collection);
                        let r = Ok(result);
                        assert(Self::modify_outcome(old(self)@, *campaign_id, mutation, now) == (
                            final(self)@,
                            view_of_result(r),
                        ));
                        r
                    },
                }
            },
        }
    }
}


impl CampaignStorageService {
    /// What `set_current_campaign` stores and returns when it runs at the time `now`.
    pub open spec fn set_current_outcome(stored: StoredCampaigns, id: Id, now: Timestamp) -> (
        StoredCampaigns,
        Result<CampaignView, ErrorView>,
    ) {
        let c = loaded(stored, now);
        match c.campaign(id) {
            None => (Some(c), Err(campaign_not_found(id))),
            Some(campaign) => {
                if !campaign.playable() {
                    (
                        Some(c),
                        Err(
                            failure(
                                ErrorKind::CampaignError,
                                "Cannot set non-playable campaign as current"@,
                            ),
                        ),
                    )
                } else {
                    (Some(c.with_current(id, now)), Ok(campaign))
                }
            },
        }
    }

    /// Makes a campaign the current one. Fails with `NotFound` where there is
    /// none under the identifier and with a campaign error where the campaign
    /// cannot be played.
    pub fn set_current_campaign(&mut self, campaign_id: &Id) -> (r: DmResult<Campaign>)
        ensures
            exists|now: Timestamp| #[trigger]
                Self::set_current_outcome(old(self)@, *campaign_id, now) == (
                    final(self)@,
                    view_of_result(r),
                ),
            stored_wf(old(self)@) ==> stored_wf(final(self)@),
    {
        let now = Timestamp::now();
        let mut collection = self.load_at(now);
        let campaign = match collection.get_campaign(campaign_id) {
            None => {
                let r = Err(DmAssistantError::not_found("Campaign", uuid_text(*campaign_id).as_str()));
                assert(Self::set_current_outcome(old(self)@, *campaign_id, now) == (
                    final(self)@,
                    view_of_result(r),
                ));
                return r;
            },
            Some(c) => c.clone(),
        };
        if !campaign.is_playable() {
            let r = Err(DmAssistantError::campaign("Cannot set non-playable campaign as current"));
            assert(Self::set_current_outcome(old(self)@, *campaign_id, now) == (
                final(self)@,
                view_of_result(r),
            ));
            return r;
        }
        match collection.set_current_campaign_at(*campaign_id, now) {
            Err(e) => Err(e),
            Ok(_) => {
                self.save_collection(&collection);
                let r = Ok(campaign);
                assert(Self::set_current_outcome(old(self)@, *campaign_id, now) == (
                    final(self)@,
                    view_of_result(r),
                ));
                r
            },
        }
    }

    /// The current campaign, if one is set and exists.
    pub fn get_current_campaign(&mut self) -> (found: Option<Campaign>)
        ensures
            exists|now: Timestamp|
                final(self)@ == Some(#[trigger] loaded(old(self)@, now)) && view_of_option(found)
                    == loaded(old(self)@, now).current(),
    {
        let now = Timestamp::now();
        let collection = self.load_at(now);
        let found = match collection.get_current_campaign() {
            Some(c) => Some(c.clone()),
            None => None,
        };
        assert(final(self)@ == Some(loaded(old(self)@, now)));
        found
    }

    /// What `clear_current_campaign` stores when it runs at the time `now`.
    pub open spec fn clear_current_outcome(stored: StoredCampaigns, now: Timestamp) -> StoredCampaigns {
        let c = loaded(stored, now);
        Some(CampaignCollectionView { app_settings: c.app_settings.cleared(now), ..c })
    }

    /// Leaves no campaign current.
    pub fn clear_current_campaign(&mut self)
        ensures
            exists|now: Timestamp| #[trigger] Self::clear_current_outcome(old(self)@, now) == final(self)@,
            stored_wf(old(self)@) ==> stored_wf(final(self)@),
    {
        let now = Timestamp::now();
        let mut collection = self.load_at(now);
        collection.app_settings.clear_current_campaign_at(now);
        self.save_collection(&collection);
        assert(Self::clear_current_outcome(old(self)@, now) == final(self)@);
    }

    /// The campaigns used last, the most recent first.
    pub fn get_recent_campaigns(&mut self) -> (recent: Vec<Campaign>)
        ensures
            exists|now: Timestamp|
                final(self)@ == Some(#[trigger] loaded(old(self)@, now)) && views_of(recent@)
                    == loaded(old(self)@, now).recent(),
    {
        let now = Timestamp::now();
        let collection = self.load_at(now);
        let listed = collection.get_recent_campaigns();
        let recent = Self::copies(&listed);
        assert(final(self)@ == Some(loaded(old(self)@, now)));
        recent
    }

    /// Archives a campaign: the safer way to put it out of use.
    pub fn archive_campaign(&mut self, campaign_id: &Id) -> (r: DmResult<Campaign>)
        ensures
            exists|now: Timestamp| #[trigger]
                Self::modify_outcome(old(self)@, *campaign_id, CampaignMutation::Archive, now) == (
                    final(self)@,
                    view_of_result(r),
                ),
            stored_wf(old(self)@) ==> stored_wf(final(self)@),
    {
        self.modify_campaign(campaign_id, CampaignMutation::Archive)
    }

    /// Starts the next session of a campaign that can be played.
    pub fn start_session(&mut self, campaign_id: &Id) -> (r: DmResult<Campaign>)
        ensures
            exists|now: Timestamp| #[trigger]
                Self::modify_outcome(old(self)@, *campaign_id, CampaignMutation::StartSession, now)
                    == (final(self)@, view_of_result(r)),
            stored_wf(old(self)@) ==> stored_wf(final(self)@),
    {
        self.modify_campaign(campaign_id, CampaignMutation::StartSession)
    }

    /// Replaces the character statistics of a campaign.
    pub fn update_campaign_stats(
        &mut self,
        campaign_id: &Id,
        active_chars: u32,
        total_chars: u32,
        avg_level: AverageLevel,
    ) -> (r: DmResult<Campaign>)
        ensures
            exists|now: Timestamp| #[trigger]
                Self::modify_outcome(
                    old(self)@,
                    *campaign_id,
                    CampaignMutation::UpdateStats {
                        active_characters: active_chars,
                        total_characters: total_chars,
                        average_level: avg_level,
                    },
                    now,
                ) == (final(self)@, view_of_result(r)),
            stored_wf(old(self)@) ==> stored_wf(final(self)@),
    {
        self.modify_campaign(
            campaign_id,
            CampaignMutation::UpdateStats {
                active_characters: active_chars,
                total_characters: total_chars,
                average_level: avg_level,
            },
        )
    }

    /// The app settings.
    pub fn get_app_settings(&mut self) -> (settings: AppSettings)
        ensures
            exists|now: Timestamp|
                final(self)@ == Some(#[trigger] loaded(old(self)@, now)) && settings@ == loaded(
                    old(self)@,
                    now,
                ).app_settings,
    {
        let now = Timestamp::now();
        let collection = self.load_at(now);
        assert(final(self)@ == Some(loaded(old(self)@, now)));
        collection.app_settings
    }

    /// What `update_app_settings` stores when it runs at the time `now`.
    pub open spec fn settings_outcome(
        stored: StoredCampaigns,
        mutation: SettingsMutation,
        now: Timestamp,
    ) -> CampaignCollectionView {
        let c = loaded(stored, now);
        CampaignCollectionView {
            app_settings: c.app_settings.changed(mutation, now),
            updated_at: now,
            ..c
        }
    }

    /// Changes the app settings and hands back a copy of them.
    pub fn update_app_settings(&mut self, mutation: SettingsMutation) -> (settings: AppSettings)
        ensures
            exists|now: Timestamp|
                final(self)@ == Some(#[trigger] Self::settings_outcome(old(self)@, mutation, now))
                    && settings@ == Self::settings_outcome(old(self)@, mutation, now).app_settings,
            stored_wf(old(self)@) ==> stored_wf(final(self)@),
    {
        let now = Timestamp::now();
        let mut collection = self.load_at(now);
        collection.app_settings.apply_at(mutation, now);
        collection.updated_at = now;
        let settings = collection.app_settings.clone();
        self.save_collection(&collection);
        assert(final(self)@ == Some(Self::settings_outcome(old(self)@, mutation, now)));
        settings
    }

    /// Tells whether anything is stored yet.
    pub fn campaigns_file_exists(&self) -> (b: bool)
        ensures
            b == self@ is Some,
    {
        self.stored.is_some()
    }

    /// Makes sure that a collection is stored: a store that holds nothing
    /// gets a new and empty collection.
    pub fn initialize_app(&mut self)
        ensures
            exists|now: Timestamp| final(self)@ == Some(#[trigger] loaded(old(self)@, now)),
            stored_wf(old(self)@) ==> stored_wf(final(self)@),
    {
        let now = Timestamp::now();
        let collection = self.load_at(now);
        self.save_collection(&collection);
        assert(final(self)@ == Some(loaded(old(self)@, now)));
    }

    /// The campaign to export, or `NotFound`.
    pub fn export_campaign(&mut self, campaign_id: &Id) -> (r: DmResult<Campaign>)
        ensures
            exists|now: Timestamp|
                final(self)@ == Some(#[trigger] loaded(old(self)@, now)) && view_of_result(r)
                    == match loaded(old(self)@, now).campaign(*campaign_id) {
                    Some(c) => Ok::<CampaignView, ErrorView>(c),
                    None => Err::<CampaignView, ErrorView>(campaign_not_found(*campaign_id)),
                },
    {
        let now = Timestamp::now();
        let collection = self.load_at(now);
        let r = match collection.get_campaign(campaign_id) {
            Some(c) => Ok(c.clone()),
            None => Err(DmAssistantError::not_found("Campaign", uuid_text(*campaign_id).as_str())),
        };
        assert(final(self)@ == Some(loaded(old(self)@, now)));
        r
    }

    /// Takes in a campaign that comes from elsewhere: it gets a new random
    /// identifier, or another that no stored campaign has where that one is
    /// taken, so that it cannot clash with what is stored, and the
    /// present time as the time of its last change, or the time of its
    /// creation where the clock reads an earlier time than that.
    pub fn import_campaign(&mut self, campaign: Campaign) -> (r: DmResult<Campaign>)
        ensures
            r matches Ok(stored) && exists|id: Id, stamp: Timestamp, now: Timestamp|
                is_v4(id) && stamp.not_before(campaign.created_at) && #[trigger] Self::stores_new(
                    old(self)@,
                    campaign@.taken_in(id, stamp),
                    now,
                    final(self)@,
                    stored@,
                ),
            stored_wf(old(self)@) ==> stored_wf(final(self)@),
    {
        let mut campaign = campaign;
        let ghost given = campaign@;
        campaign.id = generate_id();
        campaign.updated_at = Timestamp::latest(Timestamp::now(), campaign.created_at);
        assert(campaign@ == given.taken_in(campaign.id, campaign.updated_at));
        Ok(self.create_new(campaign))
    }
}

/// A campaign that was created is found under its identifier, equal in every
/// field to the one that was handed in.
pub proof fn lemma_create_then_get(
    stored: StoredCampaigns,
    campaign: CampaignView,
    t1: Timestamp,
    t2: Timestamp,
)
    requires
        CampaignStorageService::create_outcome(stored, campaign, t1).1 is Ok,
    ensures
        loaded(CampaignStorageService::create_outcome(stored, campaign, t1).0, t2).campaign(
            campaign.id,
        ) == Some(campaign),
{
}

/// A new campaign that is stored stands under an identifier that no stored
/// campaign had; every campaign that was stored is still there, unchanged,
/// and the collection holds exactly one campaign more. The new campaign is
/// found under its identifier as it was handed back.
pub proof fn lemma_stores_new(
    before: StoredCampaigns,
    wanted: CampaignView,
    now: Timestamp,
    after: StoredCampaigns,
    stored: CampaignView,
)
    requires
        CampaignStorageService::stores_new(before, wanted, now, after, stored),
        loaded(before, now).campaigns.dom().finite(),
    ensures
        after is Some,
        !loaded(before, now).campaigns.contains_key(stored.id),
        after->0.campaign(stored.id) == Some(stored),
        forall|id: Id| #[trigger]
            loaded(before, now).campaigns.contains_key(id) ==> after->0.campaign(id) == loaded(
                before,
                now,
            ).campaign(id),
        after->0.campaigns.dom().len() == loaded(before, now).campaigns.dom().len() + 1,
        after->0.app_settings == loaded(before, now).app_settings,
        stored.created_at == wanted.created_at && stored.updated_at == wanted.updated_at,
        wanted.ordered() ==> stored.ordered(),
{
}

/// A campaign made from a request has one and the same time as the time of
/// its creation and of its last change, is planned and active, and starts
/// at level 1.0.
pub proof fn lemma_created_campaign(
    req: crate::models::campaign::CreateCampaignRequest,
    id: Id,
    made: Timestamp,
)
    ensures
        CampaignView::created(req, id, made).created_at == CampaignView::created(
            req,
            id,
            made,
        ).updated_at,
        CampaignView::created(req, id, made).ordered(),
        CampaignView::created(req, id, made).campaign_info.campaign_status
            == CampaignStatus::Planning,
        CampaignView::created(req, id, made).is_active,
        CampaignView::created(req, id, made).average_level.bits
            == crate::models::campaign::LEVEL_ONE_BITS,
{
}

/// In a well-formed store every campaign was last changed no earlier than
/// it was created, and stands under its own identifier.
pub proof fn lemma_stored_is_ordered(stored: StoredCampaigns, id: Id, now: Timestamp)
    requires
        stored_wf(stored),
        loaded(stored, now).campaign(id) is Some,
    ensures
        loaded(stored, now).campaign(id)->0.ordered(),
        loaded(stored, now).campaign(id)->0.id == id,
{
}

/// Deleting under an identifier that names no campaign fails with `NotFound`
/// and leaves what is stored as it is.
pub proof fn lemma_delete_missing(stored: StoredCampaigns, id: Id, now: Timestamp)
    requires
        !loaded(stored, now).campaigns.contains_key(id),
    ensures
        CampaignStorageService::delete_outcome(stored, id, now).1 == Err::<bool, ErrorView>(
            campaign_not_found(id),
        ),
        stored is Some ==> CampaignStorageService::delete_outcome(stored, id, now).0 == stored,
{
}

/// An active campaign with characters cannot be deleted: the attempt fails
/// with a campaign error and the campaign is still there afterwards.
pub proof fn lemma_delete_guard(stored: StoredCampaigns, id: Id, now: Timestamp)
    requires
        loaded(stored, now).campaign(id) matches Some(c) && c.is_active
            && c.campaign_info.total_characters > 0,
    ensures
        CampaignStorageService::delete_outcome(stored, id, now).1 matches Err(e) && e.kind
            == ErrorKind::CampaignError,
        CampaignStorageService::delete_outcome(stored, id, now).0 == stored,
{
}

/// A transaction that fails stores nothing new: what was stored stays.
pub proof fn lemma_failed_change_stores_nothing(
    stored: StoredCampaigns,
    id: Id,
    mutation: CampaignMutation,
    now: Timestamp,
)
    requires
        stored is Some,
        CampaignStorageService::modify_outcome(stored, id, mutation, now).1 is Err,
    ensures
        CampaignStorageService::modify_outcome(stored, id, mutation, now).0 == stored,
{
}

/// A transaction that succeeds leaves the campaign with the time of the
/// transaction as the time of its last change, and that time is never
/// before the creation of the campaign; the identifier and the time of
/// creation stay.
pub proof fn lemma_change_stamps(
    stored: StoredCampaigns,
    id: Id,
    mutation: CampaignMutation,
    now: Timestamp,
)
    requires
        stored matches Some(c) && c.campaigns.contains_key(id),
        CampaignStorageService::modify_outcome(stored, id, mutation, now).1 is Ok,
    ensures
        ({
            let before = stored->0.campaigns[id];
            let after = CampaignStorageService::modify_outcome(stored, id, mutation, now).1->Ok_0;
            &&& after.updated_at == Timestamp::later_of(now, before.created_at)
            &&& now.not_before(before.created_at) ==> after.updated_at == now
            &&& after.id == before.id
            &&& after.created_at == before.created_at
            &&& after.ordered()
            &&& CampaignStorageService::modify_outcome(
                stored,
                id,
                mutation,
                now,
            ).0->0.campaigns[id] == after
        }),
{
    lemma_change_keeps_identity(stored->0.campaigns[id], mutation, now);
}

/// Pausing a stored campaign that is not running fails with a campaign error
/// and leaves its status as it is; pausing a running one and resuming it
/// leaves it running.
pub proof fn lemma_pause_resume_stored(stored: StoredCampaigns, id: Id, t1: Timestamp, t2: Timestamp)
    requires
        stored matches Some(c) && c.campaigns.contains_key(id),
    ensures
        ({
            let c = stored->0.campaigns[id];
            let paused = CampaignStorageService::modify_outcome(
                stored,
                id,
                CampaignMutation::Pause,
                t1,
            );
            if c.campaign_info.campaign_status != CampaignStatus::Active {
                &&& paused.1 matches Err(e) && e.kind == ErrorKind::CampaignError
                &&& paused.0 == stored
            } else {
                let resumed = CampaignStorageService::modify_outcome(
                    paused.0,
                    id,
                    CampaignMutation::Resume,
                    t2,
                );
                &&& paused.1 is Ok
                &&& resumed.1 matches Ok(again) && again == c.committed(t2)
            }
        }),
{
    let c = stored->0.campaigns[id];
    if c.campaign_info.campaign_status == CampaignStatus::Active {
        let paused = c.with_status(CampaignStatus::OnHold).committed(t1);
        assert(paused.with_status(CampaignStatus::Active).committed(t2) == c.committed(t2));
    }
}

} // verus!
