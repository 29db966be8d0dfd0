//! The chained-lookup client for the game-statistics service: a display
//! name resolves to an identity record and its internal id, and the id to a
//! collection of mastery records. Each stage is cached with its own
//! time-to-live, checked cache-aside at read time. The network itself is the
//! caller's: every function here takes the current time and the fetched
//! payloads as plain arguments, so the decisions are verified for every
//! outcome a fetch can have.

use vstd::prelude::*;
use vstd::string::StringExecFns;
use crate::cache::{Cache, CachedValue, map_after_set, map_expired_at, sat_add_i64};
use crate::models::{ChampionMastery, FetchError, NameToId, clone_masteries};

verus! {

/// How long a fetched game version stays fresh.
pub const VERSION_TTL_MILLIS: i64 = 1000 * 60 * 45;

/// How long a resolved identity stays fresh.
pub const SUMMONER_TTL_MILLIS: i64 = 1000 * 60 * 30;

/// How long a fetched mastery collection stays fresh.
pub const MASTERY_TTL_MILLIS: i64 = 1000 * 60 * 10;

/// Routes of the upstream service.
pub struct RiotAPIInfo {
    pub dd_url: String,
}

/// The cached state of the client: one entry per lookup stage, plus the
/// single-value cell for the game version.
pub struct RiotAPICache {
    pub game_version: CachedValue<String>,
    pub summoner_id_cache: Cache<NameToId>,
    pub mastery_cache: Cache<Vec<ChampionMastery>>,
}

/// What the caller must do next to finish a combined resolution.
#[derive(Debug)]
pub enum ResolveStep {
    /// The identity stage is stale or absent: fetch the identity for the
    /// display name, then hand it to `supply_identity`.
    NeedIdentity,
    /// The identity stage is fresh but the result stage is not: fetch the
    /// mastery collection for this internal id, then hand it to
    /// `supply_results`.
    NeedResults(String),
    /// Both stages were fresh: the collection, served from cache alone.
    Done(Vec<ChampionMastery>),
}

/// The lookup client. It owns the two stage caches and the version cell;
/// the credential is configured once at construction and never mutated.
pub struct RiotAPI {
    api_key: String,
    info: RiotAPIInfo,
    cache: RiotAPICache,
}

impl RiotAPI {
    /// The identity cache, as a mapping from display name to stamped entry.
    pub closed spec fn identities(self) -> Map<Seq<char>, CachedValue<NameToId>> {
        self.cache.summoner_id_cache.contents()
    }

    /// The time-to-live of the identity cache.
    pub closed spec fn identity_ttl(self) -> i64 {
        self.cache.summoner_id_cache.ttl()
    }

    /// The mastery cache, as a mapping from internal id to stamped entry.
    pub closed spec fn masteries(self) -> Map<Seq<char>, CachedValue<Vec<ChampionMastery>>> {
        self.cache.mastery_cache.contents()
    }

    /// The time-to-live of the mastery cache.
    pub closed spec fn mastery_ttl(self) -> i64 {
        self.cache.mastery_cache.ttl()
    }

    /// The single cached game-version cell.
    pub closed spec fn version_entry(self) -> CachedValue<String> {
        self.cache.game_version
    }

    /// The configured base route of the static-data service.
    pub closed spec fn dd_url(self) -> String {
        self.info.dd_url
    }

    /// The configured upstream credential.
    pub closed spec fn credential(self) -> String {
        self.api_key
    }

    /// Whether everything but the two stage caches is the same in `post`
    /// as in `pre`: credential, routes and the version cell are untouched
    /// by the resolution pipeline.
    pub open spec fn same_surroundings(pre: RiotAPI, post: RiotAPI) -> bool {
        &&& post.identity_ttl() == pre.identity_ttl()
        &&& post.mastery_ttl() == pre.mastery_ttl()
        &&& post.version_entry() == pre.version_entry()
        &&& post.dd_url() == pre.dd_url()
        &&& post.credential() == pre.credential()
    }

    /// A fresh client around the given credential: both stage caches are
    /// empty, and the version cell starts out already expired so that the
    /// first version read goes upstream.
    pub fn new(api_key: String) -> (r: RiotAPI)
        ensures
            r.identities() == Map::<Seq<char>, CachedValue<NameToId>>::empty(),
            r.masteries() == Map::<Seq<char>, CachedValue<Vec<ChampionMastery>>>::empty(),
            r.identity_ttl() == SUMMONER_TTL_MILLIS,
            r.mastery_ttl() == MASTERY_TTL_MILLIS,
            r.version_entry().value@ == Seq::<char>::empty(),
            r.version_entry().duration == VERSION_TTL_MILLIS,
            r.version_entry().expire_time == 0i64,
            r.dd_url()@ == "https://ddragon.leagueoflegends.com"@,
            r.credential() == api_key,
    {
        RiotAPI {
            api_key,
            info: RiotAPIInfo {
                dd_url: String::from_str("https://ddragon.leagueoflegends.com"),
            },
            cache: RiotAPICache {
                game_version: CachedValue::new_expired(String::new(), VERSION_TTL_MILLIS),
                summoner_id_cache: Cache::new(SUMMONER_TTL_MILLIS),
                mastery_cache: Cache::new(MASTERY_TTL_MILLIS),
            },
        }
    }

    /// The credential to attach to every authenticated upstream request.
    pub fn api_key(&self) -> (r: &String)
        ensures
            *r == self.credential(),
    {
        &self.api_key
    }

    /// Begin a combined resolution for `name` at time `now`: consult the
    /// two stage caches and say what, if anything, must be fetched. The
    /// client itself is not changed.
    pub fn begin_resolution(&self, name: &String, now: i64) -> (r: ResolveStep)
        ensures
            map_expired_at(self.identities(), name@, now as int) ==> r is NeedIdentity,
            (!map_expired_at(self.identities(), name@, now as int) && map_expired_at(
                self.masteries(),
                self.identities()[name@].value.id@,
                now as int,
            )) ==> r == ResolveStep::NeedResults(self.identities()[name@].value.id),
            (!map_expired_at(self.identities(), name@, now as int) && !map_expired_at(
                self.masteries(),
                self.identities()[name@].value.id@,
                now as int,
            )) ==> (r matches ResolveStep::Done(records) && records@ == self.masteries()[self.identities()[name@].value.id@].value@),
    {
        match self.cache.summoner_id_cache.get(name) {
            None => ResolveStep::NeedIdentity,
            Some(entry) => {
                if entry.expired_at(now) {
                    ResolveStep::NeedIdentity
                } else {
                    let id = entry.value.id.clone();
                    match self.cache.mastery_cache.get(&id) {
                        None => ResolveStep::NeedResults(id),
                        Some(records) => {
                            if records.expired_at(now) {
                                ResolveStep::NeedResults(id)
                            } else {
                                ResolveStep::Done(clone_masteries(&records.value))
                            }
                        },
                    }
                }
            },
        }
    }

    /// Take the outcome of an identity fetch for `name` at time `now`. A
    /// failure propagates unchanged and leaves every cache exactly as it
    /// was: a stale identity is never reused in place of a failed refresh,
    /// and the result stage is never consulted. A success is stored under
    /// `name` with the identity time-to-live, and the resolution moves on,
    /// keyed by the id the fresh identity carries.
    pub fn supply_identity(
        &mut self,
        name: &String,
        fetched: Result<NameToId, FetchError>,
        now: i64,
    ) -> (r: Result<ResolveStep, FetchError>)
        ensures
            Self::same_surroundings(*old(self), *final(self)),
            fetched matches Err(e) ==> {
                &&& r == Result::<ResolveStep, FetchError>::Err(e)
                &&& final(self).identities() == old(self).identities()
                &&& final(self).masteries() == old(self).masteries()
            },
            fetched matches Ok(ident) ==> {
                &&& final(self).identities() == map_after_set(
                    old(self).identities(),
                    name@,
                    ident,
                    old(self).identity_ttl(),
                    now as int,
                )
                &&& final(self).masteries() == old(self).masteries()
                &&& (map_expired_at(old(self).masteries(), ident.id@, now as int) ==> r
                    == Result::<ResolveStep, FetchError>::Ok(ResolveStep::NeedResults(ident.id)))
                &&& (!map_expired_at(old(self).masteries(), ident.id@, now as int) ==> (
                r matches Ok(step) && step matches ResolveStep::Done(records) && records@
                    == old(self).masteries()[ident.id@].value@))
            },
    {
        match fetched {
            Err(e) => Err(e),
            Ok(ident) => {
                let id = ident.id.clone();
                self.cache.summoner_id_cache.set_at(name.clone(), ident, now);
                match self.cache.mastery_cache.get(&id) {
                    None => Ok(ResolveStep::NeedResults(id)),
                    Some(records) => {
                        if records.expired_at(now) {
                            Ok(ResolveStep::NeedResults(id))
                        } else {
                            Ok(ResolveStep::Done(clone_masteries(&records.value)))
                        }
                    },
                }
            },
        }
    }

    /// Take the outcome of a mastery fetch for internal id `id` at time
    /// `now`. A failure propagates unchanged and leaves every cache exactly
    /// as it was; the next call simply retries. A success is stored under
    /// `id` with the mastery time-to-live and handed back, record for
    /// record in upstream order.
    pub fn supply_results(
        &mut self,
        id: &String,
        fetched: Result<Vec<ChampionMastery>, FetchError>,
        now: i64,
    ) -> (r: Result<Vec<ChampionMastery>, FetchError>)
        ensures
            Self::same_surroundings(*old(self), *final(self)),
            final(self).identities() == old(self).identities(),
            fetched matches Err(e) ==> {
                &&& r == Result::<Vec<ChampionMastery>, FetchError>::Err(e)
                &&& final(self).masteries() == old(self).masteries()
            },
            fetched matches Ok(records) ==> {
                &&& final(self).masteries() == map_after_set(
                    old(self).masteries(),
                    id@,
                    records,
                    old(self).mastery_ttl(),
                    now as int,
                )
                &&& (r matches Ok(returned) && returned@ == records@)
            },
    {
        match fetched {
            Err(e) => Err(e),
            Ok(records) => {
                let returned = clone_masteries(&records);
                self.cache.mastery_cache.set_at(id.clone(), records, now);
                Ok(returned)
            },
        }
    }

    /// The cached game version, if the cell is still fresh at time `now`.
    pub fn version_lookup(&self, now: i64) -> (r: Option<String>)
        ensures
            now <= self.version_entry().expire_time ==> r == Some(self.version_entry().value),
            now > self.version_entry().expire_time ==> r is None,
    {
        if self.cache.game_version.expired_at(now) {
            None
        } else {
            Some(self.cache.game_version.value.clone())
        }
    }

    /// Store a freshly fetched game version at time `now`, restamping the
    /// cell with the version time-to-live.
    pub fn store_version(&mut self, version: String, now: i64)
        ensures
            final(self).version_entry().value == version,
            final(self).version_entry().duration == old(self).version_entry().duration,
            final(self).version_entry().expire_time as int == sat_add_i64(
                now as int,
                old(self).version_entry().duration as int,
            ),
            final(self).identities() == old(self).identities(),
            final(self).masteries() == old(self).masteries(),
            final(self).identity_ttl() == old(self).identity_ttl(),
            final(self).mastery_ttl() == old(self).mastery_ttl(),
            final(self).dd_url() == old(self).dd_url(),
            final(self).credential() == old(self).credential(),
    {
        self.cache.game_version.update_at(version, now);
    }

    /// The route of the version metadata endpoint.
    pub fn versions_url(&self) -> (r: String)
        ensures
            r@ == self.dd_url()@ + "/api/versions.json"@,
    {
        let mut url = self.info.dd_url.clone();
        url.append("/api/versions.json");
        url
    }

    /// The route of the versioned static-data archive.
    pub fn bundle_url(&self, version: &String) -> (r: String)
        ensures
            r@ == self.dd_url()@ + "/cdn/dragontail-"@ + version@ + ".tgz"@,
    {
        let mut url = self.info.dd_url.clone();
        url.append("/cdn/dragontail-");
        url.append(version.as_str());
        url.append(".tgz");
        url
    }
}

/// The authoritative latest version of an upstream version listing: its
/// first element, if the listing is not empty.
pub fn latest_version(versions: &Vec<String>) -> (r: Option<String>)
    ensures
        versions@.len() == 0 <==> r is None,
        versions@.len() > 0 ==> r == Some(versions@[0]),
{
    if versions.len() == 0 {
        None
    } else {
        Some(versions[0].clone())
    }
}

/// The local artifact that a downloaded static-data bundle of the given
/// version is persisted under: the bundle is re-fetched only when no such
/// artifact exists, not on a clock.
pub fn bundle_path(version: &String) -> (r: String)
    ensures
        r@ == "./cache/"@ + version@ + ".tgz"@,
{
    let mut path = String::from_str("./cache/");
    path.append(version.as_str());
    path.append(".tgz");
    path
}

/// The route of the authenticated identity endpoint for a display name.
/// The name is passed through as given: the upstream service owns name
/// matching, so nothing is normalized here.
pub fn identity_url(name: &String) -> (r: String)
    ensures
        r@ == "https://na1.api.riotgames.com/lol/summoner/v4/summoners/by-name/"@ + name@,
{
    let mut url = String::from_str(
        "https://na1.api.riotgames.com/lol/summoner/v4/summoners/by-name/",
    );
    url.append(name.as_str());
    url
}

/// The route of the authenticated mastery endpoint for an internal id.
pub fn mastery_url(id: &String) -> (r: String)
    ensures
        r@ == "https://na1.api.riotgames.com/lol/champion-mastery/v4/champion-masteries/by-summoner/"@
            + id@,
{
    let mut url = String::from_str(
        "https://na1.api.riotgames.com/lol/champion-mastery/v4/champion-masteries/by-summoner/",
    );
    url.append(id.as_str());
    url
}

/// The record to present as the top of a collection: the first one, in the
/// order the upstream returned. Nothing is re-sorted here; a caller that
/// wants another order must sort explicitly.
pub fn first_mastery(list: &Vec<ChampionMastery>) -> (r: Option<&ChampionMastery>)
    ensures
        list@.len() == 0 <==> r is None,
        r matches Some(top) ==> *top == list@[0],
{
    if list.len() == 0 {
        None
    } else {
        Some(&list[0])
    }
}

/// Chained resolution, served from cache: after one full miss-resolution
/// for `name` at time `t0` stored the fetched identity and the fetched
/// records (one identity fetch, one result fetch), a second combined call
/// at any time `t1` within both time-to-live windows finds both stages
/// fresh, with that identity and those records: `begin_resolution` then
/// answers `Done` with the same records and asks for no fetch at all.
pub proof fn lemma_chained_resolution_cached(
    ids: Map<Seq<char>, CachedValue<NameToId>>,
    mas: Map<Seq<char>, CachedValue<Vec<ChampionMastery>>>,
    name: Seq<char>,
    ident: NameToId,
    records: Vec<ChampionMastery>,
    id_ttl: i64,
    m_ttl: i64,
    t0: int,
    t1: int,
)
    requires
        t1 <= sat_add_i64(t0, id_ttl as int),
        t1 <= sat_add_i64(t0, m_ttl as int),
    ensures
        !map_expired_at(map_after_set(ids, name, ident, id_ttl, t0), name, t1),
        map_after_set(ids, name, ident, id_ttl, t0)[name].value == ident,
        !map_expired_at(map_after_set(mas, ident.id@, records, m_ttl, t0), ident.id@, t1),
        map_after_set(mas, ident.id@, records, m_ttl, t0)[ident.id@].value == records,
{
}

/// Idempotent re-fetch after expiry: once the identity time-to-live has
/// elapsed, the identity stored at `t0` reads as expired at `t2`, however
/// fresh the result stage still is, so `begin_resolution` answers
/// `NeedIdentity` and the identity is fetched again; `supply_identity` then
/// keys the second stage by the id the fresh identity carries, whether or
/// not it is the old one.
pub proof fn lemma_identity_expiry_forces_refetch(
    ids: Map<Seq<char>, CachedValue<NameToId>>,
    name: Seq<char>,
    ident: NameToId,
    id_ttl: i64,
    t0: int,
    t2: int,
)
    requires
        t2 > sat_add_i64(t0, id_ttl as int),
    ensures
        map_expired_at(map_after_set(ids, name, ident, id_ttl, t0), name, t2),
{
}

} // verus!
