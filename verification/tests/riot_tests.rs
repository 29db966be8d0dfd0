use kurisu::models::{ChampionMastery, FetchError, NameToId};
use kurisu::riot::{
    bundle_path, first_mastery, identity_url, latest_version, mastery_url, ResolveStep, RiotAPI,
    MASTERY_TTL_MILLIS, SUMMONER_TTL_MILLIS, VERSION_TTL_MILLIS,
};

const MINUTE: i64 = 1000 * 60;

fn identity(name: &str, id: &str) -> NameToId {
    NameToId {
        id: String::from(id),
        account_id: String::from("acct"),
        puuid: String::from("puuid"),
        name: String::from(name),
        profile_icon_id: 1,
        revision_date: 1_600_000_000_000,
        summoner_level: 30,
    }
}

fn mastery(champion_id: u32, points: u32) -> ChampionMastery {
    ChampionMastery {
        champion_id,
        champion_level: 7,
        champion_points: points,
        last_play_time: 1_600_000_000_000,
        champion_points_since_last_level: 100,
        champion_points_until_next_level: 0,
        chest_granted: true,
        tokens_earned: 2,
        summoner_id: String::from("I"),
    }
}

#[test]
fn ttls_match_the_configured_windows() {
    assert_eq!(VERSION_TTL_MILLIS, 45 * MINUTE);
    assert_eq!(SUMMONER_TTL_MILLIS, 30 * MINUTE);
    assert_eq!(MASTERY_TTL_MILLIS, 10 * MINUTE);
}

#[test]
fn fresh_client_needs_identity() {
    let api = RiotAPI::new(String::from("key"));
    assert_eq!(api.api_key(), "key");
    assert!(matches!(
        api.begin_resolution(&String::from("Ari"), 0),
        ResolveStep::NeedIdentity
    ));
}

#[test]
fn chained_resolution_second_call_is_cache_served() {
    let mut api = RiotAPI::new(String::from("key"));
    let name = String::from("Ari");

    // First combined call: both stages miss, exactly one fetch each.
    assert!(matches!(api.begin_resolution(&name, 0), ResolveStep::NeedIdentity));
    let step = api
        .supply_identity(&name, Ok(identity("Ari", "I")), 0)
        .expect("identity fetch succeeded");
    match step {
        ResolveStep::NeedResults(id) => assert_eq!(id, "I"),
        other => panic!("expected a result fetch, got {:?}", other),
    }
    let records = api
        .supply_results(&String::from("I"), Ok(vec![mastery(42, 500)]), 0)
        .expect("result fetch succeeded");
    assert_eq!(records.len(), 1);
    assert_eq!(records[0].champion_id, 42);

    // Second combined call within both windows: no fetch at all.
    match api.begin_resolution(&name, 5 * MINUTE) {
        ResolveStep::Done(cached) => {
            assert_eq!(cached.len(), 1);
            assert_eq!(cached[0].champion_id, 42);
            assert_eq!(cached[0].champion_points, 500);
        }
        other => panic!("expected a cache-served answer, got {:?}", other),
    }
}

#[test]
fn error_propagates_and_skips_the_result_stage() {
    let mut api = RiotAPI::new(String::from("key"));
    let name = String::from("Ari");
    let r = api.supply_identity(&name, Err(FetchError::NotFound), 0);
    assert_eq!(r.unwrap_err(), FetchError::NotFound);
    // The caches were left untouched: the next call starts over.
    assert!(matches!(api.begin_resolution(&name, 0), ResolveStep::NeedIdentity));
}

#[test]
fn result_stage_error_propagates_and_leaves_cache_untouched() {
    let mut api = RiotAPI::new(String::from("key"));
    let name = String::from("Ari");
    api.supply_identity(&name, Ok(identity("Ari", "I")), 0).unwrap();
    let r = api.supply_results(&String::from("I"), Err(FetchError::RateLimited), 0);
    assert_eq!(r.unwrap_err(), FetchError::RateLimited);
    // Identity is still cached, the result stage still needs its fetch.
    match api.begin_resolution(&name, 0) {
        ResolveStep::NeedResults(id) => assert_eq!(id, "I"),
        other => panic!("expected a result fetch, got {:?}", other),
    }
}

#[test]
fn every_error_kind_propagates_unchanged() {
    let errors = [
        FetchError::NotFound,
        FetchError::RateLimited,
        FetchError::Unauthorized,
        FetchError::Transport,
        FetchError::NotConfigured,
    ];
    for err in errors {
        let mut api = RiotAPI::new(String::from("key"));
        let name = String::from("Ari");
        assert_eq!(api.supply_identity(&name, Err(err), 0).unwrap_err(), err);
        assert_eq!(
            api.supply_results(&String::from("I"), Err(err), 0).unwrap_err(),
            err
        );
    }
}

#[test]
fn identity_expiry_forces_refetch_and_rekeys_stage_two() {
    let mut api = RiotAPI::new(String::from("key"));
    let name = String::from("Ari");
    api.supply_identity(&name, Ok(identity("Ari", "I")), 0).unwrap();
    // A later result fetch keeps the result stage fresh past the identity window.
    api.supply_results(&String::from("I"), Ok(vec![mastery(42, 500)]), 25 * MINUTE)
        .unwrap();

    // At 31 units the identity window (30) has elapsed, the result window
    // (25 + 10) has not: identity is re-fetched anyway.
    assert!(matches!(
        api.begin_resolution(&name, 31 * MINUTE),
        ResolveStep::NeedIdentity
    ));

    // The upstream now reports a different internal id: stage two is keyed
    // by the fresh id, and its cache has nothing under it.
    let step = api
        .supply_identity(&name, Ok(identity("Ari", "I2")), 31 * MINUTE)
        .unwrap();
    match step {
        ResolveStep::NeedResults(id) => assert_eq!(id, "I2"),
        other => panic!("expected a result fetch under the new id, got {:?}", other),
    }
}

#[test]
fn identity_refetch_with_same_id_reuses_fresh_results() {
    let mut api = RiotAPI::new(String::from("key"));
    let name = String::from("Ari");
    api.supply_identity(&name, Ok(identity("Ari", "I")), 0).unwrap();
    api.supply_results(&String::from("I"), Ok(vec![mastery(42, 500)]), 25 * MINUTE)
        .unwrap();
    // Identity re-fetched at 31 units comes back with the same id, and the
    // result entry stored at 25 units is still fresh under it.
    let step = api
        .supply_identity(&name, Ok(identity("Ari", "I")), 31 * MINUTE)
        .unwrap();
    match step {
        ResolveStep::Done(records) => assert_eq!(records[0].champion_id, 42),
        other => panic!("expected a cache-served answer, got {:?}", other),
    }
}

#[test]
fn scenario_two_stage_ttl_windows() {
    // TTL(identity) = 30 units, TTL(results) = 10 units, one unit per minute.
    let mut api = RiotAPI::new(String::from("key"));
    let name = String::from("Ari");
    let mut upstream_calls = 0;

    // t = 0: two upstream calls, result cached.
    let mut step = api.begin_resolution(&name, 0);
    assert!(matches!(step, ResolveStep::NeedIdentity));
    upstream_calls += 1;
    step = api.supply_identity(&name, Ok(identity("Ari", "I")), 0).unwrap();
    assert!(matches!(step, ResolveStep::NeedResults(_)));
    upstream_calls += 1;
    api.supply_results(&String::from("I"), Ok(vec![mastery(42, 500)]), 0)
        .unwrap();
    assert_eq!(upstream_calls, 2);

    // t = 5: zero upstream calls, both caches hit.
    assert!(matches!(api.begin_resolution(&name, 5 * MINUTE), ResolveStep::Done(_)));

    // t = 15: one upstream call, results expired but identity still fresh.
    match api.begin_resolution(&name, 15 * MINUTE) {
        ResolveStep::NeedResults(id) => {
            assert_eq!(id, "I");
            upstream_calls += 1;
            api.supply_results(&id, Ok(vec![mastery(42, 600)]), 15 * MINUTE)
                .unwrap();
        }
        other => panic!("expected exactly a result fetch, got {:?}", other),
    }
    assert_eq!(upstream_calls, 3);

    // t = 35: two upstream calls, both windows elapsed.
    step = api.begin_resolution(&name, 35 * MINUTE);
    assert!(matches!(step, ResolveStep::NeedIdentity));
    upstream_calls += 1;
    step = api
        .supply_identity(&name, Ok(identity("Ari", "I")), 35 * MINUTE)
        .unwrap();
    match step {
        ResolveStep::NeedResults(id) => {
            upstream_calls += 1;
            api.supply_results(&id, Ok(vec![mastery(42, 700)]), 35 * MINUTE)
                .unwrap();
        }
        other => panic!("expected a result fetch, got {:?}", other),
    }
    assert_eq!(upstream_calls, 5);
}

#[test]
fn version_cell_starts_expired_and_restamps_on_store() {
    let mut api = RiotAPI::new(String::from("key"));
    assert!(api.version_lookup(1).is_none());
    api.store_version(String::from("13.1.1"), 1000);
    assert_eq!(api.version_lookup(1000).as_deref(), Some("13.1.1"));
    assert_eq!(
        api.version_lookup(1000 + VERSION_TTL_MILLIS).as_deref(),
        Some("13.1.1")
    );
    assert!(api.version_lookup(1001 + VERSION_TTL_MILLIS).is_none());
}

#[test]
fn latest_version_is_the_first_listed() {
    assert_eq!(latest_version(&vec![]), None);
    let versions = vec![
        String::from("13.1.1"),
        String::from("13.1.0"),
        String::from("12.23.1"),
    ];
    assert_eq!(latest_version(&versions).as_deref(), Some("13.1.1"));
}

#[test]
fn routes_are_built_from_their_parts() {
    let api = RiotAPI::new(String::from("key"));
    assert_eq!(
        api.versions_url(),
        "https://ddragon.leagueoflegends.com/api/versions.json"
    );
    assert_eq!(
        api.bundle_url(&String::from("13.1.1")),
        "https://ddragon.leagueoflegends.com/cdn/dragontail-13.1.1.tgz"
    );
    assert_eq!(bundle_path(&String::from("13.1.1")), "./cache/13.1.1.tgz");
    assert_eq!(
        identity_url(&String::from("Ari")),
        "https://na1.api.riotgames.com/lol/summoner/v4/summoners/by-name/Ari"
    );
    assert_eq!(
        mastery_url(&String::from("I")),
        "https://na1.api.riotgames.com/lol/champion-mastery/v4/champion-masteries/by-summoner/I"
    );
}

#[test]
fn first_mastery_is_upstream_order_not_a_sort() {
    assert!(first_mastery(&vec![]).is_none());
    let list = vec![mastery(1, 10), mastery(2, 999)];
    let top = first_mastery(&list).expect("non-empty list has a top record");
    assert_eq!(top.champion_id, 1);
    assert_eq!(top.champion_points, 10);
}

#[test]
fn records_clone_field_for_field() {
    let ident = identity("Ari", "I");
    let c = ident.clone();
    assert_eq!(c.id, "I");
    assert_eq!(c.name, "Ari");
    assert_eq!(c.account_id, "acct");
    assert_eq!(c.puuid, "puuid");
    assert_eq!(c.profile_icon_id, 1);
    assert_eq!(c.revision_date, 1_600_000_000_000);
    assert_eq!(c.summoner_level, 30);
    let m = mastery(42, 500).clone();
    assert_eq!(m.champion_id, 42);
    assert_eq!(m.champion_points, 500);
    assert_eq!(m.summoner_id, "I");
}
