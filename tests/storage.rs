use governance::guards::{already_participate, is_admin, is_owner, is_vote, is_whitelisted};
use governance::contract::instantiate;
use governance::errors::{ContractError, StdError, StoredKind};
use governance::state::{
    load_vote, may_load_vote, read_config, read_stats, store_config, store_stats, store_vote,
    update_config, update_stats, update_vote, Config, Stats, Storage, VoteStatus,
};
use governance::stats::{add_new_vote, set_to_accepted, set_to_paused, set_to_rejected, set_to_un_paused};
use governance::types::{Coin, InstantiateMsg, MessageInfo, Response};

fn record(creator: &str) -> VoteStatus {
    VoteStatus {
        paused: false,
        votes_for: 0,
        votes_against: 0,
        votes_abstain: 0,
        creator: creator.to_string(),
        min_votes_count: 0,
        required_votes_percentage: 50,
        already_participate: vec!["a".to_string()],
        whitelist_on: true,
        whitelist: vec!["w".to_string()],
        required_coins_on: false,
        required_coins: Coin { denom: "test".to_string(), amount: 1 },
    }
}

fn zero() -> Stats {
    Stats { rejected_votes: 0, accepted: 0, in_progress: 0, paused: 0 }
}

#[test]
fn config_round_trip() {
    let mut st = Storage::new();
    assert_eq!(read_config(&st).err(), Some(StdError::NotFound { kind: StoredKind::Config }));
    let c = Config { owner: "o".to_string(), admins: vec!["a".to_string()], votes_titles: vec![] };
    store_config(&mut st, &c).unwrap();
    assert_eq!(read_config(&st).unwrap().owner, "o");
    let r = update_config(&mut st, |mut c: Config| -> Result<Config, ContractError> {
        c.votes_titles.push("t".to_string());
        Ok(c)
    });
    assert_eq!(r.unwrap().votes_titles, vec!["t".to_string()]);
    let r = update_config(&mut st, |_c: Config| -> Result<Config, ContractError> { Err(ContractError::Unauthorized {}) });
    assert_eq!(r.err(), Some(ContractError::Unauthorized {}));
    assert_eq!(read_config(&st).unwrap().votes_titles.len(), 1);
    assert_eq!(is_admin(&st, "a".to_string()), Ok(true));
    assert_eq!(is_admin(&st, "o".to_string()), Ok(false));
    assert_eq!(is_owner(&st, "o".to_string()), Ok(true));
    assert_eq!(is_owner(&st, "a".to_string()), Ok(false));
    assert_eq!(is_vote(&st, "t".to_string()), Ok(true));
    assert_eq!(is_vote(&st, "u".to_string()), Ok(false));
}

#[test]
fn checks_need_a_configuration() {
    let st = Storage::new();
    let missing = ContractError::Std(StdError::NotFound { kind: StoredKind::Config });
    assert_eq!(is_admin(&st, "a".to_string()), Err(missing));
    assert_eq!(is_owner(&st, "a".to_string()), Err(missing));
    assert_eq!(is_vote(&st, "a".to_string()), Err(missing));
}

#[test]
fn vote_records_by_title() {
    let mut st = Storage::new();
    assert!(may_load_vote(&st, &"t".to_string()).unwrap().is_none());
    assert_eq!(load_vote(&st, &"t".to_string()).err(), Some(StdError::NotFound { kind: StoredKind::Vote }));
    store_vote(&mut st, &"t".to_string(), record("x")).unwrap();
    store_vote(&mut st, &"u".to_string(), record("y")).unwrap();
    store_vote(&mut st, &"t".to_string(), record("z")).unwrap();
    assert_eq!(load_vote(&st, &"t".to_string()).unwrap().creator, "z");
    assert_eq!(load_vote(&st, &"u".to_string()).unwrap().creator, "y");
    let r = update_vote(&mut st, &"u".to_string(), |v: Option<VoteStatus>| -> Result<VoteStatus, ContractError> {
        let mut v = v.unwrap();
        v.votes_for += 1;
        Ok(v)
    });
    assert_eq!(r.unwrap().votes_for, 1);
    assert_eq!(load_vote(&st, &"u".to_string()).unwrap().votes_for, 1);
    let r = update_vote(&mut st, &"n".to_string(), |_v: Option<VoteStatus>| -> Result<VoteStatus, ContractError> {
        Ok(record("made"))
    });
    assert_eq!(r.err(), Some(ContractError::Std(StdError::NotFound { kind: StoredKind::Vote })));
    assert!(may_load_vote(&st, &"n".to_string()).unwrap().is_none());
}

#[test]
fn membership_checks() {
    let v = record("x");
    assert_eq!(already_participate(record("x"), "a".to_string()), Ok(true));
    assert_eq!(already_participate(record("x"), "b".to_string()), Ok(false));
    assert_eq!(is_whitelisted(record("x"), "w".to_string()), Ok(true));
    assert_eq!(is_whitelisted(v, "a".to_string()), Ok(false));
}

#[test]
fn statistics_counters() {
    let mut st = Storage::new();
    assert_eq!(add_new_vote(&mut st), Err(ContractError::Std(StdError::NotFound { kind: StoredKind::Stats })));
    store_stats(&mut st, &zero()).unwrap();
    assert_eq!(add_new_vote(&mut st).unwrap().in_progress, 1);
    add_new_vote(&mut st).unwrap();
    add_new_vote(&mut st).unwrap();
    set_to_paused(&mut st).unwrap();
    set_to_accepted(&mut st).unwrap();
    set_to_rejected(&mut st).unwrap();
    assert_eq!(read_stats(&st).unwrap(), Stats { rejected_votes: 1, accepted: 1, in_progress: 0, paused: 1 });
    assert_eq!(set_to_un_paused(&mut st).unwrap(), Stats { rejected_votes: 1, accepted: 1, in_progress: 1, paused: 0 });
    let r = update_stats(&mut st, |s: Stats| -> Result<Stats, ContractError> { Ok(Stats { accepted: 7, ..s }) });
    assert_eq!(r.unwrap().accepted, 7);
}

#[test]
fn counters_refuse_to_overflow() {
    let mut st = Storage::new();
    let full = Stats { rejected_votes: 0, accepted: 0, in_progress: i32::MAX, paused: i32::MAX };
    store_stats(&mut st, &full).unwrap();
    let overflow = ContractError::Std(StdError::Overflow {});
    assert_eq!(add_new_vote(&mut st), Err(overflow));
    assert_eq!(set_to_paused(&mut st), Err(overflow));
    assert_eq!(set_to_un_paused(&mut st), Err(overflow));
    assert_eq!(read_stats(&st).unwrap(), full);
}

#[test]
fn instantiate_reports_its_owner() {
    let mut st = Storage::new();
    let info = MessageInfo { sender: "boss".to_string(), funds: vec![] };
    let r: Response = instantiate(&mut st, info, InstantiateMsg { admins: vec![] }).unwrap();
    assert_eq!(r.attributes[0].key, "method");
    assert_eq!(r.attributes[0].value, "instantiate");
    assert_eq!(r.attributes[1].key, "owner");
    assert_eq!(r.attributes[1].value, "boss");
    assert_eq!(read_stats(&st).unwrap(), zero());
    assert_eq!(read_config(&st).unwrap().owner, "boss");
}

#[test]
fn create_refuses_an_unlisted_record() {
    let mut st = Storage::new();
    instantiate(&mut st, MessageInfo { sender: "o".to_string(), funds: vec![] }, InstantiateMsg { admins: vec![] }).unwrap();
    let mut paused = record("x");
    paused.paused = true;
    store_vote(&mut st, &"X".to_string(), paused).unwrap();
    store_stats(&mut st, &Stats { rejected_votes: 0, accepted: 0, in_progress: 0, paused: 1 }).unwrap();
    let r = governance::execute::execute_new_vote(
        &mut st,
        MessageInfo { sender: "o".to_string(), funds: vec![] },
        "X".to_string(),
        1,
        1,
        false,
        vec![],
        false,
        Coin { denom: "test".to_string(), amount: 1 },
    );
    assert_eq!(r.unwrap_err(), ContractError::VoteAlreadyExist {});
    assert!(load_vote(&st, &"X".to_string()).unwrap().paused);
    assert_eq!(read_stats(&st).unwrap().paused, 1);
    assert!(read_config(&st).unwrap().votes_titles.is_empty());
}
