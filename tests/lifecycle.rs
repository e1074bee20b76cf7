use governance::contract::{execute, instantiate, migrate, query, QueryResponse};
use governance::errors::{ContractError, StdError, StoredKind};
use governance::execute::{
    execute_new_vote, execute_pause, execute_toogle_required_coin, execute_toogle_whitelist,
    execute_unpause, execute_vote, has_required_funds, parse_ballot, Ballot,
};
use governance::queries::{query_get_stats, query_get_vote, query_get_votes_titles};
use governance::state::{Stats, Storage};
use governance::types::{Coin, ExecuteMsg, InstantiateMsg, MessageInfo, MigrateMsg, QueryMsg};

fn coin(amount: u128, denom: &str) -> Coin {
    Coin { denom: denom.to_string(), amount }
}

fn info(sender: &str, funds: Vec<Coin>) -> MessageInfo {
    MessageInfo { sender: sender.to_string(), funds }
}

fn setup(admins: &[&str]) -> Storage {
    let mut st = Storage::new();
    let msg = InstantiateMsg { admins: admins.iter().map(|a| a.to_string()).collect() };
    instantiate(&mut st, info("owner", vec![]), msg).unwrap();
    st
}

fn open_vote(st: &mut Storage, title: &str, whitelist_on: bool, whitelist: &[&str], coins_on: bool) {
    execute_new_vote(
        st,
        info("owner", vec![]),
        title.to_string(),
        1,
        1,
        whitelist_on,
        whitelist.iter().map(|a| a.to_string()).collect(),
        coins_on,
        coin(1, "test"),
    )
    .unwrap();
}

fn ballot(st: &mut Storage, voter: &str, choice: &str, title: &str, funds: Vec<Coin>) -> Result<(), ContractError> {
    execute_vote(st, info(voter, funds), choice.to_string(), title.to_string()).map(|_| ())
}

fn stats(st: &Storage) -> Stats {
    query_get_stats(st).unwrap()
}

#[test]
fn tallies_add_up_to_voters() {
    let mut st = setup(&[]);
    open_vote(&mut st, "T", false, &[], false);
    let choices = ["For", "Against", "Abstain", "For", "Maybe", "For"];
    for (i, c) in choices.iter().enumerate() {
        let _ = ballot(&mut st, &format!("v{}", i), c, "T", vec![]);
        let v = query_get_vote(&st, "T".to_string()).unwrap().unwrap();
        assert_eq!(
            (v.votes_for + v.votes_against + v.votes_abstain) as usize,
            v.already_participate.len()
        );
    }
    let v = query_get_vote(&st, "T".to_string()).unwrap().unwrap();
    assert_eq!((v.votes_for, v.votes_against, v.votes_abstain), (3, 1, 1));
    assert_eq!(v.already_participate.len(), 5);
}

#[test]
fn voter_cannot_vote_twice() {
    let mut st = setup(&[]);
    open_vote(&mut st, "T", true, &["w"], true);
    ballot(&mut st, "w", "For", "T", vec![coin(5, "test")]).unwrap();
    for c in ["For", "Against", "Abstain", "nonsense"] {
        assert_eq!(ballot(&mut st, "w", c, "T", vec![coin(5, "test")]), Err(ContractError::VoterAlreadyParticipate {}));
    }
    execute_toogle_whitelist(&mut st, info("owner", vec![]), "T".to_string()).unwrap();
    execute_toogle_required_coin(&mut st, info("owner", vec![]), "T".to_string()).unwrap();
    assert_eq!(ballot(&mut st, "w", "Against", "T", vec![]), Err(ContractError::VoterAlreadyParticipate {}));
    let v = query_get_vote(&st, "T".to_string()).unwrap().unwrap();
    assert_eq!(v.votes_for, 1);
    assert_eq!(v.votes_against, 0);
}

#[test]
fn percentage_above_hundred_is_refused() {
    let mut st = setup(&[]);
    let r = execute_new_vote(&mut st, info("owner", vec![]), "Q".to_string(), 1, 101, false, vec![], false, coin(1, "test"));
    assert_eq!(r.unwrap_err(), ContractError::WrongVotesPercentage {});
    assert!(query_get_votes_titles(&st).unwrap().is_empty());
    assert!(query_get_vote(&st, "Q".to_string()).unwrap().is_none());
    assert_eq!(stats(&st).in_progress, 0);
}

#[test]
fn negative_rules_are_refused() {
    let mut st = setup(&[]);
    let r = execute_new_vote(&mut st, info("owner", vec![]), "Q".to_string(), 1, -1, false, vec![], false, coin(1, "test"));
    assert_eq!(r.unwrap_err(), ContractError::WrongVotesPercentage {});
    let r = execute_new_vote(&mut st, info("owner", vec![]), "Q".to_string(), -1, 50, false, vec![], false, coin(1, "test"));
    assert_eq!(r.unwrap_err(), ContractError::VoteCountCannotBeNegative {});
    let r = execute_new_vote(&mut st, info("owner", vec![]), "Q".to_string(), 0, 100, false, vec![], false, coin(1, "test"));
    assert!(r.is_ok());
}

#[test]
fn pause_moves_one_unit_once() {
    let mut st = setup(&[]);
    open_vote(&mut st, "A", false, &[], false);
    open_vote(&mut st, "B", false, &[], false);
    assert_eq!(stats(&st), Stats { rejected_votes: 0, accepted: 0, in_progress: 2, paused: 0 });
    let r = execute_pause(&mut st, info("owner", vec![]), "A".to_string()).unwrap();
    assert_eq!(r.attributes[0].value, "execute pause");
    assert_eq!(stats(&st), Stats { rejected_votes: 0, accepted: 0, in_progress: 1, paused: 1 });
    let r = execute_pause(&mut st, info("owner", vec![]), "A".to_string()).unwrap();
    assert_eq!(r.attributes[0].value, "voting is already paused");
    assert_eq!(stats(&st), Stats { rejected_votes: 0, accepted: 0, in_progress: 1, paused: 1 });
    execute_unpause(&mut st, info("owner", vec![]), "A".to_string()).unwrap();
    assert_eq!(stats(&st), Stats { rejected_votes: 0, accepted: 0, in_progress: 2, paused: 0 });
    let r = execute_unpause(&mut st, info("owner", vec![]), "A".to_string()).unwrap();
    assert_eq!(r.attributes[0].value, "voting is already unpaused");
    assert_eq!(stats(&st).in_progress, 2);
}

#[test]
fn paused_vote_refuses_everyone() {
    let mut st = setup(&["admin"]);
    open_vote(&mut st, "T", false, &[], false);
    execute_pause(&mut st, info("admin", vec![]), "T".to_string()).unwrap();
    for voter in ["owner", "admin", "someone"] {
        assert_eq!(ballot(&mut st, voter, "For", "T", vec![]), Err(ContractError::VoteIsPaused {}));
    }
    execute_unpause(&mut st, info("owner", vec![]), "T".to_string()).unwrap();
    ballot(&mut st, "someone", "For", "T", vec![]).unwrap();
}

#[test]
fn whitelist_admits_members_and_owner() {
    let mut st = setup(&[]);
    open_vote(&mut st, "T", true, &["W"], false);
    ballot(&mut st, "W", "For", "T", vec![]).unwrap();
    ballot(&mut st, "owner", "Against", "T", vec![]).unwrap();
    assert_eq!(ballot(&mut st, "X", "For", "T", vec![]), Err(ContractError::SenderIsNotWhitelisted {}));
    execute_toogle_whitelist(&mut st, info("owner", vec![]), "T".to_string()).unwrap();
    assert_eq!(query_get_vote(&st, "T".to_string()).unwrap().unwrap().whitelist_on, false);
    ballot(&mut st, "X", "For", "T", vec![]).unwrap();
}

#[test]
fn coin_gate_needs_the_right_funds() {
    let mut st = setup(&[]);
    open_vote(&mut st, "T", false, &[], true);
    assert_eq!(ballot(&mut st, "u", "For", "T", vec![]), Err(ContractError::SenderDoNotHaveEnoughAmount {}));
    assert_eq!(
        ballot(&mut st, "u", "For", "T", vec![coin(1000, "earth")]),
        Err(ContractError::SenderDoNotHaveEnoughAmount {})
    );
    ballot(&mut st, "u", "For", "T", vec![coin(1, "test")]).unwrap();
    execute_toogle_required_coin(&mut st, info("owner", vec![]), "T".to_string()).unwrap();
    ballot(&mut st, "v", "For", "T", vec![]).unwrap();
}

#[test]
fn first_coin_of_the_denom_decides() {
    let required = coin(3, "test");
    assert!(!has_required_funds(&required, &vec![coin(1, "test"), coin(10, "test")]));
    assert!(has_required_funds(&required, &vec![coin(10, "earth"), coin(3, "test"), coin(0, "test")]));
    assert!(!has_required_funds(&required, &vec![]));
}

#[test]
fn end_to_end_scenario() {
    let mut st = setup(&[]);
    execute(
        &mut st,
        info("owner", vec![]),
        ExecuteMsg::CreateNewVote {
            title: "Q1".to_string(),
            min_votes_count: 1,
            required_votes_percentage: 1,
            whitelist_on: false,
            whitelist: vec![],
            required_coins_on: false,
            required_coin: coin(1, "test"),
        },
    )
    .unwrap();
    assert_eq!(query_get_votes_titles(&st).unwrap(), vec!["Q1".to_string()]);
    assert_eq!(stats(&st).in_progress, 1);
    execute(&mut st, info("voter", vec![]), ExecuteMsg::Vote { vote: "For".to_string(), title: "Q1".to_string() }).unwrap();
    assert_eq!(query_get_vote(&st, "Q1".to_string()).unwrap().unwrap().votes_for, 1);
    execute(&mut st, info("owner", vec![]), ExecuteMsg::Pause { title: "Q1".to_string() }).unwrap();
    assert_eq!(stats(&st), Stats { rejected_votes: 0, accepted: 0, in_progress: 0, paused: 1 });
    let r = execute(&mut st, info("voter", vec![]), ExecuteMsg::Vote { vote: "For".to_string(), title: "Q1".to_string() });
    assert!(matches!(r, Err(ContractError::VoterAlreadyParticipate {}) | Err(ContractError::VoteIsPaused {})));
    let r = execute(&mut st, info("other", vec![]), ExecuteMsg::Vote { vote: "For".to_string(), title: "Q1".to_string() });
    assert_eq!(r.unwrap_err(), ContractError::VoteIsPaused {});
}

#[test]
fn administration_needs_rights() {
    let mut st = setup(&["admin"]);
    let r = execute_new_vote(&mut st, info("nobody", vec![]), "T".to_string(), 1, 1, false, vec![], false, coin(1, "test"));
    assert_eq!(r.unwrap_err(), ContractError::SenderIsNotAdmin {});
    let r = execute_new_vote(&mut st, info("admin", vec![]), "T".to_string(), 1, 1, false, vec![], false, coin(1, "test"));
    assert_eq!(r.unwrap().attributes[0].value, "Added");
    assert_eq!(query_get_vote(&st, "T".to_string()).unwrap().unwrap().creator, "admin");
    for r in [
        execute_pause(&mut st, info("nobody", vec![]), "T".to_string()),
        execute_unpause(&mut st, info("nobody", vec![]), "T".to_string()),
        execute_toogle_whitelist(&mut st, info("nobody", vec![]), "T".to_string()),
        execute_toogle_required_coin(&mut st, info("nobody", vec![]), "T".to_string()),
    ] {
        assert_eq!(r.unwrap_err(), ContractError::SenderIsNotAdmin {});
    }
    assert_eq!(stats(&st).paused, 0);
}

#[test]
fn duplicate_and_missing_titles() {
    let mut st = setup(&[]);
    open_vote(&mut st, "T", false, &[], false);
    let r = execute_new_vote(&mut st, info("owner", vec![]), "T".to_string(), 1, 1, false, vec![], false, coin(1, "test"));
    assert_eq!(r.unwrap_err(), ContractError::VoteAlreadyExist {});
    assert_eq!(query_get_votes_titles(&st).unwrap().len(), 1);
    assert_eq!(stats(&st).in_progress, 1);
    assert_eq!(ballot(&mut st, "v", "For", "U", vec![]), Err(ContractError::CannotFindVote {}));
    let r = execute_pause(&mut st, info("owner", vec![]), "U".to_string());
    assert_eq!(r.unwrap_err(), ContractError::CannotFindVote {});
}

#[test]
fn unknown_choice_is_refused() {
    let mut st = setup(&[]);
    open_vote(&mut st, "T", false, &[], false);
    assert_eq!(ballot(&mut st, "v", "for", "T", vec![]), Err(ContractError::VoteNotValid {}));
    assert!(query_get_vote(&st, "T".to_string()).unwrap().unwrap().already_participate.is_empty());
    assert_eq!(parse_ballot(&"Abstain".to_string()), Some(Ballot::Abstain));
    assert_eq!(parse_ballot(&"Against".to_string()), Some(Ballot::Against));
    assert_eq!(parse_ballot(&"".to_string()), None);
}

#[test]
fn missing_configuration_is_reported() {
    let mut st = Storage::new();
    let r = execute_new_vote(&mut st, info("owner", vec![]), "T".to_string(), 1, 1, false, vec![], false, coin(1, "test"));
    assert_eq!(r.unwrap_err(), ContractError::Std(StdError::NotFound { kind: StoredKind::Config }));
    let r = query(&st, QueryMsg::GetStats {});
    assert!(matches!(r, Err(ContractError::Std(StdError::NotFound { kind: StoredKind::Stats }))));
    let r = query(&st, QueryMsg::GetVote { title: "T".to_string() });
    assert!(matches!(r, Ok(QueryResponse::Vote(None))));
}

#[test]
fn migrate_changes_nothing() {
    let mut st = setup(&[]);
    open_vote(&mut st, "T", false, &[], false);
    let r = migrate(&mut st, MigrateMsg {}).unwrap();
    assert!(r.attributes.is_empty());
    assert_eq!(query_get_votes_titles(&st).unwrap(), vec!["T".to_string()]);
}
