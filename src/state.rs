use vstd::prelude::*;
use crate::errors::{ContractError, StdError, StoredKind};
use crate::types::{addrs, Addr, Coin, CoinView};

verus! {

/// The singleton configuration of a deployment.
pub struct Config {
    pub owner: Addr,
    pub admins: Vec<Addr>,
    pub votes_titles: Vec<String>,
}

pub struct ConfigView {
    pub owner: Seq<char>,
    pub admins: Seq<Seq<char>>,
    pub votes_titles: Seq<Seq<char>>,
}

impl View for Config {
    type V = ConfigView;

    open spec fn view(&self) -> ConfigView {
        ConfigView {
            owner: self.owner@,
            admins: addrs(self.admins@),
            votes_titles: addrs(self.votes_titles@),
        }
    }
}

impl Clone for Config {
    fn clone(&self) -> (r: Config)
        ensures
            r@ == self@,
    {
        Config {
            owner: self.owner.clone(),
            admins: crate::types::clone_addrs(&self.admins),
            votes_titles: crate::types::clone_addrs(&self.votes_titles),
        }
    }
}

/// The global counters of votes by state.
#[derive(Clone, Copy, Debug, PartialEq, Eq, Structural)]
pub struct Stats {
    pub rejected_votes: i32,
    pub accepted: i32,
    pub in_progress: i32,
    pub paused: i32,
}

/// One vote: its rules, its tally and who took part.
pub struct VoteStatus {
    pub paused: bool,
    pub votes_for: i32,
    pub votes_against: i32,
    pub votes_abstain: i32,
    pub creator: Addr,
    pub min_votes_count: i32,
    pub required_votes_percentage: i32,
    pub already_participate: Vec<Addr>,
    pub whitelist_on: bool,
    pub whitelist: Vec<Addr>,
    pub required_coins_on: bool,
    pub required_coins: Coin,
}

pub struct VoteView {
    pub paused: bool,
    pub votes_for: i32,
    pub votes_against: i32,
    pub votes_abstain: i32,
    pub creator: Seq<char>,
    pub min_votes_count: i32,
    pub required_votes_percentage: i32,
    pub already_participate: Seq<Seq<char>>,
    pub whitelist_on: bool,
    pub whitelist: Seq<Seq<char>>,
    pub required_coins_on: bool,
    pub required_coins: CoinView,
}

impl View for VoteStatus {
    type V = VoteView;

    open spec fn view(&self) -> VoteView {
        VoteView {
            paused: self.paused,
            votes_for: self.votes_for,
            votes_against: self.votes_against,
            votes_abstain: self.votes_abstain,
            creator: self.creator@,
            min_votes_count: self.min_votes_count,
            required_votes_percentage: self.required_votes_percentage,
            already_participate: addrs(self.already_participate@),
            whitelist_on: self.whitelist_on,
            whitelist: addrs(self.whitelist@),
            required_coins_on: self.required_coins_on,
            required_coins: self.required_coins@,
        }
    }
}

impl Clone for VoteStatus {
    fn clone(&self) -> (r: VoteStatus)
        ensures
            r@ == self@,
    {
        VoteStatus {
            paused: self.paused,
            votes_for: self.votes_for,
            votes_against: self.votes_against,
            votes_abstain: self.votes_abstain,
            creator: self.creator.clone(),
            min_votes_count: self.min_votes_count,
            required_votes_percentage: self.required_votes_percentage,
            already_participate: crate::types::clone_addrs(&self.already_participate),
            whitelist_on: self.whitelist_on,
            whitelist: crate::types::clone_addrs(&self.whitelist),
            required_coins_on: self.required_coins_on,
            required_coins: self.required_coins.clone(),
        }
    }
}

/// An optional vote record, as plain values.
pub open spec fn vote_view_opt(v: Option<VoteStatus>) -> Option<VoteView> {
    match v {
        Some(x) => Some(x@),
        None => None,
    }
}

/// The keyed store of the engine: the configuration, the statistics and
/// the vote records by title.
pub struct Storage {
    config: Option<Config>,
    stats: Option<Stats>,
    votes: Vec<(String, VoteStatus)>,
}

/// The store as plain values.
pub struct StorageView {
    pub config: Option<ConfigView>,
    pub stats: Option<Stats>,
    pub votes: Map<Seq<char>, VoteView>,
}

/// No two entries of the list have the same title.
pub open spec fn keys_unique(e: Seq<(String, VoteStatus)>) -> bool {
    forall|i: int, j: int|
        0 <= i < e.len() && 0 <= j < e.len() && #[trigger] e[i].0@ == #[trigger] e[j].0@ ==> i == j
}

/// The map from title to record that a list of entries holds.
pub open spec fn votes_map(e: Seq<(String, VoteStatus)>) -> Map<Seq<char>, VoteView> {
    Map::new(
        |t: Seq<char>| exists|i: int| 0 <= i < e.len() && e[i].0@ == t,
        |t: Seq<char>| e[choose|i: int| 0 <= i < e.len() && e[i].0@ == t].1@,
    )
}

impl View for Storage {
    type V = StorageView;

    closed spec fn view(&self) -> StorageView {
        StorageView {
            config: match self.config {
                Some(c) => Some(c@),
                None => None,
            },
            stats: self.stats,
            votes: votes_map(self.votes@),
        }
    }
}

proof fn lemma_votes_lookup(e: Seq<(String, VoteStatus)>, i: int)
    requires
        keys_unique(e),
        0 <= i < e.len(),
    ensures
        votes_map(e).contains_key(e[i].0@),
        votes_map(e)[e[i].0@] == e[i].1@,
{
    let t = e[i].0@;
    assert(exists|k: int| 0 <= k < e.len() && e[k].0@ == t);
    let k = choose|k: int| 0 <= k < e.len() && e[k].0@ == t;
    assert(e[k].0@ == e[i].0@);
}

proof fn lemma_votes_update(e: Seq<(String, VoteStatus)>, i: int, v: VoteStatus)
    requires
        keys_unique(e),
        0 <= i < e.len(),
    ensures
        keys_unique(e.update(i, (e[i].0, v))),
        votes_map(e.update(i, (e[i].0, v))) == votes_map(e).insert(e[i].0@, v@),
{
    let e2 = e.update(i, (e[i].0, v));
    let t = e[i].0@;
    assert forall|a: int, b: int|
        0 <= a < e2.len() && 0 <= b < e2.len() && #[trigger] e2[a].0@ == #[trigger] e2[b].0@ implies a == b by {
        assert(e2[a].0@ == e[a].0@);
        assert(e2[b].0@ == e[b].0@);
    }
    lemma_votes_lookup(e2, i);
    assert forall|k: Seq<char>| #[trigger] votes_map(e2).contains_key(k) == votes_map(e).insert(t, v@).contains_key(k) by {
        if votes_map(e2).contains_key(k) {
            let a = choose|a: int| 0 <= a < e2.len() && e2[a].0@ == k;
            assert(e[a].0@ == k);
        }
        if votes_map(e).contains_key(k) {
            let a = choose|a: int| 0 <= a < e.len() && e[a].0@ == k;
            assert(e2[a].0@ == k);
        }
    }
    assert forall|k: Seq<char>| votes_map(e2).contains_key(k) implies #[trigger] votes_map(e2)[k] == votes_map(e).insert(t, v@)[k] by {
        if k != t {
            let a = choose|a: int| 0 <= a < e2.len() && e2[a].0@ == k;
            assert(a != i);
            assert(e[a].0@ == k);
            lemma_votes_lookup(e2, a);
            lemma_votes_lookup(e, a);
        }
    }
    assert(votes_map(e2) =~= votes_map(e).insert(t, v@));
}

proof fn lemma_votes_push(e: Seq<(String, VoteStatus)>, k: String, v: VoteStatus)
    requires
        keys_unique(e),
        !votes_map(e).contains_key(k@),
    ensures
        keys_unique(e.push((k, v))),
        votes_map(e.push((k, v))) == votes_map(e).insert(k@, v@),
{
    let e2 = e.push((k, v));
    let n = e.len() as int;
    assert forall|a: int, b: int|
        0 <= a < e2.len() && 0 <= b < e2.len() && #[trigger] e2[a].0@ == #[trigger] e2[b].0@ implies a == b by {
        if a < n && b == n {
            assert(e[a].0@ == k@);
        } else if a == n && b < n {
            assert(e[b].0@ == k@);
        }
    }
    lemma_votes_lookup(e2, n);
    assert forall|t: Seq<char>| #[trigger] votes_map(e2).contains_key(t) == votes_map(e).insert(k@, v@).contains_key(t) by {
        if votes_map(e2).contains_key(t) && t != k@ {
            let a = choose|a: int| 0 <= a < e2.len() && e2[a].0@ == t;
            assert(e[a].0@ == t);
        }
        if votes_map(e).contains_key(t) {
            let a = choose|a: int| 0 <= a < e.len() && e[a].0@ == t;
            assert(e2[a].0@ == t);
        }
    }
    assert forall|t: Seq<char>| votes_map(e2).contains_key(t) implies #[trigger] votes_map(e2)[t] == votes_map(e).insert(k@, v@)[t] by {
        if t != k@ {
            let a = choose|a: int| 0 <= a < e2.len() && e2[a].0@ == t;
            assert(a != n);
            assert(e[a].0@ == t);
            lemma_votes_lookup(e2, a);
            lemma_votes_lookup(e, a);
        }
    }
    assert(votes_map(e2) =~= votes_map(e).insert(k@, v@));
}

impl Storage {
    /// The store's internal well-formedness: each title is held once.
    pub closed spec fn wf(&self) -> bool {
        keys_unique(self.votes@)
    }

    /// An empty store.
    pub fn new() -> (r: Storage)
        ensures
            r.wf(),
            r@.config is None,
            r@.stats is None,
            r@.votes == Map::<Seq<char>, VoteView>::empty(),
    {
        let r = Storage { config: None, stats: None, votes: Vec::new() };
        assert(r@.votes =~= Map::<Seq<char>, VoteView>::empty());
        r
    }

    /// The position of the entry under `key`, if there is one.
    fn find(&self, key: &String) -> (r: Option<usize>)
        requires
            self.wf(),
        ensures
            match r {
                Some(i) => i < self.votes@.len() && self.votes@[i as int].0@ == key@,
                None => !self@.votes.contains_key(key@),
            },
    {
        let mut i: usize = 0;
        while i < self.votes.len()
            invariant
                i <= self.votes@.len(),
                forall|j: int| 0 <= j < i ==> self.votes@[j].0@ != key@,
            decreases self.votes@.len() - i,
        {
            if self.votes[i].0 == *key {
                return Some(i);
            }
            i = i + 1;
        }
        None
    }
}

/// Writes the configuration.
pub fn store_config(storage: &mut Storage, config: &Config) -> (r: Result<(), StdError>)
    requires
        old(storage).wf(),
    ensures
        final(storage).wf(),
        r is Ok,
        final(storage)@ == (StorageView { config: Some(config@), ..old(storage)@ }),
{
    storage.config = Some(config.clone());
    Ok(())
}

/// Reads the configuration.
pub fn read_config(storage: &Storage) -> (r: Result<Config, StdError>)
    ensures
        match storage@.config {
            Some(c) => r is Ok && r->Ok_0@ == c,
            None => r == Err::<Config, StdError>(StdError::NotFound { kind: StoredKind::Config }),
        },
{
    match &storage.config {
        Some(c) => Ok(c.clone()),
        None => Err(StdError::NotFound { kind: StoredKind::Config }),
    }
}

/// Replaces the configuration with what `action` makes of it.
///
/// The action is run on a copy of the stored configuration; its result is
/// stored when it is `Ok`, and nothing changes when it is `Err`.
pub fn update_config<A>(storage: &mut Storage, action: A) -> (r: Result<Config, ContractError>) where
    A: FnOnce(Config) -> Result<Config, ContractError>,

    requires
        old(storage).wf(),
        forall|c: Config| old(storage)@.config == Some(c@) ==> #[trigger] action.requires((c,)),
    ensures
        final(storage).wf(),
        match old(storage)@.config {
            None => r == Err::<Config, ContractError>(
                ContractError::Std(StdError::NotFound { kind: StoredKind::Config }),
            ) && final(storage)@ == old(storage)@,
            Some(c0) => (exists|c: Config| c@ == c0 && #[trigger] action.ensures((c,), r)) && match r {
                Ok(n) => final(storage)@ == (StorageView { config: Some(n@), ..old(storage)@ }),
                Err(_) => final(storage)@ == old(storage)@,
            },
        },
{
    let current = match read_config(storage) {
        Ok(c) => c,
        Err(e) => {
            return Err(ContractError::Std(e));
        },
    };
    let ghost given = current;
    let r = action(current);
    match r {
        Ok(n) => {
            let _ = store_config(storage, &n);
            assert(action.ensures((given,), Ok::<Config, ContractError>(n)));
            Ok(n)
        },
        Err(e) => {
            assert(action.ensures((given,), Err::<Config, ContractError>(e)));
            Err(e)
        },
    }
}

/// Writes the statistics.
pub fn store_stats(storage: &mut Storage, stats: &Stats) -> (r: Result<(), StdError>)
    requires
        old(storage).wf(),
    ensures
        final(storage).wf(),
        r is Ok,
        final(storage)@ == (StorageView { stats: Some(*stats), ..old(storage)@ }),
{
    storage.stats = Some(*stats);
    Ok(())
}

/// Reads the statistics.
pub fn read_stats(storage: &Storage) -> (r: Result<Stats, StdError>)
    ensures
        match storage@.stats {
            Some(s) => r == Ok::<Stats, StdError>(s),
            None => r == Err::<Stats, StdError>(StdError::NotFound { kind: StoredKind::Stats }),
        },
{
    match storage.stats {
        Some(s) => Ok(s),
        None => Err(StdError::NotFound { kind: StoredKind::Stats }),
    }
}

/// Replaces the statistics with what `action` makes of them.
pub fn update_stats<A>(storage: &mut Storage, action: A) -> (r: Result<Stats, ContractError>) where
    A: FnOnce(Stats) -> Result<Stats, ContractError>,

    requires
        old(storage).wf(),
        forall|s: Stats| old(storage)@.stats == Some(s) ==> #[trigger] action.requires((s,)),
    ensures
        final(storage).wf(),
        match old(storage)@.stats {
            None => r == Err::<Stats, ContractError>(
                ContractError::Std(StdError::NotFound { kind: StoredKind::Stats }),
            ) && final(storage)@ == old(storage)@,
            Some(s0) => action.ensures((s0,), r) && match r {
                Ok(n) => final(storage)@ == (StorageView { stats: Some(n), ..old(storage)@ }),
                Err(_) => final(storage)@ == old(storage)@,
            },
        },
{
    let current = match read_stats(storage) {
        Ok(s) => s,
        Err(e) => {
            return Err(ContractError::Std(e));
        },
    };
    let r = action(current);
    if let Ok(n) = r {
        let _ = store_stats(storage, &n);
    }
    r
}

/// The record stored under a title, if any.
pub open spec fn vote_at(s: StorageView, title: Seq<char>) -> Option<VoteView> {
    if s.votes.contains_key(title) {
        Some(s.votes[title])
    } else {
        None
    }
}

/// Reads the record stored under `key`; its absence is no error.
pub fn may_load_vote(storage: &Storage, key: &String) -> (r: Result<Option<VoteStatus>, StdError>)
    requires
        storage.wf(),
    ensures
        r is Ok,
        vote_view_opt(r->Ok_0) == vote_at(storage@, key@),
{
    match storage.find(key) {
        Some(i) => {
            proof {
                lemma_votes_lookup(storage.votes@, i as int);
            }
            Ok(Some(storage.votes[i].1.clone()))
        },
        None => Ok(None),
    }
}

/// Reads the record stored under `key`, which must be there.
pub fn load_vote(storage: &Storage, key: &String) -> (r: Result<VoteStatus, StdError>)
    requires
        storage.wf(),
    ensures
        match vote_at(storage@, key@) {
            Some(v) => r is Ok && r->Ok_0@ == v,
            None => r == Err::<VoteStatus, StdError>(StdError::NotFound { kind: StoredKind::Vote }),
        },
{
    match may_load_vote(storage, key) {
        Ok(Some(v)) => Ok(v),
        _ => Err(StdError::NotFound { kind: StoredKind::Vote }),
    }
}

/// Writes `data` under `key`, replacing any record there.
pub fn store_vote(storage: &mut Storage, key: &String, data: VoteStatus) -> (r: Result<(), StdError>)
    requires
        old(storage).wf(),
    ensures
        final(storage).wf(),
        r is Ok,
        final(storage)@ == (StorageView { votes: old(storage)@.votes.insert(key@, data@), ..old(storage)@ }),
{
    let ghost e = storage.votes@;
    match storage.find(key) {
        Some(i) => {
            let k = storage.votes[i].0.clone();
            proof {
                lemma_votes_update(e, i as int, data);
            }
            storage.votes.set(i, (k, data));
            assert(storage.votes@ == e.update(i as int, (e[i as int].0, data)));
        },
        None => {
            let k = key.clone();
            proof {
                lemma_votes_push(e, k, data);
            }
            storage.votes.push((k, data));
        },
    }
    Ok(())
}

/// Replaces the record under `key` with what `action` makes of it.
///
/// Where the title holds no record the call fails with `NotFound` and the
/// action is not run. Otherwise the action is handed a copy of the stored
/// record; its result is stored when it is `Ok`, and nothing changes when it
/// is `Err`.
pub fn update_vote<A>(storage: &mut Storage, key: &String, action: A) -> (r: Result<VoteStatus, ContractError>) where
    A: FnOnce(Option<VoteStatus>) -> Result<VoteStatus, ContractError>,

    requires
        old(storage).wf(),
        forall|v: Option<VoteStatus>|
            vote_at(old(storage)@, key@) is Some && vote_view_opt(v) == vote_at(old(storage)@, key@)
                ==> #[trigger] action.requires((v,)),
    ensures
        final(storage).wf(),
        vote_at(old(storage)@, key@) is None ==> r == Err::<VoteStatus, ContractError>(
            ContractError::Std(StdError::NotFound { kind: StoredKind::Vote }),
        ) && final(storage)@ == old(storage)@,
        vote_at(old(storage)@, key@) is Some ==> (exists|v: Option<VoteStatus>|
            vote_view_opt(v) == vote_at(old(storage)@, key@) && #[trigger] action.ensures((v,), r)),
        match r {
            Ok(n) => final(storage)@ == (StorageView { votes: old(storage)@.votes.insert(key@, n@), ..old(storage)@ }),
            Err(_) => final(storage)@ == old(storage)@,
        },
{
    let current = match may_load_vote(storage, key) {
        Ok(Some(v)) => Some(v),
        Ok(None) => {
            return Err(ContractError::Std(StdError::NotFound { kind: StoredKind::Vote }));
        },
        Err(e) => {
            return Err(ContractError::Std(e));
        },
    };
    let ghost given = current;
    let r = action(current);
    match r {
        Ok(n) => {
            assert(action.ensures((given,), Ok::<VoteStatus, ContractError>(n)));
            let copy = n.clone();
            let _ = store_vote(storage, key, copy);
            Ok(n)
        },
        Err(e) => {
            assert(action.ensures((given,), Err::<VoteStatus, ContractError>(e)));
            Err(e)
        },
    }
}

} // verus!
