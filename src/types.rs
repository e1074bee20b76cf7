use vstd::prelude::*;

verus! {

/// The identity of an actor: an address, compared as text.
pub type Addr = String;

/// The addresses of a list, as text.
pub open spec fn addrs(s: Seq<Addr>) -> Seq<Seq<char>> {
    s.map_values(|a: Addr| a@)
}

/// An amount of one fungible asset.
#[derive(Debug)]
pub struct Coin {
    pub denom: String,
    pub amount: u128,
}

pub struct CoinView {
    pub denom: Seq<char>,
    pub amount: int,
}

impl View for Coin {
    type V = CoinView;

    open spec fn view(&self) -> CoinView {
        CoinView { denom: self.denom@, amount: self.amount as int }
    }
}

impl Clone for Coin {
    fn clone(&self) -> (r: Coin)
        ensures
            r@ == self@,
    {
        Coin { denom: self.denom.clone(), amount: self.amount }
    }
}

/// The coins of a list, as plain values.
pub open spec fn coin_views(s: Seq<Coin>) -> Seq<CoinView> {
    s.map_values(|c: Coin| c@)
}

/// Returns a copy of a list of addresses.
pub fn clone_addrs(v: &Vec<Addr>) -> (r: Vec<Addr>)
    ensures
        r@ == v@,
{
    let r = v.clone();
    assert(r@ =~= v@);
    r
}

/// Who sends a message, and the funds attached to it.
pub struct MessageInfo {
    pub sender: Addr,
    pub funds: Vec<Coin>,
}

/// A key and a value describing what an operation did.
#[derive(Debug)]
pub struct Attribute {
    pub key: String,
    pub value: String,
}

/// What a successful operation reports: a list of attributes.
#[derive(Debug)]
pub struct Response {
    pub attributes: Vec<Attribute>,
}

impl View for Response {
    type V = Seq<(Seq<char>, Seq<char>)>;

    open spec fn view(&self) -> Seq<(Seq<char>, Seq<char>)> {
        self.attributes@.map_values(|a: Attribute| (a.key@, a.value@))
    }
}

impl Response {
    /// A response with no attributes.
    pub fn new() -> (r: Response)
        ensures
            r@ == Seq::<(Seq<char>, Seq<char>)>::empty(),
    {
        let r = Response { attributes: Vec::new() };
        assert(r@ =~= Seq::<(Seq<char>, Seq<char>)>::empty());
        r
    }

    /// Appends the attribute `key = value`.
    pub fn add_attribute(self, key: &str, value: &str) -> (r: Response)
        ensures
            r@ == self@.push((key@, value@)),
    {
        let mut attributes = self.attributes;
        attributes.push(Attribute { key: key.to_owned(), value: value.to_owned() });
        let r = Response { attributes };
        assert(r@ =~= self@.push((key@, value@)));
        r
    }
}

/// The message that sets up a fresh deployment.
pub struct InstantiateMsg {
    pub admins: Vec<Addr>,
}

/// The state-changing operations.
pub enum ExecuteMsg {
    CreateNewVote {
        title: String,
        min_votes_count: i32,
        required_votes_percentage: i32,
        whitelist_on: bool,
        whitelist: Vec<Addr>,
        required_coins_on: bool,
        required_coin: Coin,
    },
    Vote { vote: String, title: String },
    Pause { title: String },
    Unpause { title: String },
    ToogleWhitelist { title: String },
    ToogleRequiredCoin { title: String },
}

/// The read-only operations.
#[derive(Debug)]
pub enum QueryMsg {
    Config {},
    GetStats {},
    GetVotesTitles {},
    GetVote { title: String },
}

/// The owner of a deployment, as text.
#[derive(Debug)]
pub struct ConfigResponse {
    pub owner: String,
}

/// The message of a code migration; it carries nothing.
#[derive(Clone, Copy, Debug, PartialEq, Eq, Structural)]
pub struct MigrateMsg {}

} // verus!
