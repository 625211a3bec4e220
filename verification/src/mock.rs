//! An in-memory exchange for tests: accounts, queued market data, and what the mock
//! REST and WebSocket endpoints answer. Listening on sockets is the caller's work.

use std::collections::VecDeque;
use vstd::prelude::*;
use vstd::string::{StrSliceExecFns, StringExecFns};
use crate::market::{AccountBalance, Candle, Fill, Order, Position, Tick};

verus! {

/// Market data waiting to be sent, oldest first.
pub struct MarketDataQueues {
    pub candles: VecDeque<Candle>,
    pub ticks: VecDeque<Tick>,
}

impl Default for MarketDataQueues {
    fn default() -> (r: MarketDataQueues)
        ensures
            r.candles@.len() == 0,
            r.ticks@.len() == 0,
    {
        MarketDataQueues { candles: VecDeque::new(), ticks: VecDeque::new() }
    }
}

impl MarketDataQueues {
    /// Puts a candle at the end of the queue.
    pub fn push_candle(&mut self, candle: Candle)
        ensures
            final(self).candles@ == old(self).candles@.push(candle),
            final(self).ticks@ == old(self).ticks@,
    {
        self.candles.push_back(candle);
    }

    /// Puts a tick at the end of the queue.
    pub fn push_tick(&mut self, tick: Tick)
        ensures
            final(self).ticks@ == old(self).ticks@.push(tick),
            final(self).candles@ == old(self).candles@,
    {
        self.ticks.push_back(tick);
    }

    /// Takes the oldest candle out of the queue.
    pub fn next_candle(&mut self) -> (r: Option<Candle>)
        ensures
            final(self).ticks@ == old(self).ticks@,
            old(self).candles@.len() == 0 ==> r is None && final(self).candles@ == old(self).candles@,
            old(self).candles@.len() > 0 ==> r == Some(old(self).candles@[0]) && final(self).candles@ == old(self).candles@.skip(1),
    {
        let ghost before = self.candles@;
        let r = self.candles.pop_front();
        proof {
            if before.len() > 0 {
                assert(before.subrange(1, before.len() as int) =~= before.skip(1));
            }
        }
        r
    }

    /// Takes the oldest tick out of the queue.
    pub fn next_tick(&mut self) -> (r: Option<Tick>)
        ensures
            final(self).candles@ == old(self).candles@,
            old(self).ticks@.len() == 0 ==> r is None && final(self).ticks@ == old(self).ticks@,
            old(self).ticks@.len() > 0 ==> r == Some(old(self).ticks@[0]) && final(self).ticks@ == old(self).ticks@.skip(1),
    {
        let ghost before = self.ticks@;
        let r = self.ticks.pop_front();
        proof {
            if before.len() > 0 {
                assert(before.subrange(1, before.len() as int) =~= before.skip(1));
            }
        }
        r
    }
}

/// How an account of the mock exchange starts out.
#[derive(Debug, PartialEq)]
pub struct AccountConfig {
    pub api_key: String,
    pub api_secret: String,
    pub balances: Vec<AccountBalance>,
    pub positions: Vec<Position>,
}

impl AccountConfig {
    /// An account with the given credentials, without balances or positions.
    pub fn new(api_key: &str, api_secret: &str) -> (r: AccountConfig)
        ensures
            r.api_key@ == api_key@,
            r.api_secret@ == api_secret@,
            r.balances@.len() == 0,
            r.positions@.len() == 0,
    {
        AccountConfig {
            api_key: String::from_str(api_key),
            api_secret: String::from_str(api_secret),
            balances: Vec::new(),
            positions: Vec::new(),
        }
    }

    /// The same account with one more balance.
    pub fn with_balance(self, balance: AccountBalance) -> (r: AccountConfig)
        ensures
            r.balances@ == self.balances@.push(balance),
            r.api_key == self.api_key,
            r.api_secret == self.api_secret,
            r.positions == self.positions,
    {
        let mut r = self;
        r.balances.push(balance);
        r
    }

    /// The same account with one more position.
    pub fn with_position(self, position: Position) -> (r: AccountConfig)
        ensures
            r.positions@ == self.positions@.push(position),
            r.api_key == self.api_key,
            r.api_secret == self.api_secret,
            r.balances == self.balances,
    {
        let mut r = self;
        r.positions.push(position);
        r
    }
}

/// How the mock exchange starts out.
#[derive(Debug, PartialEq)]
pub struct MockExchangeConfig {
    pub accounts: Vec<AccountConfig>,
    pub candles: Vec<Candle>,
    pub ticks: Vec<Tick>,
}

impl Default for MockExchangeConfig {
    fn default() -> (r: MockExchangeConfig)
        ensures
            r.accounts@.len() == 0,
            r.candles@.len() == 0,
            r.ticks@.len() == 0,
    {
        MockExchangeConfig { accounts: Vec::new(), candles: Vec::new(), ticks: Vec::new() }
    }
}

impl MockExchangeConfig {
    /// An exchange without accounts or market data.
    pub fn new() -> (r: MockExchangeConfig)
        ensures
            r.accounts@.len() == 0,
            r.candles@.len() == 0,
            r.ticks@.len() == 0,
    {
        MockExchangeConfig::default()
    }

    /// The same exchange with one more account.
    pub fn with_account(self, account: AccountConfig) -> (r: MockExchangeConfig)
        ensures
            r.accounts@ == self.accounts@.push(account),
            r.candles == self.candles,
            r.ticks == self.ticks,
    {
        let mut r = self;
        r.accounts.push(account);
        r
    }

    /// The same exchange with more candles queued, after those queued already.
    pub fn with_candles(self, candles: Vec<Candle>) -> (r: MockExchangeConfig)
        ensures
            r.candles@ == self.candles@ + candles@,
            r.accounts == self.accounts,
            r.ticks == self.ticks,
    {
        let mut r = self;
        let mut more = candles;
        r.candles.append(&mut more);
        r
    }

    /// The same exchange with more ticks queued, after those queued already.
    pub fn with_ticks(self, ticks: Vec<Tick>) -> (r: MockExchangeConfig)
        ensures
            r.ticks@ == self.ticks@ + ticks@,
            r.accounts == self.accounts,
            r.candles == self.candles,
    {
        let mut r = self;
        let mut more = ticks;
        r.ticks.append(&mut more);
        r
    }
}

/// An account of the mock exchange.
#[derive(Debug, PartialEq)]
pub struct AccountState {
    pub api_key: String,
    pub api_secret: String,
    /// The balances as configured; where a currency occurs twice the later entry counts.
    pub balances: Vec<AccountBalance>,
    /// The positions as configured; where a symbol occurs twice the later entry counts.
    pub positions: Vec<Position>,
    pub executions: VecDeque<Fill>,
}

/// The position of the last balance in `currency`, if there is one.
pub open spec fn balance_index(balances: Seq<AccountBalance>, currency: Seq<char>) -> Option<int>
    decreases balances.len(),
{
    if balances.len() == 0 {
        None
    } else if balances.last().currency@ == currency {
        Some(balances.len() - 1)
    } else {
        balance_index(balances.drop_last(), currency)
    }
}

impl AccountState {
    /// The account that a configuration describes, without executions.
    pub fn from_config(config: AccountConfig) -> (r: AccountState)
        ensures
            r.api_key == config.api_key,
            r.api_secret == config.api_secret,
            r.balances == config.balances,
            r.positions == config.positions,
            r.executions@.len() == 0,
    {
        AccountState {
            api_key: config.api_key,
            api_secret: config.api_secret,
            balances: config.balances,
            positions: config.positions,
            executions: VecDeque::new(),
        }
    }

    /// The balance in `currency`: the last one configured, if there is one.
    pub fn balance(&self, currency: &str) -> (r: Option<&AccountBalance>)
        ensures
            match balance_index(self.balances@, currency@) {
                Some(i) => r == Some(&self.balances@[i]),
                None => r is None,
            },
    {
        let wanted = String::from_str(currency);
        let mut i: usize = self.balances.len();
        let ghost all = self.balances@;
        proof {
            assert(all.take(all.len() as int) =~= all);
        }
        while i > 0
            invariant
                i <= self.balances@.len(),
                all == self.balances@,
                wanted@ == currency@,
                balance_index(all, currency@) == balance_index(all.take(i as int), currency@),
            decreases i,
        {
            proof {
                assert(all.take(i as int).drop_last() =~= all.take(i - 1));
                assert(all.take(i as int).last() == all[i - 1]);
            }
            if self.balances[i - 1].currency == wanted {
                return Some(&self.balances[i - 1]);
            }
            i = i - 1;
        }
        None
    }
}

/// The accounts, the orders and the market data of the mock exchange.
pub struct MockExchange {
    pub accounts: Vec<AccountState>,
    pub orders: Vec<Order>,
    pub market_data: MarketDataQueues,
}

/// The accounts that a sequence of configurations describes.
pub open spec fn accounts_of(configs: Seq<AccountConfig>, accounts: Seq<AccountState>) -> bool {
    &&& accounts.len() == configs.len()
    &&& forall|i: int|
        0 <= i < accounts.len() ==> {
            &&& (#[trigger] accounts[i]).api_key == configs[i].api_key
            &&& accounts[i].api_secret == configs[i].api_secret
            &&& accounts[i].balances == configs[i].balances
            &&& accounts[i].positions == configs[i].positions
            &&& accounts[i].executions@.len() == 0
        }
}

/// The position of the last account with the key `api_key`, if there is one.
pub open spec fn account_index(accounts: Seq<AccountState>, api_key: Seq<char>) -> Option<int>
    decreases accounts.len(),
{
    if accounts.len() == 0 {
        None
    } else if accounts.last().api_key@ == api_key {
        Some(accounts.len() - 1)
    } else {
        account_index(accounts.drop_last(), api_key)
    }
}

impl MockExchange {
    /// The exchange that a configuration describes: its accounts in the order given,
    /// its candles and ticks queued in the order given, and no orders.
    pub fn new(config: MockExchangeConfig) -> (r: MockExchange)
        ensures
            accounts_of(config.accounts@, r.accounts@),
            r.orders@.len() == 0,
            r.market_data.candles@ == config.candles@,
            r.market_data.ticks@ == config.ticks@,
    {
        let MockExchangeConfig { accounts, candles, ticks } = config;
        let ghost configs = accounts@;
        let ghost all_candles = candles@;
        let ghost all_ticks = ticks@;
        let mut market_data = MarketDataQueues::default();
        let mut candles = candles;
        let mut ticks = ticks;
        let mut accounts = accounts;
        proof {
            assert(market_data.candles@ =~= all_candles.take(0));
            assert(market_data.ticks@ =~= all_ticks.take(0));
            assert(all_candles.skip(0) =~= all_candles);
            assert(all_ticks.skip(0) =~= all_ticks);
            assert(configs.skip(0) =~= configs);
        }
        let mut done: usize = 0;
        let total = candles.len();
        while candles.len() > 0
            invariant
                done + candles@.len() == total,
                total == all_candles.len(),
                candles@ == all_candles.skip(done as int),
                market_data.candles@ == all_candles.take(done as int),
                market_data.ticks@.len() == 0,
            decreases candles@.len(),
        {
            let candle = candles.remove(0);
            proof {
                assert(candle == all_candles.skip(done as int)[0]);
                assert(candles@ =~= all_candles.skip(done + 1));
            }
            market_data.push_candle(candle);
            proof {
                assert(market_data.candles@ =~= all_candles.take(done + 1));
            }
            done = done + 1;
        }
        proof {
            assert(all_candles.take(done as int) =~= all_candles);
            assert(market_data.ticks@ =~= all_ticks.take(0));
        }
        let mut done: usize = 0;
        let total = ticks.len();
        while ticks.len() > 0
            invariant
                done + ticks@.len() == total,
                total == all_ticks.len(),
                ticks@ == all_ticks.skip(done as int),
                market_data.ticks@ == all_ticks.take(done as int),
                market_data.candles@ == all_candles,
            decreases ticks@.len(),
        {
            let tick = ticks.remove(0);
            proof {
                assert(tick == all_ticks.skip(done as int)[0]);
                assert(ticks@ =~= all_ticks.skip(done + 1));
            }
            market_data.push_tick(tick);
            proof {
                assert(market_data.ticks@ =~= all_ticks.take(done + 1));
            }
            done = done + 1;
        }
        proof {
            assert(all_ticks.take(done as int) =~= all_ticks);
        }
        let mut states: Vec<AccountState> = Vec::new();
        let mut done: usize = 0;
        let total = accounts.len();
        while accounts.len() > 0
            invariant
                done + accounts@.len() == total,
                total == configs.len(),
                accounts@ == configs.skip(done as int),
                accounts_of(configs.take(done as int), states@),
            decreases accounts@.len(),
        {
            let ghost before = states@;
            let account = accounts.remove(0);
            proof {
                assert(account == configs.skip(done as int)[0]);
                assert(accounts@ =~= configs.skip(done + 1));
            }
            let state = AccountState::from_config(account);
            states.push(state);
            proof {
                assert forall|i: int| 0 <= i < states@.len() implies {
                    &&& (#[trigger] states@[i]).api_key == configs.take(done + 1)[i].api_key
                    &&& states@[i].api_secret == configs.take(done + 1)[i].api_secret
                    &&& states@[i].balances == configs.take(done + 1)[i].balances
                    &&& states@[i].positions == configs.take(done + 1)[i].positions
                    &&& states@[i].executions@.len() == 0
                } by {
                    if i < done {
                        assert(states@[i] == before[i]);
                        assert(configs.take(done + 1)[i] == configs.take(done as int)[i]);
                    }
                }
            }
            done = done + 1;
        }
        proof {
            assert(configs.take(done as int) =~= configs);
        }
        MockExchange { accounts: states, orders: Vec::new(), market_data }
    }

    /// The account with the key `api_key`: the last one configured, if there is one.
    pub fn account(&self, api_key: &str) -> (r: Option<&AccountState>)
        ensures
            match account_index(self.accounts@, api_key@) {
                Some(i) => r == Some(&self.accounts@[i]),
                None => r is None,
            },
    {
        let wanted = String::from_str(api_key);
        let mut i: usize = self.accounts.len();
        let ghost all = self.accounts@;
        proof {
            assert(all.take(all.len() as int) =~= all);
        }
        while i > 0
            invariant
                i <= self.accounts@.len(),
                all == self.accounts@,
                wanted@ == api_key@,
                account_index(all, api_key@) == account_index(all.take(i as int), api_key@),
            decreases i,
        {
            proof {
                assert(all.take(i as int).drop_last() =~= all.take(i - 1));
                assert(all.take(i as int).last() == all[i - 1]);
            }
            if self.accounts[i - 1].api_key == wanted {
                return Some(&self.accounts[i - 1]);
            }
            i = i - 1;
        }
        None
    }
}

/// What the mock REST endpoint answers.
#[derive(Clone, Copy, Debug, PartialEq, Eq, Structural)]
pub enum RestReply {
    OrderCreate,
    OrderCancel,
    PositionList,
    WalletBalance,
    ExecutionList,
    NotFound,
}

/// Whether two texts are the same.
pub fn same_text(a: &str, b: &str) -> (r: bool)
    ensures
        r == (a@ == b@),
{
    String::from_str(a) == String::from_str(b)
}

/// The answer to a request: one of the five known endpoints under its method, or not
/// found.
pub open spec fn routed(method: Seq<char>, path: Seq<char>) -> RestReply {
    if method == "POST"@ && path == "/v5/order/create"@ {
        RestReply::OrderCreate
    } else if method == "POST"@ && path == "/v5/order/cancel"@ {
        RestReply::OrderCancel
    } else if method == "GET"@ && path == "/v5/position/list"@ {
        RestReply::PositionList
    } else if method == "GET"@ && path == "/v5/account/wallet-balance"@ {
        RestReply::WalletBalance
    } else if method == "GET"@ && path == "/v5/execution/list"@ {
        RestReply::ExecutionList
    } else {
        RestReply::NotFound
    }
}

/// The answer of the mock REST endpoint to a request.
pub fn route(method: &str, path: &str) -> (r: RestReply)
    ensures
        r == routed(method@, path@),
{
    let post = same_text(method, "POST");
    let get = same_text(method, "GET");
    if post && same_text(path, "/v5/order/create") {
        RestReply::OrderCreate
    } else if post && same_text(path, "/v5/order/cancel") {
        RestReply::OrderCancel
    } else if get && same_text(path, "/v5/position/list") {
        RestReply::PositionList
    } else if get && same_text(path, "/v5/account/wallet-balance") {
        RestReply::WalletBalance
    } else if get && same_text(path, "/v5/execution/list") {
        RestReply::ExecutionList
    } else {
        RestReply::NotFound
    }
}

/// The name of the endpoint that a reply stands for, where it stands for one.
pub open spec fn endpoint_text(reply: RestReply) -> Seq<char> {
    match reply {
        RestReply::OrderCreate => "order/create"@,
        RestReply::OrderCancel => "order/cancel"@,
        RestReply::PositionList => "position/list"@,
        RestReply::WalletBalance => "account/wallet-balance"@,
        RestReply::ExecutionList => "execution/list"@,
        RestReply::NotFound => Seq::empty(),
    }
}

/// The message of a reply: that the endpoint is not implemented, or that it was not
/// found.
pub open spec fn reply_text(reply: RestReply) -> Seq<char> {
    match reply {
        RestReply::NotFound => "endpoint not found"@,
        _ => endpoint_text(reply) + " not implemented"@,
    }
}

impl RestReply {
    /// The HTTP status of the reply: 501 for a known endpoint, 404 otherwise.
    pub fn status(self) -> (r: u16)
        ensures
            r == if self == RestReply::NotFound {
                404u16
            } else {
                501u16
            },
    {
        match self {
            RestReply::NotFound => 404,
            _ => 501,
        }
    }

    /// The return code in the body of the reply: -1 for a known endpoint, 404
    /// otherwise.
    pub fn ret_code(self) -> (r: i64)
        ensures
            r == if self == RestReply::NotFound {
                404i64
            } else {
                -1i64
            },
    {
        match self {
            RestReply::NotFound => 404,
            _ => -1,
        }
    }

    /// The message in the body of the reply.
    pub fn ret_msg(self) -> (r: String)
        ensures
            r@ == reply_text(self),
    {
        let endpoint = match self {
            RestReply::OrderCreate => "order/create",
            RestReply::OrderCancel => "order/cancel",
            RestReply::PositionList => "position/list",
            RestReply::WalletBalance => "account/wallet-balance",
            RestReply::ExecutionList => "execution/list",
            RestReply::NotFound => {
                return String::from_str("endpoint not found");
            },
        };
        let mut message = String::from_str(endpoint);
        message.append(" not implemented");
        message
    }
}

/// The stream that a WebSocket path leads to.
#[derive(Clone, Copy, Debug, PartialEq, Eq, Structural)]
pub enum StreamKind {
    Public,
    Private,
    Unknown,
}

/// The stream that a path leads to: public below `/v5/public/`, private at
/// `/v5/private`, unknown anywhere else.
pub open spec fn stream_of(path: Seq<char>) -> StreamKind {
    let prefix = "/v5/public/"@;
    if path.len() >= prefix.len() && path.subrange(0, prefix.len() as int) == prefix {
        StreamKind::Public
    } else if path == "/v5/private"@ {
        StreamKind::Private
    } else {
        StreamKind::Unknown
    }
}

/// The stream that a WebSocket path leads to.
pub fn classify_path(path: &str) -> (r: StreamKind)
    ensures
        r == stream_of(path@),
{
    let prefix = "/v5/public/";
    let prefix_len = prefix.unicode_len();
    let len = path.unicode_len();
    if len >= prefix_len && same_text(path.substring_char(0, prefix_len), prefix) {
        StreamKind::Public
    } else if same_text(path, "/v5/private") {
        StreamKind::Private
    } else {
        StreamKind::Unknown
    }
}

/// What a stream answers to a message.
#[derive(Clone, Copy, Debug, PartialEq, Eq, Structural)]
pub enum StreamReply {
    /// The answer to a ping.
    Pong,
    /// The confirmation of a subscription, on the public stream.
    Subscribed,
    /// The confirmation of an authentication, on the private stream.
    Authenticated,
}

/// The answer of a stream to a message with the operation `op`: a ping is answered on
/// both streams, a subscription on the public one, an authentication on the private
/// one, and nothing else is answered.
pub open spec fn answered(stream: StreamKind, op: Option<Seq<char>>) -> Option<StreamReply> {
    match op {
        None => None,
        Some(name) => match stream {
            StreamKind::Unknown => None,
            StreamKind::Public => if name == "ping"@ {
                Some(StreamReply::Pong)
            } else if name == "subscribe"@ {
                Some(StreamReply::Subscribed)
            } else {
                None
            },
            StreamKind::Private => if name == "ping"@ {
                Some(StreamReply::Pong)
            } else if name == "auth"@ {
                Some(StreamReply::Authenticated)
            } else {
                None
            },
        },
    }
}

/// The answer of a stream to a message with the operation `op`.
pub fn stream_reply(stream: StreamKind, op: Option<&str>) -> (r: Option<StreamReply>)
    ensures
        r == answered(
            stream,
            match op {
                Some(name) => Some(name@),
                None => None,
            },
        ),
{
    let name = match op {
        Some(name) => name,
        None => {
            return None;
        },
    };
    match stream {
        StreamKind::Unknown => None,
        StreamKind::Public => if same_text(name, "ping") {
            Some(StreamReply::Pong)
        } else if same_text(name, "subscribe") {
            Some(StreamReply::Subscribed)
        } else {
            None
        },
        StreamKind::Private => if same_text(name, "ping") {
            Some(StreamReply::Pong)
        } else if same_text(name, "auth") {
            Some(StreamReply::Authenticated)
        } else {
            None
        },
    }
}

/// The address under which a server that listens on `host_and_port` is reached with
/// the scheme `scheme`.
pub fn base_url(scheme: &str, host_and_port: &str) -> (r: String)
    ensures
        r@ == scheme@ + "://"@ + host_and_port@,
{
    let mut url = String::from_str(scheme);
    url.append("://");
    url.append(host_and_port);
    url
}

} // verus!
