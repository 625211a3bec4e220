//! Application configuration: the values that the layered configuration files and the
//! environment are read into.

use vstd::prelude::*;
use vstd::string::StringExecFns;
use crate::decimal::{Decimal, DecimalModel};

verus! {

/// Connection settings of one exchange profile.
#[derive(Debug, PartialEq, Eq)]
pub struct ExchangeConfig {
    pub rest_url: String,
    pub ws_url: String,
    pub api_key: String,
    pub api_secret: String,
}

impl Clone for ExchangeConfig {
    fn clone(&self) -> (r: ExchangeConfig)
        ensures
            r == *self,
    {
        ExchangeConfig {
            rest_url: self.rest_url.clone(),
            ws_url: self.ws_url.clone(),
            api_key: self.api_key.clone(),
            api_secret: self.api_secret.clone(),
        }
    }
}

impl ExchangeConfig {
    /// Settings for the given endpoints, without credentials.
    pub fn new(rest_url: &str, ws_url: &str) -> (r: ExchangeConfig)
        ensures
            r.rest_url@ == rest_url@,
            r.ws_url@ == ws_url@,
            r.api_key@ == Seq::<char>::empty(),
            r.api_secret@ == Seq::<char>::empty(),
    {
        ExchangeConfig {
            rest_url: String::from_str(rest_url),
            ws_url: String::from_str(ws_url),
            api_key: String::new(),
            api_secret: String::new(),
        }
    }
}

/// Settings of the backtester.
#[derive(Clone, Copy, Debug, PartialEq)]
pub struct BacktestConfig {
    pub initial_equity: Decimal,
}

/// The equity a backtest starts with unless configured: `10000`.
pub open spec fn default_equity_model() -> DecimalModel {
    DecimalModel { mantissa: 10000, scale: 0 }
}

/// The equity a backtest starts with unless configured.
pub fn default_equity() -> (r: Decimal)
    ensures
        r@ == default_equity_model(),
{
    proof {
        Decimal::lemma_integer_value(10_000);
    }
    Decimal::from(10_000i64)
}

impl Default for BacktestConfig {
    fn default() -> (r: BacktestConfig)
        ensures
            r.initial_equity@ == default_equity_model(),
    {
        BacktestConfig { initial_equity: default_equity() }
    }
}

/// The directory that market data is kept in unless configured.
pub fn default_data_path() -> (r: String)
    ensures
        r@ == "./data"@,
{
    String::from_str("./data")
}

/// The log level unless configured.
pub fn default_log_level() -> (r: String)
    ensures
        r@ == "info"@,
{
    String::from_str("info")
}

/// An exchange profile under its name.
#[derive(Debug, PartialEq, Eq)]
pub struct ExchangeProfile {
    pub name: String,
    pub config: ExchangeConfig,
}

/// The application's configuration.
#[derive(Debug, PartialEq)]
pub struct AppConfig {
    pub data_path: String,
    pub log_level: String,
    pub backtest: BacktestConfig,
    /// The exchange profiles, in the order they were configured.
    pub exchange: Vec<ExchangeProfile>,
}

/// The position of the first profile called `name`, if there is one.
pub open spec fn profile_index(profiles: Seq<ExchangeProfile>, name: Seq<char>) -> Option<int>
    decreases profiles.len(),
{
    if profiles.len() == 0 {
        None
    } else if profiles[0].name@ == name {
        Some(0)
    } else {
        match profile_index(profiles.skip(1), name) {
            Some(i) => Some(i + 1),
            None => None,
        }
    }
}

/// Where `profile_index` finds a profile, it is the first with that name; where it
/// finds none, no profile has that name.
pub proof fn lemma_profile_index(profiles: Seq<ExchangeProfile>, name: Seq<char>)
    ensures
        match profile_index(profiles, name) {
            Some(i) => 0 <= i < profiles.len() && profiles[i].name@ == name && forall|j: int|
                0 <= j < i ==> profiles[j].name@ != name,
            None => forall|j: int| 0 <= j < profiles.len() ==> profiles[j].name@ != name,
        },
    decreases profiles.len(),
{
    if profiles.len() > 0 && profiles[0].name@ != name {
        let rest = profiles.skip(1);
        lemma_profile_index(rest, name);
        match profile_index(rest, name) {
            Some(i) => {
                assert(profiles[i + 1] == rest[i]);
                assert forall|j: int| 0 <= j < i + 1 implies profiles[j].name@ != name by {
                    if j > 0 {
                        assert(profiles[j] == rest[j - 1]);
                    }
                }
            },
            None => {
                assert forall|j: int| 0 <= j < profiles.len() implies profiles[j].name@ != name by {
                    if j > 0 {
                        assert(profiles[j] == rest[j - 1]);
                    }
                }
            },
        }
    }
}

impl Default for AppConfig {
    /// The configuration when nothing is configured.
    fn default() -> (r: AppConfig)
        ensures
            r.data_path@ == "./data"@,
            r.log_level@ == "info"@,
            r.backtest.initial_equity@ == default_equity_model(),
            r.exchange@.len() == 0,
    {
        AppConfig {
            data_path: default_data_path(),
            log_level: default_log_level(),
            backtest: BacktestConfig::default(),
            exchange: Vec::new(),
        }
    }
}

impl AppConfig {
    /// The settings of the first exchange profile called `name`.
    pub fn exchange_profile(&self, name: &str) -> (r: Option<&ExchangeConfig>)
        ensures
            match profile_index(self.exchange@, name@) {
                Some(i) => r == Some(&self.exchange@[i].config),
                None => r is None,
            },
    {
        let wanted = String::from_str(name);
        let mut i: usize = 0;
        while i < self.exchange.len()
            invariant
                i <= self.exchange.len(),
                wanted@ == name@,
                forall|j: int| 0 <= j < i ==> self.exchange@[j].name@ != name@,
            decreases self.exchange.len() - i,
        {
            if self.exchange[i].name == wanted {
                proof {
                    lemma_profile_index(self.exchange@, name@);
                }
                return Some(&self.exchange[i].config);
            }
            i = i + 1;
        }
        proof {
            lemma_profile_index(self.exchange@, name@);
        }
        None
    }
}

} // verus!
