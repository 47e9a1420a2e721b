//! Configuration of the engine: what each setting means, which settings
//! must be there, and which values are accepted.

use vstd::prelude::*;
use vstd::string::StringExecFns;
use crate::text::{
    decimal_value, digits_value, is_decimal, is_keyword, is_unsigned, lowered, parse_bool,
    parse_decimal, parse_u64, without_plus,
};

verus! {

/// Whether trades are simulated or sent.
#[derive(Debug, Clone, Copy, PartialEq, Eq, Structural, Hash)]
pub enum TradingMode {
    Paper,
    Live,
}

/// The settings of trading. The amounts are in millionths.
#[derive(Debug, Clone, Copy, PartialEq, Eq, Structural)]
pub struct TradingConfig {
    pub mode: TradingMode,
    pub max_position_size: u64,
    pub max_daily_loss: u64,
}

/// The settings of the chain.
#[derive(Debug)]
pub struct SolanaConfig {
    pub rpc_url: String,
    pub wallet_private_key: String,
    pub multi_wallet_enabled: bool,
    pub default_wallet_id: Option<String>,
}

/// The settings of the market data providers.
#[derive(Debug)]
pub struct ApiConfig {
    pub helius_api_key: String,
    pub helius_rpc_url: String,
    pub helius_ws_url: String,
    pub quicknode_api_key: String,
    pub quicknode_ws_url: String,
}

/// The settings of the database.
#[derive(Debug)]
pub struct DatabaseConfig {
    pub url: String,
}

/// The settings of the monitoring server.
#[derive(Debug, Clone, Copy, PartialEq, Eq, Structural)]
pub struct ServerConfig {
    pub port: u16,
}

/// The settings of logging.
#[derive(Debug)]
pub struct LoggingConfig {
    pub level: String,
}

/// The settings of the inference engine. The confidence threshold is a
/// fraction in millionths.
#[derive(Debug)]
pub struct OvermindConfig {
    pub enabled: bool,
    pub tensorzero_gateway_url: String,
    pub jito_endpoint: String,
    pub max_execution_latency_ms: u64,
    pub ai_confidence_threshold: u64,
}

/// The configuration of the engine.
#[derive(Debug)]
pub struct Config {
    pub trading: TradingConfig,
    pub solana: SolanaConfig,
    pub api: ApiConfig,
    pub database: DatabaseConfig,
    pub server: ServerConfig,
    pub logging: LoggingConfig,
    pub overmind: OvermindConfig,
}

/// What is wrong with the configuration.
#[derive(Debug, Clone, Copy, PartialEq, Eq, Structural)]
pub enum ConfigError {
    /// The trading mode is neither `paper` nor `live`.
    InvalidTradingMode,
    /// The largest position is no decimal number.
    InvalidMaxPositionSize,
    /// The largest daily loss is no decimal number.
    InvalidMaxDailyLoss,
    /// The address of the chain's RPC endpoint is missing.
    MissingSolanaRpcUrl,
    /// The private key of the wallet is missing.
    MissingWalletPrivateKey,
    /// The switch for the wallet fleet is neither `true` nor `false`.
    InvalidMultiWalletSwitch,
    /// The key of the first provider is missing.
    MissingHeliusApiKey,
    /// The RPC address of the first provider is missing.
    MissingHeliusRpcUrl,
    /// The socket address of the first provider is missing.
    MissingHeliusWsUrl,
    /// The key of the second provider is missing.
    MissingQuicknodeApiKey,
    /// The socket address of the second provider is missing.
    MissingQuicknodeWsUrl,
    /// The address of the database is missing.
    MissingDatabaseUrl,
    /// The port of the monitoring server is no number of 16 bits.
    InvalidServerPort,
    /// The switch for the inference engine is neither `true` nor `false`.
    InvalidOvermindSwitch,
    /// The latency budget is no whole number of milliseconds.
    InvalidMaxLatency,
    /// The confidence threshold is no decimal number.
    InvalidConfidenceThreshold,
    /// The largest position is not positive.
    NonPositivePositionSize,
    /// The largest daily loss is not positive.
    NonPositiveDailyLoss,
    /// The port of the monitoring server is zero.
    ZeroPort,
}

/// The texts that set the configuration, each as it was found in the
/// environment or none where it was not set.
#[derive(Debug)]
pub struct ConfigText {
    pub trading_mode: Option<String>,
    pub max_position_size: Option<String>,
    pub max_daily_loss: Option<String>,
    pub solana_rpc_url: Option<String>,
    pub wallet_private_key: Option<String>,
    pub multi_wallet_enabled: Option<String>,
    pub default_wallet: Option<String>,
    pub helius_api_key: Option<String>,
    pub helius_rpc_url: Option<String>,
    pub helius_ws_url: Option<String>,
    pub quicknode_api_key: Option<String>,
    pub quicknode_ws_url: Option<String>,
    pub database_url: Option<String>,
    pub server_port: Option<String>,
    pub log_level: Option<String>,
    pub overmind_enabled: Option<String>,
    pub tensorzero_url: Option<String>,
    pub jito_endpoint: Option<String>,
    pub max_latency_ms: Option<String>,
    pub ai_confidence_threshold: Option<String>,
}

/// The trading mode that a text sets: live for `live` and paper for
/// `paper`, in any case, and paper where nothing is set; none for any other
/// text.
pub open spec fn mode_of(text: Option<String>) -> Option<TradingMode> {
    match text {
        Some(t) => if lowered(t@) == "live"@ {
            Some(TradingMode::Live)
        } else if lowered(t@) == "paper"@ {
            Some(TradingMode::Paper)
        } else {
            None
        },
        None => Some(TradingMode::Paper),
    }
}

/// The amount that a text sets, by `default` where nothing is set; none
/// where the text is no decimal number that fits in 64 bits.
pub open spec fn amount_of(text: Option<String>, default: u64) -> Option<u64> {
    match text {
        None => Some(default),
        Some(t) => if is_decimal(t@) && decimal_value(t@) <= u64::MAX {
            Some(decimal_value(t@) as u64)
        } else {
            None
        },
    }
}

/// The number that a text sets, by `default` where nothing is set; none
/// where the text is no unsigned integer of at most `limit`.
pub open spec fn number_of(text: Option<String>, default: u64, limit: u64) -> Option<u64> {
    match text {
        None => Some(default),
        Some(t) => if is_unsigned(t@) && digits_value(without_plus(t@)) <= limit {
            Some(digits_value(without_plus(t@)) as u64)
        } else {
            None
        },
    }
}

/// The switch that a text sets: on for `true`, off for `false` and where
/// nothing is set; none for any other text.
pub open spec fn switch_of(text: Option<String>) -> Option<bool> {
    match text {
        Some(t) => if t@ == "true"@ {
            Some(true)
        } else if t@ == "false"@ {
            Some(false)
        } else {
            None
        },
        None => Some(false),
    }
}

/// The text that is set, or `default` where nothing is set.
pub open spec fn text_or(text: Option<String>, default: Seq<char>) -> Seq<char> {
    match text {
        Some(t) => t@,
        None => default,
    }
}

/// The first thing that is wrong with the texts of a configuration, if
/// anything is; the checks come in the order of the variants of the error.
/// A text that is set and cannot be read is an error, whatever it sets: no
/// default stands in for it.
pub open spec fn config_failure(text: ConfigText) -> Option<ConfigError> {
    if mode_of(text.trading_mode) is None {
        Some(ConfigError::InvalidTradingMode)
    } else if amount_of(text.max_position_size, 1_000_000_000) is None {
        Some(ConfigError::InvalidMaxPositionSize)
    } else if amount_of(text.max_daily_loss, 500_000_000) is None {
        Some(ConfigError::InvalidMaxDailyLoss)
    } else if text.solana_rpc_url is None {
        Some(ConfigError::MissingSolanaRpcUrl)
    } else if text.wallet_private_key is None {
        Some(ConfigError::MissingWalletPrivateKey)
    } else if switch_of(text.multi_wallet_enabled) is None {
        Some(ConfigError::InvalidMultiWalletSwitch)
    } else if text.helius_api_key is None {
        Some(ConfigError::MissingHeliusApiKey)
    } else if text.helius_rpc_url is None {
        Some(ConfigError::MissingHeliusRpcUrl)
    } else if text.helius_ws_url is None {
        Some(ConfigError::MissingHeliusWsUrl)
    } else if text.quicknode_api_key is None {
        Some(ConfigError::MissingQuicknodeApiKey)
    } else if text.quicknode_ws_url is None {
        Some(ConfigError::MissingQuicknodeWsUrl)
    } else if text.database_url is None {
        Some(ConfigError::MissingDatabaseUrl)
    } else if number_of(text.server_port, 8080, u16::MAX as u64) is None {
        Some(ConfigError::InvalidServerPort)
    } else if switch_of(text.overmind_enabled) is None {
        Some(ConfigError::InvalidOvermindSwitch)
    } else if number_of(text.max_latency_ms, 25, u64::MAX) is None {
        Some(ConfigError::InvalidMaxLatency)
    } else if amount_of(text.ai_confidence_threshold, 700_000) is None {
        Some(ConfigError::InvalidConfidenceThreshold)
    } else if amount_of(text.max_position_size, 1_000_000_000) == Some(0u64) {
        Some(ConfigError::NonPositivePositionSize)
    } else if amount_of(text.max_daily_loss, 500_000_000) == Some(0u64) {
        Some(ConfigError::NonPositiveDailyLoss)
    } else if number_of(text.server_port, 8080, u16::MAX as u64) == Some(0u64) {
        Some(ConfigError::ZeroPort)
    } else {
        None
    }
}

/// Whether `config` is the configuration that the texts set.
pub open spec fn is_config_of(config: Config, text: ConfigText) -> bool {
    &&& Some(config.trading.mode) == mode_of(text.trading_mode)
    &&& Some(config.trading.max_position_size) == amount_of(text.max_position_size, 1_000_000_000)
    &&& Some(config.trading.max_daily_loss) == amount_of(text.max_daily_loss, 500_000_000)
    &&& Some(config.solana.rpc_url) == text.solana_rpc_url
    &&& Some(config.solana.wallet_private_key) == text.wallet_private_key
    &&& Some(config.solana.multi_wallet_enabled) == switch_of(text.multi_wallet_enabled)
    &&& config.solana.default_wallet_id == text.default_wallet
    &&& Some(config.api.helius_api_key) == text.helius_api_key
    &&& Some(config.api.helius_rpc_url) == text.helius_rpc_url
    &&& Some(config.api.helius_ws_url) == text.helius_ws_url
    &&& Some(config.api.quicknode_api_key) == text.quicknode_api_key
    &&& Some(config.api.quicknode_ws_url) == text.quicknode_ws_url
    &&& Some(config.database.url) == text.database_url
    &&& Some(config.server.port as u64) == number_of(text.server_port, 8080, u16::MAX as u64)
    &&& config.logging.level@ == text_or(text.log_level, "info"@)
    &&& Some(config.overmind.enabled) == switch_of(text.overmind_enabled)
    &&& config.overmind.tensorzero_gateway_url@ == text_or(
        text.tensorzero_url,
        "http://localhost:3000"@,
    )
    &&& config.overmind.jito_endpoint@ == text_or(
        text.jito_endpoint,
        "https://mainnet.block-engine.jito.wtf"@,
    )
    &&& Some(config.overmind.max_execution_latency_ms) == number_of(
        text.max_latency_ms,
        25,
        u64::MAX,
    )
    &&& Some(config.overmind.ai_confidence_threshold) == amount_of(
        text.ai_confidence_threshold,
        700_000,
    )
}

/// The amount that a text sets.
pub fn read_amount(text: &Option<String>, default: u64) -> (r: Option<u64>)
    ensures
        r == amount_of(*text, default),
{
    match text {
        None => Some(default),
        Some(t) => parse_decimal(t.as_str()),
    }
}

/// The number that a text sets.
pub fn read_number(text: &Option<String>, default: u64, limit: u64) -> (r: Option<u64>)
    requires
        default <= limit,
    ensures
        r == number_of(*text, default, limit),
        r matches Some(n) ==> n <= limit,
{
    match text {
        None => Some(default),
        Some(t) => match parse_u64(t.as_str()) {
            Some(n) => if n <= limit {
                Some(n)
            } else {
                None
            },
            None => None,
        },
    }
}

/// The switch that a text sets.
pub fn read_switch(text: &Option<String>) -> (r: Option<bool>)
    ensures
        r == switch_of(*text),
{
    match text {
        Some(t) => parse_bool(t.as_str()),
        None => Some(false),
    }
}

/// The text that is set, or `default`.
pub fn read_text(text: Option<String>, default: &str) -> (r: String)
    ensures
        r@ == text_or(text, default@),
{
    match text {
        Some(t) => t,
        None => String::from_str(default),
    }
}

/// The trading mode that a text sets.
pub fn read_mode(text: &Option<String>) -> (r: Option<TradingMode>)
    ensures
        r == mode_of(*text),
{
    match text {
        Some(t) => if is_keyword(t.as_str(), "live") {
            Some(TradingMode::Live)
        } else if is_keyword(t.as_str(), "paper") {
            Some(TradingMode::Paper)
        } else {
            None
        },
        None => Some(TradingMode::Paper),
    }
}

impl Config {
    /// What `validate` finds wrong, if anything: a largest position or a
    /// largest daily loss that is not positive, or the port zero.
    pub open spec fn invalidity(&self) -> Option<ConfigError> {
        if self.trading.max_position_size == 0 {
            Some(ConfigError::NonPositivePositionSize)
        } else if self.trading.max_daily_loss == 0 {
            Some(ConfigError::NonPositiveDailyLoss)
        } else if self.server.port == 0 {
            Some(ConfigError::ZeroPort)
        } else {
            None
        }
    }

    /// Checks the values of the configuration.
    pub fn validate(&self) -> (r: Result<(), ConfigError>)
        ensures
            match self.invalidity() {
                Some(e) => r == Err::<(), ConfigError>(e),
                None => r is Ok,
            },
    {
        if self.trading.max_position_size == 0 {
            return Err(ConfigError::NonPositivePositionSize);
        }
        if self.trading.max_daily_loss == 0 {
            return Err(ConfigError::NonPositiveDailyLoss);
        }
        if self.server.port == 0 {
            return Err(ConfigError::ZeroPort);
        }
        Ok(())
    }

    /// The configuration that the texts of the environment set. A setting
    /// that must be there and is not, or a text that is set and cannot be
    /// read, is an error; so is a value that `validate` refuses.
    pub fn from_text(text: ConfigText) -> (r: Result<Config, ConfigError>)
        ensures
            match config_failure(text) {
                Some(e) => r matches Err(f) && f == e,
                None => r matches Ok(config) && is_config_of(config, text)
                    && config.invalidity() is None,
            },
    {
        let mode = match read_mode(&text.trading_mode) {
            Some(m) => m,
            None => {
                return Err(ConfigError::InvalidTradingMode);
            },
        };
        let max_position_size = match read_amount(&text.max_position_size, 1_000_000_000) {
            Some(a) => a,
            None => {
                return Err(ConfigError::InvalidMaxPositionSize);
            },
        };
        let max_daily_loss = match read_amount(&text.max_daily_loss, 500_000_000) {
            Some(a) => a,
            None => {
                return Err(ConfigError::InvalidMaxDailyLoss);
            },
        };
        let rpc_url = match text.solana_rpc_url {
            Some(t) => t,
            None => {
                return Err(ConfigError::MissingSolanaRpcUrl);
            },
        };
        let wallet_private_key = match text.wallet_private_key {
            Some(t) => t,
            None => {
                return Err(ConfigError::MissingWalletPrivateKey);
            },
        };
        let multi_wallet_enabled = match read_switch(&text.multi_wallet_enabled) {
            Some(b) => b,
            None => {
                return Err(ConfigError::InvalidMultiWalletSwitch);
            },
        };
        let helius_api_key = match text.helius_api_key {
            Some(t) => t,
            None => {
                return Err(ConfigError::MissingHeliusApiKey);
            },
        };
        let helius_rpc_url = match text.helius_rpc_url {
            Some(t) => t,
            None => {
                return Err(ConfigError::MissingHeliusRpcUrl);
            },
        };
        let helius_ws_url = match text.helius_ws_url {
            Some(t) => t,
            None => {
                return Err(ConfigError::MissingHeliusWsUrl);
            },
        };
        let quicknode_api_key = match text.quicknode_api_key {
            Some(t) => t,
            None => {
                return Err(ConfigError::MissingQuicknodeApiKey);
            },
        };
        let quicknode_ws_url = match text.quicknode_ws_url {
            Some(t) => t,
            None => {
                return Err(ConfigError::MissingQuicknodeWsUrl);
            },
        };
        let url = match text.database_url {
            Some(t) => t,
            None => {
                return Err(ConfigError::MissingDatabaseUrl);
            },
        };
        let port = match read_number(&text.server_port, 8080, u16::MAX as u64) {
            Some(n) => n as u16,
            None => {
                return Err(ConfigError::InvalidServerPort);
            },
        };
        let enabled = match read_switch(&text.overmind_enabled) {
            Some(b) => b,
            None => {
                return Err(ConfigError::InvalidOvermindSwitch);
            },
        };
        let max_execution_latency_ms = match read_number(&text.max_latency_ms, 25, u64::MAX) {
            Some(n) => n,
            None => {
                return Err(ConfigError::InvalidMaxLatency);
            },
        };
        let ai_confidence_threshold = match read_amount(&text.ai_confidence_threshold, 700_000) {
            Some(n) => n,
            None => {
                return Err(ConfigError::InvalidConfidenceThreshold);
            },
        };
        let config = Config {
            trading: TradingConfig { mode, max_position_size, max_daily_loss },
            solana: SolanaConfig {
                rpc_url,
                wallet_private_key,
                multi_wallet_enabled,
                default_wallet_id: text.default_wallet,
            },
            api: ApiConfig {
                helius_api_key,
                helius_rpc_url,
                helius_ws_url,
                quicknode_api_key,
                quicknode_ws_url,
            },
            database: DatabaseConfig { url },
            server: ServerConfig { port },
            logging: LoggingConfig { level: read_text(text.log_level, "info") },
            overmind: OvermindConfig {
                enabled,
                tensorzero_gateway_url: read_text(text.tensorzero_url, "http://localhost:3000"),
                jito_endpoint: read_text(
                    text.jito_endpoint,
                    "https://mainnet.block-engine.jito.wtf",
                ),
                max_execution_latency_ms,
                ai_confidence_threshold,
            },
        };
        match config.validate() {
            Ok(()) => Ok(config),
            Err(e) => Err(e),
        }
    }

    /// Whether trades are sent.
    pub fn is_live_trading(&self) -> (r: bool)
        ensures
            r == (self.trading.mode == TradingMode::Live),
    {
        match self.trading.mode {
            TradingMode::Live => true,
            TradingMode::Paper => false,
        }
    }

    /// The name of the trading mode.
    pub fn trading_mode_str(&self) -> (r: &'static str)
        ensures
            r@ == match self.trading.mode {
                TradingMode::Paper => "paper"@,
                TradingMode::Live => "live"@,
            },
    {
        match self.trading.mode {
            TradingMode::Paper => "paper",
            TradingMode::Live => "live",
        }
    }

    /// Whether the inference engine is enabled.
    pub fn is_overmind_enabled(&self) -> (r: bool)
        ensures
            r == self.overmind.enabled,
    {
        self.overmind.enabled
    }

    /// The name of the mode of the inference engine.
    pub fn overmind_mode_str(&self) -> (r: &'static str)
        ensures
            r@ == if self.overmind.enabled {
                "THE OVERMIND PROTOCOL (AI-Enhanced)"@
            } else {
                "Standard Mode"@
            },
    {
        if self.overmind.enabled {
            "THE OVERMIND PROTOCOL (AI-Enhanced)"
        } else {
            "Standard Mode"
        }
    }
}

impl Default for Config {
    /// The configuration where nothing is set and the settings that must be
    /// there are empty: paper trading with a largest position of 1000 and a
    /// largest daily loss of 500, port 8080, the inference engine off.
    fn default() -> (r: Self)
        ensures
            r.trading == (TradingConfig {
                mode: TradingMode::Paper,
                max_position_size: 1_000_000_000,
                max_daily_loss: 500_000_000,
            }),
            r.server.port == 8080,
            !r.overmind.enabled,
            r.overmind.max_execution_latency_ms == 25,
            r.overmind.ai_confidence_threshold == 700_000,
            r.overmind.tensorzero_gateway_url@ == "http://localhost:3000"@,
            r.overmind.jito_endpoint@ == "https://mainnet.block-engine.jito.wtf"@,
            r.logging.level@ == "info"@,
            !r.solana.multi_wallet_enabled,
            r.solana.default_wallet_id is None,
            r.invalidity() is None,
    {
        Config {
            trading: TradingConfig {
                mode: TradingMode::Paper,
                max_position_size: 1_000_000_000,
                max_daily_loss: 500_000_000,
            },
            solana: SolanaConfig {
                rpc_url: String::new(),
                wallet_private_key: String::new(),
                multi_wallet_enabled: false,
                default_wallet_id: None,
            },
            api: ApiConfig {
                helius_api_key: String::new(),
                helius_rpc_url: String::new(),
                helius_ws_url: String::new(),
                quicknode_api_key: String::new(),
                quicknode_ws_url: String::new(),
            },
            database: DatabaseConfig { url: String::new() },
            server: ServerConfig { port: 8080 },
            logging: LoggingConfig { level: String::from_str("info") },
            overmind: OvermindConfig {
                enabled: false,
                tensorzero_gateway_url: String::from_str("http://localhost:3000"),
                jito_endpoint: String::from_str("https://mainnet.block-engine.jito.wtf"),
                max_execution_latency_ms: 25,
                ai_confidence_threshold: 700_000,
            },
        }
    }
}

} // verus!
