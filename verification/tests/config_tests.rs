use snipercor::config::{
    ApiConfig, Config, ConfigError, ConfigText, DatabaseConfig, LoggingConfig, OvermindConfig,
    ServerConfig, SolanaConfig, TradingConfig, TradingMode,
};

fn micros(x: f64) -> u64 {
    (x * 1_000_000.0).round() as u64
}

fn required() -> ConfigText {
    ConfigText {
        trading_mode: None,
        max_position_size: None,
        max_daily_loss: None,
        solana_rpc_url: Some("https://api.mainnet-beta.solana.com".to_string()),
        wallet_private_key: Some("test_key".to_string()),
        multi_wallet_enabled: None,
        default_wallet: None,
        helius_api_key: Some("hk".to_string()),
        helius_rpc_url: Some("https://devnet.helius-rpc.com".to_string()),
        helius_ws_url: Some("wss://devnet.helius-rpc.com".to_string()),
        quicknode_api_key: Some("qk".to_string()),
        quicknode_ws_url: Some("wss://test.quiknode.pro".to_string()),
        database_url: Some("postgresql://test".to_string()),
        server_port: None,
        log_level: None,
        overmind_enabled: None,
        tensorzero_url: None,
        jito_endpoint: None,
        max_latency_ms: None,
        ai_confidence_threshold: None,
    }
}

#[test]
fn test_config_validation() {
    let mut config = Config {
        trading: TradingConfig {
            mode: TradingMode::Paper,
            max_position_size: micros(1000.0),
            max_daily_loss: micros(500.0),
        },
        solana: SolanaConfig {
            rpc_url: "https://api.mainnet-beta.solana.com".to_string(),
            wallet_private_key: "test_key".to_string(),
            multi_wallet_enabled: false,
            default_wallet_id: None,
        },
        api: ApiConfig {
            helius_api_key: "test_key".to_string(),
            helius_rpc_url: "https://devnet.helius-rpc.com".to_string(),
            helius_ws_url: "wss://devnet.helius-rpc.com".to_string(),
            quicknode_api_key: "test_key".to_string(),
            quicknode_ws_url: "wss://test.quiknode.pro".to_string(),
        },
        database: DatabaseConfig { url: "postgresql://test".to_string() },
        server: ServerConfig { port: 8080 },
        logging: LoggingConfig { level: "info".to_string() },
        overmind: OvermindConfig {
            enabled: false,
            tensorzero_gateway_url: "http://localhost:3000".to_string(),
            jito_endpoint: "https://mainnet.block-engine.jito.wtf".to_string(),
            max_execution_latency_ms: 25,
            ai_confidence_threshold: micros(0.7),
        },
    };

    assert!(config.validate().is_ok());

    // A position size that is not positive is refused.
    config.trading.max_position_size = 0;
    assert!(config.validate().is_err());

    // A negative position size cannot even be read.
    let mut text = required();
    text.max_position_size = Some("-100.0".to_string());
    assert!(Config::from_text(text).is_err());
}

#[test]
fn test_trading_mode() {
    let config = Config {
        trading: TradingConfig {
            mode: TradingMode::Paper,
            max_position_size: micros(1000.0),
            max_daily_loss: micros(500.0),
        },
        solana: SolanaConfig {
            rpc_url: "test".to_string(),
            wallet_private_key: "test".to_string(),
            multi_wallet_enabled: false,
            default_wallet_id: None,
        },
        api: ApiConfig {
            helius_api_key: "test".to_string(),
            helius_rpc_url: "https://devnet.helius-rpc.com".to_string(),
            helius_ws_url: "wss://devnet.helius-rpc.com".to_string(),
            quicknode_api_key: "test".to_string(),
            quicknode_ws_url: "wss://test.quiknode.pro".to_string(),
        },
        database: DatabaseConfig { url: "test".to_string() },
        server: ServerConfig { port: 8080 },
        logging: LoggingConfig { level: "info".to_string() },
        overmind: OvermindConfig {
            enabled: false,
            tensorzero_gateway_url: "http://localhost:3000".to_string(),
            jito_endpoint: "https://mainnet.block-engine.jito.wtf".to_string(),
            max_execution_latency_ms: 25,
            ai_confidence_threshold: micros(0.7),
        },
    };

    assert!(!config.is_live_trading());
    assert_eq!(config.trading_mode_str(), "paper");
}

#[test]
fn validation_names_each_error() {
    let mut config = Config::default();
    assert!(config.validate().is_ok());
    config.server.port = 0;
    assert_eq!(config.validate().unwrap_err(), ConfigError::ZeroPort);
    config.trading.max_daily_loss = 0;
    assert_eq!(config.validate().unwrap_err(), ConfigError::NonPositiveDailyLoss);
    config.trading.max_position_size = 0;
    assert_eq!(config.validate().unwrap_err(), ConfigError::NonPositivePositionSize);
}

#[test]
fn defaults_apply_where_nothing_is_set() {
    let config = Config::from_text(required()).unwrap();
    assert_eq!(config.trading.mode, TradingMode::Paper);
    assert_eq!(config.trading.max_position_size, micros(1000.0));
    assert_eq!(config.trading.max_daily_loss, micros(500.0));
    assert_eq!(config.server.port, 8080);
    assert_eq!(config.logging.level, "info");
    assert!(!config.solana.multi_wallet_enabled);
    assert_eq!(config.solana.default_wallet_id, None);
    assert!(!config.is_overmind_enabled());
    assert_eq!(config.overmind_mode_str(), "Standard Mode");
    assert_eq!(config.overmind.tensorzero_gateway_url, "http://localhost:3000");
    assert_eq!(config.overmind.jito_endpoint, "https://mainnet.block-engine.jito.wtf");
    assert_eq!(config.overmind.max_execution_latency_ms, 25);
    assert_eq!(config.overmind.ai_confidence_threshold, micros(0.7));
    assert_eq!(config.solana.rpc_url, "https://api.mainnet-beta.solana.com");
    assert_eq!(config.api.quicknode_ws_url, "wss://test.quiknode.pro");
    assert_eq!(config.database.url, "postgresql://test");
}

#[test]
fn settings_are_read_from_their_texts() {
    let mut text = required();
    text.trading_mode = Some("LiVe".to_string());
    text.max_position_size = Some("250.5".to_string());
    text.max_daily_loss = Some("75".to_string());
    text.multi_wallet_enabled = Some("true".to_string());
    text.default_wallet = Some("primary".to_string());
    text.server_port = Some("9090".to_string());
    text.log_level = Some("debug".to_string());
    text.overmind_enabled = Some("true".to_string());
    text.tensorzero_url = Some("http://localhost:3003".to_string());
    text.jito_endpoint = Some("http://jito".to_string());
    text.max_latency_ms = Some("50".to_string());
    text.ai_confidence_threshold = Some("0.85".to_string());
    let config = Config::from_text(text).unwrap();
    assert!(config.is_live_trading());
    assert_eq!(config.trading_mode_str(), "live");
    assert_eq!(config.trading.max_position_size, micros(250.5));
    assert_eq!(config.trading.max_daily_loss, micros(75.0));
    assert!(config.solana.multi_wallet_enabled);
    assert_eq!(config.solana.default_wallet_id.as_deref(), Some("primary"));
    assert_eq!(config.server.port, 9090);
    assert_eq!(config.logging.level, "debug");
    assert!(config.is_overmind_enabled());
    assert_eq!(config.overmind_mode_str(), "THE OVERMIND PROTOCOL (AI-Enhanced)");
    assert_eq!(config.overmind.tensorzero_gateway_url, "http://localhost:3003");
    assert_eq!(config.overmind.jito_endpoint, "http://jito");
    assert_eq!(config.overmind.max_execution_latency_ms, 50);
    assert_eq!(config.overmind.ai_confidence_threshold, micros(0.85));
}

#[test]
fn a_text_that_cannot_be_read_is_an_error() {
    // Switches and the mode are read as they are written.
    let mut text = required();
    text.trading_mode = Some("PAPER".to_string());
    text.multi_wallet_enabled = Some("false".to_string());
    text.overmind_enabled = Some("false".to_string());
    let config = Config::from_text(text).unwrap();
    assert_eq!(config.trading.mode, TradingMode::Paper);
    assert!(!config.solana.multi_wallet_enabled);
    assert!(!config.overmind.enabled);
    assert_eq!(config.overmind.max_execution_latency_ms, 25);
    assert_eq!(config.overmind.ai_confidence_threshold, micros(0.7));

    let failing = |change: fn(&mut ConfigText), error: ConfigError| {
        let mut text = required();
        change(&mut text);
        assert_eq!(Config::from_text(text).unwrap_err(), error);
    };
    failing(|t| t.trading_mode = Some("anything".to_string()), ConfigError::InvalidTradingMode);
    failing(|t| t.multi_wallet_enabled = Some("yes".to_string()), ConfigError::InvalidMultiWalletSwitch);
    failing(|t| t.overmind_enabled = Some("TRUE".to_string()), ConfigError::InvalidOvermindSwitch);
    failing(|t| t.max_latency_ms = Some("abc".to_string()), ConfigError::InvalidMaxLatency);
    failing(|t| t.max_latency_ms = Some("2.5".to_string()), ConfigError::InvalidMaxLatency);
    failing(
        |t| t.ai_confidence_threshold = Some("abc".to_string()),
        ConfigError::InvalidConfidenceThreshold,
    );
    failing(|t| t.max_position_size = Some("big".to_string()), ConfigError::InvalidMaxPositionSize);
    failing(|t| t.max_daily_loss = Some("-5".to_string()), ConfigError::InvalidMaxDailyLoss);
    failing(|t| t.solana_rpc_url = None, ConfigError::MissingSolanaRpcUrl);
    failing(|t| t.wallet_private_key = None, ConfigError::MissingWalletPrivateKey);
    failing(|t| t.helius_api_key = None, ConfigError::MissingHeliusApiKey);
    failing(|t| t.helius_rpc_url = None, ConfigError::MissingHeliusRpcUrl);
    failing(|t| t.helius_ws_url = None, ConfigError::MissingHeliusWsUrl);
    failing(|t| t.quicknode_api_key = None, ConfigError::MissingQuicknodeApiKey);
    failing(|t| t.quicknode_ws_url = None, ConfigError::MissingQuicknodeWsUrl);
    failing(|t| t.database_url = None, ConfigError::MissingDatabaseUrl);
    failing(|t| t.server_port = Some("65536".to_string()), ConfigError::InvalidServerPort);
    failing(|t| t.server_port = Some("0".to_string()), ConfigError::ZeroPort);
    failing(|t| t.max_position_size = Some("0".to_string()), ConfigError::NonPositivePositionSize);
    failing(|t| t.max_daily_loss = Some("0.0".to_string()), ConfigError::NonPositiveDailyLoss);
    // The first error in the order of the settings is the one that is named.
    failing(
        |t| {
            t.max_daily_loss = Some("x".to_string());
            t.solana_rpc_url = None;
        },
        ConfigError::InvalidMaxDailyLoss,
    );
}

#[test]
fn test_overmind_configuration_validation() {
    let valid_config = OvermindConfig {
        enabled: true,
        tensorzero_gateway_url: "http://localhost:3000".to_string(),
        jito_endpoint: "https://mainnet.block-engine.jito.wtf".to_string(),
        max_execution_latency_ms: 25,
        ai_confidence_threshold: micros(0.7),
    };

    assert!(valid_config.enabled, "OVERMIND should be enabled");
    assert!(!valid_config.tensorzero_gateway_url.is_empty(), "TensorZero URL should not be empty");
    assert!(!valid_config.jito_endpoint.is_empty(), "Jito endpoint should not be empty");
    assert!(valid_config.max_execution_latency_ms > 0, "Max latency should be positive");
    assert!(valid_config.max_execution_latency_ms <= 100, "Max latency should be reasonable");
    assert!(valid_config.ai_confidence_threshold <= micros(1.0));
}
