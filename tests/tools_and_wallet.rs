use agent_friend::address::address_to_text;
use agent_friend::balance::{balance_reply, check_balance_address, eth_six, mock_balance, mock_balance_reply};
use agent_friend::tools::{
    execute_tool, get_available_tools, get_time, get_weather, time_report, weather_for, Tool, ToolArgs, ToolPlan,
    ToolRegistry,
};
use agent_friend::wallet::{eth_generate_wallet, generate_wallet_from, WalletRegistry};

fn args(pairs: &[(&str, &str)]) -> ToolArgs {
    ToolArgs { entries: pairs.iter().map(|(k, v)| (k.to_string(), v.to_string())).collect() }
}

fn reply_text(p: ToolPlan) -> String {
    match p {
        ToolPlan::Reply { text } => text,
        _ => panic!("expected a text reply"),
    }
}

const ADDR_A: &str = "0x1111111111111111111111111111111111111111";

#[test]
fn tool_names_are_distinct_and_ordered() {
    let tools = get_available_tools();
    let names: Vec<&str> = tools.iter().map(|t| t.name.as_str()).collect();
    assert_eq!(names, vec!["get_weather", "get_time", "eth_wallet"]);
    for i in 0..names.len() {
        for j in (i + 1)..names.len() {
            assert_ne!(names[i], names[j]);
        }
    }
}

#[test]
fn every_listed_tool_runs_on_well_formed_arguments() {
    let mut reg = WalletRegistry::new();
    let p = execute_tool(&mut reg, "get_weather", &args(&[("city", "London")]));
    assert_eq!(reply_text(p), "15°C, cloudy with occasional rain");
    let p = execute_tool(&mut reg, "get_time", &args(&[]));
    assert!(reply_text(p).starts_with("Current local time: "));
    let p = execute_tool(&mut reg, "eth_wallet", &args(&[("operation", "balance"), ("address", ADDR_A)]));
    match p {
        ToolPlan::QueryBalance { address } => assert_eq!(address, vec![0x11u8; 20]),
        _ => panic!("expected a balance query"),
    }
}

#[test]
fn unknown_tool_and_operation_are_reported_as_text() {
    let mut reg = WalletRegistry::new();
    assert_eq!(reply_text(execute_tool(&mut reg, "fly", &args(&[]))), "Unknown tool: fly");
    assert_eq!(
        reply_text(execute_tool(&mut reg, "eth_wallet", &args(&[("operation", "burn")]))),
        "Unknown Ethereum wallet operation: burn"
    );
    assert_eq!(
        reply_text(execute_tool(&mut reg, "eth_wallet", &args(&[]))),
        "Unknown Ethereum wallet operation: unknown"
    );
}

#[test]
fn balance_of_malformed_address_is_refused_before_any_call() {
    let e = check_balance_address("0xZZZ").unwrap_err();
    assert!(e.contains("Invalid Ethereum address format"));
    assert_eq!(e, "Error: Invalid Ethereum address format: 0xZZZ");
    let mut reg = WalletRegistry::new();
    let p = execute_tool(&mut reg, "eth_wallet", &args(&[("operation", "balance"), ("address", "0xZZZ")]));
    assert!(reply_text(p).contains("Invalid Ethereum address format"));
}

#[test]
fn balance_needs_an_address() {
    assert_eq!(check_balance_address("").unwrap_err(), "Error: Address is required");
}

#[test]
fn balance_report_has_six_places() {
    assert_eq!(eth_six(1_234_567_890_000_000_000), "1.234568");
    assert_eq!(eth_six(0), "0.000000");
    assert_eq!(eth_six(500_000_000_000), "0.000001");
    assert_eq!(eth_six(499_999_999_999), "0.000000");
    let a = vec![0xabu8; 20];
    assert_eq!(
        balance_reply(&a, 2_000_000_000_000_000_000, "http://node"),
        "Balance for address 0xabababababababababababababababababababab: 2.000000 ETH (via http://node)"
    );
}

#[test]
fn mock_balance_is_labelled() {
    let a = vec![0u8; 20];
    assert_eq!(
        mock_balance_reply(&a, 3, 123456),
        "Balance for address 0x0000000000000000000000000000000000000000: 3.123456 ETH (mock)"
    );
    assert!(mock_balance(&a).ends_with(" ETH (mock)"));
}

#[test]
fn weather_matches_city_without_case() {
    assert_eq!(get_weather("CAIRO"), "30°C, sunny");
    assert_eq!(get_weather("New York"), "22°C, partly cloudy");
    assert_eq!(get_weather("tokyo"), "25°C, clear skies");
    assert_eq!(
        get_weather("Paris"),
        "Weather data for Paris is not available. This is a mock implementation."
    );
    assert_eq!(weather_for("X", "london"), "15°C, cloudy with occasional rain");
}

#[test]
fn time_report_names_the_zone() {
    assert_eq!(
        time_report(Some("UTC"), "2024-01-02 03:04:05"),
        "Current time (local, timezone UTC not implemented): 2024-01-02 03:04:05"
    );
    assert_eq!(time_report(None, "2024-01-02 03:04:05"), "Current local time: 2024-01-02 03:04:05");
    assert!(get_time(Some("UTC")).starts_with("Current time (local, timezone UTC not implemented): "));
}

#[test]
fn hex_and_decimal_forms() {
    let mut a = vec![0u8; 17];
    a.extend_from_slice(&[0x00, 0xff, 0x1a]);
    assert_eq!(address_to_text(&a), "0x000000000000000000000000000000000000ff1a");
    assert_eq!(mock_balance_reply(&a, 0, 1234567), format!("Balance for address 0x{}00ff1a: 0.1234567 ETH (mock)", "00".repeat(17)));
}

#[test]
fn address_reading_and_display() {
    assert_eq!(check_balance_address(ADDR_A), Ok(vec![0x11u8; 20]));
    assert_eq!(check_balance_address("1111111111111111111111111111111111111111"), Ok(vec![0x11u8; 20]));
    assert_eq!(check_balance_address("0x 1111111111111111111111111111111111111111 "), Ok(vec![0x11u8; 20]));
    assert!(check_balance_address("0x11").is_err());
    assert!(check_balance_address("0x11111111111111111111111111111111111111112").is_err());
    assert_eq!(address_to_text(&[0xAB; 20]), "0xabababababababababababababababababababab");
}

#[test]
fn generated_wallet_rederives_its_address() {
    let mut reg = WalletRegistry::new();
    let msg = eth_generate_wallet(&mut reg);
    assert!(msg.starts_with("Generated new Ethereum wallet:\nAddress: 0x"));
    let address = msg.split("Address: ").nth(1).unwrap().split('\n').next().unwrap().to_string();
    let key = msg.split("Private Key: ").nth(1).unwrap().to_string();
    let bytes = check_balance_address(&address).unwrap();
    assert_eq!(reg.lookup(&bytes), Some(key.clone()));
    let key_bytes = hex::decode(&key).unwrap();
    let wallet = ethers::signers::LocalWallet::from_bytes(&key_bytes).unwrap();
    let derived = ethers::signers::Signer::address(&wallet);
    assert_eq!(format!("{:?}", derived), address);
}

#[test]
fn invalid_key_files_nothing() {
    let mut reg = WalletRegistry::new();
    let msg = generate_wallet_from(&mut reg, &[0u8; 32]);
    assert_eq!(msg, "Failed to generate wallet");
    assert_eq!(reg.lookup(&[0u8; 20]), None);
}

#[test]
fn known_key_gives_known_address() {
    // the well-known first development key and its address
    let key = hex::decode("ac0974bec39a17e36ba4a6b4d238ff944bacb478cbed5efcae784d7bf4f2ff80").unwrap();
    let mut reg = WalletRegistry::new();
    let msg = generate_wallet_from(&mut reg, &key);
    assert_eq!(
        msg,
        "Generated new Ethereum wallet:\nAddress: 0xf39fd6e51aad88f6f4ce6ab8827279cfffb92266\nPrivate Key: ac0974bec39a17e36ba4a6b4d238ff944bacb478cbed5efcae784d7bf4f2ff80"
    );
    let a = check_balance_address("0xf39fd6e51aad88f6f4ce6ab8827279cfffb92266").unwrap();
    assert_eq!(reg.lookup(&a), Some("ac0974bec39a17e36ba4a6b4d238ff944bacb478cbed5efcae784d7bf4f2ff80".to_string()));
}

#[test]
fn registry_refuses_a_taken_name() {
    let mut reg = ToolRegistry::standard();
    assert!(reg.contains("eth_wallet"));
    assert!(!reg.contains("fly"));
    let dup = Tool { name: "get_time".to_string(), description: "again".to_string() };
    assert_eq!(reg.register(dup).unwrap_err(), "Tool already registered: get_time");
    assert_eq!(reg.list().len(), 3);
    let fresh = Tool { name: "fly".to_string(), description: "flies".to_string() };
    assert!(reg.register(fresh).is_ok());
    let names: Vec<&str> = reg.list().iter().map(|t| t.name.as_str()).collect();
    assert_eq!(names, vec!["get_weather", "get_time", "eth_wallet", "fly"]);
    let mut empty = ToolRegistry::new();
    assert!(empty.list().is_empty());
    assert!(empty.register(Tool { name: "a".to_string(), description: String::new() }).is_ok());
}
