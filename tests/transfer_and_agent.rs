use agent_friend::agent::{
    after_model_error, after_reply, after_tool, classify_reply, direct_send_args, is_direct_send, is_direct_send_lowered,
    start_turn,
    system_prompt, tool_declarations, ContentBlock, LegacyToolCall, Message, ModelReply, ReplyAction, TurnStep,
    EMPTY_SCHEMA, MAX_TOOL_ROUNDS, PLACEHOLDER_REPLY, TOOL_LOOP_EXCEEDED, WEATHER_SCHEMA,
};
use agent_friend::amount::parse_wei;
use agent_friend::command::{contains_text, parse_send_command, same_text};
use agent_friend::personality::{join_strings, persona_prompt, Personality, Style};
use agent_friend::tools::{execute_tool, get_available_tools, ToolArgs, ToolPlan};
use agent_friend::transfer::{describe_outcome, next_step, plan_send, ReceiptEvent, TxEvent, TxOutcome, TxStep};
use agent_friend::wallet::{generate_wallet_from, WalletRegistry};

const FROM: &str = "0xf39fd6e51aad88f6f4ce6ab8827279cfffb92266";
const TO: &str = "0x70997970C51812dc3A010C7d01b50e0d17dc79C8";
const KEY: &str = "ac0974bec39a17e36ba4a6b4d238ff944bacb478cbed5efcae784d7bf4f2ff80";

fn wei(s: &str) -> Option<u128> {
    let cs: Vec<char> = s.chars().collect();
    parse_wei(&cs)
}

fn registry_with_key() -> WalletRegistry {
    let mut reg = WalletRegistry::new();
    let key = hex::decode(KEY).unwrap();
    generate_wallet_from(&mut reg, &key);
    reg
}

fn text(t: &str) -> ContentBlock {
    ContentBlock::Text { text: t.to_string() }
}

#[test]
fn amounts_in_wei() {
    assert_eq!(wei("0.01"), Some(10_000_000_000_000_000));
    assert_eq!(wei("1"), Some(1_000_000_000_000_000_000));
    assert_eq!(wei(".5"), Some(500_000_000_000_000_000));
    assert_eq!(wei("5."), Some(5_000_000_000_000_000_000));
    assert_eq!(wei("0.0000000000000000019"), Some(1));
    assert_eq!(wei("abc"), None);
    assert_eq!(wei("1.5.2"), None);
    assert_eq!(wei("."), None);
    assert_eq!(wei(""), None);
    assert_eq!(wei("1000000000000000000000"), None);
}

#[test]
fn send_command_fields_are_read() {
    let cmd = format!("send 0.5 ETH from {} to {}", FROM, TO);
    let c = parse_send_command(&cmd).unwrap();
    assert_eq!(c.amount, "0.5");
    assert_eq!(c.from_address, FROM);
    assert_eq!(c.to_address, TO);
    assert_eq!(c.private_key, None);
    let cmd = format!("Send 2ETH to {} from {} private key {}", TO, FROM, KEY);
    let c = parse_send_command(&cmd).unwrap();
    assert_eq!(c.amount, "2");
    assert_eq!(c.from_address, FROM);
    assert_eq!(c.to_address, TO);
    assert_eq!(c.private_key, Some(KEY.to_string()));
}

#[test]
fn send_command_missing_fields_are_named() {
    let e = parse_send_command(&format!("send some ETH from {} to {}", FROM, TO)).unwrap_err();
    assert_eq!(e, "Error: Could not parse ETH amount from command");
    let e = parse_send_command(&format!("send 1 ETH to {}", TO)).unwrap_err();
    assert_eq!(e, "Error: Could not parse from address from command");
    let e = parse_send_command(&format!("send 1 ETH from {}", FROM)).unwrap_err();
    assert_eq!(e, "Error: Could not parse to address from command");
}

#[test]
fn send_checks_come_before_the_network() {
    let reg = WalletRegistry::new();
    assert_eq!(
        plan_send(&reg, "", TO, "1", None).err().unwrap(),
        "Error: From address, to address, and amount are required"
    );
    assert_eq!(plan_send(&reg, "0x12", TO, "1", None).err().unwrap(), "Error: Invalid from address format: 0x12");
    assert_eq!(plan_send(&reg, FROM, "nope", "1", None).err().unwrap(), "Error: Invalid to address format: nope");
    assert_eq!(plan_send(&reg, FROM, TO, "lots", None).err().unwrap(), "Error: Invalid amount: lots");
    assert_eq!(
        plan_send(&reg, FROM, TO, "1", None).err().unwrap(),
        "Error: No private key found for address 0xf39fd6e51aad88f6f4ce6ab8827279cfffb92266. Please provide a private key."
    );
    assert_eq!(plan_send(&reg, FROM, TO, "1", Some("xyz")).err().unwrap(), "Error: Invalid private key format");
    assert_eq!(
        plan_send(&reg, FROM, TO, "1", Some("abcd")).err().unwrap(),
        "Error: Failed to create wallet from private key"
    );
    let p = plan_send(&reg, FROM, TO, "1", Some(KEY)).ok().unwrap();
    assert_eq!(p.key, hex::decode(KEY).unwrap());
}

#[test]
fn send_with_registered_key_times_out_with_hash_and_estimate() {
    let reg = registry_with_key();
    let plan = plan_send(&reg, FROM, TO, "0.01", None).ok().unwrap();
    assert_eq!(plan.wei, 10_000_000_000_000_000);
    let s = next_step(TxStep::FetchGasPrice, TxEvent::GasPrice { result: Ok(3_000_000_000) });
    let s = next_step(s, TxEvent::GasEstimate { result: Ok(21000) });
    let hash = vec![0x5au8; 32];
    let s = next_step(s, TxEvent::Sent { result: Ok(hash.clone()) });
    let s = next_step(s, TxEvent::Receipt { event: ReceiptEvent::TimedOut });
    let outcome = match s {
        TxStep::Finished { outcome } => outcome,
        _ => panic!("the transfer should have ended"),
    };
    match &outcome {
        TxOutcome::TimedOut { gas_estimate, gas_price, hash: h } => {
            assert_eq!(*gas_estimate, 21000);
            assert_eq!(*gas_price, 3_000_000_000);
            assert_eq!(h, &hash);
        },
        _ => panic!("expected a timed-out outcome"),
    }
    let msg = describe_outcome(&plan, "http://node", &outcome);
    assert_eq!(
        msg,
        format!(
            "Transaction submitted but confirmation timed out after 60 seconds.\n0.01 ETH from {} to {}\nGas Price: 3 gwei\nGas Estimate: 21000\nNetwork: Sepolia (via http://node)\nTransaction Hash: 0x{}",
            FROM,
            TO.to_lowercase(),
            "5a".repeat(32)
        )
    );
}

#[test]
fn transfer_outcomes_are_reported() {
    let reg = registry_with_key();
    let plan = plan_send(&reg, FROM, TO, "1", None).ok().unwrap();
    let h = vec![1u8; 32];
    let s = next_step(
        TxStep::AwaitReceipt { gas_price: 2_000_000_000, gas_estimate: 21000, hash: h.clone() },
        TxEvent::Receipt { event: ReceiptEvent::Mined { gas_used: 21000, block: 77 } },
    );
    let o = match s {
        TxStep::Finished { outcome } => outcome,
        _ => panic!(),
    };
    let m = describe_outcome(&plan, "u", &o);
    assert!(m.starts_with("Transaction successfully sent 1 ETH from "));
    assert!(m.contains("\nGas Price: 2 gwei\nGas Used: 21000\nBlock Number: 77\nNetwork: Sepolia (via u)\n"));
    let s = next_step(
        TxStep::AwaitReceipt { gas_price: 1, gas_estimate: 1, hash: h.clone() },
        TxEvent::Receipt { event: ReceiptEvent::Missing },
    );
    match s {
        TxStep::Finished { outcome: TxOutcome::NoReceipt { hash } } => assert_eq!(hash, h),
        _ => panic!(),
    }
    let s = next_step(
        TxStep::AwaitReceipt { gas_price: 1, gas_estimate: 1, hash: h.clone() },
        TxEvent::Receipt { event: ReceiptEvent::Failed { reason: "reverted".to_string() } },
    );
    match s {
        TxStep::Finished { outcome: TxOutcome::Rejected { reason } } => {
            assert_eq!(reason, format!("Transaction submitted but failed: reverted\nTransaction Hash: 0x{}", "01".repeat(32)))
        },
        _ => panic!(),
    }
}

#[test]
fn failed_network_steps_are_rejections() {
    let s = next_step(TxStep::FetchGasPrice, TxEvent::GasPrice { result: Err("down".to_string()) });
    match s {
        TxStep::Finished { outcome: TxOutcome::Rejected { reason } } => assert_eq!(reason, "Error getting gas price: down"),
        _ => panic!(),
    }
    let s = next_step(TxStep::EstimateGas { gas_price: 1 }, TxEvent::GasEstimate { result: Err("x".to_string()) });
    match s {
        TxStep::Finished { outcome: TxOutcome::Rejected { reason } } => assert_eq!(reason, "Error estimating gas: x"),
        _ => panic!(),
    }
    let s = next_step(TxStep::Submit { gas_price: 1, gas_estimate: 2 }, TxEvent::Sent { result: Err("y".to_string()) });
    match s {
        TxStep::Finished { outcome: TxOutcome::Rejected { reason } } => assert_eq!(reason, "Error sending transaction: y"),
        _ => panic!(),
    }
    let s = next_step(TxStep::FetchGasPrice, TxEvent::Receipt { event: ReceiptEvent::TimedOut });
    assert!(matches!(s, TxStep::FetchGasPrice));
}

#[test]
fn raw_command_goes_through_the_parser() {
    let mut reg = registry_with_key();
    let a = direct_send_args(&format!("send 0.01 ETH from {} to {}", FROM, TO));
    match execute_tool(&mut reg, "eth_wallet", &a) {
        ToolPlan::Transfer { plan } => assert_eq!(plan.wei, 10_000_000_000_000_000),
        _ => panic!("expected a transfer"),
    }
    let a = ToolArgs {
        entries: vec![("operation".to_string(), "send".to_string()), ("raw_command".to_string(), "send it".to_string())],
    };
    match execute_tool(&mut reg, "eth_wallet", &a) {
        ToolPlan::Reply { text } => assert_eq!(text, "Error: Could not parse ETH amount from command"),
        _ => panic!(),
    }
}

#[test]
fn direct_send_detection() {
    assert!(is_direct_send("Send 1 ETH to someone"));
    assert!(is_direct_send("SEND 1ETH"));
    assert!(!is_direct_send("send 1 eth"));
    assert!(!is_direct_send("please send 1 ETH"));
    assert!(contains_text("abc", "bc"));
    assert!(!contains_text("abc", "cb"));
    assert!(same_text("x", "x"));
    assert!(is_direct_send_lowered("SEND 1 ETH", "send 1 eth"));
    assert!(!is_direct_send_lowered("SEND 1 ETH", "SEND 1 ETH"));
}

#[test]
fn tool_round_appends_call_then_result() {
    let step = start_turn("weather?", Vec::new());
    let (history, rounds) = match step {
        TurnStep::AskModel { history, rounds } => (history, rounds),
        _ => panic!(),
    };
    assert_eq!(history.len(), 1);
    assert_eq!(rounds, 0);
    let reply = ModelReply {
        content: vec![
            text("Let me check."),
            ContentBlock::ToolUse { id: "t1".to_string(), name: "get_weather".to_string(), input: "{\"city\":\"Cairo\"}".to_string() },
            ContentBlock::ToolUse { id: "t2".to_string(), name: "get_time".to_string(), input: "{}".to_string() },
        ],
        tool_calls: vec![],
    };
    let step = after_reply(history, rounds, &reply);
    let (history, rounds, id, name, input) = match step {
        TurnStep::RunTool { history, rounds, id, name, input } => (history, rounds, id, name, input),
        _ => panic!("expected a tool call"),
    };
    assert_eq!((id.as_str(), name.as_str()), ("t1", "get_weather"));
    let before = history.len();
    let step = after_tool(history, rounds, &id, &name, &input, "30°C, sunny");
    match step {
        TurnStep::AskModel { history, rounds } => {
            assert_eq!(history.len(), before + 2);
            assert_eq!(rounds, 1);
            assert_eq!(history[before].role, "assistant");
            assert!(matches!(&history[before].content[0], ContentBlock::ToolUse { id, .. } if id == "t1"));
            assert_eq!(history[before + 1].role, "user");
            assert!(matches!(&history[before + 1].content[0], ContentBlock::ToolResult { tool_use_id, content } if tool_use_id == "t1" && content == "30°C, sunny"));
        },
        _ => panic!(),
    }
}

#[test]
fn legacy_tool_calls_are_the_fallback() {
    let reply = ModelReply {
        content: vec![text("hi")],
        tool_calls: vec![LegacyToolCall { id: "c9".to_string(), name: "get_time".to_string(), parameters: "{}".to_string() }],
    };
    match classify_reply(&reply) {
        ReplyAction::CallTool { id, name, .. } => assert_eq!((id.as_str(), name.as_str()), ("c9", "get_time")),
        _ => panic!(),
    }
}

#[test]
fn text_replies_are_joined_or_replaced() {
    let reply = ModelReply { content: vec![text("Hello, "), text("world")], tool_calls: vec![] };
    match after_reply(Vec::new(), 0, &reply) {
        TurnStep::Done { answer } => assert_eq!(answer, "Hello, world"),
        _ => panic!(),
    }
    let reply = ModelReply { content: vec![text("  "), text("\n\t")], tool_calls: vec![] };
    match after_reply(Vec::new(), 0, &reply) {
        TurnStep::Done { answer } => assert_eq!(answer, PLACEHOLDER_REPLY),
        _ => panic!(),
    }
    let reply = ModelReply { content: vec![], tool_calls: vec![] };
    match after_reply(Vec::new(), 0, &reply) {
        TurnStep::Done { answer } => assert_eq!(answer, "I'm processing your request..."),
        _ => panic!(),
    }
}

#[test]
fn tool_rounds_are_bounded() {
    let reply = ModelReply {
        content: vec![ContentBlock::ToolUse { id: "a".to_string(), name: "get_time".to_string(), input: "{}".to_string() }],
        tool_calls: vec![],
    };
    match after_reply(Vec::new(), MAX_TOOL_ROUNDS, &reply) {
        TurnStep::Failed { error } => assert_eq!(error, TOOL_LOOP_EXCEEDED),
        _ => panic!(),
    }
    match after_model_error("Anthropic API error: x: y".to_string()) {
        TurnStep::Failed { error } => assert_eq!(error, "Anthropic API error: x: y"),
        _ => panic!(),
    }
}

#[test]
fn empty_prompt_adds_no_turn_to_history() {
    let previous = vec![Message { role: "user".to_string(), content: vec![text("hi")] }];
    match start_turn("", previous) {
        TurnStep::AskModel { history, .. } => assert_eq!(history.len(), 1),
        _ => panic!(),
    }
}

#[test]
fn system_prompt_holds_persona_and_tools() {
    let p = Personality {
        name: "Ada".to_string(),
        role: "a guide".to_string(),
        style: Style {
            tone: "warm".to_string(),
            formality: "low".to_string(),
            domain_focus: vec!["crypto".to_string(), "weather".to_string()],
        },
        rules: vec!["be brief".to_string(), "be kind".to_string()],
    };
    assert_eq!(
        persona_prompt(&p),
        "You are Ada, a guide. \n\nStyle: \n- Tone: warm \n- Formality: low \n- Domain Focus: crypto, weather \n\nRules: \n- be brief\n- be kind"
    );
    let tools = get_available_tools();
    let s = system_prompt(Some(&p), &tools).unwrap();
    assert!(s.starts_with("You are Ada, a guide."));
    assert!(s.contains("\n\n\n\nYou have access to the following tools:\n- get_weather: Get the current weather for a given city\n- get_time: "));
    assert_eq!(system_prompt(None, &Vec::new()), None);
    assert_eq!(join_strings(&vec!["a".to_string(), "b".to_string()], "-"), "a-b");
}

#[test]
fn tool_declarations_carry_schemas() {
    let d = tool_declarations(&get_available_tools()).unwrap();
    assert_eq!(d.len(), 3);
    assert_eq!(d[0].input_schema, WEATHER_SCHEMA);
    assert!(d[2].input_schema.contains("\"required\":[\"operation\"]"));
    assert!(tool_declarations(&Vec::new()).is_none());
    assert_ne!(EMPTY_SCHEMA, WEATHER_SCHEMA);
}
