//! The tool registry and dispatcher: which tools the model may call, and
//! what a call of each one does or asks the network for.
use vstd::prelude::*;
use vstd::string::*;
use crate::balance::{balance_address_check, check_balance_address};
use crate::command::{lower_of, lowercase, opt_view, parse_result, parse_send_command, same_text};
use crate::transfer::{opt_str_view, plan_send, send_check, SendPlan};
use crate::wallet::{eth_generate_wallet, generated_message, wallet_address_of, WalletRegistry};
use crate::encoding::hex_of;

verus! {

/// A tool as the model sees it: a name and what it does.
#[derive(Debug)]
pub struct Tool {
    pub name: String,
    pub description: String,
}

/// A request to call a tool, or to answer directly.
#[derive(Debug)]
pub struct ToolCall {
    pub action: String,
    pub tool: Option<String>,
    pub args: Option<ToolArgs>,
}

/// What a tool gave back.
#[derive(Debug)]
pub struct ToolResponse {
    pub tool: String,
    pub content: String,
}

/// The text-valued arguments of a tool call, by key.
#[derive(Debug)]
pub struct ToolArgs {
    pub entries: Vec<(String, String)>,
}

/// The value of the first argument filed under `key`.
pub open spec fn arg_in(s: Seq<(String, String)>, key: Seq<char>) -> Option<Seq<char>>
    decreases s.len(),
{
    if s.len() == 0 {
        None
    } else if s[0].0@ == key {
        Some(s[0].1@)
    } else {
        arg_in(s.drop_first(), key)
    }
}

impl ToolArgs {
    pub open spec fn arg(&self, key: Seq<char>) -> Option<Seq<char>> {
        arg_in(self.entries@, key)
    }

    /// The argument filed under `key`, if any.
    pub fn get(&self, key: &str) -> (r: Option<String>)
        ensures
            match r {
                Some(v) => self.arg(key@) == Some(v@),
                None => self.arg(key@) is None,
            },
    {
        let n = self.entries.len();
        let mut i: usize = 0;
        assert(self.entries@.skip(0) =~= self.entries@);
        while i < n
            invariant
                i <= n == self.entries@.len(),
                arg_in(self.entries@.skip(i as int), key@) == self.arg(key@),
            decreases n - i,
        {
            proof {
                assert(self.entries@.skip(i as int).drop_first() =~= self.entries@.skip(i + 1));
            }
            if same_text(self.entries[i].0.as_str(), key) {
                return Some(self.entries[i].1.clone());
            }
            i = i + 1;
        }
        None
    }

    /// The argument under `key`, or `fallback` where there is none.
    pub fn get_or(&self, key: &str, fallback: &str) -> (r: String)
        ensures
            r@ == match self.arg(key@) {
                Some(v) => v,
                None => fallback@,
            },
    {
        match self.get(key) {
            Some(v) => v,
            None => String::from_str(fallback),
        }
    }
}

pub open spec fn tool_names() -> Seq<Seq<char>> {
    seq!["get_weather"@, "get_time"@, "eth_wallet"@]
}

fn tool(name: &str, description: &str) -> (r: Tool)
    ensures
        r.name@ == name@,
        r.description@ == description@,
{
    Tool { name: String::from_str(name), description: String::from_str(description) }
}

/// The tools on offer, in the order in which they are listed to the model.
pub fn get_available_tools() -> (r: Vec<Tool>)
    ensures
        r@.len() == 3,
        forall|i: int| 0 <= i < 3 ==> (#[trigger] r@[i]).name@ == tool_names()[i],
        r@[0].description@ == "Get the current weather for a given city"@,
        r@[1].description@ == "Get the current time in a specific timezone or local time"@,
        r@[2].description@
            == "Ethereum wallet operations: generate new wallet, check balance, or send ETH"@,
{
    let mut r: Vec<Tool> = Vec::new();
    r.push(tool("get_weather", "Get the current weather for a given city"));
    r.push(tool("get_time", "Get the current time in a specific timezone or local time"));
    r.push(
        tool(
            "eth_wallet",
            "Ethereum wallet operations: generate new wallet, check balance, or send ETH",
        ),
    );
    r
}

/// The tool names differ in length, so no two of them are equal.
pub proof fn lemma_tool_name_lengths()
    ensures
        "get_weather"@.len() == 11,
        "get_time"@.len() == 8,
        "eth_wallet"@.len() == 10,
{
    reveal_strlit("get_weather");
    reveal_strlit("get_time");
    reveal_strlit("eth_wallet");
}

/// No two tools on offer share a name.
pub proof fn lemma_tool_names_distinct()
    ensures
        forall|i: int, j: int|
            0 <= i < j < tool_names().len() ==> tool_names()[i] != tool_names()[j],
{
    lemma_tool_name_lengths();
}

/// The canned weather report for a city, matched on its lower-case name.
pub open spec fn weather_text(city: Seq<char>, lowered: Seq<char>) -> Seq<char> {
    if lowered == "cairo"@ {
        "30°C, sunny"@
    } else if lowered == "london"@ {
        "15°C, cloudy with occasional rain"@
    } else if lowered == "new york"@ {
        "22°C, partly cloudy"@
    } else if lowered == "tokyo"@ {
        "25°C, clear skies"@
    } else {
        "Weather data for "@ + city + " is not available. This is a mock implementation."@
    }
}

/// The weather report for a city whose lower-case name is given.
pub fn weather_for(city: &str, lowered: &str) -> (r: String)
    ensures
        r@ == weather_text(city@, lowered@),
{
    if same_text(lowered, "cairo") {
        String::from_str("30°C, sunny")
    } else if same_text(lowered, "london") {
        String::from_str("15°C, cloudy with occasional rain")
    } else if same_text(lowered, "new york") {
        String::from_str("22°C, partly cloudy")
    } else if same_text(lowered, "tokyo") {
        String::from_str("25°C, clear skies")
    } else {
        let mut r = String::from_str("Weather data for ");
        r.append(city);
        r.append(" is not available. This is a mock implementation.");
        r
    }
}

/// The weather report for a city, matched without regard to case.
pub fn get_weather(city: &str) -> (r: String)
    ensures
        r@ == weather_text(city@, lower_of(city@)),
{
    let lowered = lowercase(city);
    weather_for(city, lowered.as_str())
}

/// Relies on chrono's `Local::now`, formatted as `%Y-%m-%d %H:%M:%S`.
#[verifier::external_body]
fn local_time_text() -> (r: String) {
    chrono::Local::now().format("%Y-%m-%d %H:%M:%S").to_string()
}

/// The time report, given the local time as text.
pub open spec fn time_text(timezone: Option<Seq<char>>, now: Seq<char>) -> Seq<char> {
    match timezone {
        Some(tz) => "Current time (local, timezone "@ + tz + " not implemented): "@ + now,
        None => "Current local time: "@ + now,
    }
}

/// Reports the time; a named time zone is acknowledged, and local time given.
pub fn time_report(timezone: Option<&str>, now: &str) -> (r: String)
    ensures
        r@ == time_text(opt_str_view(timezone), now@),
{
    match timezone {
        Some(tz) => {
            let mut r = String::from_str("Current time (local, timezone ");
            r.append(tz);
            r.append(" not implemented): ");
            r.append(now);
            r
        },
        None => {
            let mut r = String::from_str("Current local time: ");
            r.append(now);
            r
        },
    }
}

/// Reports the local time now.
pub fn get_time(timezone: Option<&str>) -> (r: String)
    ensures
        exists|now: Seq<char>| r@ == time_text(opt_str_view(timezone), now),
{
    let now = local_time_text();
    time_report(timezone, now.as_str())
}

/// What a tool call comes to: a text for the model now, or a network call
/// that the caller makes before it has one.
pub enum ToolPlan {
    Reply { text: String },
    QueryBalance { address: Vec<u8> },
    Transfer { plan: SendPlan },
}

pub open spec fn replied(r: ToolPlan, m: Seq<char>) -> bool {
    match r {
        ToolPlan::Reply { text } => text@ == m,
        _ => false,
    }
}

/// The plan for a checked send intent: the transfer, or the fault as text.
pub open spec fn planned(
    r: ToolPlan,
    check: Result<(Seq<u8>, Seq<u8>, nat, Seq<u8>), Seq<char>>,
    amount: Seq<char>,
) -> bool {
    match (r, check) {
        (ToolPlan::Transfer { plan }, Ok((f, t, w, k))) => plan.from@ == f && plan.to@ == t && plan.wei
            == w && plan.key@ == k && plan.amount@ == amount,
        (ToolPlan::Reply { text }, Err(m)) => text@ == m,
        _ => false,
    }
}

pub open spec fn or_default(o: Option<Seq<char>>, d: Seq<char>) -> Seq<char> {
    match o {
        Some(v) => v,
        None => d,
    }
}

/// What a send call with these arguments comes to: a free-text command is
/// read first where there is one, else the structured fields are used.
pub open spec fn send_args_ok(reg: Map<Seq<u8>, Seq<char>>, args: ToolArgs, r: ToolPlan) -> bool {
    match args.arg("raw_command"@) {
        Some(cmd) => match parse_result(cmd) {
            Err(m) => replied(r, m),
            Ok((a, f, t, k)) => planned(r, send_check(reg, f, t, a, k), a),
        },
        None => {
            let a = or_default(args.arg("amount"@), "0"@);
            planned(
                r,
                send_check(
                    reg,
                    or_default(args.arg("from_address"@), ""@),
                    or_default(args.arg("to_address"@), ""@),
                    a,
                    args.arg("private_key"@),
                ),
                a,
            )
        },
    }
}

/// Plans a send from the arguments of a call.
pub fn send_from_args(reg: &WalletRegistry, args: &ToolArgs) -> (r: ToolPlan)
    ensures
        send_args_ok(reg.view(), *args, r),
{
    let cmd = match args.get("raw_command") {
        Some(raw) => Some(parse_send_command(raw.as_str())),
        None => None,
    };
    match cmd {
        Some(Err(m)) => ToolPlan::Reply { text: m },
        Some(Ok(c)) => {
            let key = match &c.private_key {
                Some(k) => Some(k.as_str()),
                None => None,
            };
            match plan_send(reg, c.from_address.as_str(), c.to_address.as_str(), c.amount.as_str(), key) {
                Ok(plan) => ToolPlan::Transfer { plan },
                Err(m) => ToolPlan::Reply { text: m },
            }
        },
        None => {
            let from = args.get_or("from_address", "");
            let to = args.get_or("to_address", "");
            let amount = args.get_or("amount", "0");
            let key = args.get("private_key");
            let key_ref = match &key {
                Some(k) => Some(k.as_str()),
                None => None,
            };
            match plan_send(reg, from.as_str(), to.as_str(), amount.as_str(), key_ref) {
                Ok(plan) => ToolPlan::Transfer { plan },
                Err(m) => ToolPlan::Reply { text: m },
            }
        },
    }
}

/// A wallet generation that left this reply and this registry: a new
/// wallet filed and reported, or a failure reported and nothing filed.
pub open spec fn generated(before: WalletRegistry, after: WalletRegistry, r: ToolPlan) -> bool {
    exists|key: Seq<u8>|
        key.len() == 32 && match wallet_address_of(key) {
            None => replied(r, "Failed to generate wallet"@) && after == before,
            Some(a) => after.view() == before.view().insert(a, hex_of(key)) && replied(
                r,
                generated_message(a, key),
            ),
        }
}

/// What a wallet operation other than generation comes to.
pub open spec fn wallet_op_ok(reg: Map<Seq<u8>, Seq<char>>, op: Seq<char>, args: ToolArgs, r: ToolPlan) -> bool {
    if op == "balance"@ {
        match balance_address_check(or_default(args.arg("address"@), ""@)) {
            Ok(a) => match r {
                ToolPlan::QueryBalance { address } => address@ == a,
                _ => false,
            },
            Err(m) => replied(r, m),
        }
    } else if op == "send"@ {
        send_args_ok(reg, args, r)
    } else {
        replied(r, "Unknown Ethereum wallet operation: "@ + op)
    }
}

/// The operation that an `eth_wallet` call names.
pub open spec fn wallet_op(args: ToolArgs) -> Seq<char> {
    or_default(args.arg("operation"@), "unknown"@)
}

/// Runs a tool by name. Unknown tools and operations, and faulty arguments,
/// come back as text for the model; only a wallet generation changes the
/// registry.
pub fn execute_tool(reg: &mut WalletRegistry, name: &str, args: &ToolArgs) -> (r: ToolPlan)
    requires
        old(reg).wf(),
    ensures
        final(reg).wf(),
        !(name@ == "eth_wallet"@ && wallet_op(*args) == "generate"@) ==> *final(reg) == *old(reg),
        name@ == "get_weather"@ ==> {
            let city = or_default(args.arg("city"@), "unknown"@);
            replied(r, weather_text(city, lower_of(city)))
        },
        name@ == "get_time"@ ==> exists|now: Seq<char>| replied(r, time_text(args.arg("timezone"@), now)),
        name@ == "eth_wallet"@ ==> if wallet_op(*args) == "generate"@ {
            generated(*old(reg), *final(reg), r)
        } else {
            wallet_op_ok(old(reg).view(), wallet_op(*args), *args, r)
        },
        name@ != "get_weather"@ && name@ != "get_time"@ && name@ != "eth_wallet"@ ==> replied(
            r,
            "Unknown tool: "@ + name@,
        ),
{
    proof {
        lemma_tool_name_lengths();
        reveal_strlit("generate");
        reveal_strlit("balance");
        reveal_strlit("send");
        assert("generate"@.len() == 8 && "balance"@.len() == 7 && "send"@.len() == 4);
    }
    if same_text(name, "get_weather") {
        let city = args.get_or("city", "unknown");
        ToolPlan::Reply { text: get_weather(city.as_str()) }
    } else if same_text(name, "get_time") {
        let tz = args.get("timezone");
        let tz_ref = match &tz {
            Some(t) => Some(t.as_str()),
            None => None,
        };
        assert(opt_str_view(tz_ref) == args.arg("timezone"@));
        let text = get_time(tz_ref);
        let ghost now = choose|now: Seq<char>| text@ == time_text(opt_str_view(tz_ref), now);
        let r = ToolPlan::Reply { text };
        assert(replied(r, time_text(args.arg("timezone"@), now)));
        r
    } else if same_text(name, "eth_wallet") {
        let op = args.get_or("operation", "unknown");
        if same_text(op.as_str(), "generate") {
            let ghost before = *reg;
            let text = eth_generate_wallet(reg);
            let ghost key = choose|key: Seq<u8>|
                key.len() == 32 && match wallet_address_of(key) {
                    None => text@ == "Failed to generate wallet"@ && *reg == before,
                    Some(a) => reg.view() == before.view().insert(a, hex_of(key)) && text@
                        == generated_message(a, key),
                };
            let r = ToolPlan::Reply { text };
            assert(key.len() == 32 && match wallet_address_of(key) {
                None => replied(r, "Failed to generate wallet"@) && *reg == before,
                Some(a) => reg.view() == before.view().insert(a, hex_of(key)) && replied(
                    r,
                    generated_message(a, key),
                ),
            });
            r
        } else if same_text(op.as_str(), "balance") {
            let address = args.get_or("address", "");
            match check_balance_address(address.as_str()) {
                Ok(a) => ToolPlan::QueryBalance { address: a },
                Err(m) => ToolPlan::Reply { text: m },
            }
        } else if same_text(op.as_str(), "send") {
            send_from_args(reg, args)
        } else {
            let mut m = String::from_str("Unknown Ethereum wallet operation: ");
            m.append(op.as_str());
            ToolPlan::Reply { text: m }
        }
    } else {
        let mut m = String::from_str("Unknown tool: ");
        m.append(name);
        ToolPlan::Reply { text: m }
    }
}

/// The names of a list of tools.
pub open spec fn names_of(tools: Seq<Tool>) -> Seq<Seq<char>> {
    tools.map_values(|t: Tool| t.name@)
}

/// No two of the names are equal.
pub open spec fn all_distinct(names: Seq<Seq<char>>) -> bool {
    forall|i: int, j: int| 0 <= i < j < names.len() ==> names[i] != names[j]
}

/// The tools that the model may call, in the order of registration, each
/// name once.
pub struct ToolRegistry {
    tools: Vec<Tool>,
}

impl ToolRegistry {
    pub closed spec fn view(&self) -> Seq<Tool> {
        self.tools@
    }

    /// Tool names are unique.
    pub open spec fn wf(&self) -> bool {
        all_distinct(names_of(self.view()))
    }

    pub fn new() -> (r: ToolRegistry)
        ensures
            r.wf(),
            r.view().len() == 0,
    {
        ToolRegistry { tools: Vec::new() }
    }

    /// The registry of the tools on offer.
    pub fn standard() -> (r: ToolRegistry)
        ensures
            r.wf(),
            names_of(r.view()) == tool_names(),
    {
        let tools = get_available_tools();
        proof {
            lemma_tool_names_distinct();
            assert(names_of(tools@) =~= tool_names());
        }
        ToolRegistry { tools }
    }

    /// Whether a tool of this name is registered.
    pub fn contains(&self, name: &str) -> (r: bool)
        ensures
            r == names_of(self.view()).contains(name@),
    {
        let mut i: usize = 0;
        while i < self.tools.len()
            invariant
                i <= self.tools@.len(),
                forall|j: int| 0 <= j < i ==> self.tools@[j].name@ != name@,
            decreases self.tools.len() - i,
        {
            if same_text(self.tools[i].name.as_str(), name) {
                assert(names_of(self.view())[i as int] == name@);
                return true;
            }
            i = i + 1;
        }
        assert forall|j: int| 0 <= j < names_of(self.view()).len() implies names_of(self.view())[j] != name@ by {
            assert(names_of(self.view())[j] == self.tools@[j].name@);
        }
        false
    }

    /// Adds a tool at the end; a name that is taken is refused, and the
    /// registry is left as it was.
    pub fn register(&mut self, tool: Tool) -> (r: Result<(), String>)
        requires
            old(self).wf(),
        ensures
            final(self).wf(),
            names_of(old(self).view()).contains(tool.name@) ==> {
                &&& r is Err
                &&& r.unwrap_err()@ == "Tool already registered: "@ + tool.name@
                &&& final(self).view() == old(self).view()
            },
            !names_of(old(self).view()).contains(tool.name@) ==> r is Ok && final(self).view()
                == old(self).view().push(tool),
    {
        if self.contains(tool.name.as_str()) {
            let mut m = String::from_str("Tool already registered: ");
            m.append(tool.name.as_str());
            return Err(m);
        }
        let ghost before = self.tools@;
        self.tools.push(tool);
        proof {
            assert(names_of(self.tools@) =~= names_of(before).push(tool.name@));
        }
        Ok(())
    }

    /// The registered tools, in the order of registration.
    pub fn list(&self) -> (r: &Vec<Tool>)
        ensures
            r@ == self.view(),
    {
        &self.tools
    }
}

} // verus!
