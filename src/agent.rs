//! The agent loop's decisions: what is sent to the model, how its reply is
//! read, and how a tool round extends the conversation.
use vstd::prelude::*;
use vstd::string::*;
use crate::command::{contains_text, lit_at, lower_of, lowercase};
use crate::personality::{join, join_strings, persona_prompt, persona_text, Personality};
use crate::tools::{Tool, ToolArgs};

verus! {

/// Most tokens that a reply may hold.
pub const MAX_TOKENS: u32 = 1024;

/// Most tool rounds in one turn before the turn is given up.
pub const MAX_TOOL_ROUNDS: usize = 10;

/// One block of a message.
#[derive(Debug)]
pub enum ContentBlock {
    Text { text: String },
    /// A tool call; `input` is the JSON text of its arguments.
    ToolUse { id: String, name: String, input: String },
    ToolResult { tool_use_id: String, content: String },
}

/// A message of the conversation.
#[derive(Debug)]
pub struct Message {
    pub role: String,
    pub content: Vec<ContentBlock>,
}

/// A tool call in the older, top-level form of a reply.
#[derive(Debug)]
pub struct LegacyToolCall {
    pub id: String,
    pub name: String,
    pub parameters: String,
}

/// A reply of the model.
#[derive(Debug)]
pub struct ModelReply {
    pub content: Vec<ContentBlock>,
    pub tool_calls: Vec<LegacyToolCall>,
}

/// A tool as declared to the model, with the JSON text of its input schema.
#[derive(Debug)]
pub struct ToolDeclaration {
    pub name: String,
    pub description: String,
    pub input_schema: String,
}

// ---- the direct send path ----

/// Text that reads as a direct transfer command: it starts with `send` in any
/// case and names the currency unit.
pub open spec fn is_direct_send_text(prompt: Seq<char>) -> bool {
    lit_at(lower_of(prompt), 0, "send"@) && exists|p: int| lit_at(prompt, p, "ETH"@)
}

/// Whether the input bypasses the model, given its lower-case form too.
pub fn is_direct_send_lowered(prompt: &str, lowered: &str) -> (r: bool)
    ensures
        r == (lit_at(lowered@, 0, "send"@) && exists|p: int| lit_at(prompt@, p, "ETH"@)),
{
    let l = crate::command::chars_of(lowered);
    let send = crate::command::chars_of("send");
    let starts = crate::command::lit_at_exec(l.as_slice(), 0, send.as_slice());
    starts && contains_text(prompt, "ETH")
}

/// Whether the input bypasses the model and goes to the wallet tool at once.
pub fn is_direct_send(prompt: &str) -> (r: bool)
    ensures
        r == is_direct_send_text(prompt@),
{
    let lowered = lowercase(prompt);
    is_direct_send_lowered(prompt, lowered.as_str())
}

/// The wallet-tool arguments for a direct transfer command.
pub fn direct_send_args(prompt: &str) -> (r: ToolArgs)
    ensures
        r.arg("operation"@) == Some("send"@),
        r.arg("raw_command"@) == Some(prompt@),
{
    let mut entries: Vec<(String, String)> = Vec::new();
    entries.push((String::from_str("operation"), String::from_str("send")));
    entries.push((String::from_str("raw_command"), String::from_str(prompt)));
    let r = ToolArgs { entries };
    proof {
        reveal_strlit("operation");
        reveal_strlit("raw_command");
        assert("operation"@.len() != "raw_command"@.len());
        assert(r.entries@.drop_first()[0].0@ == "raw_command"@);
        assert(crate::tools::arg_in(r.entries@.drop_first(), "raw_command"@) == Some(prompt@));
    }
    r
}

// ---- the request ----

/// A tool's line in the system prompt.
pub open spec fn tool_lines(tools: Seq<Tool>) -> Seq<Seq<char>> {
    tools.map_values(|t: Tool| "- "@ + t.name@ + ": "@ + t.description@)
}

/// The tool-usage part of the system prompt.
pub open spec fn tools_text(tools: Seq<Tool>) -> Seq<char> {
    "\n\nYou have access to the following tools:\n"@ + join(tool_lines(tools), "\n"@)
        + "\n\nWhen you need to use a tool:\n1. Respond with a tool call when a tool should be used\n2. Wait for the tool response before providing your final answer\n3. Don't fabricate tool responses - only use the actual results returned by the tool"@
}

/// The parts of the system prompt: the persona, if any, then the tools, if any.
pub open spec fn prompt_parts(persona: Option<Personality>, tools: Seq<Tool>) -> Seq<Seq<char>> {
    let a = match persona {
        Some(p) => seq![persona_text(p)],
        None => Seq::empty(),
    };
    if tools.len() > 0 {
        a.push(tools_text(tools))
    } else {
        a
    }
}

/// The system prompt: its parts joined by a blank line, or none at all.
pub open spec fn system_text(persona: Option<Personality>, tools: Seq<Tool>) -> Option<Seq<char>> {
    let parts = prompt_parts(persona, tools);
    if parts.len() == 0 {
        None
    } else {
        Some(join(parts, "\n\n"@))
    }
}

pub open spec fn opt_persona(p: Option<&Personality>) -> Option<Personality> {
    match p {
        Some(x) => Some(*x),
        None => None,
    }
}

fn tool_line_list(tools: &Vec<Tool>) -> (r: Vec<String>)
    ensures
        r@.map_values(|s: String| s@) == tool_lines(tools@),
{
    let mut r: Vec<String> = Vec::new();
    let mut i: usize = 0;
    while i < tools.len()
        invariant
            i <= tools@.len(),
            r@.map_values(|s: String| s@) == tool_lines(tools@.take(i as int)),
        decreases tools.len() - i,
    {
        let mut line = String::from_str("- ");
        line.append(tools[i].name.as_str());
        line.append(": ");
        line.append(tools[i].description.as_str());
        let ghost before = r@;
        let ghost it = line@;
        r.push(line);
        proof {
            assert(r@.last()@ == it);
            assert(r@.map_values(|s: String| s@) =~= before.map_values(|s: String| s@).push(it));
            assert(tool_lines(tools@.take(i + 1)) =~= tool_lines(tools@.take(i as int)).push(it));
        }
        i = i + 1;
    }
    assert(tools@.take(tools@.len() as int) =~= tools@);
    r
}

/// Writes the system prompt for a persona and the tools on offer.
pub fn system_prompt(persona: Option<&Personality>, tools: &Vec<Tool>) -> (r: Option<String>)
    ensures
        match (r, system_text(opt_persona(persona), tools@)) {
            (Some(s), Some(t)) => s@ == t,
            (None, None) => true,
            _ => false,
        },
{
    let mut parts: Vec<String> = Vec::new();
    match persona {
        Some(p) => {
            parts.push(persona_prompt(p));
        },
        None => {},
    }
    let ghost first = parts@;
    if tools.len() > 0 {
        let lines = tool_line_list(tools);
        let joined = join_strings(&lines, "\n");
        let mut t = String::from_str("\n\nYou have access to the following tools:\n");
        t.append(joined.as_str());
        t.append(
            "\n\nWhen you need to use a tool:\n1. Respond with a tool call when a tool should be used\n2. Wait for the tool response before providing your final answer\n3. Don't fabricate tool responses - only use the actual results returned by the tool",
        );
        parts.push(t);
    }
    proof {
        assert(parts@.map_values(|s: String| s@) =~= prompt_parts(opt_persona(persona), tools@));
    }
    if parts.len() == 0 {
        None
    } else {
        Some(join_strings(&parts, "\n\n"))
    }
}

/// The JSON text of a tool's input schema.
pub fn tool_input_schema(name: &str) -> (r: String)
    ensures
        name@ == "get_weather"@ ==> r@ == WEATHER_SCHEMA@,
        name@ == "get_time"@ ==> r@ == TIME_SCHEMA@,
        name@ == "eth_wallet"@ ==> r@ == WALLET_SCHEMA@,
        name@ != "get_weather"@ && name@ != "get_time"@ && name@ != "eth_wallet"@ ==> r@ == EMPTY_SCHEMA@,
{
    proof {
        crate::tools::lemma_tool_name_lengths();
    }
    if crate::command::same_text(name, "get_weather") {
        String::from_str(WEATHER_SCHEMA)
    } else if crate::command::same_text(name, "get_time") {
        String::from_str(TIME_SCHEMA)
    } else if crate::command::same_text(name, "eth_wallet") {
        String::from_str(WALLET_SCHEMA)
    } else {
        String::from_str(EMPTY_SCHEMA)
    }
}

pub open spec fn schema_of(name: Seq<char>) -> Seq<char> {
    if name == "get_weather"@ {
        WEATHER_SCHEMA@
    } else if name == "get_time"@ {
        TIME_SCHEMA@
    } else if name == "eth_wallet"@ {
        WALLET_SCHEMA@
    } else {
        EMPTY_SCHEMA@
    }
}

/// The declarations of the tools on offer, or none where there are none.
pub fn tool_declarations(tools: &Vec<Tool>) -> (r: Option<Vec<ToolDeclaration>>)
    ensures
        tools@.len() == 0 <==> r is None,
        r is Some ==> {
            let d = r.unwrap()@;
            &&& d.len() == tools@.len()
            &&& forall|i: int|
                0 <= i < d.len() ==> (#[trigger] d[i]).name@ == tools@[i].name@ && d[i].description@
                    == tools@[i].description@ && d[i].input_schema@ == schema_of(tools@[i].name@)
        },
{
    if tools.len() == 0 {
        return None;
    }
    let mut d: Vec<ToolDeclaration> = Vec::new();
    let mut i: usize = 0;
    while i < tools.len()
        invariant
            i <= tools@.len(),
            d@.len() == i,
            forall|j: int|
                0 <= j < i ==> (#[trigger] d@[j]).name@ == tools@[j].name@ && d@[j].description@
                    == tools@[j].description@ && d@[j].input_schema@ == schema_of(tools@[j].name@),
        decreases tools.len() - i,
    {
        let t = &tools[i];
        let schema = tool_input_schema(t.name.as_str());
        d.push(
            ToolDeclaration {
                name: String::from_str(t.name.as_str()),
                description: String::from_str(t.description.as_str()),
                input_schema: schema,
            },
        );
        i = i + 1;
    }
    Some(d)
}

/// Input schema of the weather tool.
pub const WEATHER_SCHEMA: &'static str = "{\"type\":\"object\",\"properties\":{\"city\":{\"type\":\"string\",\"description\":\"The city to get weather for\"}},\"required\":[\"city\"]}";

/// Input schema of the time tool.
pub const TIME_SCHEMA: &'static str = "{\"type\":\"object\",\"properties\":{\"timezone\":{\"type\":\"string\",\"description\":\"Optional timezone (e.g., 'UTC', 'America/New_York'). If not provided, local time is returned.\"}}}";

/// Input schema of the wallet tool.
pub const WALLET_SCHEMA: &'static str = "{\"type\":\"object\",\"properties\":{\"operation\":{\"type\":\"string\",\"description\":\"The operation to perform: 'generate', 'balance', or 'send'\"},\"address\":{\"type\":\"string\",\"description\":\"Ethereum address for 'balance' operation\"},\"from_address\":{\"type\":\"string\",\"description\":\"Sender's Ethereum address for 'send' operation\"},\"to_address\":{\"type\":\"string\",\"description\":\"Recipient's Ethereum address for 'send' operation\"},\"amount\":{\"type\":\"string\",\"description\":\"Amount of ETH to send for 'send' operation\"},\"private_key\":{\"type\":\"string\",\"description\":\"Private key for the sender's address (required for 'send' operation if the wallet is not stored)\"}},\"required\":[\"operation\"]}";

/// Input schema of any other tool.
pub const EMPTY_SCHEMA: &'static str = "{\"type\":\"object\",\"properties\":{}}";

// ---- the reply ----

/// Said when a reply holds no text to show.
pub const PLACEHOLDER_REPLY: &'static str = "I'm processing your request...";

/// Said when a turn calls tools more often than it may.
pub const TOOL_LOOP_EXCEEDED: &'static str = "Error: tool loop exceeded";

/// The first tool call among the blocks: its id, name and input.
pub open spec fn first_tool_use(blocks: Seq<ContentBlock>) -> Option<(Seq<char>, Seq<char>, Seq<char>)>
    decreases blocks.len(),
{
    if blocks.len() == 0 {
        None
    } else {
        match blocks[0] {
            ContentBlock::ToolUse { id, name, input } => Some((id@, name@, input@)),
            _ => first_tool_use(blocks.drop_first()),
        }
    }
}

/// The tool that a reply calls: the first tool block, else the first call of
/// the older top-level list.
pub open spec fn reply_tool(r: ModelReply) -> Option<(Seq<char>, Seq<char>, Seq<char>)> {
    match first_tool_use(r.content@) {
        Some(t) => Some(t),
        None => if r.tool_calls@.len() > 0 {
            Some((r.tool_calls@[0].id@, r.tool_calls@[0].name@, r.tool_calls@[0].parameters@))
        } else {
            None
        },
    }
}

/// The text blocks of a reply, joined in order.
pub open spec fn reply_text(blocks: Seq<ContentBlock>) -> Seq<char>
    decreases blocks.len(),
{
    if blocks.len() == 0 {
        Seq::empty()
    } else {
        reply_text(blocks.drop_last()) + match blocks.last() {
            ContentBlock::Text { text } => text@,
            _ => Seq::empty(),
        }
    }
}

/// A whitespace character, as Unicode's `White_Space` property has it.
pub open spec fn is_white(c: char) -> bool {
    ('\u{9}' <= c && c <= '\u{d}') || c == ' ' || c == '\u{85}' || c == '\u{a0}' || c == '\u{1680}'
        || ('\u{2000}' <= c && c <= '\u{200a}') || c == '\u{2028}' || c == '\u{2029}' || c == '\u{202f}'
        || c == '\u{205f}' || c == '\u{3000}'
}

/// Text with nothing but whitespace in it.
pub open spec fn is_blank_text(t: Seq<char>) -> bool {
    forall|i: int| 0 <= i < t.len() ==> is_white(#[trigger] t[i])
}

/// The answer that a reply without a tool call gives.
pub open spec fn answer_of(blocks: Seq<ContentBlock>) -> Seq<char> {
    if is_blank_text(reply_text(blocks)) {
        PLACEHOLDER_REPLY@
    } else {
        reply_text(blocks)
    }
}

fn is_white_char(c: char) -> (r: bool)
    ensures
        r == is_white(c),
{
    ('\u{9}' <= c && c <= '\u{d}') || c == ' ' || c == '\u{85}' || c == '\u{a0}' || c == '\u{1680}'
        || ('\u{2000}' <= c && c <= '\u{200a}') || c == '\u{2028}' || c == '\u{2029}' || c == '\u{202f}'
        || c == '\u{205f}' || c == '\u{3000}'
}

fn is_blank_string(t: &str) -> (r: bool)
    ensures
        r == is_blank_text(t@),
{
    let cs = crate::command::chars_of(t);
    let mut i: usize = 0;
    while i < cs.len()
        invariant
            cs@ == t@,
            i <= cs@.len(),
            forall|j: int| 0 <= j < i ==> is_white(#[trigger] cs@[j]),
        decreases cs.len() - i,
    {
        if !is_white_char(cs[i]) {
            return false;
        }
        i = i + 1;
    }
    true
}

/// What the loop does with a reply: run a tool, or answer.
#[derive(Debug)]
pub enum ReplyAction {
    CallTool { id: String, name: String, input: String },
    Answer { text: String },
}

fn first_tool_use_exec(blocks: &Vec<ContentBlock>) -> (r: Option<(String, String, String)>)
    ensures
        match (r, first_tool_use(blocks@)) {
            (Some((a, b, c)), Some((x, y, z))) => a@ == x && b@ == y && c@ == z,
            (None, None) => true,
            _ => false,
        },
{
    let mut i: usize = 0;
    assert(blocks@.skip(0) =~= blocks@);
    while i < blocks.len()
        invariant
            i <= blocks@.len(),
            first_tool_use(blocks@.skip(i as int)) == first_tool_use(blocks@),
        decreases blocks.len() - i,
    {
        proof {
            assert(blocks@.skip(i as int).drop_first() =~= blocks@.skip(i + 1));
        }
        match &blocks[i] {
            ContentBlock::ToolUse { id, name, input } => {
                return Some((id.clone(), name.clone(), input.clone()));
            },
            _ => {},
        }
        i = i + 1;
    }
    None
}

fn reply_text_exec(blocks: &Vec<ContentBlock>) -> (r: String)
    ensures
        r@ == reply_text(blocks@),
{
    let mut r = String::new();
    let mut i: usize = 0;
    while i < blocks.len()
        invariant
            i <= blocks@.len(),
            r@ == reply_text(blocks@.take(i as int)),
        decreases blocks.len() - i,
    {
        proof {
            assert(blocks@.take(i + 1).drop_last() =~= blocks@.take(i as int));
        }
        match &blocks[i] {
            ContentBlock::Text { text } => {
                r.append(text.as_str());
            },
            _ => {},
        }
        i = i + 1;
    }
    assert(blocks@.take(blocks@.len() as int) =~= blocks@);
    r
}

/// Reads a reply: the tool it calls, if any, else its text, with a fixed
/// placeholder where that text is blank.
pub fn classify_reply(reply: &ModelReply) -> (r: ReplyAction)
    ensures
        match (r, reply_tool(*reply)) {
            (ReplyAction::CallTool { id, name, input }, Some((x, y, z))) => id@ == x && name@ == y && input@ == z,
            (ReplyAction::Answer { text }, None) => text@ == answer_of(reply.content@),
            _ => false,
        },
{
    match first_tool_use_exec(&reply.content) {
        Some((id, name, input)) => ReplyAction::CallTool { id, name, input },
        None => {
            if reply.tool_calls.len() > 0 {
                let c = &reply.tool_calls[0];
                ReplyAction::CallTool { id: c.id.clone(), name: c.name.clone(), input: c.parameters.clone() }
            } else {
                let t = reply_text_exec(&reply.content);
                if is_blank_string(t.as_str()) {
                    ReplyAction::Answer { text: String::from_str(PLACEHOLDER_REPLY) }
                } else {
                    ReplyAction::Answer { text: t }
                }
            }
        },
    }
}

// ---- the turn ----

/// Where a turn stands: waiting on the model, on a tool, or ended.
#[derive(Debug)]
pub enum TurnStep {
    AskModel { history: Vec<Message>, rounds: usize },
    RunTool { history: Vec<Message>, rounds: usize, id: String, name: String, input: String },
    Done { answer: String },
    Failed { error: String },
}

/// A message of one role holding one text block.
pub open spec fn is_text_message(m: Message, role: Seq<char>, text: Seq<char>) -> bool {
    &&& m.role@ == role
    &&& m.content@.len() == 1
    &&& match m.content@[0] {
        ContentBlock::Text { text: t } => t@ == text,
        _ => false,
    }
}

/// The assistant's message that holds one tool call and nothing else.
pub open spec fn is_tool_use_message(m: Message, id: Seq<char>, name: Seq<char>, input: Seq<char>) -> bool {
    &&& m.role@ == "assistant"@
    &&& m.content@.len() == 1
    &&& match m.content@[0] {
        ContentBlock::ToolUse { id: a, name: b, input: c } => a@ == id && b@ == name && c@ == input,
        _ => false,
    }
}

/// The user's message that holds one tool result and nothing else.
pub open spec fn is_tool_result_message(m: Message, id: Seq<char>, content: Seq<char>) -> bool {
    &&& m.role@ == "user"@
    &&& m.content@.len() == 1
    &&& match m.content@[0] {
        ContentBlock::ToolResult { tool_use_id: a, content: b } => a@ == id && b@ == content,
        _ => false,
    }
}

fn text_message(role: &str, text: &str) -> (r: Message)
    ensures
        is_text_message(r, role@, text@),
{
    let mut content: Vec<ContentBlock> = Vec::new();
    content.push(ContentBlock::Text { text: String::from_str(text) });
    Message { role: String::from_str(role), content }
}

/// Opens a turn: the prompt joins the history as a user message, unless the
/// prompt is empty and there is history already.
pub fn start_turn(prompt: &str, previous: Vec<Message>) -> (r: TurnStep)
    ensures
        match r {
            TurnStep::AskModel { history, rounds } => rounds == 0 && if previous@.len() == 0
                || prompt@.len() > 0 {
                history@.len() == previous@.len() + 1 && history@.drop_last() == previous@
                    && is_text_message(history@.last(), "user"@, prompt@)
            } else {
                history@ == previous@
            },
            _ => false,
        },
{
    let mut history = previous;
    if history.len() == 0 || prompt.unicode_len() > 0 {
        let ghost before = history@;
        history.push(text_message("user", prompt));
        assert(history@.drop_last() =~= before);
    }
    TurnStep::AskModel { history, rounds: 0 }
}

/// Goes on from a reply of the model: runs the tool that it calls, if the
/// turn has rounds left, or answers with its text.
pub fn after_reply(history: Vec<Message>, rounds: usize, reply: &ModelReply) -> (r: TurnStep)
    ensures
        match reply_tool(*reply) {
            Some((x, y, z)) => if rounds < MAX_TOOL_ROUNDS {
                match r {
                    TurnStep::RunTool { history: h, rounds: n, id, name, input } => h == history && n
                        == rounds && id@ == x && name@ == y && input@ == z,
                    _ => false,
                }
            } else {
                match r {
                    TurnStep::Failed { error } => error@ == TOOL_LOOP_EXCEEDED@,
                    _ => false,
                }
            },
            None => match r {
                TurnStep::Done { answer } => answer@ == answer_of(reply.content@),
                _ => false,
            },
        },
{
    match classify_reply(reply) {
        ReplyAction::CallTool { id, name, input } => {
            if rounds < MAX_TOOL_ROUNDS {
                TurnStep::RunTool { history, rounds, id, name, input }
            } else {
                TurnStep::Failed { error: String::from_str(TOOL_LOOP_EXCEEDED) }
            }
        },
        ReplyAction::Answer { text } => TurnStep::Done { answer: text },
    }
}

/// Records a finished tool call: the assistant's call, then the user's result
/// under the same id, and back to the model.
pub fn after_tool(
    history: Vec<Message>,
    rounds: usize,
    id: &str,
    name: &str,
    input: &str,
    result: &str,
) -> (r: TurnStep)
    requires
        rounds < MAX_TOOL_ROUNDS,
    ensures
        match r {
            TurnStep::AskModel { history: h, rounds: n } => {
                &&& n == rounds + 1
                &&& h@.len() == history@.len() + 2
                &&& h@.subrange(0, history@.len() as int) == history@
                &&& is_tool_use_message(h@[history@.len() as int], id@, name@, input@)
                &&& is_tool_result_message(h@[history@.len() as int + 1], id@, result@)
            },
            _ => false,
        },
{
    let mut h = history;
    let ghost before = h@;
    let mut call: Vec<ContentBlock> = Vec::new();
    call.push(
        ContentBlock::ToolUse {
            id: String::from_str(id),
            name: String::from_str(name),
            input: String::from_str(input),
        },
    );
    h.push(Message { role: String::from_str("assistant"), content: call });
    let mut answer: Vec<ContentBlock> = Vec::new();
    answer.push(ContentBlock::ToolResult { tool_use_id: String::from_str(id), content: String::from_str(result) });
    h.push(Message { role: String::from_str("user"), content: answer });
    assert(h@.subrange(0, before.len() as int) =~= before);
    TurnStep::AskModel { history: h, rounds: rounds + 1 }
}

/// Ends a turn on a failed request to the model, passing its message on.
pub fn after_model_error(error: String) -> (r: TurnStep)
    ensures
        match r {
            TurnStep::Failed { error: e } => e == error,
            _ => false,
        },
{
    TurnStep::Failed { error }
}

/// A reply without a tool call always answers with some text: its own text
/// when that is not blank, else the placeholder.
pub proof fn lemma_answer_never_empty(blocks: Seq<ContentBlock>)
    ensures
        answer_of(blocks).len() > 0,
        is_blank_text(reply_text(blocks)) ==> answer_of(blocks) == PLACEHOLDER_REPLY@,
        !is_blank_text(reply_text(blocks)) ==> answer_of(blocks) == reply_text(blocks),
{
    reveal_strlit("I'm processing your request...");
}

} // verus!
