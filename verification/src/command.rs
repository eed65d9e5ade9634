//! Interactive client dot-commands: the command table, the parser, and
//! the state transitions they trigger.
//!
//! The terminal I/O and the controller call that changes the tool-call
//! method live outside the crate; each command's decision — what state
//! changes, what alert is shown, what is asked of the controller — is
//! verified here.
use vstd::prelude::*;

use crate::strutil::{spec_dec, push_dec};
use vstd::string::StrSliceExecFns;
use vstd::string::StringExecFns;

verus! {

/// How the LLM is asked to produce tool calls.
#[derive(PartialEq, Eq, Structural, Clone, Copy, Debug)]
pub enum ToolCallMethod {
    Auto,
    FunctionCall,
    FunctionCallRequired,
    StructuredOutput,
}

/// Color theme of the interactive client.
#[derive(PartialEq, Eq, Structural, Clone, Copy, Debug)]
pub enum Theme {
    Dark,
    Light,
}

/// The other theme.
pub open spec fn spec_toggled(t: Theme) -> Theme {
    match t {
        Theme::Dark => Theme::Light,
        Theme::Light => Theme::Dark,
    }
}

impl Theme {
    /// Switch to the other theme.
    pub fn toggle(&mut self)
        ensures
            *final(self) == spec_toggled(*old(self)),
    {
        *self = match self {
            Theme::Dark => Theme::Light,
            Theme::Light => Theme::Dark,
        };
    }
}

/// One entry of the command table.
pub struct CommandInfo {
    pub command: String,
    pub description: String,
    pub args: Vec<String>,
}

/// The dot-commands the client offers, with their descriptions and
/// argument names.
pub fn list_command() -> (r: Vec<CommandInfo>)
    ensures
        r@.len() == 5,
        r@[0].command@ == "/exit"@ && r@[0].description@ == "exit from the tui"@
            && r@[0].args@.len() == 0,
        r@[1].command@ == "/auth"@ && r@[1].description@ == "select a provider"@
            && r@[1].args@.len() == 0,
        r@[2].command@ == "/tc"@ && r@[2].description@
            == "set the tool call method: [fc | fc2 | so]"@ && r@[2].args@.len() == 1
            && r@[2].args@[0]@ == "method"@,
        r@[3].command@ == "/tokens"@ && r@[3].description@
            == "display token usage (input/output)"@ && r@[3].args@.len() == 0,
        r@[4].command@ == "/theme"@ && r@[4].description@
            == "set theme: [dark | light | toggle]"@ && r@[4].args@.len() == 1 && r@[4].args@[0]@
            == "mode"@,
{
    let mut r: Vec<CommandInfo> = Vec::new();
    r.push(
        CommandInfo {
            command: "/exit".to_owned(),
            description: "exit from the tui".to_owned(),
            args: Vec::new(),
        },
    );
    r.push(
        CommandInfo {
            command: "/auth".to_owned(),
            description: "select a provider".to_owned(),
            args: Vec::new(),
        },
    );
    let mut tc_args: Vec<String> = Vec::new();
    tc_args.push("method".to_owned());
    r.push(
        CommandInfo {
            command: "/tc".to_owned(),
            description: "set the tool call method: [fc | fc2 | so]".to_owned(),
            args: tc_args,
        },
    );
    r.push(
        CommandInfo {
            command: "/tokens".to_owned(),
            description: "display token usage (input/output)".to_owned(),
            args: Vec::new(),
        },
    );
    let mut theme_args: Vec<String> = Vec::new();
    theme_args.push("mode".to_owned());
    r.push(
        CommandInfo {
            command: "/theme".to_owned(),
            description: "set theme: [dark | light | toggle]".to_owned(),
            args: theme_args,
        },
    );
    r
}

/// The whitespace that separates command words: the Unicode white-space
/// set that std's `split_whitespace` splits on.
pub open spec fn spec_is_ws(c: char) -> bool {
    let n = c as u32;
    (9 <= n && n <= 13) || n == 32 || n == 0x85 || n == 0xa0 || n == 0x1680 || (0x2000 <= n && n
        <= 0x200a) || n == 0x2028 || n == 0x2029 || n == 0x202f || n == 0x205f || n == 0x3000
}

fn is_ws_char(c: char) -> (r: bool)
    ensures
        r == spec_is_ws(c),
{
    let n = c as u32;
    (9 <= n && n <= 13) || n == 32 || n == 0x85 || n == 0xa0 || n == 0x1680 || (0x2000 <= n && n
        <= 0x200a) || n == 0x2028 || n == 0x2029 || n == 0x202f || n == 0x205f || n == 0x3000
}

/// Length of the word at the front of `s`: the characters before the
/// first whitespace.
pub open spec fn spec_word_len(s: Seq<char>) -> int
    decreases s.len(),
{
    if s.len() == 0 || spec_is_ws(s[0]) {
        0
    } else {
        1 + spec_word_len(s.drop_first())
    }
}

pub proof fn lemma_word_len_bounds(s: Seq<char>)
    ensures
        0 <= spec_word_len(s) <= s.len(),
        forall|j: int| 0 <= j < spec_word_len(s) ==> !spec_is_ws(s[j]),
        spec_word_len(s) < s.len() ==> spec_is_ws(s[spec_word_len(s)]),
    decreases s.len(),
{
    if s.len() > 0 && !spec_is_ws(s[0]) {
        lemma_word_len_bounds(s.drop_first());
        assert forall|j: int| 0 <= j < spec_word_len(s) implies !spec_is_ws(s[j]) by {
            if j > 0 {
                assert(!spec_is_ws(s.drop_first()[j - 1]));
            }
        }
    }
}

/// The whitespace-separated words of `s`, in order.
pub open spec fn spec_split_ws(s: Seq<char>) -> Seq<Seq<char>>
    decreases s.len(),
    via spec_split_ws_decreases
{
    if s.len() == 0 {
        Seq::empty()
    } else if spec_is_ws(s[0]) {
        spec_split_ws(s.drop_first())
    } else {
        seq![s.take(spec_word_len(s))] + spec_split_ws(s.skip(spec_word_len(s)))
    }
}

#[via_fn]
proof fn spec_split_ws_decreases(s: Seq<char>) {
    if s.len() > 0 && !spec_is_ws(s[0]) {
        lemma_word_len_bounds(s);
    }
}

/// Split a command line into its whitespace-separated words.
pub fn tokenize(s: &str) -> (r: Vec<String>)
    ensures
        r@.map_values(|t: String| t@) == spec_split_ws(s@),
{
    let n = s.unicode_len();
    let mut toks: Vec<String> = Vec::new();
    let mut i: usize = 0;
    proof {
        assert(s@.skip(0) =~= s@);
        assert(toks@.map_values(|t: String| t@) =~= Seq::<Seq<char>>::empty());
        assert(Seq::<Seq<char>>::empty() + spec_split_ws(s@) =~= spec_split_ws(s@));
    }
    while i < n
        invariant
            0 <= i <= n,
            n == s@.len(),
            toks@.map_values(|t: String| t@) + spec_split_ws(s@.skip(i as int)) == spec_split_ws(
                s@,
            ),
        decreases n - i,
    {
        if is_ws_char(s.get_char(i)) {
            proof {
                assert(s@.skip(i as int)[0] == s@[i as int]);
                assert(s@.skip(i as int).drop_first() =~= s@.skip(i as int + 1));
            }
            i = i + 1;
        } else {
            let start = i;
            while i < n && !is_ws_char(s.get_char(i))
                invariant
                    start <= i <= n,
                    n == s@.len(),
                    forall|j: int| start <= j < i ==> !spec_is_ws(s@[j]),
                decreases n - i,
            {
                i = i + 1;
            }
            let word: &str = s.substring_char(start, i);
            let ghost tail = s@.skip(start as int);
            proof {
                lemma_word_len_bounds(tail);
                assert(i - start == spec_word_len(tail)) by {
                    assert forall|j: int| 0 <= j < i - start implies !spec_is_ws(
                        #[trigger] tail[j],
                    ) by {
                        assert(tail[j] == s@[start + j]);
                    }
                    if i < n {
                        assert(spec_is_ws(tail[i - start]));
                    }
                    if spec_word_len(tail) < i - start {
                        assert(spec_is_ws(tail[spec_word_len(tail)]));
                        assert(tail[spec_word_len(tail)] == s@[start + spec_word_len(tail)]);
                    }
                    if spec_word_len(tail) > i - start {
                        assert(!spec_is_ws(tail[i - start]));
                    }
                }
                assert(word@ =~= tail.take(spec_word_len(tail)));
                assert(!spec_is_ws(tail[0]));
                assert(tail.skip(spec_word_len(tail)) =~= s@.skip(i as int));
            }
            let ghost pre = toks@;
            toks.push(word.to_owned());
            proof {
                assert(toks@.map_values(|t: String| t@) =~= pre.map_values(|t: String| t@)
                    + seq![word@]);
                assert(spec_split_ws(tail) == seq![tail.take(spec_word_len(tail))]
                    + spec_split_ws(tail.skip(spec_word_len(tail))));
                assert((pre.map_values(|t: String| t@) + seq![word@]) + spec_split_ws(
                    s@.skip(i as int),
                ) =~= pre.map_values(|t: String| t@) + (seq![word@] + spec_split_ws(
                    s@.skip(i as int),
                )));
            }
        }
    }
    proof {
        assert(s@.skip(i as int) =~= Seq::<char>::empty());
        assert(spec_split_ws(Seq::<char>::empty()) == Seq::<Seq<char>>::empty());
        assert(toks@.map_values(|t: String| t@) + Seq::<Seq<char>>::empty() =~= toks@.map_values(
            |t: String| t@,
        ));
    }
    toks
}

/// What a command line asks for.
#[derive(PartialEq, Eq, Structural, Clone, Copy, Debug)]
pub enum AppCommand {
    /// Leave the client.
    Exit,
    /// Ask the controller to switch the tool-call method.
    SetMethod { method: ToolCallMethod },
    /// A `/tc` without a recognized method: do nothing.
    MethodNoop,
    /// Show the token usage alert.
    ShowTokens,
    /// Switch to the named theme.
    SetTheme { theme: Theme },
    /// Switch to the other theme.
    ToggleTheme,
    /// A `/theme` without a recognized mode: show usage.
    ThemeUsage,
    /// Anything else.
    Unknown,
}

/// The command a line parses to: the first word selects the command, the
/// second its argument; extra words are ignored.
pub open spec fn spec_parse_app_command(s: Seq<char>) -> AppCommand {
    let toks = spec_split_ws(s);
    if toks.len() == 0 {
        AppCommand::Unknown
    } else if toks[0] == "/exit"@ {
        AppCommand::Exit
    } else if toks[0] == "/tc"@ {
        if toks.len() >= 2 && toks[1] == "auto"@ {
            AppCommand::SetMethod { method: ToolCallMethod::Auto }
        } else if toks.len() >= 2 && toks[1] == "fc"@ {
            AppCommand::SetMethod { method: ToolCallMethod::FunctionCall }
        } else if toks.len() >= 2 && toks[1] == "fc2"@ {
            AppCommand::SetMethod { method: ToolCallMethod::FunctionCallRequired }
        } else if toks.len() >= 2 && toks[1] == "so"@ {
            AppCommand::SetMethod { method: ToolCallMethod::StructuredOutput }
        } else {
            AppCommand::MethodNoop
        }
    } else if toks[0] == "/tokens"@ {
        AppCommand::ShowTokens
    } else if toks[0] == "/theme"@ {
        if toks.len() >= 2 && toks[1] == "dark"@ {
            AppCommand::SetTheme { theme: Theme::Dark }
        } else if toks.len() >= 2 && toks[1] == "light"@ {
            AppCommand::SetTheme { theme: Theme::Light }
        } else if toks.len() >= 2 && toks[1] == "toggle"@ {
            AppCommand::ToggleTheme
        } else {
            AppCommand::ThemeUsage
        }
    } else {
        AppCommand::Unknown
    }
}

/// Parse one command line.
pub fn parse_app_command(command: &str) -> (r: AppCommand)
    ensures
        r == spec_parse_app_command(command@),
{
    let toks = tokenize(command);
    if toks.len() == 0 {
        return AppCommand::Unknown;
    }
    proof {
        assert(toks@.map_values(|t: String| t@)[0] == toks@[0]@);
        if toks@.len() >= 2 {
            assert(toks@.map_values(|t: String| t@)[1] == toks@[1]@);
        }
    }
    if toks[0] == "/exit".to_owned() {
        AppCommand::Exit
    } else if toks[0] == "/tc".to_owned() {
        if toks.len() >= 2 && toks[1] == "auto".to_owned() {
            AppCommand::SetMethod { method: ToolCallMethod::Auto }
        } else if toks.len() >= 2 && toks[1] == "fc".to_owned() {
            AppCommand::SetMethod { method: ToolCallMethod::FunctionCall }
        } else if toks.len() >= 2 && toks[1] == "fc2".to_owned() {
            AppCommand::SetMethod { method: ToolCallMethod::FunctionCallRequired }
        } else if toks.len() >= 2 && toks[1] == "so".to_owned() {
            AppCommand::SetMethod { method: ToolCallMethod::StructuredOutput }
        } else {
            AppCommand::MethodNoop
        }
    } else if toks[0] == "/tokens".to_owned() {
        AppCommand::ShowTokens
    } else if toks[0] == "/theme".to_owned() {
        if toks.len() >= 2 && toks[1] == "dark".to_owned() {
            AppCommand::SetTheme { theme: Theme::Dark }
        } else if toks.len() >= 2 && toks[1] == "light".to_owned() {
            AppCommand::SetTheme { theme: Theme::Light }
        } else if toks.len() >= 2 && toks[1] == "toggle".to_owned() {
            AppCommand::ToggleTheme
        } else {
            AppCommand::ThemeUsage
        }
    } else {
        AppCommand::Unknown
    }
}

/// Client state a dot-command can touch.
pub struct AppState {
    /// The client should quit.
    pub exit: bool,
    /// Current color theme.
    pub theme: Theme,
    pub total_input_tokens: u64,
    pub total_output_tokens: u64,
}

/// What the client does after a command beyond its state change.
pub enum CommandEffect {
    /// Nothing to show or do.
    Quiet,
    /// Show an alert for the given number of seconds.
    Alert { message: String, seconds: u64 },
    /// Ask the agent's controller to switch the tool-call method; the
    /// controller's reply is applied with `method_changed`.
    RequestMethodChange { method: ToolCallMethod },
}

/// The token usage alert line.
pub open spec fn spec_token_usage_message(inp: u64, out: u64) -> Seq<char> {
    "Token Usage - Input: "@ + spec_dec(inp as int) + ", Output: "@ + spec_dec(out as int)
        + ", Total: "@ + spec_dec(inp as int + out as int)
}

/// Format the token usage alert.
pub fn token_usage_message(inp: u64, out: u64) -> (r: String)
    requires
        inp + out <= u64::MAX,
    ensures
        r@ == spec_token_usage_message(inp, out),
{
    let mut s = "Token Usage - Input: ".to_owned();
    push_dec(&mut s, inp);
    s.append(", Output: ");
    push_dec(&mut s, out);
    s.append(", Total: ");
    push_dec(&mut s, inp + out);
    s
}

/// The name a theme is announced by.
pub open spec fn spec_theme_name(t: Theme) -> Seq<char> {
    match t {
        Theme::Dark => "dark"@,
        Theme::Light => "light"@,
    }
}

impl AppState {
    /// Apply one command line: exit sets the quit flag, theme commands
    /// switch the theme and announce it, the token command formats the
    /// usage alert, a method command asks the controller, anything
    /// unrecognized alerts. The alert texts and durations are fixed.
    pub fn apply_command(&mut self, command: &str) -> (r: CommandEffect)
        requires
            old(self).total_input_tokens + old(self).total_output_tokens <= u64::MAX,
        ensures
            match spec_parse_app_command(command@) {
                AppCommand::Exit => *final(self) == (AppState { exit: true, ..*old(self) }) && r
                    is Quiet,
                AppCommand::SetMethod { method } => *final(self) == *old(self) && r == (
                CommandEffect::RequestMethodChange { method }),
                AppCommand::MethodNoop => *final(self) == *old(self) && r is Quiet,
                AppCommand::ShowTokens => *final(self) == *old(self) && (r matches
                    CommandEffect::Alert { message, seconds } && message@
                    == spec_token_usage_message(
                    old(self).total_input_tokens,
                    old(self).total_output_tokens,
                ) && seconds == 5),
                AppCommand::SetTheme { theme } => *final(self) == (AppState {
                    theme,
                    ..*old(self)
                }) && (r matches CommandEffect::Alert { message, seconds } && message@
                    == "Theme set to "@ + spec_theme_name(theme) && seconds == 2),
                AppCommand::ToggleTheme => *final(self) == (AppState {
                    theme: spec_toggled(old(self).theme),
                    ..*old(self)
                }) && (r matches CommandEffect::Alert { message, seconds } && message@
                    == "Theme toggled to "@ + spec_theme_name(spec_toggled(old(self).theme))
                    && seconds == 2),
                AppCommand::ThemeUsage => *final(self) == *old(self) && (r matches
                    CommandEffect::Alert { message, seconds } && message@
                    == "Usage: /theme [dark|light|toggle]"@ && seconds == 3),
                AppCommand::Unknown => *final(self) == *old(self) && (r matches
                    CommandEffect::Alert { message, seconds } && message@ == "command unknown"@
                    && seconds == 1),
            },
    {
        let cmd = parse_app_command(command);
        match cmd {
            AppCommand::Exit => {
                self.exit = true;
                CommandEffect::Quiet
            },
            AppCommand::SetMethod { method } => CommandEffect::RequestMethodChange { method },
            AppCommand::MethodNoop => CommandEffect::Quiet,
            AppCommand::ShowTokens => CommandEffect::Alert {
                message: token_usage_message(self.total_input_tokens, self.total_output_tokens),
                seconds: 5,
            },
            AppCommand::SetTheme { theme } => {
                self.theme = theme;
                let mut message = "Theme set to ".to_owned();
                match theme {
                    Theme::Dark => message.append("dark"),
                    Theme::Light => message.append("light"),
                }
                CommandEffect::Alert { message, seconds: 2 }
            },
            AppCommand::ToggleTheme => {
                self.theme.toggle();
                let mut message = "Theme toggled to ".to_owned();
                match self.theme {
                    Theme::Dark => message.append("dark"),
                    Theme::Light => message.append("light"),
                }
                CommandEffect::Alert { message, seconds: 2 }
            },
            AppCommand::ThemeUsage => CommandEffect::Alert {
                message: "Usage: /theme [dark|light|toggle]".to_owned(),
                seconds: 3,
            },
            AppCommand::Unknown => CommandEffect::Alert {
                message: "command unknown".to_owned(),
                seconds: 1,
            },
        }
    }
}

/// The announcement for a method the controller switched to.
pub open spec fn spec_method_message(m: ToolCallMethod) -> Seq<char> {
    match m {
        ToolCallMethod::Auto => "llm will now try all method for tool calls"@,
        ToolCallMethod::FunctionCall => "llm will now use function calling api for tool calls"@,
        ToolCallMethod::FunctionCallRequired => "llm will now use function calling in required mode for tool calls"@,
        ToolCallMethod::StructuredOutput => "llm will now use structured output for tool calls"@,
    }
}

/// The alert shown once the controller confirmed a method change.
pub fn method_changed(method: ToolCallMethod) -> (r: CommandEffect)
    ensures
        r matches CommandEffect::Alert { message, seconds } && message@ == spec_method_message(
            method,
        ) && seconds == 3,
{
    let message = match method {
        ToolCallMethod::Auto => "llm will now try all method for tool calls".to_owned(),
        ToolCallMethod::FunctionCall => "llm will now use function calling api for tool calls".to_owned(),
        ToolCallMethod::FunctionCallRequired => "llm will now use function calling in required mode for tool calls".to_owned(),
        ToolCallMethod::StructuredOutput => "llm will now use structured output for tool calls".to_owned(),
    };
    CommandEffect::Alert { message, seconds: 3 }
}

} // verus!
