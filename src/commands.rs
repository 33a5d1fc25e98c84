//! Chat commands: the names they register under, the text they answer with,
//! and the messages that go back to the chat.

use vstd::prelude::*;

verus! {

/// How the chat renders a message's text.
#[derive(Clone, Copy, Debug, PartialEq, Eq, Structural)]
pub enum ParseMode {
    Html,
    Markdown,
}

/// The optional rendering mode of a reply.
pub type RbotParseMode = Option<ParseMode>;

/// A message queued for delivery to the chat.
#[derive(Clone, Debug)]
pub struct MessageWrapper {
    pub text: String,
    pub parse_mode: RbotParseMode,
}

/// A command that the bot answers.
pub trait QbCommandAction {
    /// The name that the command registers under; `None` where it has none.
    spec fn spec_name(&self) -> Option<Seq<char>>;

    /// The text that the command answers with.
    spec fn spec_result(&self) -> Seq<char>;

    /// How the answer is rendered.
    spec fn spec_parse_mode(&self) -> RbotParseMode;

    fn name(&self) -> (r: String)
        requires
            self.spec_name() is Some,
        ensures
            r@ == self.spec_name()->Some_0,
    ;

    fn action_result_to_string(&self) -> (r: String)
        ensures
            r@ == self.spec_result(),
    ;

    fn parse_mode(&self) -> (r: RbotParseMode)
        ensures
            r == self.spec_parse_mode(),
    ;
}

/// The `/help` command.
pub struct QHelp {}

impl QbCommandAction for QHelp {
    open spec fn spec_name(&self) -> Option<Seq<char>> {
        Some("/help"@)
    }

    open spec fn spec_result(&self) -> Seq<char> {
        "Help is here"@
    }

    open spec fn spec_parse_mode(&self) -> RbotParseMode {
        None
    }

    fn name(&self) -> (r: String) {
        String::from_str("/help")
    }

    fn action_result_to_string(&self) -> (r: String) {
        String::from_str("Help is here")
    }

    fn parse_mode(&self) -> (r: RbotParseMode) {
        None
    }
}

/// What answers a command that the bot does not know; it registers under no
/// name.
pub struct UnknownCommand {}

impl QbCommandAction for UnknownCommand {
    open spec fn spec_name(&self) -> Option<Seq<char>> {
        None
    }

    open spec fn spec_result(&self) -> Seq<char> {
        "Unknown command"@
    }

    open spec fn spec_parse_mode(&self) -> RbotParseMode {
        None
    }

    fn name(&self) -> (r: String) {
        String::new()
    }

    fn action_result_to_string(&self) -> (r: String) {
        String::from_str("Unknown command")
    }

    fn parse_mode(&self) -> (r: RbotParseMode) {
        None
    }
}

/// The `/start` command: a greeting in Markdown.
pub struct QStart {}

impl QbCommandAction for QStart {
    open spec fn spec_name(&self) -> Option<Seq<char>> {
        Some("/start"@)
    }

    open spec fn spec_result(&self) -> Seq<char> {
        "\nHello! It's Qbittorrent Telegram bot. \nSee the commands list using [/help](/help)."@
    }

    open spec fn spec_parse_mode(&self) -> RbotParseMode {
        Some(ParseMode::Markdown)
    }

    fn name(&self) -> (r: String) {
        String::from_str("/start")
    }

    fn action_result_to_string(&self) -> (r: String) {
        String::from_str(
            "\nHello! It's Qbittorrent Telegram bot. \nSee the commands list using [/help](/help).",
        )
    }

    fn parse_mode(&self) -> (r: RbotParseMode) {
        Some(ParseMode::Markdown)
    }
}

} // verus!
