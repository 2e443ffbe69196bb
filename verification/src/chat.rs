//! Records and commands of the chat service.

use vstd::prelude::*;

verus! {

/// A channel of the board.
#[derive(Clone, Debug)]
pub struct Channel {
    id: i32,
    name: String,
}

/// One message in a channel.
#[derive(Clone, Debug)]
pub struct Message {
    id: i32,
    channel: i32,
    user: String,
    content: String,
}

/// What a line typed by a user asks for.
#[derive(Clone, Debug)]
pub enum Command {
    /// Enter the channel of that name.
    EnterChannel(String),
    /// Leave the current channel.
    Leave,
    /// Say the line in the current channel.
    Line(String),
}

impl Channel {
    /// The number under which the channel is stored.
    pub closed spec fn stored_id(&self) -> i32 {
        self.id
    }

    /// The channel's name as text.
    pub closed spec fn name_text(&self) -> Seq<char> {
        self.name@
    }

    /// A channel with the given number and name.
    pub fn new(id: i32, name: String) -> (channel: Channel)
        ensures
            channel.stored_id() == id,
            channel.name_text() == name@,
    {
        Channel { id, name }
    }

    /// The channel's name.
    pub fn name(&self) -> (name: &str)
        ensures
            name@ == self.name_text(),
    {
        self.name.as_str()
    }
}

impl Message {
    /// The number under which the message is stored.
    pub closed spec fn stored_id(&self) -> i32 {
        self.id
    }

    /// The number of the channel that the message was said in.
    pub closed spec fn stored_channel(&self) -> i32 {
        self.channel
    }

    /// The author's name as text.
    pub closed spec fn user_text(&self) -> Seq<char> {
        self.user@
    }

    /// The message as text.
    pub closed spec fn content_text(&self) -> Seq<char> {
        self.content@
    }

    /// A message with the given number, channel, author and text.
    pub fn new(id: i32, channel: i32, user: String, content: String) -> (message: Message)
        ensures
            message.stored_id() == id,
            message.stored_channel() == channel,
            message.user_text() == user@,
            message.content_text() == content@,
    {
        Message { id, channel, user, content }
    }

    /// The number under which the message is stored.
    pub fn id(&self) -> (id: i32)
        ensures
            id == self.stored_id(),
    {
        self.id
    }

    /// The author's name.
    pub fn user(&self) -> (user: &str)
        ensures
            user@ == self.user_text(),
    {
        self.user.as_str()
    }

    /// The message's text.
    pub fn content(&self) -> (content: &str)
        ensures
            content@ == self.content_text(),
    {
        self.content.as_str()
    }
}

/// The word that enters a channel, with the space that follows it.
pub open spec fn enter_prefix() -> Seq<char> {
    seq!['e', 'n', 't', 'e', 'r', ' ']
}

/// The line that leaves a channel.
pub open spec fn leave_line() -> Seq<char> {
    seq!['L', 'E', 'A', 'V', 'E']
}

/// Whether a line asks to enter a channel: the word `enter`, one space, and a
/// name that is not empty.
pub open spec fn enters_channel(line: Seq<char>) -> bool {
    line.len() > 6 && line.subrange(0, 6) == enter_prefix()
}

impl Command {
    /// Whether the command is what `line` asks for.
    pub open spec fn parsed_from(&self, line: Seq<char>) -> bool {
        match self {
            Command::EnterChannel(channel) => enters_channel(line) && channel@ == line.subrange(
                6,
                line.len() as int,
            ),
            Command::Leave => !enters_channel(line) && line == leave_line(),
            Command::Line(said) => !enters_channel(line) && line != leave_line() && said@ == line,
        }
    }

    /// Reads a line as a command.
    ///
    /// `enter`, a space and a name enters the channel of that name, which is
    /// everything behind that first space. The line `LEAVE` leaves. Every other
    /// line is said as it stands.
    pub fn parse(from: String) -> (command: Command)
        ensures
            command.parsed_from(from@),
    {
        let text = from.as_str();
        let len: usize = text.unicode_len();
        if len > 6 && text.get_char(0) == 'e' && text.get_char(1) == 'n' && text.get_char(2) == 't'
            && text.get_char(3) == 'e' && text.get_char(4) == 'r' && text.get_char(5) == ' ' {
            assert(from@.subrange(0, 6) =~= enter_prefix());
            let channel = text.substring_char(6, len).to_owned();
            return Command::EnterChannel(channel);
        }
        if len == 5 && text.get_char(0) == 'L' && text.get_char(1) == 'E' && text.get_char(2) == 'A'
            && text.get_char(3) == 'V' && text.get_char(4) == 'E' {
            assert(from@ =~= leave_line());
            return Command::Leave;
        }
        Command::Line(from)
    }
}

} // verus!
