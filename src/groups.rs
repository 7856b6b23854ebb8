//! The bot's command groups, as data: each group's name, description, whether help lists
//! it, and the commands that it registers. The command-name list is drawn from them.
use vstd::prelude::*;

verus! {

/// A command group.
pub struct CommandGroup {
    pub name: &'static str,
    pub description: Option<&'static str>,
    pub help_available: bool,
    pub commands: Vec<&'static str>,
}

fn group(
    name: &'static str,
    description: Option<&'static str>,
    help_available: bool,
    commands: Vec<&'static str>,
) -> (r: CommandGroup)
    ensures
        r.name == name,
        r.description == description,
        r.help_available == help_available,
        r.commands@ == commands@,
{
    CommandGroup { name, description, help_available, commands }
}

fn no_commands() -> (r: Vec<&'static str>)
    ensures
        r@ == Seq::<&'static str>::empty(),
{
    Vec::new()
}

/// Groups every other group of the bot.
pub struct Master;

/// Commands that help does not list.
pub struct General;

/// Commands that modify text.
pub struct Text;

/// Text modifications of the last message.
pub struct TextLast;

/// Commands that send certain messages to channels.
pub struct TextChannelSend;

/// Admin and moderator commands that configure the bot.
pub struct Config;

/// Support commands.
pub struct Support;

/// Starboard admin commands.
pub struct Starboard;

/// Voice chat commands.
pub struct Voice;

/// Music commands.
pub struct Music;

/// Image commands.
pub struct Images;

/// Anime and manga commands.
pub struct Japan;

/// Server utility commands.
pub struct Utility;

impl General {
    pub fn group() -> (r: CommandGroup)
        ensures
            r.name == "General",
            r.description.is_none(),
            !r.help_available,
            r.commands@.len() == 0,
    {
        group("General", None, false, no_commands())
    }
}

impl Text {
    pub fn group() -> (r: CommandGroup)
        ensures
            r.name == "Text Modification",
            r.description is Some,
            r.help_available,
            r.commands@.len() == 0,
    {
        group(
            "Text Modification",
            Some(
                "Commands than modify text. \n\nAppend l in the command to use the last message \n\nExample: `mockl` mocks the last message",
            ),
            true,
            no_commands(),
        )
    }
}

impl TextLast {
    pub fn group() -> (r: CommandGroup)
        ensures
            r.name == "TextLast",
            r.description.is_none(),
            !r.help_available,
            r.commands@.len() == 0,
    {
        group("TextLast", None, false, no_commands())
    }
}

impl TextChannelSend {
    pub fn group() -> (r: CommandGroup)
        ensures
            r.name == "Senders",
            r.description == Some("Commands that send certain messages to channels"),
            r.help_available,
            r.commands@.len() == 0,
    {
        group("Senders", Some("Commands that send certain messages to channels"), true, no_commands())
    }
}

impl Config {
    pub fn group() -> (r: CommandGroup)
        ensures
            r.name == "Bot Configuration",
            r.description == Some("Admin/Moderator commands that configure the bot"),
            r.help_available,
            r.commands@ == seq!["prefix", "command", "resetprefix"],
    {
        let mut c = Vec::new();
        c.push("prefix");
        c.push("command");
        c.push("resetprefix");
        group("Bot Configuration", Some("Admin/Moderator commands that configure the bot"), true, c)
    }
}

impl Support {
    pub fn group() -> (r: CommandGroup)
        ensures
            r.name == "Support",
            r.description == Some("Support commands for the bot"),
            r.help_available,
            r.commands@.len() == 0,
    {
        group("Support", Some("Support commands for the bot"), true, no_commands())
    }
}

impl Starboard {
    pub fn group() -> (r: CommandGroup)
        ensures
            r.name == "Starboard",
            r.description == Some("Starboard admin commands"),
            r.help_available,
            r.commands@ == seq!["starboard"],
    {
        let mut c = Vec::new();
        c.push("starboard");
        group("Starboard", Some("Starboard admin commands"), true, c)
    }
}

impl Voice {
    pub fn group() -> (r: CommandGroup)
        ensures
            r.name == "Voice",
            r.description == Some("Commands used for voice chat"),
            r.help_available,
            r.commands@ == seq!["summon", "disconnect"],
    {
        let mut c = Vec::new();
        c.push("summon");
        c.push("disconnect");
        group("Voice", Some("Commands used for voice chat"), true, c)
    }
}

impl Music {
    pub fn group() -> (r: CommandGroup)
        ensures
            r.name == "Music",
            r.description == Some("Commands used to play music"),
            r.help_available,
            r.commands@ == seq![
                "play",
                "pause",
                "resume",
                "stop",
                "skip",
                "queue",
                "clear",
                "remove",
                "seek",
            ],
    {
        let mut c = Vec::new();
        c.push("play");
        c.push("pause");
        c.push("resume");
        c.push("stop");
        c.push("skip");
        c.push("queue");
        c.push("clear");
        c.push("remove");
        c.push("seek");
        group("Music", Some("Commands used to play music"), true, c)
    }
}

impl Images {
    pub fn group() -> (r: CommandGroup)
        ensures
            r.name == "Images",
            r.description == Some("Commands for fetching/sending images"),
            r.help_available,
            r.commands@.len() == 0,
    {
        group("Images", Some("Commands for fetching/sending images"), true, no_commands())
    }
}

impl Japan {
    pub fn group() -> (r: CommandGroup)
        ensures
            r.name == "Japan",
            r.description == Some("Commands for anime/manga"),
            r.help_available,
            r.commands@ == seq!["anime", "manga"],
    {
        let mut c = Vec::new();
        c.push("anime");
        c.push("manga");
        group("Japan", Some("Commands for anime/manga"), true, c)
    }
}

impl Utility {
    pub fn group() -> (r: CommandGroup)
        ensures
            r.name == "Utility",
            r.description == Some("Server utility commands"),
            r.help_available,
            r.commands@.len() == 0,
    {
        group("Utility", Some("Server utility commands"), true, no_commands())
    }
}

/// The names of the groups' commands, in order.
pub open spec fn all_commands(groups: Seq<CommandGroup>) -> Seq<&'static str>
    decreases groups.len(),
{
    if groups.len() == 0 {
        seq![]
    } else {
        all_commands(groups.drop_last()) + groups.last().commands@
    }
}

impl Master {
    /// The master group's sub-groups, in order.
    pub fn sub_groups() -> (r: Vec<CommandGroup>)
        ensures
            r@.len() == 10,
            r@[0].name == "General",
            r@[1].name == "Text Modification",
            r@[2].name == "TextLast",
            r@[3].name == "Senders",
            r@[4].name == "Bot Configuration",
            r@[5].name == "Support",
            r@[6].name == "Starboard",
            r@[7].name == "Voice",
            r@[8].name == "Images",
            r@[9].name == "Music",
    {
        let mut v = Vec::new();
        v.push(General::group());
        v.push(Text::group());
        v.push(TextLast::group());
        v.push(TextChannelSend::group());
        v.push(Config::group());
        v.push(Support::group());
        v.push(Starboard::group());
        v.push(Voice::group());
        v.push(Images::group());
        v.push(Music::group());
        v
    }
}

/// The names of every command that the master group's sub-groups register.
pub struct CommandNameMap {
    pub names: Vec<&'static str>,
}

impl CommandNameMap {
    /// The command names of `groups`, group by group, each group's in its order.
    pub fn from_groups(groups: &Vec<CommandGroup>) -> (r: CommandNameMap)
        ensures
            r.names@ == all_commands(groups@),
    {
        let mut names: Vec<&'static str> = Vec::new();
        let mut i: usize = 0;
        assert(groups@.subrange(0, 0) =~= Seq::<CommandGroup>::empty());
        while i < groups.len()
            invariant
                i <= groups@.len(),
                names@ == all_commands(groups@.subrange(0, i as int)),
            decreases groups@.len() - i,
        {
            let g = &groups[i];
            let mut j: usize = 0;
            let ghost before = names@;
            while j < g.commands.len()
                invariant
                    j <= g.commands@.len(),
                    names@ == before + g.commands@.subrange(0, j as int),
                decreases g.commands@.len() - j,
            {
                names.push(g.commands[j]);
                j += 1;
                assert(names@ =~= before + g.commands@.subrange(0, j as int));
            }
            proof {
                let prefix = groups@.subrange(0, i + 1);
                assert(prefix.drop_last() =~= groups@.subrange(0, i as int));
                assert(g.commands@.subrange(0, j as int) =~= g.commands@);
            }
            i += 1;
        }
        assert(groups@.subrange(0, i as int) =~= groups@);
        CommandNameMap { names }
    }

    /// Whether `name` is one of the names, compared as text.
    pub fn contains(&self, name: &str) -> (r: bool)
        ensures
            r == exists|i: int| 0 <= i < self.names@.len() && self.names@[i]@ == name@,
    {
        let mut i: usize = 0;
        while i < self.names.len()
            invariant
                i <= self.names@.len(),
                forall|k: int| 0 <= k < i ==> self.names@[k]@ != name@,
            decreases self.names@.len() - i,
        {
            if crate::text::same_text(self.names[i], name) {
                return true;
            }
            i += 1;
        }
        false
    }
}

} // verus!
