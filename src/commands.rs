//! Which slash commands each guild may show, and which it does show.

use vstd::prelude::*;
use vstd::string::StringExecFns;

use crate::error::BotError;
use crate::menu::MenuOption;
use crate::settings::{option_view, options_view};
use crate::text::{contains_text, keep_names, kept_names, same_text, texts};

verus! {

/// The user data the command framework hands to every command.
pub struct Data {}

/// The commands a guild shows, as stored.
pub struct GuildCommands {
    pub guildid: u64,
    pub commands: Vec<String>,
}

/// The commands a guild may turn on, as stored.
pub struct AvailableSlashcommands {
    pub availableslashcommands: Vec<String>,
    pub guildid: u64,
}

/// A command the bot offers, by name, with its description if it has one.
pub struct FrameworkCommand {
    pub name: String,
    pub description: Option<String>,
}

pub open spec fn command_names(cs: Seq<FrameworkCommand>) -> Seq<Seq<char>> {
    cs.map_values(|c: FrameworkCommand| c.name@)
}

/// The commands a guild may turn on when nothing is stored for it.
pub open spec fn default_available() -> Seq<Seq<char>> {
    seq!["watch"@, "help"@]
}

/// The commands a guild may turn on: those stored, or the default ones.
pub fn getguildavailablecommands(stored: Option<Vec<String>>) -> (r: Vec<String>)
    ensures
        match stored {
            Some(v) => r@ == v@,
            None => texts(r@) == default_available(),
        },
{
    match stored {
        Some(v) => v,
        None => {
            let mut v: Vec<String> = Vec::new();
            v.push(String::from_str("watch"));
            v.push(String::from_str("help"));
            assert(texts(v@) =~= default_available());
            v
        },
    }
}

/// The commands of the bot that are listed in `commandsindatabase`, in the
/// bot's order.
pub fn specificcommandfinder(commandsindatabase: &Vec<String>, framework: &Vec<String>) -> (r: Vec<
    String,
>)
    ensures
        texts(r@) == kept_names(texts(framework@), texts(commandsindatabase@), None),
{
    keep_names(framework, commandsindatabase, None)
}

/// The commands to register in a guild when the bot starts: those stored for
/// it, or all of them.
pub fn on_ready(stored: Option<Vec<String>>, framework: &Vec<String>) -> (r: Vec<String>)
    ensures
        texts(r@) == kept_names(
            texts(framework@),
            match stored {
                Some(v) => texts(v@),
                None => texts(framework@),
            },
            None,
        ),
{
    match stored {
        Some(v) => specificcommandfinder(&v, framework),
        None => specificcommandfinder(framework, framework),
    }
}

/// The label of a command in a menu: its description, or else its name.
pub open spec fn command_label(c: FrameworkCommand) -> Seq<char> {
    match c.description {
        Some(d) => d@,
        None => c.name@,
    }
}

/// The entries of the command menu: each command the guild may turn on but
/// the settings command itself, picked if the guild shows it now.
pub open spec fn command_entries(
    cs: Seq<FrameworkCommand>,
    available: Seq<Seq<char>>,
    registered: Seq<Seq<char>>,
) -> Seq<(Seq<char>, Seq<char>, bool)>
    decreases cs.len(),
{
    if cs.len() == 0 {
        seq![]
    } else {
        let rest = command_entries(cs.drop_last(), available, registered);
        let c = cs.last();
        if c.name@ != "settings"@ && available.contains(c.name@) {
            rest.push((command_label(c), c.name@, registered.contains(c.name@)))
        } else {
            rest
        }
    }
}

/// The entries of the menu in which a guild picks the commands it shows.
pub fn command_menu_options(
    framework: &Vec<FrameworkCommand>,
    available: &Vec<String>,
    registered: &Vec<String>,
) -> (r: Vec<MenuOption>)
    ensures
        options_view(r@) == command_entries(framework@, texts(available@), texts(registered@)),
{
    let mut out: Vec<MenuOption> = Vec::new();
    let mut i: usize = 0;
    while i < framework.len()
        invariant
            i <= framework@.len(),
            options_view(out@) == command_entries(
                framework@.subrange(0, i as int),
                texts(available@),
                texts(registered@),
            ),
        decreases framework@.len() - i,
    {
        proof {
            assert(framework@.subrange(0, i + 1).drop_last() =~= framework@.subrange(0, i as int));
        }
        let c = &framework[i];
        let name = c.name.as_str();
        if !same_text(name, "settings") && contains_text(available, name) {
            let label = match &c.description {
                Some(d) => d.clone(),
                None => c.name.clone(),
            };
            let preselected = contains_text(registered, name);
            let o = MenuOption { label, value: c.name.clone(), preselected };
            let ghost before = out@;
            out.push(o);
            proof {
                assert(options_view(out@) =~= options_view(before).push(option_view(o)));
            }
        }
        i += 1;
    }
    assert(framework@.subrange(0, framework@.len() as int) =~= framework@);
    out
}

/// What a guild stores after picking the commands it shows: those picked, and
/// the settings command, which every guild keeps, in the bot's order.
pub fn commandselection(guildid: u64, framework: &Vec<String>, picked: &Vec<String>) -> (r:
    GuildCommands)
    ensures
        r.guildid == guildid,
        texts(r.commands@) == kept_names(texts(framework@), texts(picked@), Some("settings"@)),
{
    GuildCommands { guildid, commands: keep_names(framework, picked, Some("settings")) }
}

/// The entries of the owners' menu: every command of the bot, picked if the
/// guild may turn it on now.
pub open spec fn available_entries(names: Seq<Seq<char>>, available: Seq<Seq<char>>) -> Seq<
    (Seq<char>, Seq<char>, bool),
> {
    names.map_values(|n: Seq<char>| (n, n, available.contains(n)))
}

/// The entries of the menu in which an owner picks what a guild may turn on.
pub fn available_command_options(framework: &Vec<String>, available: &Vec<String>) -> (r: Vec<
    MenuOption,
>)
    ensures
        options_view(r@) == available_entries(texts(framework@), texts(available@)),
{
    let mut out: Vec<MenuOption> = Vec::new();
    let mut i: usize = 0;
    while i < framework.len()
        invariant
            i <= framework@.len(),
            options_view(out@) == available_entries(
                texts(framework@.subrange(0, i as int)),
                texts(available@),
            ),
        decreases framework@.len() - i,
    {
        let name = framework[i].as_str();
        let o = MenuOption {
            label: framework[i].clone(),
            value: framework[i].clone(),
            preselected: contains_text(available, name),
        };
        let ghost before = out@;
        out.push(o);
        proof {
            assert(options_view(out@) =~= options_view(before).push(option_view(o)));
            assert(available_entries(texts(framework@.subrange(0, i + 1)), texts(available@))
                =~= available_entries(texts(framework@.subrange(0, i as int)), texts(available@)).push(
                option_view(o),
            ));
        }
        i += 1;
    }
    assert(framework@.subrange(0, framework@.len() as int) =~= framework@);
    out
}

/// Whether the owners' menu is cut to the platform's limit, which the owner
/// is told.
pub fn truncates_menu(len: usize) -> (r: bool)
    ensures
        r == (len > crate::menu::MENU_LIMIT),
{
    len > crate::menu::MENU_LIMIT
}

/// What a guild stores after an owner picked the commands it may turn on:
/// those of the bot that were picked, in the bot's order.
pub fn availablecommandselection(guildid: u64, framework: &Vec<String>, picked: &Vec<String>) -> (r:
    AvailableSlashcommands)
    ensures
        r.guildid == guildid,
        texts(r.availableslashcommands@) == kept_names(texts(framework@), texts(picked@), None),
{
    AvailableSlashcommands { availableslashcommands: keep_names(framework, picked, None), guildid }
}

/// Whose commands are changed.
#[derive(Clone, Copy, Debug, PartialEq, Eq, Structural)]
pub enum GuildTarget {
    /// The guild the command ran in.
    This(u64),
    /// A guild the owner picks from those the bot is in.
    Pick,
}

/// A bot owner may change the commands of any guild; anyone else those of
/// the guild they are in.
pub fn ownercheckcommandselection(is_owner: bool, guild: Option<u64>) -> (r: Result<
    GuildTarget,
    BotError,
>)
    ensures
        is_owner ==> r == Ok::<GuildTarget, BotError>(GuildTarget::Pick),
        !is_owner ==> match guild {
            Some(g) => r == Ok::<GuildTarget, BotError>(GuildTarget::This(g)),
            None => r == Err::<GuildTarget, BotError>(BotError::NotInGuild),
        },
{
    if is_owner {
        Ok(GuildTarget::Pick)
    } else {
        match guild {
            Some(g) => Ok(GuildTarget::This(g)),
            None => Err(BotError::NotInGuild),
        }
    }
}

} // verus!
