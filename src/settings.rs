//! Who may change a guild's settings, and what the settings menus offer.

use vstd::prelude::*;
use vstd::string::StringExecFns;

use crate::error::BotError;
use crate::menu::MenuOption;
use crate::text::{contains_text, same_text, texts};

verus! {

/// What a guild may change in the bot.
#[derive(Clone, Copy, Debug, PartialEq, Eq, Structural)]
pub struct AvailableSettings {
    /// Turn on and off which commands the guild shows.
    pub availablecommands: bool,
    /// Change which commands a guild may turn on (bot owners only).
    pub owneravailablecommands: bool,
    /// Add tokens to the price command's autocompletion.
    pub tokenpricetracking: bool,
    /// Add such tokens for every guild.
    pub globaltokens: bool,
}

pub open spec fn guild_default_settings() -> AvailableSettings {
    AvailableSettings {
        availablecommands: true,
        owneravailablecommands: false,
        tokenpricetracking: true,
        globaltokens: false,
    }
}

pub open spec fn owner_settings() -> AvailableSettings {
    AvailableSettings {
        availablecommands: true,
        owneravailablecommands: true,
        tokenpricetracking: true,
        globaltokens: true,
    }
}

impl AvailableSettings {
    /// What a guild with no stored settings may change.
    pub fn guild_default() -> (r: AvailableSettings)
        ensures
            r == guild_default_settings(),
    {
        AvailableSettings {
            availablecommands: true,
            owneravailablecommands: false,
            tokenpricetracking: true,
            globaltokens: false,
        }
    }

    /// What a bot owner may change: everything.
    pub fn everything() -> (r: AvailableSettings)
        ensures
            r == owner_settings(),
    {
        AvailableSettings {
            availablecommands: true,
            owneravailablecommands: true,
            tokenpricetracking: true,
            globaltokens: true,
        }
    }
}

/// The settings that apply: a bot owner may change everything, anyone else
/// what is stored for the guild, or the default.
pub fn effective_settings(stored: Option<AvailableSettings>, is_owner: bool) -> (r:
    AvailableSettings)
    ensures
        r == (if is_owner {
            owner_settings()
        } else {
            match stored {
                Some(s) => s,
                None => guild_default_settings(),
            }
        }),
{
    if is_owner {
        AvailableSettings::everything()
    } else {
        match stored {
            Some(s) => s,
            None => AvailableSettings::guild_default(),
        }
    }
}

/// The notice for a user who is not a bot owner, when the caller gave one.
pub fn ownercheck(is_owner: bool, text: Option<&str>) -> (r: Option<String>)
    ensures
        is_owner ==> r is None,
        !is_owner ==> match text {
            Some(t) => r matches Some(n) && n@ == t@,
            None => r is None,
        },
{
    if is_owner {
        None
    } else {
        match text {
            Some(t) => Some(String::from_str(t)),
            None => None,
        }
    }
}

pub open spec fn not_permitted_text() -> Seq<char> {
    "You are not the bot owner. You don't have the right permissions for this action."@
}

/// The notice for a user who is not an administrator of the guild: the
/// caller's text, or a default one.
pub fn admincheck(is_admin: bool, text: Option<&str>) -> (r: Option<String>)
    ensures
        is_admin ==> r is None,
        !is_admin ==> match text {
            Some(t) => r matches Some(n) && n@ == t@,
            None => r matches Some(n) && n@ == not_permitted_text(),
        },
{
    if is_admin {
        None
    } else {
        match text {
            Some(t) => Some(String::from_str(t)),
            None => Some(
                String::from_str(
                    "You are not the bot owner. You don't have the right permissions for this action.",
                ),
            ),
        }
    }
}

/// The guild a command runs in; guild settings mean nothing elsewhere.
pub fn getguildid(guild: Option<u64>) -> (r: Result<u64, BotError>)
    ensures
        match guild {
            Some(g) => r == Ok::<u64, BotError>(g),
            None => r == Err::<u64, BotError>(BotError::NotInGuild),
        },
{
    match guild {
        Some(g) => Ok(g),
        None => Err(BotError::NotInGuild),
    }
}

/// Who may open the settings menu: administrators of the guild and bot
/// owners, and only inside a guild.
pub fn settings(is_admin: bool, is_owner: bool, guild: Option<u64>) -> (r: Result<u64, BotError>)
    ensures
        !is_admin && !is_owner ==> r == Err::<u64, BotError>(BotError::PermissionDenied),
        is_admin || is_owner ==> match guild {
            Some(g) => r == Ok::<u64, BotError>(g),
            None => r == Err::<u64, BotError>(BotError::NotInGuild),
        },
{
    if !is_admin && !is_owner {
        return Err(BotError::PermissionDenied);
    }
    getguildid(guild)
}

/// Changing which commands are available to a guild is for bot owners.
pub fn ownercheckavailablecommands(is_owner: bool) -> (r: Result<(), BotError>)
    ensures
        is_owner ==> r is Ok,
        !is_owner ==> r == Err::<(), BotError>(BotError::PermissionDenied),
{
    if is_owner {
        Ok(())
    } else {
        Err(BotError::PermissionDenied)
    }
}

/// A menu entry as label, value and whether it starts out picked.
pub open spec fn option_view(o: MenuOption) -> (Seq<char>, Seq<char>, bool) {
    (o.label@, o.value@, o.preselected)
}

pub open spec fn options_view(v: Seq<MenuOption>) -> Seq<(Seq<char>, Seq<char>, bool)> {
    v.map_values(|o: MenuOption| option_view(o))
}

/// The entries of the settings menu, in order, for what the user may change.
pub open spec fn settings_entries(p: AvailableSettings) -> Seq<(Seq<char>, Seq<char>, bool)> {
    (if p.availablecommands {
        seq![("Activate or deactivate available slash commands"@, "availablecommands"@, false)]
    } else {
        seq![]
    }) + (if p.tokenpricetracking {
        seq![("Add a token of which the price can be fetched"@, "tokenpricetracking"@, false)]
    } else {
        seq![]
    }) + (if p.owneravailablecommands {
        seq![
            ("(De)Activate commands available to turn on for guilds"@, "owneravailablecommands"@, false),
            ("Change the permissions a user has"@, "permissionsettings"@, false),
        ]
    } else {
        seq![]
    })
}

fn option(label: &str, value: &str, preselected: bool) -> (r: MenuOption)
    ensures
        option_view(r) == (label@, value@, preselected),
{
    MenuOption { label: String::from_str(label), value: String::from_str(value), preselected }
}

/// The entries of the settings menu.
pub fn settings_menu_options(p: AvailableSettings) -> (r: Vec<MenuOption>)
    ensures
        options_view(r@) == settings_entries(p),
{
    let mut v: Vec<MenuOption> = Vec::new();
    if p.availablecommands {
        v.push(option("Activate or deactivate available slash commands", "availablecommands", false));
    }
    if p.tokenpricetracking {
        v.push(option("Add a token of which the price can be fetched", "tokenpricetracking", false));
    }
    if p.owneravailablecommands {
        v.push(
            option(
                "(De)Activate commands available to turn on for guilds",
                "owneravailablecommands",
                false,
            ),
        );
        v.push(option("Change the permissions a user has", "permissionsettings", false));
    }
    assert(options_view(v@) =~= settings_entries(p));
    v
}

/// The setting picked in the settings menu.
#[derive(Clone, Copy, Debug, PartialEq, Eq, Structural)]
pub enum SettingsChoice {
    AvailableCommands,
    OwnerAvailableCommands,
    TokenPriceTracking,
    PermissionSettings,
}

pub open spec fn settings_choice_of(value: Seq<char>) -> Option<SettingsChoice> {
    if value == "availablecommands"@ {
        Some(SettingsChoice::AvailableCommands)
    } else if value == "owneravailablecommands"@ {
        Some(SettingsChoice::OwnerAvailableCommands)
    } else if value == "tokenpricetracking"@ {
        Some(SettingsChoice::TokenPriceTracking)
    } else if value == "permissionsettings"@ {
        Some(SettingsChoice::PermissionSettings)
    } else {
        None
    }
}

/// Which setting a value of the settings menu names.
pub fn settings_choice(value: &str) -> (r: Option<SettingsChoice>)
    ensures
        r == settings_choice_of(value@),
{
    if same_text(value, "availablecommands") {
        Some(SettingsChoice::AvailableCommands)
    } else if same_text(value, "owneravailablecommands") {
        Some(SettingsChoice::OwnerAvailableCommands)
    } else if same_text(value, "tokenpricetracking") {
        Some(SettingsChoice::TokenPriceTracking)
    } else if same_text(value, "permissionsettings") {
        Some(SettingsChoice::PermissionSettings)
    } else {
        None
    }
}

/// The entries of the permissions menu, each picked as the guild has it.
pub open spec fn permission_entries(p: AvailableSettings) -> Seq<(Seq<char>, Seq<char>, bool)> {
    seq![
        ("Change which tokens are registered in a guild"@, "availablecommands"@, p.availablecommands),
        ("Add tokens to be tracked in /price"@, "tokenpricetracking"@, p.tokenpricetracking),
        ("Be able to set tokens to be global"@, "globaltokens"@, p.globaltokens),
    ]
}

/// The entries of the permissions menu for a guild's stored settings.
pub fn permission_menu_options(stored: Option<AvailableSettings>) -> (r: Vec<MenuOption>)
    ensures
        options_view(r@) == permission_entries(
            match stored {
                Some(s) => s,
                None => guild_default_settings(),
            },
        ),
{
    let p = match stored {
        Some(s) => s,
        None => AvailableSettings::guild_default(),
    };
    let mut v: Vec<MenuOption> = Vec::new();
    v.push(
        option("Change which tokens are registered in a guild", "availablecommands", p.availablecommands),
    );
    v.push(option("Add tokens to be tracked in /price", "tokenpricetracking", p.tokenpricetracking));
    v.push(option("Be able to set tokens to be global", "globaltokens", p.globaltokens));
    assert(options_view(v@) =~= permission_entries(p));
    v
}

/// The settings a guild gets from the values picked in the permissions menu.
/// Changing what guilds may turn on stays with the bot owners.
pub fn permissionsettings(values: &Vec<String>) -> (r: AvailableSettings)
    ensures
        r == (AvailableSettings {
            availablecommands: texts(values@).contains("availablecommands"@),
            owneravailablecommands: false,
            tokenpricetracking: texts(values@).contains("tokenpricetracking"@),
            globaltokens: texts(values@).contains("globaltokens"@),
        }),
{
    AvailableSettings {
        availablecommands: contains_text(values, "availablecommands"),
        owneravailablecommands: false,
        tokenpricetracking: contains_text(values, "tokenpricetracking"),
        globaltokens: contains_text(values, "globaltokens"),
    }
}

} // verus!
