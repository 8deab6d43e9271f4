//! Select menus: their options, their identifiers, and the wait for an answer.

use vstd::prelude::*;
use vstd::string::StringExecFns;

use crate::error::BotError;
use crate::numeral::{decimal_of, digits_text, parse_decimal, push_digits};

verus! {

/// One entry of a select menu.
pub struct MenuOption {
    /// What the user reads.
    pub label: String,
    /// What comes back when it is picked.
    pub value: String,
    /// Whether it starts out picked.
    pub preselected: bool,
}

/// The most options the chat platform lets a user pick at once.
pub const MENU_LIMIT: usize = 25;

/// How many options a user may pick from a menu of `len` options.
pub fn menu_max_values(len: usize) -> (r: u8)
    ensures
        r == (if len < MENU_LIMIT {
            len
        } else {
            MENU_LIMIT
        }),
{
    if len < MENU_LIMIT {
        len as u8
    } else {
        MENU_LIMIT as u8
    }
}

/// The menus of the settings flows.
#[derive(Clone, Copy, Debug, PartialEq, Eq, Structural)]
pub enum MenuKind {
    /// Which setting to change.
    Settings,
    /// Which guild to change.
    GuildPicker,
    /// Which commands a guild shows.
    CommandSelection,
    /// Which commands a guild may show.
    AvailableCommands,
    /// What a guild may change.
    Permissions,
    /// Where a new token is tracked.
    AddToken,
}

pub open spec fn timeout_of(k: MenuKind) -> nat {
    match k {
        MenuKind::Settings => 180,
        MenuKind::GuildPicker => 180,
        MenuKind::CommandSelection => 300,
        MenuKind::AvailableCommands => 180,
        MenuKind::Permissions => 180,
        MenuKind::AddToken => 120,
    }
}

pub open spec fn id_prefix(k: MenuKind) -> Seq<char> {
    match k {
        MenuKind::Settings => "SettingsMenu"@,
        MenuKind::GuildPicker => "guildmenu"@,
        MenuKind::CommandSelection => "CommandMenu"@,
        MenuKind::AvailableCommands => "availablecommandsmenu"@,
        MenuKind::Permissions => "permissionsettings"@,
        MenuKind::AddToken => "guildbutton-"@,
    }
}

impl MenuKind {
    /// How long, in seconds, the menu waits for its answer.
    pub fn timeout_secs(&self) -> (r: u64)
        ensures
            r == timeout_of(*self),
    {
        match self {
            MenuKind::Settings => 180,
            MenuKind::GuildPicker => 180,
            MenuKind::CommandSelection => 300,
            MenuKind::AvailableCommands => 180,
            MenuKind::Permissions => 180,
            MenuKind::AddToken => 120,
        }
    }

    /// The identifier of the menu shown for one command invocation, so that
    /// only answers to that menu are taken.
    pub fn custom_id(&self, invocation: u64) -> (r: String)
        ensures
            r@ == id_prefix(*self) + digits_text(invocation as nat),
    {
        let mut id = match self {
            MenuKind::Settings => String::from_str("SettingsMenu"),
            MenuKind::GuildPicker => String::from_str("guildmenu"),
            MenuKind::CommandSelection => String::from_str("CommandMenu"),
            MenuKind::AvailableCommands => String::from_str("availablecommandsmenu"),
            MenuKind::Permissions => String::from_str("permissionsettings"),
            MenuKind::AddToken => String::from_str("guildbutton-"),
        };
        push_digits(&mut id, invocation as u128);
        id
    }
}

/// Where a menu's wait stands.
#[derive(Clone, Copy, Debug, PartialEq, Eq, Structural)]
pub enum MenuPhase {
    /// Shown, and waiting for the user who opened it.
    Awaiting,
    /// Its time ran out; it has been taken away.
    TimedOut,
    /// It was answered; it has been taken away.
    Selected,
}

/// A menu shown to the user who ran a command, with the time its wait ends.
#[derive(Clone, Copy, Debug, PartialEq, Eq, Structural)]
pub struct MenuSession {
    pub kind: MenuKind,
    pub phase: MenuPhase,
    /// Seconds since the epoch after which no answer is taken.
    pub deadline: u64,
}

/// What happened while the menu waited.
pub enum MenuEvent {
    /// A user picked these values at `at`.
    Picked { at: u64, by_invoker: bool, values: Vec<String> },
    /// The clock reached `at` without an answer.
    Waited { at: u64 },
}

/// What the caller does in answer.
pub enum MenuAction {
    /// Nothing.
    Ignore,
    /// Take the menu away and show the notice. Nothing is stored.
    Expire { notice: String },
    /// Take the menu away and go on with the values picked.
    Proceed { values: Vec<String> },
}

pub open spec fn event_time(e: MenuEvent) -> u64 {
    match e {
        MenuEvent::Picked { at, .. } => at,
        MenuEvent::Waited { at } => at,
    }
}

pub open spec fn opened_session(kind: MenuKind, now: u64) -> MenuSession {
    MenuSession {
        kind,
        phase: MenuPhase::Awaiting,
        deadline: if now + timeout_of(kind) <= u64::MAX {
            (now + timeout_of(kind)) as u64
        } else {
            u64::MAX
        },
    }
}

/// The phase after an event: an event after the deadline ends the wait, an
/// answer from the user who opened the menu within it is taken, and nothing
/// else changes anything.
pub open spec fn next_phase(s: MenuSession, e: MenuEvent) -> MenuPhase {
    if s.phase != MenuPhase::Awaiting {
        s.phase
    } else if event_time(e) > s.deadline {
        MenuPhase::TimedOut
    } else {
        match e {
            MenuEvent::Picked { by_invoker, .. } => if by_invoker {
                MenuPhase::Selected
            } else {
                MenuPhase::Awaiting
            },
            MenuEvent::Waited { .. } => MenuPhase::Awaiting,
        }
    }
}

pub open spec fn timeout_notice() -> Seq<char> {
    "Command settings timed out:/"@
}

impl MenuSession {
    /// A menu of `kind` shown at `now`.
    pub fn open(kind: MenuKind, now: u64) -> (r: MenuSession)
        ensures
            r == opened_session(kind, now),
    {
        let t = kind.timeout_secs();
        let deadline = if now <= u64::MAX - t {
            now + t
        } else {
            u64::MAX
        };
        MenuSession { kind, phase: MenuPhase::Awaiting, deadline }
    }

    /// Takes one event.
    pub fn step(&mut self, e: MenuEvent) -> (r: MenuAction)
        ensures
            final(self).kind == old(self).kind,
            final(self).deadline == old(self).deadline,
            final(self).phase == next_phase(*old(self), e),
            match r {
                MenuAction::Ignore => final(self).phase == old(self).phase,
                MenuAction::Expire { notice } => old(self).phase == MenuPhase::Awaiting
                    && final(self).phase == MenuPhase::TimedOut && notice@ == timeout_notice(),
                MenuAction::Proceed { values } => {
                    &&& old(self).phase == MenuPhase::Awaiting
                    &&& final(self).phase == MenuPhase::Selected
                    &&& (e matches MenuEvent::Picked { values: v, .. } && values@ == v@)
                },
            },
            old(self).phase == MenuPhase::Awaiting && final(self).phase == MenuPhase::TimedOut
                ==> r is Expire,
            old(self).phase == MenuPhase::Awaiting && final(self).phase == MenuPhase::Selected
                ==> r is Proceed,
    {
        if self.phase != MenuPhase::Awaiting {
            return MenuAction::Ignore;
        }
        match e {
            MenuEvent::Waited { at } => {
                if at > self.deadline {
                    self.phase = MenuPhase::TimedOut;
                    MenuAction::Expire { notice: String::from_str("Command settings timed out:/") }
                } else {
                    MenuAction::Ignore
                }
            },
            MenuEvent::Picked { at, by_invoker, values } => {
                if at > self.deadline {
                    self.phase = MenuPhase::TimedOut;
                    MenuAction::Expire { notice: String::from_str("Command settings timed out:/") }
                } else if by_invoker {
                    self.phase = MenuPhase::Selected;
                    MenuAction::Proceed { values }
                } else {
                    MenuAction::Ignore
                }
            },
        }
    }
}

/// A menu opened at `now` that hears of nothing before its window has passed
/// is closed as timed out, whatever the event, and never goes on to a
/// selection afterwards; so nothing is stored for it.
pub proof fn lemma_menu_timeout(kind: MenuKind, now: u64, e: MenuEvent, later: MenuEvent)
    requires
        now + timeout_of(kind) < event_time(e),
    ensures
        next_phase(opened_session(kind, now), e) == MenuPhase::TimedOut,
        ({
            let s = opened_session(kind, now);
            let t = MenuSession { phase: next_phase(s, e), ..s };
            next_phase(t, later) == MenuPhase::TimedOut
        }),
{
}

/// The menu entry of a guild: its name, answering with its id.
pub open spec fn guild_option_ok(o: MenuOption, id: u64, name: Seq<char>) -> bool {
    o.label@ == name && o.value@ == digits_text(id as nat) && !o.preselected
}

/// One entry per guild the bot is in, in their order.
pub fn guild_menu_options(guilds: &Vec<(u64, String)>) -> (r: Vec<MenuOption>)
    ensures
        r@.len() == guilds@.len(),
        forall|i: int|
            0 <= i < r@.len() ==> guild_option_ok(#[trigger] r@[i], guilds@[i].0, guilds@[i].1@),
{
    let mut out: Vec<MenuOption> = Vec::new();
    let mut i: usize = 0;
    while i < guilds.len()
        invariant
            i <= guilds@.len(),
            out@.len() == i,
            forall|j: int|
                0 <= j < i ==> guild_option_ok(#[trigger] out@[j], guilds@[j].0, guilds@[j].1@),
        decreases guilds@.len() - i,
    {
        let mut value = String::new();
        push_digits(&mut value, guilds[i].0 as u128);
        out.push(MenuOption { label: guilds[i].1.clone(), value, preselected: false });
        i += 1;
    }
    out
}

/// The guild id a menu value stands for: decimal digits that fit in a `u64`.
pub open spec fn guild_id_of(s: Seq<char>) -> Option<u64> {
    match decimal_of(s) {
        Some(d) => if d.scale == 0 {
            Some(d.mantissa)
        } else {
            None
        },
        None => None,
    }
}

/// Reads the guild picked in the guild menu.
pub fn guildselectmenu(values: &Vec<String>) -> (r: Result<u64, BotError>)
    ensures
        values@.len() == 0 ==> r == Err::<u64, BotError>(BotError::InteractionTimeout),
        values@.len() > 0 ==> match guild_id_of(values@[0]@) {
            Some(g) => r == Ok::<u64, BotError>(g),
            None => r == Err::<u64, BotError>(BotError::MalformedResponse),
        },
{
    if values.len() == 0 {
        return Err(BotError::InteractionTimeout);
    }
    match parse_decimal(values[0].as_str()) {
        Some(d) => if d.scale == 0 {
            Ok(d.mantissa)
        } else {
            Err(BotError::MalformedResponse)
        },
        None => Err(BotError::MalformedResponse),
    }
}

} // verus!
