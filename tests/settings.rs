use pricebot::commands::{
    available_command_options, availablecommandselection, command_menu_options, commandselection,
    getguildavailablecommands, on_ready, ownercheckcommandselection, specificcommandfinder,
    truncates_menu, FrameworkCommand, GuildTarget,
};
use pricebot::error::BotError;
use pricebot::menu::{guild_menu_options, guildselectmenu, menu_max_values, MenuAction, MenuEvent, MenuKind, MenuPhase, MenuSession};
use pricebot::pair::BaseToken;
use pricebot::settings::{
    admincheck, effective_settings, getguildid, ownercheck, ownercheckavailablecommands,
    permission_menu_options, permissionsettings, settings, settings_choice, settings_menu_options,
    AvailableSettings, SettingsChoice,
};
use pricebot::tokens::{addtoken, global_button_id, not_listed_message, tracked_names, TrackedToken};

fn names(v: &[&str]) -> Vec<String> {
    v.iter().map(|s| s.to_string()).collect()
}

#[test]
fn menu_times_out_after_its_window() {
    let mut s = MenuSession::open(MenuKind::Settings, 1000);
    assert_eq!(s.deadline, 1180);
    assert!(matches!(s.step(MenuEvent::Waited { at: 1100 }), MenuAction::Ignore));
    match s.step(MenuEvent::Waited { at: 1181 }) {
        MenuAction::Expire { notice } => assert_eq!(notice, "Command settings timed out:/"),
        _ => panic!("expected the menu to expire"),
    }
    assert_eq!(s.phase, MenuPhase::TimedOut);
    let late = MenuEvent::Picked { at: 1182, by_invoker: true, values: names(&["availablecommands"]) };
    assert!(matches!(s.step(late), MenuAction::Ignore));
    assert_eq!(s.phase, MenuPhase::TimedOut);
}

#[test]
fn late_answer_expires_the_menu() {
    let mut s = MenuSession::open(MenuKind::AddToken, 0);
    let late = MenuEvent::Picked { at: 121, by_invoker: true, values: names(&["x"]) };
    assert!(matches!(s.step(late), MenuAction::Expire { .. }));
}

#[test]
fn answers_only_from_the_invoker_count() {
    let mut s = MenuSession::open(MenuKind::CommandSelection, 10);
    assert_eq!(s.deadline, 310);
    let other = MenuEvent::Picked { at: 20, by_invoker: false, values: names(&["a"]) };
    assert!(matches!(s.step(other), MenuAction::Ignore));
    let mine = MenuEvent::Picked { at: 310, by_invoker: true, values: names(&["a", "b"]) };
    match s.step(mine) {
        MenuAction::Proceed { values } => assert_eq!(values, names(&["a", "b"])),
        _ => panic!("expected the selection"),
    }
    assert_eq!(s.phase, MenuPhase::Selected);
}

#[test]
fn menu_ids_carry_the_invocation() {
    assert_eq!(MenuKind::Settings.custom_id(42), "SettingsMenu42");
    assert_eq!(MenuKind::GuildPicker.custom_id(0), "guildmenu0");
    assert_eq!(global_button_id(7), "globalbutton-7");
    assert_eq!(MenuKind::Permissions.timeout_secs(), 180);
}

#[test]
fn menu_size_is_capped() {
    assert_eq!(menu_max_values(3), 3);
    assert_eq!(menu_max_values(25), 25);
    assert_eq!(menu_max_values(300), 25);
    assert!(truncates_menu(26));
    assert!(!truncates_menu(25));
}

#[test]
fn settings_need_admin_or_owner_in_a_guild() {
    assert_eq!(settings(false, false, Some(1)), Err(BotError::PermissionDenied));
    assert_eq!(settings(true, false, None), Err(BotError::NotInGuild));
    assert_eq!(settings(false, true, Some(5)), Ok(5));
    assert_eq!(getguildid(None), Err(BotError::NotInGuild));
    assert_eq!(ownercheckavailablecommands(false), Err(BotError::PermissionDenied));
    assert_eq!(ownercheck(false, Some("no")).as_deref(), Some("no"));
    assert_eq!(ownercheck(true, Some("no")), None);
    assert!(admincheck(false, None).unwrap().starts_with("You are not the bot owner."));
    assert_eq!(admincheck(true, None), None);
}

#[test]
fn settings_menu_follows_permissions() {
    let p = effective_settings(None, false);
    assert_eq!(p, AvailableSettings::guild_default());
    let values: Vec<String> = settings_menu_options(p).into_iter().map(|o| o.value).collect();
    assert_eq!(values, names(&["availablecommands", "tokenpricetracking"]));
    let owner = effective_settings(Some(AvailableSettings::guild_default()), true);
    let values: Vec<String> = settings_menu_options(owner).into_iter().map(|o| o.value).collect();
    assert_eq!(
        values,
        names(&["availablecommands", "tokenpricetracking", "owneravailablecommands", "permissionsettings"])
    );
    assert_eq!(settings_choice("permissionsettings"), Some(SettingsChoice::PermissionSettings));
    assert_eq!(settings_choice("other"), None);
}

#[test]
fn permissions_come_from_the_picked_values() {
    let picked = names(&["globaltokens", "availablecommands"]);
    let p = permissionsettings(&picked);
    assert!(p.availablecommands && p.globaltokens);
    assert!(!p.tokenpricetracking && !p.owneravailablecommands);
    let opts = permission_menu_options(None);
    let pre: Vec<bool> = opts.iter().map(|o| o.preselected).collect();
    assert_eq!(pre, vec![true, true, false]);
}

#[test]
fn guild_commands_default_and_filtering() {
    assert_eq!(getguildavailablecommands(None), names(&["watch", "help"]));
    assert_eq!(getguildavailablecommands(Some(names(&["price"]))), names(&["price"]));
    let framework = names(&["settings", "price", "help"]);
    assert_eq!(specificcommandfinder(&names(&["help", "nothere", "price"]), &framework), names(&["price", "help"]));
    assert_eq!(on_ready(None, &framework), framework);
    assert_eq!(on_ready(Some(names(&["help"])), &framework), names(&["help"]));
    let stored = commandselection(9, &framework, &names(&["help"]));
    assert_eq!(stored.guildid, 9);
    assert_eq!(stored.commands, names(&["settings", "help"]));
    let avail = availablecommandselection(9, &framework, &names(&["price", "bogus"]));
    assert_eq!(avail.availableslashcommands, names(&["price"]));
}

#[test]
fn command_menu_leaves_out_settings() {
    let framework = vec![
        FrameworkCommand { name: "settings".to_string(), description: Some("Change settings".to_string()) },
        FrameworkCommand { name: "price".to_string(), description: Some("Find a price".to_string()) },
        FrameworkCommand { name: "help".to_string(), description: None },
        FrameworkCommand { name: "watch".to_string(), description: None },
    ];
    let opts = command_menu_options(&framework, &names(&["settings", "price", "help"]), &names(&["help"]));
    let view: Vec<(String, String, bool)> = opts.into_iter().map(|o| (o.label, o.value, o.preselected)).collect();
    assert_eq!(
        view,
        vec![
            ("Find a price".to_string(), "price".to_string(), false),
            ("help".to_string(), "help".to_string(), true),
        ]
    );
    let opts = available_command_options(&names(&["price", "help"]), &names(&["help"]));
    let pre: Vec<bool> = opts.iter().map(|o| o.preselected).collect();
    assert_eq!(pre, vec![false, true]);
}

#[test]
fn owners_pick_a_guild() {
    assert_eq!(ownercheckcommandselection(true, None), Ok(GuildTarget::Pick));
    assert_eq!(ownercheckcommandselection(false, Some(3)), Ok(GuildTarget::This(3)));
    assert_eq!(ownercheckcommandselection(false, None), Err(BotError::NotInGuild));
    let opts = guild_menu_options(&vec![(123456789012345678u64, "My guild".to_string())]);
    assert_eq!(opts[0].value, "123456789012345678");
    assert_eq!(opts[0].label, "My guild");
    assert_eq!(guildselectmenu(&names(&["123456789012345678"])), Ok(123456789012345678));
    assert_eq!(guildselectmenu(&names(&["12a"])), Err(BotError::MalformedResponse));
    assert_eq!(guildselectmenu(&vec![]), Err(BotError::InteractionTimeout));
}

#[test]
fn tokens_are_added_with_permission() {
    let token = BaseToken { address: "0xabc".to_string(), name: "Abc".to_string(), symbol: "ABC".to_string() };
    assert!(matches!(addtoken(&token, 4, false, true), Err(BotError::PermissionDenied)));
    let t = addtoken(&token, 4, false, false).ok().unwrap();
    assert_eq!((t.name.as_str(), t.address.as_str(), t.guildid, t.global), ("ABC", "0xabc", 4, false));
    let t = addtoken(&token, 4, true, true).ok().unwrap();
    assert!(t.global);
    let list = vec![
        TrackedToken { name: "ABC".to_string(), address: "0x1".to_string(), guildid: 1, global: false },
        TrackedToken { name: "XYZ".to_string(), address: "0x2".to_string(), guildid: 2, global: true },
    ];
    assert_eq!(tracked_names(&list), names(&["ABC", "XYZ"]));
    assert_eq!(not_listed_message("PEPE"), "PEPE is not available on Dexscreener");
}
