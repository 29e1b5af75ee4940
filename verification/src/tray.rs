//! The tray menu: its texts, the settings it reads, and what each click does.
use vstd::prelude::*;
use crate::text::{i32_from_text, i64_from_text, parse_i32, parse_i64};

verus! {

/// The Discord application when `APP_ID` is not set.
pub const DEFAULT_APP_ID: i64 = 1225132045596885105;

/// The animation started when `ANIMATION_ID` is not set.
pub const DEFAULT_ANIMATION_ID: i32 = 1;

/// The label of the entry that starts and stops the animation.
pub const ENABLE_LABEL: &'static str = "DiscordRPC by koliy82";

/// The label of the entry that sets whether the program starts at logon.
pub const AUTORUN_LABEL: &'static str = "Autorun";

/// The label of the entry that ends the program.
pub const QUIT_LABEL: &'static str = "Quit";

/// The tooltip of the tray icon.
pub const TOOLTIP: &'static str = "rust_rpc";

/// The program name in the "About" entry.
pub const ABOUT_NAME: &'static str = "rust rpc";

/// The copyright line in the "About" entry.
pub const ABOUT_COPYRIGHT: &'static str = "Copyright";

/// A setting read as an `i64`, or `default` when it is not set.
pub open spec fn i64_setting(setting: Option<&str>, default: i64) -> i64 {
    match setting {
        Some(s) => i64_from_text(s@).unwrap(),
        None => default,
    }
}

/// A setting read as an `i32`, or `default` when it is not set.
pub open spec fn i32_setting(setting: Option<&str>, default: i32) -> i32 {
    match setting {
        Some(s) => i32_from_text(s@).unwrap(),
        None => default,
    }
}

/// The Discord application: `APP_ID` read as an `i64`, or the program's own
/// application when it is not set. A value that is not an `i64` makes the
/// program panic, so it is left out.
pub fn app_id_setting(setting: Option<&str>) -> (id: i64)
    requires
        setting matches Some(s) ==> i64_from_text(s@) is Some,
    ensures
        id == i64_setting(setting, DEFAULT_APP_ID),
        setting matches Some(s) ==> id == i64_from_text(s@).unwrap(),
        setting is None ==> id == DEFAULT_APP_ID,
{
    match setting {
        Some(s) => match parse_i64(s) {
            Some(v) => v,
            None => DEFAULT_APP_ID,
        },
        None => DEFAULT_APP_ID,
    }
}

/// The animation to start: `ANIMATION_ID` read as an `i32`, or 1 when it is
/// not set. A value that is not an `i32` makes the program panic, so it is
/// left out.
pub fn animation_id_setting(setting: Option<&str>) -> (id: i32)
    requires
        setting matches Some(s) ==> i32_from_text(s@) is Some,
    ensures
        id == i32_setting(setting, DEFAULT_ANIMATION_ID),
        setting matches Some(s) ==> id == i32_from_text(s@).unwrap(),
        setting is None ==> id == DEFAULT_ANIMATION_ID,
{
    match setting {
        Some(s) => match parse_i32(s) {
            Some(v) => v,
            None => DEFAULT_ANIMATION_ID,
        },
        None => DEFAULT_ANIMATION_ID,
    }
}

/// The entry of the tray menu that an event comes from.
#[derive(Clone, Copy, Debug, PartialEq, Eq, Structural)]
pub enum MenuEntry {
    Enable,
    Autorun,
    Quit,
    /// The separator, the "About" entry, or anything else.
    Other,
}

/// What the program does in answer to a menu event.
#[derive(Clone, Copy, Debug, PartialEq, Eq, Structural)]
pub enum TrayCommand {
    /// Flip the stored autostart value.
    ChangeAutostart,
    /// Start the animation with this id (stopping the one that plays).
    StartAnimation(i32),
    /// Stop the animation that plays.
    StopAnimation,
    /// Set whether the program starts at logon.
    SetAutorun(bool),
    /// Remove the tray icon and end the event loop.
    Exit,
}

/// The commands that a click on `entry` gives, in order. `enable_checked` and
/// `autorun_checked` are the check marks after the click; `animation_setting`
/// is `ANIMATION_ID`, read only when the animation starts.
pub open spec fn menu_commands_spec(
    entry: MenuEntry,
    enable_checked: bool,
    autorun_checked: bool,
    animation_setting: Option<&str>,
) -> Seq<TrayCommand> {
    match entry {
        MenuEntry::Enable => if enable_checked {
            seq![
                TrayCommand::ChangeAutostart,
                TrayCommand::StartAnimation(i32_setting(animation_setting, DEFAULT_ANIMATION_ID)),
            ]
        } else {
            seq![TrayCommand::ChangeAutostart, TrayCommand::StopAnimation]
        },
        MenuEntry::Autorun => seq![TrayCommand::SetAutorun(autorun_checked)],
        MenuEntry::Quit => seq![TrayCommand::Exit],
        MenuEntry::Other => seq![],
    }
}

/// What a click on `entry` makes the program do.
pub fn menu_commands(
    entry: MenuEntry,
    enable_checked: bool,
    autorun_checked: bool,
    animation_setting: Option<&str>,
) -> (commands: Vec<TrayCommand>)
    requires
        entry == MenuEntry::Enable && enable_checked ==> (animation_setting matches Some(s)
            ==> i32_from_text(s@) is Some),
    ensures
        commands@ == menu_commands_spec(entry, enable_checked, autorun_checked, animation_setting),
        entry == MenuEntry::Autorun ==> commands@ == seq![TrayCommand::SetAutorun(autorun_checked)],
        entry == MenuEntry::Quit ==> commands@ == seq![TrayCommand::Exit],
        entry == MenuEntry::Other ==> commands@.len() == 0,
        entry == MenuEntry::Enable ==> commands@.len() == 2 && commands@[0]
            == TrayCommand::ChangeAutostart && (enable_checked ==> commands@[1]
            == TrayCommand::StartAnimation(i32_setting(animation_setting, DEFAULT_ANIMATION_ID)))
            && (!enable_checked ==> commands@[1] == TrayCommand::StopAnimation),
{
    let mut commands: Vec<TrayCommand> = Vec::new();
    match entry {
        MenuEntry::Enable => {
            commands.push(TrayCommand::ChangeAutostart);
            if enable_checked {
                commands.push(TrayCommand::StartAnimation(animation_id_setting(animation_setting)));
            } else {
                commands.push(TrayCommand::StopAnimation);
            }
        },
        MenuEntry::Autorun => {
            commands.push(TrayCommand::SetAutorun(autorun_checked));
        },
        MenuEntry::Quit => {
            commands.push(TrayCommand::Exit);
        },
        MenuEntry::Other => {},
    }
    assert(commands@ =~= menu_commands_spec(entry, enable_checked, autorun_checked, animation_setting));
    commands
}

/// What the program does once the tray is up: start the animation when the
/// stored autostart value says so.
pub fn startup_commands(is_program_started: bool, animation_setting: Option<&str>) -> (commands: Vec<
    TrayCommand,
>)
    requires
        is_program_started ==> (animation_setting matches Some(s) ==> i32_from_text(s@) is Some),
    ensures
        commands@ == if is_program_started {
            seq![TrayCommand::StartAnimation(i32_setting(animation_setting, DEFAULT_ANIMATION_ID))]
        } else {
            seq![]
        },
{
    let mut commands: Vec<TrayCommand> = Vec::new();
    if is_program_started {
        commands.push(TrayCommand::StartAnimation(animation_id_setting(animation_setting)));
    }
    assert(commands@ =~= if is_program_started {
        seq![TrayCommand::StartAnimation(i32_setting(animation_setting, DEFAULT_ANIMATION_ID))]
    } else {
        seq![]
    });
    commands
}

/// A setting that is set is read as `i64::from_str` reads it, whatever the
/// default; the default is taken only when the setting is missing.
pub proof fn lemma_i64_setting_reads_the_text(setting: Option<&str>, default: i64)
    requires
        setting matches Some(s) ==> i64_from_text(s@) is Some,
    ensures
        setting matches Some(s) ==> i64_setting(setting, default) == i64_from_text(s@).unwrap(),
        setting is None ==> i64_setting(setting, default) == default,
{
}

/// The same for settings read as `i32`.
pub proof fn lemma_i32_setting_reads_the_text(setting: Option<&str>, default: i32)
    requires
        setting matches Some(s) ==> i32_from_text(s@) is Some,
    ensures
        setting matches Some(s) ==> i32_setting(setting, default) == i32_from_text(s@).unwrap(),
        setting is None ==> i32_setting(setting, default) == default,
{
}

/// A click on "Autorun" gives exactly one command, which sets start at logon
/// to the entry's check mark after the click; "Quit" gives only the exit; the
/// other entries nothing; the "start" entry flips the stored autostart value
/// and then starts or stops the animation as its check mark says.
pub proof fn lemma_menu_clicks(
    enable_checked: bool,
    autorun_checked: bool,
    animation_setting: Option<&str>,
)
    ensures
        menu_commands_spec(MenuEntry::Autorun, enable_checked, autorun_checked, animation_setting)
            == seq![TrayCommand::SetAutorun(autorun_checked)],
        menu_commands_spec(MenuEntry::Quit, enable_checked, autorun_checked, animation_setting)
            == seq![TrayCommand::Exit],
        menu_commands_spec(MenuEntry::Other, enable_checked, autorun_checked, animation_setting).len()
            == 0,
        ({
            let c = menu_commands_spec(MenuEntry::Enable, enable_checked, autorun_checked, animation_setting);
            &&& c.len() == 2
            &&& c[0] == TrayCommand::ChangeAutostart
            &&& enable_checked ==> c[1] == TrayCommand::StartAnimation(
                i32_setting(animation_setting, DEFAULT_ANIMATION_ID),
            )
            &&& !enable_checked ==> c[1] == TrayCommand::StopAnimation
        }),
{
}

} // verus!
