//! What the player's shell decides besides presence: the greeting, where
//! each kind of stored data lives and what it starts out as, and what a tray
//! menu item or a click on the tray icon does to the main window.

use vstd::prelude::*;
use vstd::string::StringExecFns;

verus! {

/// What a greeting begins with.
pub const GREETING_OPENING: &'static str = "Hello, ";

/// What a greeting ends with.
pub const GREETING_CLOSING: &'static str = "! You've been greeted from Rust!";

/// What the name of a data file ends with.
pub const DATA_FILE_EXTENSION: &'static str = ".json";

/// The volume of a player that has stored none.
pub const DEFAULT_VOLUME: u64 = 50;

/// The JSON value that a kind of data starts out as.
#[derive(Clone, Copy, Debug, PartialEq, Eq)]
pub enum DefaultData {
    Null,
    Bool(bool),
    Number(u64),
    EmptyArray,
}

/// What a tray menu item asks for.
#[derive(Clone, Copy, Debug, PartialEq, Eq)]
pub enum MenuChoice {
    /// Leave the player.
    Quit,
    /// Bring the main window up.
    Show,
    /// An item that the menu does not have.
    Unknown,
}

/// What is done to the main window.
#[derive(Clone, Copy, Debug, PartialEq, Eq)]
pub enum WindowChange {
    /// Hide it.
    Hide,
    /// Show it, give it the focus and restore it if it is minimized.
    Raise,
    /// Show it and give it the focus.
    ShowAndFocus,
}

/// The identifier of the tray menu's item that leaves the player.
pub const MENU_QUIT: &'static str = "quit";

/// The identifier of the tray menu's item that brings the main window up.
pub const MENU_SHOW: &'static str = "show";

/// The greeting for `name`.
pub open spec fn greeting(name: Seq<char>) -> Seq<char> {
    GREETING_OPENING@ + name + GREETING_CLOSING@
}

/// The name of the file that holds the data of kind `data_type`.
pub open spec fn data_file_name(data_type: Seq<char>) -> Seq<char> {
    data_type + DATA_FILE_EXTENSION@
}

/// What data of kind `data_type` starts out as: the station lists are empty,
/// the volume is [`DEFAULT_VOLUME`], presence is on, minimizing to the tray
/// is off, and any other kind is null.
pub open spec fn default_data(data_type: Seq<char>) -> DefaultData {
    if data_type == "customStations"@ || data_type == "favorites"@ || data_type
        == "favoritedStations"@ {
        DefaultData::EmptyArray
    } else if data_type == "volume"@ {
        DefaultData::Number(DEFAULT_VOLUME)
    } else if data_type == "discordRPCEnabled"@ {
        DefaultData::Bool(true)
    } else if data_type == "minimizeToTrayEnabled"@ {
        DefaultData::Bool(false)
    } else {
        DefaultData::Null
    }
}

/// What the tray menu item with the identifier `id` asks for.
pub open spec fn menu_choice(id: Seq<char>) -> MenuChoice {
    if id == MENU_QUIT@ {
        MenuChoice::Quit
    } else if id == MENU_SHOW@ {
        MenuChoice::Show
    } else {
        MenuChoice::Unknown
    }
}

/// What a click on the tray icon does to the main window: a visible window
/// is hidden and a hidden one raised. `visible` is `None` where the window
/// could not say whether it is visible; it is then shown and focused.
pub open spec fn click_change(visible: Option<bool>) -> WindowChange {
    match visible {
        Some(true) => WindowChange::Hide,
        Some(false) => WindowChange::Raise,
        None => WindowChange::ShowAndFocus,
    }
}

/// Computes [`greeting`].
pub fn greet(name: &str) -> (text: String)
    ensures
        text@ == greeting(name@),
{
    String::from_str(GREETING_OPENING).concat(name).concat(GREETING_CLOSING)
}

/// Computes [`data_file_name`].
pub fn file_name_for(data_type: &str) -> (name: String)
    ensures
        name@ == data_file_name(data_type@),
{
    String::from_str(data_type).concat(DATA_FILE_EXTENSION)
}

/// Whether `text` is `word`.
fn is_word(text: &String, word: &str) -> (same: bool)
    ensures
        same == (text@ == word@),
{
    *text == String::from_str(word)
}

/// Computes [`default_data`].
pub fn default_for(data_type: &str) -> (value: DefaultData)
    ensures
        value == default_data(data_type@),
{
    let kind = String::from_str(data_type);
    if is_word(&kind, "customStations") || is_word(&kind, "favorites") || is_word(
        &kind,
        "favoritedStations",
    ) {
        DefaultData::EmptyArray
    } else if is_word(&kind, "volume") {
        DefaultData::Number(DEFAULT_VOLUME)
    } else if is_word(&kind, "discordRPCEnabled") {
        DefaultData::Bool(true)
    } else if is_word(&kind, "minimizeToTrayEnabled") {
        DefaultData::Bool(false)
    } else {
        DefaultData::Null
    }
}

/// Computes [`menu_choice`].
pub fn menu_choice_for(id: &str) -> (choice: MenuChoice)
    ensures
        choice == menu_choice(id@),
{
    let item = String::from_str(id);
    if is_word(&item, MENU_QUIT) {
        MenuChoice::Quit
    } else if is_word(&item, MENU_SHOW) {
        MenuChoice::Show
    } else {
        MenuChoice::Unknown
    }
}

/// Computes [`click_change`].
pub fn change_on_click(visible: Option<bool>) -> (change: WindowChange)
    ensures
        change == click_change(visible),
{
    match visible {
        Some(true) => WindowChange::Hide,
        Some(false) => WindowChange::Raise,
        None => WindowChange::ShowAndFocus,
    }
}

} // verus!
