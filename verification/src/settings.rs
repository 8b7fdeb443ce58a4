//! Stored settings and their defaults.

use vstd::prelude::*;
use vstd::string::*;

verus! {

/// The hotkey used when none is stored: `Cmd` with the backquote on macOS,
/// `Alt` with the backquote elsewhere.
pub open spec fn spec_default_hotkey(macos: bool) -> Seq<char> {
    if macos {
        "Cmd+`"@
    } else {
        "Alt+`"@
    }
}

/// The hotkey used when none is stored.
pub fn default_hotkey(macos: bool) -> (r: &'static str)
    ensures
        r@ == spec_default_hotkey(macos),
{
    if macos {
        "Cmd+`"
    } else {
        "Alt+`"
    }
}

/// The stored hotkey, or the default where none is stored.
pub fn hotkey_or_default(stored: Option<String>, macos: bool) -> (r: String)
    ensures
        r@ == (match stored {
            Some(value) => value@,
            None => spec_default_hotkey(macos),
        }),
{
    match stored {
        Some(value) => value,
        None => String::from_str(default_hotkey(macos)),
    }
}

/// Whether the window is shown only while the hotkey is held: so it is
/// exactly if the stored value is the text `true`.
pub fn hold_behavior_from(stored: Option<&str>) -> (r: bool)
    ensures
        r == (stored matches Some(value) && value@ == "true"@),
{
    match stored {
        Some(value) => value.to_owned() == "true".to_owned(),
        None => false,
    }
}

/// The text under which the hold behaviour is stored.
pub fn hold_behavior_text(hold: bool) -> (r: &'static str)
    ensures
        r@ == (if hold {
            "true"@
        } else {
            "false"@
        }),
{
    if hold {
        "true"
    } else {
        "false"
    }
}

/// Whether storing the hotkey took: it did if the store reports at least
/// one row written, and otherwise the error text says that it did not.
pub fn confirm_hotkey_update(rows_affected: u64) -> (r: Result<(), String>)
    ensures
        r is Ok <==> rows_affected > 0,
        r matches Err(e) ==> e@ == "Failed to update hotkey"@,
{
    if rows_affected == 0 {
        Err(String::from_str("Failed to update hotkey"))
    } else {
        Ok(())
    }
}

} // verus!
