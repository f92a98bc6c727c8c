//! Style and visibility computation for the client's panes and buttons.
//! The rendering itself is owned by the embedding application; what is
//! computed here is which CSS classes a widget carries and when it is
//! hidden.

use vstd::prelude::*;

verus! {

/// The pane the client is showing.
#[derive(Clone, Copy, Debug, PartialEq, Eq, Structural)]
pub enum Menu {
    Chat,
    Menu,
    History,
    Settings,
}

/// The display override for the menu pane: hidden (`display: None`)
/// whenever some other pane is selected.
#[allow(non_snake_case)]
pub fn Menu(selected: Menu) -> (r: Option<&'static str>)
    ensures
        r is Some <==> selected != Menu::Menu,
        r matches Some(s) ==> s@ == "None"@,
{
    if selected == Menu::Menu {
        None
    } else {
        Some("None")
    }
}

/// The full class list and display override for a button: the caller's
/// own classes followed by the shared button style, hidden on demand.
#[allow(non_snake_case)]
pub fn Button(class: &str, to_hide: bool) -> (r: (String, Option<&'static str>))
    ensures
        r.0@ == class@
            + " px-[9px] py-[3px] border-2 border-[#33333A] bg-[#222222] hover:bg-[#2A2A2A] text-[#AAAABB]"@,
        r.1 is Some <==> to_hide,
        r.1 matches Some(s) ==> s@ == "None"@,
{
    let classes = String::from_str(class).concat(
        " px-[9px] py-[3px] border-2 border-[#33333A] bg-[#222222] hover:bg-[#2A2A2A] text-[#AAAABB]",
    );
    let display = if to_hide {
        Some("None")
    } else {
        None
    };
    (classes, display)
}

} // verus!
