//! The tray icon: the message its menu sends, and the icon resource that
//! shows the number of the current desktop.
use vstd::prelude::*;

verus! {

#[derive(Clone, Copy, Debug, PartialEq, Eq, Structural)]
pub enum TrayMessage {
    Quit,
}

/// The name of the icon resource for the desktop with zero-based `index`:
/// `num_1` to `num_9` for the first nine desktops.
pub open spec fn icon_name(index: u32) -> Seq<char> {
    seq!['n', 'u', 'm', '_', (index + 49) as char]
}

pub fn icon_resource_for_index(index: u32) -> (r: Option<&'static str>)
    ensures
        index < 9 ==> (r matches Some(name) && name@ == icon_name(index)),
        index >= 9 ==> r is None,
{
    proof {
        reveal_strlit("num_1");
        reveal_strlit("num_2");
        reveal_strlit("num_3");
        reveal_strlit("num_4");
        reveal_strlit("num_5");
        reveal_strlit("num_6");
        reveal_strlit("num_7");
        reveal_strlit("num_8");
        reveal_strlit("num_9");
    }
    match index {
        0 => Some("num_1"),
        1 => Some("num_2"),
        2 => Some("num_3"),
        3 => Some("num_4"),
        4 => Some("num_5"),
        5 => Some("num_6"),
        6 => Some("num_7"),
        7 => Some("num_8"),
        8 => Some("num_9"),
        _ => None,
    }
}

} // verus!
