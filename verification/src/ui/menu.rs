use vstd::prelude::*;

verus! {

/// The entries of the home menu, in the order a tap moves through them.
#[derive(Debug, Clone, Copy, PartialEq, Eq, Structural)]
pub enum HomeMenuItem {
    Arm,
    History,
    Battery,
}

/// Position of an entry in the menu, counted from the top.
pub open spec fn menu_position(item: HomeMenuItem) -> int {
    match item {
        HomeMenuItem::Arm => 0,
        HomeMenuItem::History => 1,
        HomeMenuItem::Battery => 2,
    }
}

/// The entry a tap moves the cursor to: the one below, wrapping from the last to the first.
pub open spec fn next_item(item: HomeMenuItem) -> HomeMenuItem {
    match item {
        HomeMenuItem::Arm => HomeMenuItem::History,
        HomeMenuItem::History => HomeMenuItem::Battery,
        HomeMenuItem::Battery => HomeMenuItem::Arm,
    }
}

impl HomeMenuItem {
    /// The entry after this one, wrapping around.
    pub fn next(self) -> (r: Self)
        ensures
            r == next_item(self),
            menu_position(r) == (menu_position(self) + 1) % 3,
    {
        match self {
            Self::Arm => Self::History,
            Self::History => Self::Battery,
            Self::Battery => Self::Arm,
        }
    }
}

/// The label of menu row `row` (0 = Arm, 1 = History, 2 = Battery) without its marker.
pub open spec fn menu_label(row: int) -> Seq<char> {
    if row == 0 {
        "Arm"@
    } else if row == 1 {
        "History"@
    } else {
        "Battery"@
    }
}

/// Menu row `row` as drawn: "> " in front of the selected entry, two spaces in front of the others.
pub open spec fn menu_row(row: int, selected: HomeMenuItem) -> Seq<char> {
    if menu_position(selected) == row {
        "> "@ + menu_label(row)
    } else {
        "  "@ + menu_label(row)
    }
}

/// The four lines of the home screen: the title, then the three entries with the cursor on `selected`.
pub fn home_lines(selected: HomeMenuItem) -> (r: [&'static str; 4])
    ensures
        r[0]@ == "Sentinel"@,
        forall|row: int| 0 <= row < 3 ==> #[trigger] r[row + 1]@ == menu_row(row, selected),
{
    proof {
        reveal_strlit("Arm");
        reveal_strlit("History");
        reveal_strlit("Battery");
        reveal_strlit("> ");
        reveal_strlit("  ");
        reveal_strlit("> Arm");
        reveal_strlit("  Arm");
        reveal_strlit("> History");
        reveal_strlit("  History");
        reveal_strlit("> Battery");
        reveal_strlit("  Battery");
    }
    let r = match selected {
        HomeMenuItem::Arm => ["Sentinel", "> Arm", "  History", "  Battery"],
        HomeMenuItem::History => ["Sentinel", "  Arm", "> History", "  Battery"],
        HomeMenuItem::Battery => ["Sentinel", "  Arm", "  History", "> Battery"],
    };
    assert(r[1]@ == menu_row(0, selected));
    assert(r[2]@ == menu_row(1, selected));
    assert(r[3]@ == menu_row(2, selected));
    r
}

/// A tap never leaves the cursor where it was, and three taps bring it back.
pub proof fn lemma_menu_cycles(item: HomeMenuItem)
    ensures
        next_item(item) != item,
        next_item(next_item(next_item(item))) == item,
{
}

} // verus!
