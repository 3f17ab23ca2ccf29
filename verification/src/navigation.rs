//! Moving through the page: from section to section by address, buttons and
//! keys, and from job to job in the list of experience.

use crate::text::{decimal, render, same_text, trim_start, without_leading};
use vstd::prelude::*;
use vstd::string::StringExecFns;

verus! {

/// The number of sections of the page.
pub const SECTION_COUNT: usize = 4;

/// The section of the list of experience, where the side keys turn pages.
pub const EXPERIENCE_SECTION: usize = 2;

/// The identifier of a section, which is also its address on the page.
pub open spec fn section_id_text(index: int) -> Seq<char> {
    if index == 0 {
        "hero"@
    } else if index == 1 {
        "about"@
    } else if index == 2 {
        "experience"@
    } else {
        "projects"@
    }
}

/// The index of the section with the identifier `id`, if there is one.
pub open spec fn section_with_id(id: Seq<char>) -> Option<usize> {
    if id == "hero"@ {
        Some(0usize)
    } else if id == "about"@ {
        Some(1usize)
    } else if id == "experience"@ {
        Some(2usize)
    } else if id == "projects"@ {
        Some(3usize)
    } else {
        None
    }
}

/// The section that the address `hash` leads to from the section `current`:
/// the first for an empty address, the section that the address names behind
/// its number signs, and no other than `current` where it names none.
pub open spec fn section_at_hash(hash: Seq<char>, current: usize) -> usize {
    if hash.len() == 0 {
        0
    } else {
        match section_with_id(without_leading(hash, '#')) {
            Some(index) => index,
            None => current,
        }
    }
}

/// The section above: the one before, and the first above the first.
pub open spec fn section_above(current: usize) -> usize {
    if current > 0 {
        (current - 1) as usize
    } else {
        0
    }
}

/// The section below: the one after, and the last below the last.
pub open spec fn section_below(current: usize) -> usize {
    if current + 1 < SECTION_COUNT {
        (current + 1) as usize
    } else {
        (SECTION_COUNT - 1) as usize
    }
}

/// What a key does.
#[derive(Clone, Copy, Debug, PartialEq, Eq, Structural)]
pub enum KeyAction {
    /// The key is taken: the section becomes the current one and is scrolled
    /// into view.
    Scroll(usize),
    /// The button with this index among the buttons of the list of
    /// experience is pressed.
    Press(u32),
    /// The key is not for the page.
    Pass,
}

/// What the key named `key` does while the section `current` is shown.
pub open spec fn key_action(key: Seq<char>, current: usize) -> KeyAction {
    if key == "ArrowUp"@ {
        KeyAction::Scroll(section_above(current))
    } else if key == "ArrowDown"@ {
        KeyAction::Scroll(section_below(current))
    } else if key == "ArrowLeft"@ && current == EXPERIENCE_SECTION {
        KeyAction::Press(0)
    } else if key == "ArrowRight"@ && current == EXPERIENCE_SECTION {
        KeyAction::Press(1)
    } else {
        KeyAction::Pass
    }
}

/// The identifier of a section.
pub fn section_id(index: usize) -> (id: &'static str)
    requires
        index < SECTION_COUNT,
    ensures
        id@ == section_id_text(index as int),
        section_with_id(id@) == Some(index),
{
    proof {
        reveal_strlit("hero");
        reveal_strlit("about");
        reveal_strlit("experience");
        reveal_strlit("projects");
        assert("hero"@.len() == 4);
        assert("about"@.len() == 5);
        assert("experience"@.len() == 10);
        assert("projects"@.len() == 8);
    }
    if index == 0 {
        "hero"
    } else if index == 1 {
        "about"
    } else if index == 2 {
        "experience"
    } else {
        "projects"
    }
}

/// The name under which a section is listed: `Home` for the first, and the
/// identifier with a capital first letter for the others.
pub fn section_name(index: usize) -> (name: &'static str)
    requires
        index < SECTION_COUNT,
    ensures
        index == 0 ==> name@ == "Home"@,
        index == 1 ==> name@ == "About"@,
        index == 2 ==> name@ == "Experience"@,
        index == 3 ==> name@ == "Projects"@,
        index > 0 ==> name@.len() == section_id_text(index as int).len() && name@.skip(1)
            == section_id_text(index as int).skip(1) && name@[0] as int + 32 == section_id_text(
            index as int,
        )[0] as int,
{
    proof {
        reveal_strlit("about");
        reveal_strlit("experience");
        reveal_strlit("projects");
        reveal_strlit("About");
        reveal_strlit("Experience");
        reveal_strlit("Projects");
    }
    if index == 0 {
        "Home"
    } else if index == 1 {
        assert("About"@.skip(1) =~= "about"@.skip(1));
        "About"
    } else if index == 2 {
        assert("Experience"@.skip(1) =~= "experience"@.skip(1));
        "Experience"
    } else {
        assert("Projects"@.skip(1) =~= "projects"@.skip(1));
        "Projects"
    }
}

/// The section that an address leads to.
pub fn section_for_hash(hash: &str, current: usize) -> (section: usize)
    ensures
        section == section_at_hash(hash@, current),
        current < SECTION_COUNT ==> section < SECTION_COUNT,
{
    if hash.unicode_len() == 0 {
        return 0;
    }
    let id = trim_start(hash, '#');
    if same_text(id, "hero") {
        0
    } else if same_text(id, "about") {
        1
    } else if same_text(id, "experience") {
        2
    } else if same_text(id, "projects") {
        3
    } else {
        current
    }
}

/// The section above.
pub fn navigate_up(current: usize) -> (section: usize)
    ensures
        section == section_above(current),
        section <= current,
{
    if current > 0 {
        current - 1
    } else {
        0
    }
}

/// The section below.
pub fn navigate_down(current: usize) -> (section: usize)
    ensures
        section == section_below(current),
        section < SECTION_COUNT,
{
    if current < SECTION_COUNT - 1 {
        current + 1
    } else {
        SECTION_COUNT - 1
    }
}

/// Whether there is no section above.
pub fn is_at_top(current: usize) -> (top: bool)
    ensures
        top == (current == 0),
        top == (section_above(current) == current),
{
    current == 0
}

/// Whether there is no section below.
pub fn is_at_bottom(current: usize) -> (bottom: bool)
    ensures
        bottom == (current >= SECTION_COUNT - 1),
        current < SECTION_COUNT ==> bottom == (section_below(current) == current),
{
    current >= SECTION_COUNT - 1
}

/// What a key does while the section `current` is shown.
pub fn on_key(key: &str, current: usize) -> (action: KeyAction)
    ensures
        action == key_action(key@, current),
{
    if same_text(key, "ArrowUp") {
        KeyAction::Scroll(navigate_up(current))
    } else if same_text(key, "ArrowDown") {
        KeyAction::Scroll(navigate_down(current))
    } else if current == EXPERIENCE_SECTION && same_text(key, "ArrowLeft") {
        KeyAction::Press(0)
    } else if current == EXPERIENCE_SECTION && same_text(key, "ArrowRight") {
        KeyAction::Press(1)
    } else {
        KeyAction::Pass
    }
}

/// The first section that lies across the reading line, given for each
/// section whether it does.
pub fn section_in_view(across: &Vec<bool>) -> (section: Option<usize>)
    ensures
        match section {
            Some(index) => index < across@.len() && across@[index as int] && forall|k: int|
                0 <= k < index ==> !across@[k],
            None => forall|k: int| 0 <= k < across@.len() ==> !across@[k],
        },
{
    let mut index: usize = 0;
    while index < across.len()
        invariant
            index <= across@.len(),
            forall|k: int| 0 <= k < index ==> !across@[k],
        decreases across@.len() - index,
    {
        if across[index] {
            return Some(index);
        }
        index = index + 1;
    }
    None
}

/// The page before `index` in a list that is turned page by page.
pub fn older(index: usize) -> (page: usize)
    ensures
        page == (if index > 0 {
            index - 1
        } else {
            0
        }),
{
    if index > 0 {
        index - 1
    } else {
        0
    }
}

/// The page after `index` among `total` pages.
pub fn newer(index: usize, total: usize) -> (page: usize)
    requires
        total > 0,
    ensures
        page == (if index + 1 < total {
            index + 1
        } else {
            total - 1
        }),
{
    if index < total - 1 {
        index + 1
    } else {
        total - 1
    }
}

/// The entry that page `index` shows of a list that is kept latest first and
/// turned from the earliest on.
pub fn shown_entry(index: usize, total: usize) -> (entry: usize)
    requires
        index < total,
    ensures
        entry == total - 1 - index,
{
    total - 1 - index
}

/// The text that says which page is shown.
pub fn page_label(index: usize, total: usize) -> (label: String)
    requires
        index < total,
        total <= u64::MAX,
    ensures
        label@ == decimal((index + 1) as nat) + " of "@ + decimal(total as nat),
{
    let mut label = render((index + 1) as u64, 10);
    label.append(" of ");
    let count = render(total as u64, 10);
    label.append(count.as_str());
    label
}

} // verus!
