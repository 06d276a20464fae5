use vstd::prelude::*;

verus! {

// The command line fills unset card fields with an icon and a message
// picked from fixed lists. The draw itself is the rim's business (it
// owns the seedable random number generator); given the drawn number,
// the selection below is a plain function of it.

/// The icon for a drawn number: one of the eleven in the fixed list.
pub open spec fn spec_pick_icon(choice: nat) -> Seq<char> {
    if choice % 11 == 0 {
        "★"@
    } else if choice % 11 == 1 {
        "✨"@
    } else if choice % 11 == 2 {
        "🚀"@
    } else if choice % 11 == 3 {
        "🎉"@
    } else if choice % 11 == 4 {
        "✅"@
    } else if choice % 11 == 5 {
        "💎"@
    } else if choice % 11 == 6 {
        "🌙"@
    } else if choice % 11 == 7 {
        "☕"@
    } else if choice % 11 == 8 {
        "⚡"@
    } else if choice % 11 == 9 {
        "🔔"@
    } else {
        "🧠"@
    }
}

/// The message for a drawn number: one of the five in the fixed list.
pub open spec fn spec_pick_message(choice: nat) -> Seq<char> {
    if choice % 5 == 0 {
        "Your shiny Discord-sized card is ready. Crisp, compact, and screenshot-friendly."@
    } else if choice % 5 == 1 {
        "New render dropped: clean edges, smooth gradients, zero browser drama."@
    } else if choice % 5 == 2 {
        "Everything compiled. Nothing exploded. This is your sign to ship it. ✅"@
    } else if choice % 5 == 3 {
        "A small card with big energy. Have a great one. ✨"@
    } else {
        "Pixels are aligned and vibes are immaculate."@
    }
}

/// Pick the icon for a drawn number.
pub fn pick_icon(choice: usize) -> (r: &'static str)
    ensures
        r@ == spec_pick_icon(choice as nat),
{
    match choice % 11 {
        0 => "★",
        1 => "✨",
        2 => "🚀",
        3 => "🎉",
        4 => "✅",
        5 => "💎",
        6 => "🌙",
        7 => "☕",
        8 => "⚡",
        9 => "🔔",
        _ => "🧠",
    }
}

/// Pick the message for a drawn number.
pub fn pick_message(choice: usize) -> (r: &'static str)
    ensures
        r@ == spec_pick_message(choice as nat),
{
    match choice % 5 {
        0 => "Your shiny Discord-sized card is ready. Crisp, compact, and screenshot-friendly.",
        1 => "New render dropped: clean edges, smooth gradients, zero browser drama.",
        2 => "Everything compiled. Nothing exploded. This is your sign to ship it. ✅",
        3 => "A small card with big energy. Have a great one. ✨",
        _ => "Pixels are aligned and vibes are immaculate.",
    }
}

} // verus!
