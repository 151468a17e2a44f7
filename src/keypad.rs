use vstd::prelude::*;

verus! {

/// What a key typed at the host keyboard means to the driver.
#[derive(PartialEq, Eq, Structural, Debug, Clone, Copy)]
pub enum KeyAction {
    /// Stop the machine.
    Quit,
    /// Press the keypad key with this index.
    Press(usize),
    /// Not bound to anything.
    Ignore,
}

/// The host keys bound to the keypad keys 0 to F, in that order.
pub open spec fn keypad_layout() -> Seq<char> {
    seq!['2', '3', '4', '5', 'w', 'e', 'r', 't', 's', 'd', 'f', 'g', 'x', 'c', 'v', 'b']
}

/// The host key that stops the machine.
pub const QUIT_KEY: char = 'q';

/// Maps a host key to its meaning: the quit key, a keypad key of the
/// layout, or nothing.
pub fn key_action(c: char) -> (r: KeyAction)
    ensures
        c == QUIT_KEY ==> r == KeyAction::Quit,
        c != QUIT_KEY && keypad_layout().contains(c) ==> (r matches KeyAction::Press(k) && k
            < 16 && keypad_layout()[k as int] == c),
        c != QUIT_KEY && !keypad_layout().contains(c) ==> r == KeyAction::Ignore,
{
    if c == QUIT_KEY {
        return KeyAction::Quit;
    }
    let layout: Vec<char> = vec![
        '2', '3', '4', '5', 'w', 'e', 'r', 't', 's', 'd', 'f', 'g', 'x', 'c', 'v', 'b',
    ];
    assert(layout@ =~= keypad_layout());
    let mut i: usize = 0;
    while i < layout.len()
        invariant
            layout@ == keypad_layout(),
            0 <= i <= layout.len(),
            forall|j: int| 0 <= j < i ==> keypad_layout()[j] != c,
        decreases layout.len() - i,
    {
        if layout[i] == c {
            return KeyAction::Press(i);
        }
        i += 1;
    }
    KeyAction::Ignore
}

} // verus!
