use vstd::prelude::*;

verus! {

/// What one control byte asks of the session.
#[derive(PartialEq, Eq, Structural, Clone, Copy, Debug)]
pub enum Action {
    Quit,
    Randomize,
    ToggleRun,
    GoHome,
    NoOp,
}

/// The action that byte `b` stands for: 0x71 is `q`, 0x72 `r`, 0x20 a space
/// and 0x68 `h`.
pub open spec fn action_of(b: u8) -> Action {
    if b == 0x71 {
        Action::Quit
    } else if b == 0x72 {
        Action::Randomize
    } else if b == 0x20 {
        Action::ToggleRun
    } else if b == 0x68 {
        Action::GoHome
    } else {
        Action::NoOp
    }
}

/// Maps a control byte to its action: `q` quits, `r` randomizes, space
/// starts or stops, `h` goes to the idle screen; every other byte does nothing.
pub fn action_for_byte(b: u8) -> (r: Action)
    ensures
        r == action_of(b),
        r != Action::NoOp <==> (b == 0x71 || b == 0x72 || b == 0x20 || b == 0x68),
{
    if b == 0x71 {
        Action::Quit
    } else if b == 0x72 {
        Action::Randomize
    } else if b == 0x20 {
        Action::ToggleRun
    } else if b == 0x68 {
        Action::GoHome
    } else {
        Action::NoOp
    }
}

/// The action for one non-blocking poll: `None` when no byte was available
/// or the read failed, which does nothing.
pub fn action_for_poll(got: Option<u8>) -> (r: Action)
    ensures
        r == (match got {
            Some(b) => action_of(b),
            None => Action::NoOp,
        }),
{
    match got {
        Some(b) => action_for_byte(b),
        None => Action::NoOp,
    }
}

} // verus!
