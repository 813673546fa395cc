use vstd::prelude::*;

verus! {

/// The operational state that the LED strip displays.
#[derive(Copy, Clone, Debug, PartialEq, Eq, Structural)]
pub enum LedState {
    Init,
    Party,
    Clear,
    Error,
    Warning,
}

/// Number of states; valid ordinals run from 0 to `STATE_COUNT - 1`.
pub const STATE_COUNT: usize = 5;

/// The state that an ordinal encodes, if it is in range.
pub open spec fn state_of(value: int) -> Option<LedState> {
    if value == 0 {
        Some(LedState::Init)
    } else if value == 1 {
        Some(LedState::Party)
    } else if value == 2 {
        Some(LedState::Clear)
    } else if value == 3 {
        Some(LedState::Error)
    } else if value == 4 {
        Some(LedState::Warning)
    } else {
        None
    }
}

impl LedState {
    /// The ordinal that encodes this state: its position in the listing order.
    pub open spec fn ordinal(self) -> nat {
        match self {
            LedState::Init => 0,
            LedState::Party => 1,
            LedState::Clear => 2,
            LedState::Error => 3,
            LedState::Warning => 4,
        }
    }

    /// The state that follows this one in the cycle; the last wraps to `Init`.
    pub open spec fn successor(self) -> LedState {
        if self.ordinal() + 1 < STATE_COUNT {
            state_of(self.ordinal() + 1 as int).unwrap()
        } else {
            LedState::Init
        }
    }

    /// Encodes this state as its ordinal.
    pub fn to_usize(self) -> (r: usize)
        ensures
            r == self.ordinal(),
            r < STATE_COUNT,
    {
        match self {
            LedState::Init => 0,
            LedState::Party => 1,
            LedState::Clear => 2,
            LedState::Error => 3,
            LedState::Warning => 4,
        }
    }

    /// Decodes an ordinal; an out-of-range value is rejected with `None`.
    pub fn from_usize(value: usize) -> (r: Option<LedState>)
        ensures
            r == state_of(value as int),
            r is Some <==> value < STATE_COUNT,
    {
        match value {
            0 => Some(LedState::Init),
            1 => Some(LedState::Party),
            2 => Some(LedState::Clear),
            3 => Some(LedState::Error),
            4 => Some(LedState::Warning),
            _ => None,
        }
    }

    /// The next state in the cycle `Init, Party, Clear, Error, Warning, Init, ...`.
    pub fn next(self) -> (r: LedState)
        ensures
            r == self.successor(),
    {
        let n = self.to_usize() + 1;
        if n < STATE_COUNT {
            match LedState::from_usize(n) {
                Some(s) => s,
                None => LedState::Init,
            }
        } else {
            LedState::Init
        }
    }
}

/// The ordinal stored after an increment of a register that holds `value`:
/// the successor's ordinal for a valid value, `None` for an out-of-range one.
pub fn next_ordinal(value: usize) -> (r: Option<usize>)
    ensures
        r is Some <==> value < STATE_COUNT,
        r matches Some(n) ==> (n < STATE_COUNT && n == state_of(
            value as int,
        ).unwrap().successor().ordinal()),
{
    match LedState::from_usize(value) {
        Some(s) => Some(s.next().to_usize()),
        None => None,
    }
}

/// Decoding a valid ordinal and encoding the state again gives the ordinal back,
/// and encoding a state then decoding gives the state back.
pub proof fn lemma_ordinal_round_trip(value: nat, s: LedState)
    ensures
        value < STATE_COUNT ==> (state_of(value as int) matches Some(t) && t.ordinal() == value),
        state_of(s.ordinal() as int) == Some(s),
{
}

/// Incrementing `Warning` wraps to `Init`; incrementing any other state gives
/// the state with the next ordinal.
pub proof fn lemma_successor_wraps(s: LedState)
    ensures
        s == LedState::Warning ==> s.successor() == LedState::Init,
        s != LedState::Warning ==> s.successor().ordinal() == s.ordinal() + 1,
{
}

/// Five increments bring every state back to itself.
pub proof fn lemma_successor_cycle(s: LedState)
    ensures
        s.successor().successor().successor().successor().successor() == s,
{
}

} // verus!
