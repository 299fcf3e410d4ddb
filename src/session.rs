use vstd::prelude::*;

verus! {

/// What a client sends when it joins a game: the id it had before, if it is
/// reconnecting, and its name.
#[derive(Debug, PartialEq, Eq)]
pub struct ConnectionParams {
    pub id: Option<u32>,
    pub name: String,
}

/// Tells a player that it is their turn to shoot.
#[derive(Clone, Copy, Debug, PartialEq, Eq, Structural)]
pub struct TurnBeginEvent {
    pub player_id: u32,
}

impl TurnBeginEvent {
    pub fn new(player_id: u32) -> (r: TurnBeginEvent)
        ensures
            r.player_id == player_id,
    {
        TurnBeginEvent { player_id }
    }
}

/// Hands out player ids, one after the other, wrapping round at the end of
/// the `u32` range.
#[derive(Clone, Copy, Debug, PartialEq, Eq, Structural)]
pub struct IdAllocator {
    pub next: u32,
}

impl IdAllocator {
    /// An allocator whose first id is 1.
    pub fn new() -> (r: IdAllocator)
        ensures
            r.next == 1,
    {
        IdAllocator { next: 1 }
    }

    /// The next id.
    pub fn allocate(&mut self) -> (r: u32)
        ensures
            r == old(self).next,
            final(self).next == (old(self).next + 1) % 0x1_0000_0000,
    {
        let r = self.next;
        self.next = self.next.wrapping_add(1);
        r
    }
}

/// A player's turn bookkeeping: whose ball it is, whether they may shoot, and
/// how many shots they have taken on this hole.
#[derive(Clone, Copy, Debug, PartialEq, Eq, Structural)]
pub struct PlayerTurn {
    pub id: u32,
    pub is_turn: bool,
    pub shot_count: u32,
}

impl PlayerTurn {
    /// A player who has just joined: not yet their turn, no shot taken.
    pub fn new(id: u32) -> (r: PlayerTurn)
        ensures
            r == (PlayerTurn { id, is_turn: false, shot_count: 0 }),
    {
        PlayerTurn { id, is_turn: false, shot_count: 0 }
    }

    /// A shot by player `shooter`. It counts only when it is this player's and
    /// it is their turn; then their turn ends and the shot is counted. Returns
    /// whether it counted.
    pub fn shot(&mut self, shooter: u32) -> (r: bool)
        requires
            shooter == old(self).id && old(self).is_turn ==> old(self).shot_count < u32::MAX,
        ensures
            r == (shooter == old(self).id && old(self).is_turn),
            r ==> *final(self) == (PlayerTurn {
                id: old(self).id,
                is_turn: false,
                shot_count: (old(self).shot_count + 1) as u32,
            }),
            !r ==> *final(self) == *old(self),
    {
        if shooter != self.id || !self.is_turn {
            return false;
        }
        self.is_turn = false;
        self.shot_count = self.shot_count + 1;
        true
    }

    /// The end of a tick, where `stopped` says whether the ball has slowed
    /// down to a halt. A player whose ball stops while it is not their turn
    /// gets the turn, and the event announcing it is returned.
    pub fn update(&mut self, stopped: bool) -> (r: Option<TurnBeginEvent>)
        ensures
            final(self).id == old(self).id,
            final(self).shot_count == old(self).shot_count,
            final(self).is_turn == (old(self).is_turn || stopped),
            r == (if !old(self).is_turn && stopped {
                Some(TurnBeginEvent { player_id: old(self).id })
            } else {
                None
            }),
    {
        if !self.is_turn && stopped {
            self.is_turn = true;
            return Some(TurnBeginEvent::new(self.id));
        }
        None
    }

    /// The ball went into the hole: the count of shots starts again.
    pub fn hole(&mut self)
        ensures
            *final(self) == (PlayerTurn { shot_count: 0, ..*old(self) }),
    {
        self.shot_count = 0;
    }
}

/// Number of characters of a game id.
pub const GAME_ID_LENGTH: usize = 5;

/// `b` is the ASCII code of a digit or of a letter of either case.
pub open spec fn is_alphanumeric(b: u8) -> bool {
    (0x30 <= b <= 0x39) || (0x41 <= b <= 0x5a) || (0x61 <= b <= 0x7a)
}

/// Relies on rand's `Alphanumeric` distribution sampled from `thread_rng`: each
/// draw is the ASCII code of one of the 26 upper-case letters, the 26
/// lower-case letters or the 10 digits.
#[verifier::external_body]
fn draw_alphanumeric() -> (r: u8)
    ensures
        is_alphanumeric(r),
{
    rand::Rng::sample(&mut rand::thread_rng(), rand::distributions::Alphanumeric)
}

/// A fresh random game id: five ASCII letters or digits.
pub fn new_game_id() -> (r: Vec<u8>)
    ensures
        r@.len() == GAME_ID_LENGTH,
        forall|i: int| 0 <= i < r@.len() ==> is_alphanumeric(#[trigger] r@[i]),
{
    let mut r: Vec<u8> = Vec::new();
    let mut i: usize = 0;
    while i < GAME_ID_LENGTH
        invariant
            i <= GAME_ID_LENGTH,
            r@.len() == i,
            forall|j: int| 0 <= j < r@.len() ==> is_alphanumeric(#[trigger] r@[j]),
        decreases GAME_ID_LENGTH - i,
    {
        r.push(draw_alphanumeric());
        i = i + 1;
    }
    r
}

} // verus!
