//! The timed key sequence that a client has to complete to shoot.
//!
//! A sequence has five keys, drawn at random from a pool of four. The client
//! presses them in order; a wrong key starts the sequence over with new keys,
//! and the fifth right key sends one shooting command.

use crate::player::{PlayerSelection, ShootingLock};
use crate::protocol::{ClientMessage, ClientMessageView};
use vstd::prelude::*;

verus! {

/// Number of keys in the pool.
pub const KEY_POOL_LEN: usize = 4;

/// Number of keys in one sequence.
pub const KEYS_PER_SHOT: usize = 5;

/// A key of the pool.
#[derive(Clone, Copy, Debug, PartialEq, Eq, Structural)]
pub enum DuelKey {
    KeyQ,
    KeyW,
    KeyE,
    KeyR,
}

/// The key at a place of the pool.
pub open spec fn pool_key(pick: usize) -> DuelKey
    recommends
        pick < KEY_POOL_LEN,
{
    if pick == 0 {
        DuelKey::KeyQ
    } else if pick == 1 {
        DuelKey::KeyW
    } else if pick == 2 {
        DuelKey::KeyE
    } else {
        DuelKey::KeyR
    }
}

/// The letter that a key shows.
pub open spec fn key_letter(key: DuelKey) -> Seq<char> {
    match key {
        DuelKey::KeyQ => "Q"@,
        DuelKey::KeyW => "W"@,
        DuelKey::KeyE => "E"@,
        DuelKey::KeyR => "R"@,
    }
}

impl DuelKey {
    /// The key at place `pick` of the pool.
    pub fn from_pool(pick: usize) -> (key: DuelKey)
        requires
            pick < KEY_POOL_LEN,
        ensures
            key == pool_key(pick),
    {
        if pick == 0 {
            DuelKey::KeyQ
        } else if pick == 1 {
            DuelKey::KeyW
        } else if pick == 2 {
            DuelKey::KeyE
        } else {
            DuelKey::KeyR
        }
    }

    /// The letter to show on the key.
    pub fn label(&self) -> (text: String)
        ensures
            text@ == key_letter(*self),
    {
        match self {
            DuelKey::KeyQ => "Q".to_string(),
            DuelKey::KeyW => "W".to_string(),
            DuelKey::KeyE => "E".to_string(),
            DuelKey::KeyR => "R".to_string(),
        }
    }
}

/// One key of the sequence and whether it was pressed already.
#[derive(Clone, Copy, Debug, PartialEq, Eq, Structural)]
pub struct ShootingData {
    pub key: DuelKey,
    pub is_pressed_correct: bool,
}

/// Place of a key on screen within the sequence.
#[derive(Clone, Copy, Debug, PartialEq, Eq, Structural)]
pub struct ShootingKeyIndex(pub usize);

/// The keys on screen are to be replaced by the new sequence.
#[derive(Clone, Copy, Debug, PartialEq, Eq, Structural)]
pub struct ResetKeysEvent;

/// The key at a place of the sequence is to be checked.
#[derive(Clone, Copy, Debug, PartialEq, Eq, Structural)]
pub struct CheckShootingKeyEvent(pub usize);

/// The player with this number has shot.
#[derive(Clone, Copy, Debug, PartialEq, Eq, Structural)]
pub struct ShootingEvent {
    pub player: usize,
}

/// The sequence, the place of the next key to press, and how many wrong keys
/// were pressed so far.
#[derive(Clone, Debug)]
pub struct ShootingStates {
    pub data: [ShootingData; 5],
    pub current_key_index: usize,
    pub wrong_count: usize,
}

/// What one key press did.
#[derive(Clone, Copy, Debug, PartialEq, Eq, Structural)]
pub struct KeyPress {
    /// Place of the key that was due.
    pub index: usize,
    /// Whether the key that was due was pressed.
    pub correct: bool,
    /// Whether this press completed the sequence.
    pub completed: bool,
}

/// What the client does after a key press.
#[derive(Clone, Debug)]
pub struct KeyInput {
    /// The press, unless no key was due.
    pub press: Option<KeyPress>,
    /// A new sequence is to be drawn and shown.
    pub reset_keys: bool,
    /// The shooting command to send on the shooting channel.
    pub command: Option<ClientMessage>,
}

/// `rand::Rng::random_range` on the generator that `rand::rng` hands out,
/// over the range from zero up to, not including, `bound`. The outcome is
/// random; the contract claims only that it lies in the range.
#[verifier::external_body]
fn random_below(bound: usize) -> (pick: usize)
    requires
        bound > 0,
    ensures
        pick < bound,
{
    rand::Rng::random_range(&mut rand::rng(), 0..bound)
}

impl Default for ShootingStates {
    fn default() -> (states: ShootingStates)
        ensures
            states.current_key_index == 0,
            states.wrong_count == 0,
            states.none_pressed(),
    {
        let blank = ShootingData { key: DuelKey::KeyQ, is_pressed_correct: false };
        let mut states = ShootingStates {
            data: [blank, blank, blank, blank, blank],
            current_key_index: 0,
            wrong_count: 0,
        };
        states.randomize_keys();
        states
    }
}

impl ShootingStates {
    /// The next key to press lies within the sequence, or the sequence is
    /// complete.
    pub open spec fn well_formed(&self) -> bool {
        self.current_key_index <= KEYS_PER_SHOT
    }

    /// No key of the sequence is marked as pressed.
    pub open spec fn none_pressed(&self) -> bool {
        forall|i: int| 0 <= i < KEYS_PER_SHOT ==> !(#[trigger] self.data@[i]).is_pressed_correct
    }

    /// The place after `index`, which does not go beyond the sequence's end.
    pub open spec fn place_after(index: usize) -> usize {
        if index < KEYS_PER_SHOT {
            (index + 1) as usize
        } else {
            KEYS_PER_SHOT
        }
    }

    /// What a key press answers when the key at `index` is due.
    pub open spec fn press_result(index: usize, hit: bool) -> Option<KeyPress> {
        if index >= KEYS_PER_SHOT {
            None
        } else {
            Some(KeyPress { index, correct: hit, completed: hit && index + 1 == KEYS_PER_SHOT })
        }
    }

    /// A sequence with the given keys, none pressed, nothing counted.
    pub fn with_keys(keys: [DuelKey; 5]) -> (states: ShootingStates)
        ensures
            states.current_key_index == 0,
            states.wrong_count == 0,
            forall|i: int|
                0 <= i < KEYS_PER_SHOT ==> #[trigger] states.data@[i] == (ShootingData {
                    key: keys@[i],
                    is_pressed_correct: false,
                }),
    {
        ShootingStates {
            data: [
                ShootingData { key: keys[0], is_pressed_correct: false },
                ShootingData { key: keys[1], is_pressed_correct: false },
                ShootingData { key: keys[2], is_pressed_correct: false },
                ShootingData { key: keys[3], is_pressed_correct: false },
                ShootingData { key: keys[4], is_pressed_correct: false },
            ],
            current_key_index: 0,
            wrong_count: 0,
        }
    }

    pub fn is_last_key(&self) -> (last: bool)
        ensures
            last == (self.current_key_index == KEYS_PER_SHOT),
    {
        self.current_key_index == KEYS_PER_SHOT
    }

    pub fn reset_current_key_index(&mut self)
        ensures
            final(self).current_key_index == 0,
            final(self).data == old(self).data,
            final(self).wrong_count == old(self).wrong_count,
    {
        self.current_key_index = 0;
    }

    /// Moves on to the next key, and not beyond the sequence's end.
    pub fn next_key(&mut self)
        ensures
            final(self).current_key_index == Self::place_after(old(self).current_key_index),
            final(self).data == old(self).data,
            final(self).wrong_count == old(self).wrong_count,
    {
        if self.current_key_index < KEYS_PER_SHOT {
            self.current_key_index = self.current_key_index + 1;
        } else {
            self.current_key_index = KEYS_PER_SHOT;
        }
    }

    pub fn wrong_key_increment(&mut self)
        requires
            old(self).wrong_count < usize::MAX,
        ensures
            final(self).wrong_count == old(self).wrong_count + 1,
            final(self).data == old(self).data,
            final(self).current_key_index == old(self).current_key_index,
    {
        self.wrong_count = self.wrong_count + 1;
    }

    /// The key that is due, unless the sequence is complete.
    pub fn expected_key(&self) -> (key: Option<DuelKey>)
        ensures
            key == if self.current_key_index < KEYS_PER_SHOT {
                Some(self.data@[self.current_key_index as int].key)
            } else {
                None
            },
    {
        if self.current_key_index < KEYS_PER_SHOT {
            Some(self.data[self.current_key_index].key)
        } else {
            None
        }
    }

    /// Puts the key at place `pick` of the pool at place `slot` of the
    /// sequence, not pressed.
    pub fn deal_key(&mut self, slot: usize, pick: usize)
        requires
            slot < KEYS_PER_SHOT,
            pick < KEY_POOL_LEN,
        ensures
            final(self).data@ == old(self).data@.update(
                slot as int,
                ShootingData { key: pool_key(pick), is_pressed_correct: false },
            ),
            final(self).current_key_index == old(self).current_key_index,
            final(self).wrong_count == old(self).wrong_count,
    {
        let key = DuelKey::from_pool(pick);
        self.data.set(slot, ShootingData { key, is_pressed_correct: false });
    }

    /// Draws a new sequence: every key at random from the pool, none
    /// pressed. The place and the count of wrong keys stay.
    pub fn randomize_keys(&mut self)
        ensures
            final(self).none_pressed(),
            final(self).current_key_index == old(self).current_key_index,
            final(self).wrong_count == old(self).wrong_count,
    {
        let mut slot: usize = 0;
        while slot < KEYS_PER_SHOT
            invariant
                slot <= KEYS_PER_SHOT,
                self.current_key_index == old(self).current_key_index,
                self.wrong_count == old(self).wrong_count,
                forall|i: int| 0 <= i < slot ==> !(#[trigger] self.data@[i]).is_pressed_correct,
            decreases KEYS_PER_SHOT - slot,
        {
            let pick = random_below(KEY_POOL_LEN);
            self.deal_key(slot, pick);
            slot += 1;
        }
    }

    /// Draws a new sequence and starts over: first key due, no wrong key
    /// counted.
    pub fn reset(&mut self)
        ensures
            final(self).none_pressed(),
            final(self).current_key_index == 0,
            final(self).wrong_count == 0,
    {
        self.randomize_keys();
        self.current_key_index = 0;
        self.wrong_count = 0;
    }

    /// Takes one key press. `hit` says whether the key that is due was
    /// pressed.
    ///
    /// With no key due nothing happens. A hit marks the key and moves on; the
    /// fifth hit completes the sequence and makes the first key due again. A
    /// miss is counted and makes the first key due again.
    pub fn press(&mut self, hit: bool) -> (press: Option<KeyPress>)
        requires
            old(self).wrong_count < usize::MAX,
        ensures
            press == Self::press_result(old(self).current_key_index, hit),
            press is None ==> *final(self) == *old(self),
            press matches Some(p) ==> {
                &&& final(self).current_key_index == if p.correct && !p.completed {
                    (p.index + 1) as usize
                } else {
                    0
                }
                &&& final(self).wrong_count == if p.correct {
                    old(self).wrong_count as int
                } else {
                    old(self).wrong_count + 1
                }
                &&& final(self).data@ == if p.correct {
                    old(self).data@.update(
                        p.index as int,
                        ShootingData {
                            key: old(self).data@[p.index as int].key,
                            is_pressed_correct: true,
                        },
                    )
                } else {
                    old(self).data@
                }
            },
            old(self).well_formed() ==> final(self).well_formed(),
    {
        let index = self.current_key_index;
        if index >= KEYS_PER_SHOT {
            return None;
        }
        if hit {
            let key = self.data[index].key;
            self.data.set(index, ShootingData { key, is_pressed_correct: true });
            self.next_key();
        } else {
            self.wrong_key_increment();
            self.reset_current_key_index();
        }
        let completed = self.is_last_key();
        if completed {
            self.reset_current_key_index();
        }
        Some(KeyPress { index, correct: hit, completed })
    }
}

/// The shooting command of the client that holds `selection`: its own player
/// number and the duel it is bound to.
pub open spec fn own_shooting_command(selection: PlayerSelection) -> ClientMessageView {
    ClientMessageView::ShootingCommand { match_id: selection.1, player_number: selection.0 }
}

/// Takes one key press of the client and decides what follows.
///
/// A miss asks for a new sequence. The press that completes the sequence
/// yields exactly one shooting command with the client's own player number
/// and duel; the lock is taken while the command is made and free again
/// afterwards.
pub fn shooting_key_input(
    states: &mut ShootingStates,
    lock: &mut ShootingLock,
    selection: &PlayerSelection,
    hit: bool,
) -> (input: KeyInput)
    requires
        old(states).wrong_count < usize::MAX,
    ensures
        input.press == ShootingStates::press_result(old(states).current_key_index, hit),
        input.reset_keys == (input.press matches Some(p) && !p.correct),
        input.command is Some <==> (input.press matches Some(p) && p.completed),
        input.command matches Some(message) ==> message@ == own_shooting_command(*selection),
        input.press is None ==> *final(states) == *old(states) && *final(lock) == *old(lock),
        input.press matches Some(p) ==> {
            &&& final(states).current_key_index == if p.correct && !p.completed {
                (p.index + 1) as usize
            } else {
                0
            }
            &&& final(states).wrong_count == if p.correct {
                old(states).wrong_count as int
            } else {
                old(states).wrong_count + 1
            }
            &&& final(states).data@ == if p.correct {
                old(states).data@.update(
                    p.index as int,
                    ShootingData {
                        key: old(states).data@[p.index as int].key,
                        is_pressed_correct: true,
                    },
                )
            } else {
                old(states).data@
            }
        },
        input.command is Some ==> !final(lock).0,
        input.command is None ==> *final(lock) == *old(lock),
        old(states).well_formed() ==> final(states).well_formed(),
{
    let press = states.press(hit);
    match press {
        None => KeyInput { press, reset_keys: false, command: None },
        Some(p) => {
            if p.completed {
                lock.lock();
                let command = if lock.is_locked() {
                    Some(
                        ClientMessage::ShootingCommand {
                            match_id: selection.1,
                            player_number: selection.0,
                        },
                    )
                } else {
                    None
                };
                lock.unlock();
                KeyInput { press, reset_keys: !p.correct, command }
            } else {
                KeyInput { press, reset_keys: !p.correct, command: None }
            }
        },
    }
}

} // verus!
