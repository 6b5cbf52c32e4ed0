//! What a client keeps while it waits for its duel: whether it hosts, the
//! identifier that the player types in, and the countdown to the start.

use crate::match_id::{parse_outcome, MatchIdError, MatchIdentifier, CANONICAL_LENGTH};
use crate::player::PlayerSelection;
use crate::protocol::{ClientMessage, ClientMessageView};
use vstd::prelude::*;
use vstd::string::StringExecFns;

verus! {

/// Nanoseconds in a second.
pub const NANOS_PER_SECOND: u64 = 1_000_000_000;

/// Length of the countdown before a duel starts, in nanoseconds.
pub const GAME_START_DELAY: u64 = 3_000_000_000;

/// Most characters that the identifier input holds.
pub const MAX_INPUT_LENGTH: usize = CANONICAL_LENGTH;

/// How many players are in a duel, as told to a peer.
#[derive(Clone, Copy, Debug, PartialEq, Eq, Structural)]
pub struct PlayersCount(pub usize);

/// Whether this client hosts the duel it waits for.
#[derive(Clone, Copy, Debug, PartialEq, Eq, Structural)]
pub struct IsHost(pub bool);

impl Default for IsHost {
    fn default() -> (host: IsHost)
        ensures
            !host.0,
    {
        IsHost(false)
    }
}

impl IsHost {
    pub fn reset(&mut self)
        ensures
            !final(self).0,
    {
        self.0 = false;
    }
}

/// The server refused a join: its message.
#[derive(Clone, Debug)]
pub struct MatchNotFoundError(pub String);

impl MatchNotFoundError {
    pub fn new(message: String) -> (error: MatchNotFoundError)
        ensures
            error.0@ == message@,
    {
        Self(message)
    }
}

// ---------------------------------------------------------------------------
// The countdown
// ---------------------------------------------------------------------------

/// A timer that runs once: a duration and the time that has passed of it,
/// both in nanoseconds. Time is handed in from outside, tick by tick.
#[derive(Clone, Copy, Debug, PartialEq, Eq, Structural)]
pub struct Countdown {
    pub duration: u64,
    pub elapsed: u64,
}

impl Countdown {
    /// No more time has passed than the timer runs.
    pub open spec fn well_formed(self) -> bool {
        self.elapsed <= self.duration
    }

    /// The time that has passed after `delta` more nanoseconds: it stops at
    /// the duration.
    pub open spec fn elapsed_after(self, delta: u64) -> u64 {
        if self.elapsed + delta >= self.duration {
            self.duration
        } else {
            (self.elapsed + delta) as u64
        }
    }

    pub open spec fn is_finished(self) -> bool {
        self.elapsed >= self.duration
    }

    /// The whole seconds that are left, a started second counting as one.
    pub open spec fn seconds_left(self) -> int {
        if self.elapsed >= self.duration {
            0
        } else {
            (self.duration - self.elapsed + NANOS_PER_SECOND - 1) / (NANOS_PER_SECOND as int)
        }
    }

    /// A timer over `duration` nanoseconds, of which none has passed.
    pub fn new(duration: u64) -> (timer: Countdown)
        ensures
            timer == (Countdown { duration, elapsed: 0 }),
            timer.well_formed(),
    {
        Countdown { duration, elapsed: 0 }
    }

    pub fn reset(&mut self)
        ensures
            *final(self) == (Countdown { duration: old(self).duration, elapsed: 0 }),
    {
        self.elapsed = 0;
    }

    /// Lets `delta` nanoseconds pass and says whether the timer has run out.
    pub fn tick(&mut self, delta: u64) -> (finished: bool)
        ensures
            final(self).duration == old(self).duration,
            final(self).elapsed == old(self).elapsed_after(delta),
            final(self).well_formed(),
            finished == final(self).is_finished(),
    {
        let left = if self.elapsed < self.duration {
            self.duration - self.elapsed
        } else {
            0
        };
        if delta >= left {
            self.elapsed = self.duration;
        } else {
            self.elapsed = self.elapsed + delta;
        }
        self.elapsed >= self.duration
    }

    pub fn finished(&self) -> (finished: bool)
        ensures
            finished == self.is_finished(),
    {
        self.elapsed >= self.duration
    }

    /// The whole seconds that are left, a started second counting as one.
    pub fn remaining_secs(&self) -> (seconds: u64)
        ensures
            seconds == self.seconds_left(),
    {
        if self.elapsed >= self.duration {
            0
        } else {
            let left = self.duration - self.elapsed;
            let whole = left / NANOS_PER_SECOND;
            if left % NANOS_PER_SECOND == 0 {
                whole
            } else {
                whole + 1
            }
        }
    }
}

/// The countdown to the start of a duel. It runs while `active`.
#[derive(Clone, Copy, Debug, PartialEq, Eq, Structural)]
pub struct GameStartTimer {
    pub timer: Countdown,
    pub active: bool,
}

/// What one tick did to the countdown.
#[derive(Clone, Copy, Debug, PartialEq, Eq, Structural)]
pub enum CountdownStep {
    /// The countdown is not armed.
    Idle,
    /// The countdown runs: so many seconds are left to show.
    Counting { seconds_left: u64 },
    /// The countdown has run out with this tick: the duel starts.
    Started,
}

impl GameStartTimer {
    /// What a tick of `delta` nanoseconds answers.
    pub open spec fn step(self, delta: u64) -> CountdownStep {
        if !self.active {
            CountdownStep::Idle
        } else {
            let timer = Countdown { elapsed: self.timer.elapsed_after(delta), ..self.timer };
            if timer.is_finished() {
                CountdownStep::Started
            } else {
                CountdownStep::Counting { seconds_left: timer.seconds_left() as u64 }
            }
        }
    }

    /// The countdown after a tick of `delta` nanoseconds.
    pub open spec fn after(self, delta: u64) -> GameStartTimer {
        if !self.active {
            self
        } else {
            let timer = Countdown { elapsed: self.timer.elapsed_after(delta), ..self.timer };
            GameStartTimer { timer, active: !timer.is_finished() }
        }
    }

    /// A countdown over `duration` nanoseconds, not armed.
    pub fn new(duration: u64) -> (timer: GameStartTimer)
        ensures
            timer == (GameStartTimer { timer: Countdown { duration, elapsed: 0 }, active: false }),
    {
        Self { active: false, timer: Countdown::new(duration) }
    }

    pub fn reset(&mut self)
        ensures
            *final(self) == (GameStartTimer {
                timer: Countdown { duration: old(self).timer.duration, elapsed: 0 },
                active: false,
            }),
    {
        self.active = false;
        self.timer.reset();
    }

    /// Arms the countdown, unless it runs already, and says whether it did.
    pub fn arm(&mut self) -> (armed: bool)
        ensures
            armed == !old(self).active,
            final(self).active,
            final(self).timer == old(self).timer,
    {
        if self.active {
            false
        } else {
            self.active = true;
            true
        }
    }
}

/// Lets `delta` nanoseconds pass on the countdown to the start.
///
/// Nothing happens while the countdown is not armed. While it runs, the
/// answer holds the seconds to show; the tick with which it runs out disarms
/// it and answers that the duel starts.
pub fn update_game_start_countdown(countdown: &mut GameStartTimer, delta: u64) -> (step: CountdownStep)
    ensures
        step == old(countdown).step(delta),
        *final(countdown) == old(countdown).after(delta),
{
    if !countdown.active {
        return CountdownStep::Idle;
    }
    let finished = countdown.timer.tick(delta);
    if finished {
        countdown.active = false;
        CountdownStep::Started
    } else {
        CountdownStep::Counting { seconds_left: countdown.timer.remaining_secs() }
    }
}

// ---------------------------------------------------------------------------
// The identifier input
// ---------------------------------------------------------------------------

/// The text that the player has typed as the identifier of a duel to join.
#[derive(Clone, Debug)]
pub struct MatchIdInput(pub String);

/// The characters that the input takes: ASCII letters and digits, `-` and
/// `_`.
pub open spec fn is_input_char(c: char) -> bool {
    ('0' <= c && c <= '9') || ('a' <= c && c <= 'z') || ('A' <= c && c <= 'Z') || c == '-' || c
        == '_'
}

/// The characters of `text` that the input takes, in their order.
pub open spec fn accepted(text: Seq<char>) -> Seq<char>
    decreases text.len(),
{
    if text.len() == 0 {
        Seq::empty()
    } else if is_input_char(text.last()) {
        accepted(text.drop_last()).push(text.last())
    } else {
        accepted(text.drop_last())
    }
}

/// `text` without its last character, if it has one.
pub open spec fn erased(text: Seq<char>) -> Seq<char> {
    if text.len() == 0 {
        text
    } else {
        text.drop_last()
    }
}

/// The first `MAX_INPUT_LENGTH` characters of `text`.
pub open spec fn clamped(text: Seq<char>) -> Seq<char> {
    if text.len() > MAX_INPUT_LENGTH {
        text.take(MAX_INPUT_LENGTH as int)
    } else {
        text
    }
}

/// The input after one round of editing: a character erased, if asked for,
/// then what was pasted and what was typed taken in, then the length cut.
pub open spec fn edited(
    text: Seq<char>,
    erase: bool,
    pasted: Seq<char>,
    typed: Seq<char>,
) -> Seq<char> {
    clamped(
        (if erase {
            erased(text)
        } else {
            text
        }) + accepted(pasted) + accepted(typed),
    )
}

impl Default for MatchIdInput {
    fn default() -> (input: MatchIdInput)
        ensures
            input.0@ == Seq::<char>::empty(),
    {
        MatchIdInput(String::new())
    }
}

impl MatchIdInput {
    pub fn clear(&mut self)
        ensures
            final(self).0@ == Seq::<char>::empty(),
    {
        self.0 = String::new();
    }

    /// Takes in the characters of `text` that the input accepts.
    pub fn push_text(&mut self, text: &str)
        ensures
            final(self).0@ == old(self).0@ + accepted(text@),
    {
        let count = text.unicode_len();
        let mut i: usize = 0;
        assert(text@.take(0) =~= Seq::<char>::empty());
        assert(self.0@ =~= old(self).0@ + accepted(text@.take(0)));
        while i < count
            invariant
                i <= count,
                count == text@.len(),
                self.0@ == old(self).0@ + accepted(text@.take(i as int)),
            decreases count - i,
        {
            let c = text.get_char(i);
            let ghost before = self.0@;
            if ('0' <= c && c <= '9') || ('a' <= c && c <= 'z') || ('A' <= c && c <= 'Z') || c == '-'
                || c == '_' {
                let one = text.substring_char(i, i + 1);
                self.0.append(one);
                assert(one@ =~= seq![c]);
            }
            proof {
                let prefix = text@.take(i as int + 1);
                assert(prefix.drop_last() =~= text@.take(i as int));
                assert(prefix.last() == c);
                assert(self.0@ =~= old(self).0@ + accepted(prefix));
            }
            i += 1;
        }
        assert(text@.take(count as int) =~= text@);
    }

    /// Erases the last character, if there is one.
    pub fn backspace(&mut self)
        ensures
            final(self).0@ == erased(old(self).0@),
    {
        let count = self.0.as_str().unicode_len();
        if count > 0 {
            let kept = self.0.as_str().substring_char(0, count - 1);
            let shorter = kept.to_owned();
            assert(shorter@ =~= old(self).0@.drop_last());
            self.0 = shorter;
        }
    }

    /// Cuts the input to its greatest length.
    pub fn clamp(&mut self)
        ensures
            final(self).0@ == clamped(old(self).0@),
    {
        let count = self.0.as_str().unicode_len();
        if count > MAX_INPUT_LENGTH {
            let kept = self.0.as_str().substring_char(0, MAX_INPUT_LENGTH);
            let shorter = kept.to_owned();
            assert(shorter@ =~= old(self).0@.take(MAX_INPUT_LENGTH as int));
            self.0 = shorter;
        }
    }
}

/// One round of editing the identifier input: erases a character if `erase`
/// holds, takes in what was pasted and then what was typed, and cuts the
/// input to 36 characters.
pub fn update_match_id_input(buffer: &mut MatchIdInput, erase: bool, pasted: &str, typed: &str)
    ensures
        final(buffer).0@ == edited(old(buffer).0@, erase, pasted@, typed@),
{
    if erase {
        buffer.backspace();
    }
    buffer.push_text(pasted);
    proof {
        lemma_accepted_is_no_longer(pasted@);
        lemma_accepted_is_no_longer(typed@);
    }
    buffer.push_text(typed);
    buffer.clamp();
    assert(buffer.0@ =~= edited(old(buffer).0@, erase, pasted@, typed@));
}

/// Filtering does not lengthen a text.
pub proof fn lemma_accepted_is_no_longer(text: Seq<char>)
    ensures
        accepted(text).len() <= text.len(),
        forall|i: int| 0 <= i < accepted(text).len() ==> is_input_char(#[trigger] accepted(text)[i]),
    decreases text.len(),
{
    if text.len() > 0 {
        lemma_accepted_is_no_longer(text.drop_last());
    }
}

// ---------------------------------------------------------------------------
// Requests
// ---------------------------------------------------------------------------

/// The request with which the host opens its duel: the identifier that the
/// client is bound to, and no wallet.
pub open spec fn create_request(selection: PlayerSelection) -> ClientMessageView {
    ClientMessageView::CreateMatchRequest { match_id: selection.1, player_wallet: Seq::empty() }
}

/// The request to join the duel `match_id`, with no wallet.
pub open spec fn join_request(match_id: MatchIdentifier) -> ClientMessageView {
    ClientMessageView::JoinMatchRequest { match_id, player_wallet: Seq::empty() }
}

/// The request that a client sends on the lobby channel when it enters the
/// waiting room: to open its duel if it hosts, and none if it does not.
pub fn create_room(selection: &PlayerSelection, is_host: &IsHost) -> (request: Option<ClientMessage>)
    ensures
        request is Some <==> is_host.0,
        request matches Some(message) ==> message@ == create_request(*selection),
{
    if !is_host.0 {
        return None;
    }
    Some(ClientMessage::CreateMatchRequest { match_id: selection.1, player_wallet: String::new() })
}

/// Reads the identifier that the player has typed and, if it is one, binds
/// the client to that duel and returns the request to join it. The client
/// stays as it is if the text is no identifier.
pub fn join_room(selection: &mut PlayerSelection, buffer: &MatchIdInput) -> (request: Result<
    ClientMessage,
    MatchIdError,
>)
    ensures
        match parse_outcome(buffer.0@) {
            Ok(match_id) => {
                &&& request matches Ok(message)
                &&& message@ == join_request(match_id)
                &&& *final(selection) == PlayerSelection(old(selection).0, match_id)
            },
            Err(error) => request == Err::<ClientMessage, MatchIdError>(error) && *final(selection)
                == *old(selection),
        },
{
    match MatchIdentifier::parse_str(buffer.0.as_str()) {
        Ok(match_id) => {
            selection.1 = match_id;
            Ok(ClientMessage::JoinMatchRequest { match_id, player_wallet: String::new() })
        },
        Err(error) => Err(error),
    }
}

} // verus!
