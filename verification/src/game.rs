use vstd::prelude::*;
use crate::symbol::Symbol;

verus! {

/// Where the machine is in a round.
#[derive(Debug, Clone, Copy, PartialEq, Eq, Structural)]
pub enum GameStatus {
    Idle,
    Spinning,
    Stopping,
}

impl GameStatus {
    /// Whether the reels are turning: the spin button is then disabled.
    pub fn is_spinning(&self) -> (b: bool)
        ensures
            b == (*self != GameStatus::Idle),
    {
        match self {
            GameStatus::Idle => false,
            _ => true,
        }
    }
}

/// The money and the phase of the machine.  The reels' motion, which is
/// measured in floating point, is kept by the caller and reported to
/// [`GameState::tick`] through a [`TickEvent`].
#[derive(Debug, Clone, Copy, PartialEq, Eq, Structural)]
pub struct GameState {
    pub balance: u32,
    pub bet: u32,
    pub status: GameStatus,
    pub win_amount: u32,
}

/// The three pictures on the centre line, left to right.
#[derive(Debug, Clone, Copy, PartialEq, Eq, Structural)]
pub struct CenterLine {
    pub left: Symbol,
    pub middle: Symbol,
    pub right: Symbol,
}

/// What the caller observed of the reels and the clock since the last tick.
#[derive(Debug, Clone, Copy, PartialEq, Eq, Structural)]
pub struct TickEvent {
    /// The machine has been spinning for its full spin time.
    pub spin_time_up: bool,
    /// Every reel has come to rest on a grid position.
    pub all_reels_stopped: bool,
    /// The pictures on the centre line of the three reels, left to right;
    /// `None` where they cannot be read (the picture height is not positive).
    pub center_line: Option<CenterLine>,
}

/// What the caller has to do to the clock and the reels after a tick.
#[derive(Debug, Clone, Copy, PartialEq, Eq, Structural)]
pub struct TickAction {
    /// Restart the phase clock from zero.
    pub reset_timer: bool,
    /// Clear every reel's stopping flag: the round is over.
    pub release_reels: bool,
}

/// What the centre line pays on a bet of `bet`: three alike pay the
/// picture's multiplier times the bet, two alike pay the bet back, and no
/// pair pays nothing (`None`: the last win is left as it was).
pub open spec fn line_win(bet: u32, a: Symbol, b: Symbol, c: Symbol) -> Option<nat> {
    if a == b && b == c {
        Some((bet as nat) * a.multiplier())
    } else if a == b || b == c || a == c {
        Some(bet as nat)
    } else {
        None
    }
}

/// What the centre line `a b c` pays on a bet of `bet`, in the wide type.
pub fn line_payout(bet: u32, a: Symbol, b: Symbol, c: Symbol) -> (w: Option<u64>)
    ensures
        match line_win(bet, a, b, c) {
            Some(v) => w == Some(v as u64),
            None => w is None,
        },
{
    if a == b && b == c {
        let m = a.payout_multiplier();
        proof {
            assert((bet as nat) * (m as nat) <= 0xffff_ffff * 100) by (nonlinear_arith)
                requires
                    bet <= 0xffff_ffff,
                    m <= 100,
            ;
        }
        Some((bet as u64) * (m as u64))
    } else if a == b || b == c || a == c {
        Some(bet as u64)
    } else {
        None
    }
}

impl GameState {
    /// A spin may start only from rest and only when the bet is covered.
    pub open spec fn can_start(self) -> bool {
        self.status == GameStatus::Idle && self.balance >= self.bet
    }

    /// The state after a request to start a spin.
    pub open spec fn started(self) -> GameState {
        if self.can_start() {
            GameState {
                balance: (self.balance - self.bet) as u32,
                bet: self.bet,
                status: GameStatus::Spinning,
                win_amount: 0,
            }
        } else {
            self
        }
    }

    /// The win on the given centre line fits the balance.
    pub open spec fn settle_fits(self, a: Symbol, b: Symbol, c: Symbol) -> bool {
        match line_win(self.bet, a, b, c) {
            Some(w) => self.balance + w <= u32::MAX,
            None => true,
        }
    }

    /// The state after the centre line has been paid.
    pub open spec fn settled(self, a: Symbol, b: Symbol, c: Symbol) -> GameState {
        match line_win(self.bet, a, b, c) {
            Some(w) => GameState {
                balance: (self.balance + w) as u32,
                bet: self.bet,
                status: self.status,
                win_amount: w as u32,
            },
            None => self,
        }
    }

    /// A tick that brings the reels to rest ends the round.
    pub open spec fn ends_round(self, ev: TickEvent) -> bool {
        self.status == GameStatus::Stopping && ev.all_reels_stopped
    }

    /// A tick can be taken: a win that it pays fits the balance.
    pub open spec fn tick_fits(self, ev: TickEvent) -> bool {
        self.ends_round(ev) ==> match ev.center_line {
            Some(line) => self.settle_fits(line.left, line.middle, line.right),
            None => true,
        }
    }

    /// The state after a tick.
    pub open spec fn ticked(self, ev: TickEvent) -> GameState {
        match self.status {
            GameStatus::Spinning => if ev.spin_time_up {
                GameState { status: GameStatus::Stopping, ..self }
            } else {
                self
            },
            GameStatus::Stopping => if ev.all_reels_stopped {
                let idle = GameState { status: GameStatus::Idle, ..self };
                match ev.center_line {
                    Some(line) => idle.settled(line.left, line.middle, line.right),
                    None => idle,
                }
            } else {
                self
            },
            GameStatus::Idle => self,
        }
    }

    /// What the caller is told to do after a tick.
    pub open spec fn tick_action(self, ev: TickEvent) -> TickAction {
        TickAction {
            reset_timer: (self.status == GameStatus::Spinning && ev.spin_time_up)
                || self.ends_round(ev),
            release_reels: self.ends_round(ev),
        }
    }

    /// A new machine: 1000 coins, a bet of 10, at rest.
    pub fn new() -> (s: GameState)
        ensures
            s == (GameState { balance: 1000, bet: 10, status: GameStatus::Idle, win_amount: 0 }),
    {
        GameState { balance: 1000, bet: 10, status: GameStatus::Idle, win_amount: 0 }
    }

    /// Starts a spin when the machine is at rest and the balance covers the
    /// bet: the bet is taken, the last win is cleared and the reels are to be
    /// set turning (the result says whether that happened).  Otherwise
    /// nothing changes.
    pub fn start_spin(&mut self) -> (started: bool)
        ensures
            started == old(self).can_start(),
            *final(self) == old(self).started(),
            started <==> (old(self).status == GameStatus::Idle && old(self).balance >= old(self).bet),
            started ==> final(self).balance == old(self).balance - old(self).bet
                && final(self).status == GameStatus::Spinning && final(self).win_amount == 0
                && final(self).bet == old(self).bet,
            !started ==> *final(self) == *old(self),
    {
        if self.balance < self.bet || !(self.status == GameStatus::Idle) {
            return false;
        }
        self.balance = self.balance - self.bet;
        self.win_amount = 0;
        self.status = GameStatus::Spinning;
        true
    }

    /// Pays the centre line `s1 s2 s3`: three alike pay the bet times the
    /// picture's multiplier, two alike pay the bet, and the win is added to
    /// the balance.
    pub fn check_win(&mut self, s1: Symbol, s2: Symbol, s3: Symbol)
        requires
            old(self).settle_fits(s1, s2, s3),
        ensures
            *final(self) == old(self).settled(s1, s2, s3),
            final(self).bet == old(self).bet,
            final(self).status == old(self).status,
            s1 == s2 && s2 == s3 ==> final(self).win_amount == old(self).bet * s1.multiplier()
                && final(self).balance == old(self).balance + final(self).win_amount,
            (s1 == s2 || s2 == s3 || s1 == s3) && !(s1 == s2 && s2 == s3) ==> final(self).win_amount
                == old(self).bet && final(self).balance == old(self).balance + old(self).bet,
            !(s1 == s2 || s2 == s3 || s1 == s3) ==> *final(self) == *old(self),
    {
        if s1 == s2 && s2 == s3 {
            let multi = s1.payout_multiplier();
            proof {
                assert(self.bet * multi <= u32::MAX);
            }
            self.win_amount = self.bet * multi;
            self.balance = self.balance + self.win_amount;
        } else if s1 == s2 || s2 == s3 || s1 == s3 {
            self.win_amount = self.bet;
            self.balance = self.balance + self.win_amount;
        }
    }

    /// Whether paying the centre line `s1 s2 s3` keeps the balance within
    /// its type, so that [`GameState::check_win`] may be called.
    pub fn can_pay(&self, s1: Symbol, s2: Symbol, s3: Symbol) -> (b: bool)
        ensures
            b == self.settle_fits(s1, s2, s3),
    {
        match line_payout(self.bet, s1, s2, s3) {
            Some(w) => (self.balance as u64) + w <= 0xffff_ffff,
            None => true,
        }
    }

    /// Whether the tick `ev` can be taken: a win that it pays keeps the
    /// balance within its type, so that [`GameState::tick`] may be called.
    pub fn can_tick(&self, ev: &TickEvent) -> (b: bool)
        ensures
            b == self.tick_fits(*ev),
    {
        if self.status == GameStatus::Stopping && ev.all_reels_stopped {
            match ev.center_line {
                Some(line) => self.can_pay(line.left, line.middle, line.right),
                None => true,
            }
        } else {
            true
        }
    }

    /// Moves the round on by one frame.  A spin that has run its time goes
    /// over to stopping; a stopping machine whose reels have all come to
    /// rest goes back to idle and pays its centre line.
    pub fn tick(&mut self, ev: TickEvent) -> (action: TickAction)
        requires
            old(self).tick_fits(ev),
        ensures
            *final(self) == old(self).ticked(ev),
            action == old(self).tick_action(ev),
            final(self).bet == old(self).bet,
            old(self).status == GameStatus::Idle ==> *final(self) == *old(self) && !action.reset_timer
                && !action.release_reels,
            old(self).status == GameStatus::Spinning ==> final(self).status == (if ev.spin_time_up {
                GameStatus::Stopping
            } else {
                GameStatus::Spinning
            }) && final(self).balance == old(self).balance && final(self).win_amount
                == old(self).win_amount && action.reset_timer == ev.spin_time_up
                && !action.release_reels,
            old(self).status == GameStatus::Stopping && !ev.all_reels_stopped ==> *final(self)
                == *old(self) && !action.reset_timer && !action.release_reels,
            old(self).status == GameStatus::Stopping && ev.all_reels_stopped ==> final(self).status
                == GameStatus::Idle && action.reset_timer && action.release_reels,
    {
        match self.status {
            GameStatus::Spinning => {
                if ev.spin_time_up {
                    self.status = GameStatus::Stopping;
                    return TickAction { reset_timer: true, release_reels: false };
                }
                TickAction { reset_timer: false, release_reels: false }
            },
            GameStatus::Stopping => {
                if ev.all_reels_stopped {
                    self.status = GameStatus::Idle;
                    match ev.center_line {
                        Some(line) => self.check_win(line.left, line.middle, line.right),
                        None => {},
                    }
                    return TickAction { reset_timer: true, release_reels: true };
                }
                TickAction { reset_timer: false, release_reels: false }
            },
            GameStatus::Idle => {
                TickAction { reset_timer: false, release_reels: false }
            },
        }
    }
}

/// A start is accepted exactly from rest with the bet covered; it takes the
/// bet, clears the last win and sets the reels spinning.  A refused start
/// changes nothing.
pub proof fn lemma_start_rule(s: GameState)
    ensures
        s.can_start() <==> (s.status == GameStatus::Idle && s.balance >= s.bet),
        s.can_start() ==> s.started().balance + s.bet == s.balance && s.started().bet == s.bet
            && s.started().status == GameStatus::Spinning && s.started().win_amount == 0,
        !s.can_start() ==> s.started() == s,
{
}

/// How each phase answers a tick.  Idle ignores every tick.  A spinning
/// machine goes over to stopping exactly when its spin time is up, and
/// then restarts the clock; whether the reels are at rest does not matter
/// to it.  A stopping machine goes back to idle exactly when every reel is
/// at rest, and then restarts the clock and releases the reels.  Only the
/// end of a round can move money.
pub proof fn lemma_tick_phases(s: GameState, ev: TickEvent)
    ensures
        s.ticked(ev).bet == s.bet,
        s.status == GameStatus::Idle ==> s.ticked(ev) == s && s.tick_action(ev) == (TickAction {
            reset_timer: false,
            release_reels: false,
        }),
        s.status == GameStatus::Spinning ==> s.ticked(ev) == (if ev.spin_time_up {
            GameState { balance: s.balance, bet: s.bet, status: GameStatus::Stopping, win_amount: s.win_amount }
        } else {
            s
        }) && s.tick_action(ev) == (TickAction { reset_timer: ev.spin_time_up, release_reels: false }),
        s.status == GameStatus::Stopping ==> (s.ticked(ev).status == GameStatus::Idle
            <==> ev.all_reels_stopped) && s.tick_action(ev) == (TickAction {
            reset_timer: ev.all_reels_stopped,
            release_reels: ev.all_reels_stopped,
        }),
        s.status == GameStatus::Stopping && !ev.all_reels_stopped ==> s.ticked(ev) == s,
        s.status == GameStatus::Stopping && ev.all_reels_stopped && ev.center_line is None
            ==> s.ticked(ev).balance == s.balance && s.ticked(ev).win_amount == s.win_amount,
{
}

/// The pay of the centre line on a bet of `bet`: three alike pay the bet
/// times 100 for sevens, 50 for diamonds, 20 for bells, 15 for
/// watermelons and 10 for cherries; any two alike (and not three) pay
/// exactly the bet; a line without a pair pays nothing and leaves the last
/// win as it was.  Paying adds the win to the balance and records it.
pub proof fn lemma_pay_rule(s: GameState, a: Symbol, b: Symbol, c: Symbol)
    ensures
        a == b && b == c ==> line_win(s.bet, a, b, c) == Some((s.bet as nat) * match a {
            Symbol::Seven => 100nat,
            Symbol::Diamond => 50nat,
            Symbol::Bell => 20nat,
            Symbol::Watermelon => 15nat,
            Symbol::Cherry => 10nat,
        }),
        (a == b || b == c || a == c) && !(a == b && b == c) ==> line_win(s.bet, a, b, c) == Some(
            s.bet as nat,
        ),
        !(a == b || b == c || a == c) ==> line_win(s.bet, a, b, c) is None,
        (a == b || b == c || a == c) && !(a == b && b == c) ==> s.settled(a, b, c) == (GameState {
            balance: (s.balance + s.bet) as u32,
            bet: s.bet,
            status: s.status,
            win_amount: s.bet,
        }),
        !(a == b || b == c || a == c) ==> s.settled(a, b, c) == s,
        line_win(s.bet, a, b, c) matches Some(w) ==> s.settled(a, b, c).win_amount == w as u32
            && s.settled(a, b, c).balance == (s.balance + w) as u32,
{
}

/// A tick that does not end the round moves no money: the balance, the bet
/// and the last win stay as they were.
pub proof fn lemma_tick_moves_no_money_mid_round(s: GameState, ev: TickEvent)
    requires
        !s.ends_round(ev),
    ensures
        s.ticked(ev).balance == s.balance,
        s.ticked(ev).bet == s.bet,
        s.ticked(ev).win_amount == s.win_amount,
{
}

/// A full round that starts from rest ends at rest with the balance equal
/// to the balance before, less the bet, plus the win; and the win is
/// nothing, the bet, or the bet times the multiplier of the left picture.
pub proof fn lemma_round_accounting(s: GameState, line: CenterLine)
    requires
        s.can_start(),
        s.started().settle_fits(line.left, line.middle, line.right),
    ensures
        ({
            let spinning = s.started();
            let stopping = spinning.ticked(
                TickEvent { spin_time_up: true, all_reels_stopped: false, center_line: None },
            );
            let done = stopping.ticked(
                TickEvent { spin_time_up: false, all_reels_stopped: true, center_line: Some(line) },
            );
            &&& spinning.status == GameStatus::Spinning
            &&& stopping.status == GameStatus::Stopping
            &&& done.status == GameStatus::Idle
            &&& done.balance == s.balance - s.bet + done.win_amount
            &&& (done.win_amount == 0 || done.win_amount == s.bet || done.win_amount == s.bet
                * line.left.multiplier())
        }),
{
}

/// The pay of the centre line does not depend on the order of the reels.
pub proof fn lemma_line_win_symmetric(bet: u32, a: Symbol, b: Symbol, c: Symbol)
    ensures
        line_win(bet, a, b, c) == line_win(bet, b, a, c),
        line_win(bet, a, b, c) == line_win(bet, a, c, b),
        line_win(bet, a, b, c) == line_win(bet, c, b, a),
{
}

/// Three alike pay at least ten bets, more than any pair; no line pays more
/// than three sevens, a hundred bets.
pub proof fn lemma_line_win_ranking(bet: u32, a: Symbol, b: Symbol, c: Symbol)
    ensures
        line_win(bet, a, a, a) matches Some(w) && w >= 10 * bet,
        line_win(bet, a, b, c) matches Some(w) ==> w <= 100 * bet,
        line_win(bet, Symbol::Seven, Symbol::Seven, Symbol::Seven) == Some(100 * (bet as nat)),
        !(a == b && b == c) ==> (line_win(bet, a, b, c) matches Some(w) ==> w == bet),
{
}

/// The status goes round in one direction: idle, spinning, stopping, idle.
/// A tick never leaves idle, and only a start does; a start moves nothing
/// but an idle machine.
pub proof fn lemma_status_cycle(s: GameState, ev: TickEvent)
    ensures
        s.status == GameStatus::Idle ==> s.ticked(ev).status == GameStatus::Idle,
        s.status == GameStatus::Spinning ==> s.ticked(ev).status == GameStatus::Spinning
            || s.ticked(ev).status == GameStatus::Stopping,
        s.status == GameStatus::Stopping ==> s.ticked(ev).status == GameStatus::Stopping
            || s.ticked(ev).status == GameStatus::Idle,
        s.status != GameStatus::Idle ==> s.started() == s,
        s.status == GameStatus::Idle ==> s.started().status == GameStatus::Spinning
            || s.started() == s,
{
}

} // verus!
