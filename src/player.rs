use vstd::prelude::*;

use crate::traits::Movable;
use crate::utils::{origin, shift_fits, shifted, Point};

verus! {

/// What a player can be told to do.
#[derive(Debug)]
pub enum PlayerAction {
    /// Move by the given displacement; none means standing still.
    Move(Option<Point<i64>>),
    /// Say the given text.
    Talk(String),
}

/// The resources a player holds.
#[derive(Debug)]
pub struct Balance {
    energy: u32,
    pub coins: u32,
    pub gems: u32,
}

/// A player's sex.
#[derive(Debug)]
pub enum Sex {
    Male,
    Female,
}

/// A game entity with a level, resources and a position.
#[derive(Debug)]
pub struct Player {
    pub lvl: u32,
    pub balance: Balance,
    pub sex: Sex,
    pub pos: Point<i64>,
}

impl Balance {
    /// The energy held, which only the player itself can change.
    pub closed spec fn energy_level(&self) -> u32 {
        self.energy
    }

    /// The coins held.
    pub closed spec fn coin_count(&self) -> u32 {
        self.coins
    }

    /// The gems held.
    pub closed spec fn gem_count(&self) -> u32 {
        self.gems
    }
}

/// The line a player says when talking `text`.
pub open spec fn talk_line(text: Seq<char>) -> Seq<char> {
    "Player talk: "@ + text
}

/// How far an action moves a player.
pub open spec fn displacement(action: PlayerAction) -> Point<i64> {
    match action {
        PlayerAction::Move(Some(p)) => p,
        _ => origin(),
    }
}

/// Whether the coordinates of `p` still fit after `action`.
pub open spec fn action_fits(p: Point<i64>, action: PlayerAction) -> bool {
    shift_fits(p, displacement(action).x as int, displacement(action).y as int)
}

/// How far a run of actions moves a player along x, summed.
pub open spec fn total_dx(actions: Seq<PlayerAction>) -> int
    decreases actions.len(),
{
    if actions.len() == 0 {
        0
    } else {
        total_dx(actions.drop_last()) + displacement(actions.last()).x
    }
}

/// How far a run of actions moves a player along y, summed.
pub open spec fn total_dy(actions: Seq<PlayerAction>) -> int
    decreases actions.len(),
{
    if actions.len() == 0 {
        0
    } else {
        total_dy(actions.drop_last()) + displacement(actions.last()).y
    }
}

/// Whether a player at `p` keeps coordinates that fit in `i64` all through `actions`.
pub open spec fn actions_fit(p: Point<i64>, actions: Seq<PlayerAction>) -> bool {
    forall|k: int|
        #![trigger actions.take(k)]
        0 <= k <= actions.len() ==> shift_fits(
            p,
            total_dx(actions.take(k)),
            total_dy(actions.take(k)),
        )
}

/// The lines said along a run of actions, one for each `Talk`, in order.
pub open spec fn talk_lines(actions: Seq<PlayerAction>) -> Seq<Seq<char>>
    decreases actions.len(),
{
    if actions.len() == 0 {
        Seq::empty()
    } else {
        let earlier = talk_lines(actions.drop_last());
        match actions.last() {
            PlayerAction::Talk(t) => earlier.push(talk_line(t@)),
            PlayerAction::Move(_) => earlier,
        }
    }
}

/// Carrying out `a` and then `b` moves a player as far as the two runs apart, added up.
pub proof fn lemma_moves_add_up(a: Seq<PlayerAction>, b: Seq<PlayerAction>)
    ensures
        total_dx(a + b) == total_dx(a) + total_dx(b),
        total_dy(a + b) == total_dy(a) + total_dy(b),
    decreases b.len(),
{
    if b.len() > 0 {
        lemma_moves_add_up(a, b.drop_last());
        assert((a + b).drop_last() =~= a + b.drop_last());
        assert((a + b).last() == b.last());
    } else {
        assert(a + b =~= a);
    }
}

impl Player {
    /// The player after `action`.
    pub open spec fn acted(self, action: PlayerAction) -> Player {
        let d = displacement(action);
        Player { pos: shifted(self.pos, d.x as int, d.y as int), ..self }
    }

    /// A fresh player: level 0, energy 100, no coins or gems, male, at the origin.
    pub fn new() -> (p: Self)
        ensures
            p.lvl == 0,
            p.balance.energy_level() == 100,
            p.balance.coin_count() == 0,
            p.balance.gem_count() == 0,
            p.sex == Sex::Male,
            p.pos == origin(),
    {
        let balance = Balance { energy: 100, coins: 0, gems: 0 };
        Player { lvl: 0, balance, sex: Sex::Male, pos: Point::zero() }
    }

    /// The energy the player holds.
    pub fn get_energy(&self) -> (r: u32)
        ensures
            r == self.balance.energy_level(),
    {
        self.balance.energy
    }

    /// Carries out `action`, returning the line said for a `Talk`.
    pub fn do_action(&mut self, action: &PlayerAction) -> (said: Option<String>)
        requires
            action_fits(old(self).pos, *action),
        ensures
            *final(self) == old(self).acted(*action),
            *action == PlayerAction::Move(None) ==> *final(self) == *old(self),
            action is Talk ==> *final(self) == *old(self),
            match *action {
                PlayerAction::Talk(t) => said matches Some(l) && l@ == talk_line(t@),
                PlayerAction::Move(_) => said is None,
            },
    {
        match action {
            PlayerAction::Move(p) => {
                let by_pos = match p {
                    Some(q) => *q,
                    None => Point::zero(),
                };
                self.move_by(by_pos.x, by_pos.y);
                None
            },
            PlayerAction::Talk(text) => Some(self.do_talk(text.clone())),
        }
    }

    /// Carries out `actions` in order, returning the lines said along the way.
    pub fn do_actions(&mut self, actions: &Vec<PlayerAction>) -> (said: Vec<String>)
        requires
            actions_fit(old(self).pos, actions@),
        ensures
            *final(self) == (Player {
                pos: shifted(old(self).pos, total_dx(actions@), total_dy(actions@)),
                ..*old(self)
            }),
            said@.map_values(|l: String| l@) == talk_lines(actions@),
    {
        let mut said: Vec<String> = Vec::new();
        let ghost start = *self;
        let mut i: usize = 0;
        while i < actions.len()
            invariant
                i <= actions.len(),
                start == *old(self),
                actions_fit(start.pos, actions@),
                *self == (Player {
                    pos: shifted(start.pos, total_dx(actions@.take(i as int)), total_dy(actions@.take(i as int))),
                    ..start
                }),
                said@.map_values(|l: String| l@) == talk_lines(actions@.take(i as int)),
            decreases actions.len() - i,
        {
            let ghost before = actions@.take(i as int);
            let ghost after = actions@.take(i + 1);
            assert(after.drop_last() =~= before);
            assert(after.last() == actions@[i as int]);
            assert(shift_fits(start.pos, total_dx(before), total_dy(before)));
            assert(shift_fits(start.pos, total_dx(after), total_dy(after)));
            match self.do_action(&actions[i]) {
                Some(line) => {
                    said.push(line);
                },
                None => {},
            }
            assert(said@.map_values(|l: String| l@) =~= talk_lines(after));
            i = i + 1;
        }
        assert(actions@.take(actions.len() as int) =~= actions@);
        said
    }

    /// The line said when talking `text`; the player is left as it was.
    pub fn do_talk(&mut self, text: String) -> (line: String)
        ensures
            *final(self) == *old(self),
            line@ == talk_line(text@),
    {
        let mut line = String::from_str("Player talk: ");
        line.append(text.as_str());
        line
    }
}

impl Movable for Player {
    open spec fn location(&self) -> Point<i64> {
        self.pos
    }

    open spec fn placed_at(&self, p: Point<i64>) -> Player {
        Player { pos: p, ..*self }
    }

    fn move_by(&mut self, x: i64, y: i64) {
        self.pos.x = self.pos.x + x;
        self.pos.y = self.pos.y + y;
    }

    fn move_to(&mut self, x: i64, y: i64) {
        self.pos.x = x;
        self.pos.y = y;
    }
}

} // verus!
