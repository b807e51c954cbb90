//! The aggregate game state and its per-tick transition: the one place that
//! moves every actor, consumes coins, scores them, and decides the lose
//! condition, in a fixed documented order.

use vstd::prelude::*;
use crate::game_objects::Character;
use crate::game_objects::chase_step;
use crate::game_objects::coin_value;
use crate::game_objects::Coin;
use crate::game_objects::Direction;
use crate::game_objects::lemma_chase_step_approaches;
use crate::game_objects::manhattan;
use crate::game_objects::Player;
use crate::game_objects::Point;
use crate::game_objects::Spectre;
use crate::game_objects::steppable;
use crate::input::Command;
use crate::menu::MainMenu;
use crate::menu::menu_wf;
use crate::menu::MenuBuilder;
use crate::menu::MenuObject;
use crate::menu::MenuV;
use vstd::pervasive::unreached;

verus! {

/// Height of the default playfield, in terminal lines.
pub const PLAYFIELD_LINES: i32 = 20;

/// Width of the default playfield, in terminal columns.
pub const PLAYFIELD_COLS: i32 = 32;

/// The largest playfield dimension the game accepts.
pub const MAX_DIM: i32 = 10000;

/// The most coins a layout may hold.
pub const MAX_COINS: usize = 100000;

/// True when `p` lies on the playfield of the given dimensions.
pub open spec fn in_bounds(p: Point, width: i32, height: i32) -> bool {
    &&& 0 <= p.x < width
    &&& 0 <= p.y < height
}

/// Check whether a point lies on the playfield.
pub fn point_in_bounds(p: Point, width: i32, height: i32) -> (r: bool)
    ensures
        r == in_bounds(p, width, height),
{
    0 <= p.x && p.x < width && 0 <= p.y && p.y < height
}

/// What one tick does to one spectre: it learns the player's position and
/// takes the pursuit step toward it, unless that step would leave the
/// playfield, in which case it stays where it stands.
pub open spec fn spectre_step(g: Spectre, toward: Point, width: i32, height: i32) -> Spectre {
    let n = chase_step(g.coords, toward);
    Spectre { coords: if in_bounds(n, width, height) { n } else { g.coords }, target: toward }
}

/// What one tick does to the player: it moves one cell along the buffered
/// heading, unless no command has arrived yet or the move would leave the
/// playfield; an illegal move is absorbed silently and the player stays put.
pub open spec fn player_step(p: Player, width: i32, height: i32) -> Player {
    let n = p.next_position();
    if in_bounds(n, width, height) {
        Player { coords: n, heading: p.heading }
    } else {
        p
    }
}

/// The coins that survive the player standing at `p`: all of them but those
/// lying exactly on `p`, in their original order.
pub open spec fn remaining_coins(s: Seq<Coin>, p: Point) -> Seq<Coin>
    decreases s.len(),
{
    if s.len() == 0 {
        Seq::empty()
    } else if s.last().coords == p {
        remaining_coins(s.drop_last(), p)
    } else {
        remaining_coins(s.drop_last(), p).push(s.last())
    }
}

/// The score the player gains standing at `p`: the summed value of every
/// coin lying exactly on `p`.
pub open spec fn coin_gain(s: Seq<Coin>, p: Point) -> int
    decreases s.len(),
{
    if s.len() == 0 {
        0
    } else if s.last().coords == p {
        coin_gain(s.drop_last(), p) + coin_value(s.last())
    } else {
        coin_gain(s.drop_last(), p)
    }
}

/// The summed value of a collection of coins.
pub open spec fn total_coin_value(s: Seq<Coin>) -> int
    decreases s.len(),
{
    if s.len() == 0 {
        0
    } else {
        total_coin_value(s.drop_last()) + coin_value(s.last())
    }
}

/// True when some spectre stands exactly on `p`.
pub open spec fn caught(spectres: Seq<Spectre>, p: Point) -> bool {
    exists|i: int| 0 <= i < spectres.len() && spectres[i].coords == p
}

/// The mathematical state of the whole game.
#[verifier::ext_equal]
pub struct GameStateV {
    /// The player.
    pub player: Player,
    /// The pursuers, in a fixed order.
    pub spectres: Seq<Spectre>,
    /// The coins still on the field, in their layout order.
    pub coins: Seq<Coin>,
    /// Whether the game is paused; a paused game does not advance.
    pub paused: bool,
    /// Whether a spectre has caught the player.
    pub lost: bool,
    /// The points scored so far.
    pub score: int,
    /// Playfield width.
    pub width: i32,
    /// Playfield height.
    pub height: i32,
    /// The menu shown over the game.
    pub menu: MenuV,
}

/// The well-formedness of a game state: sane dimensions, every actor and
/// coin on the field, a non-negative score that cannot overflow even if
/// every remaining coin is collected, a bounded coin count, and a menu whose
/// cursor addresses an entry.
pub open spec fn state_wf(v: GameStateV) -> bool {
    &&& 0 < v.width <= MAX_DIM
    &&& 0 < v.height <= MAX_DIM
    &&& in_bounds(v.player.coords, v.width, v.height)
    &&& forall|i: int|
        0 <= i < v.spectres.len() ==> in_bounds(#[trigger] v.spectres[i].coords, v.width, v.height)
    &&& forall|i: int|
        0 <= i < v.coins.len() ==> in_bounds(#[trigger] v.coins[i].coords, v.width, v.height)
    &&& v.coins.len() <= MAX_COINS
    &&& 0 <= v.score
    &&& v.score + total_coin_value(v.coins) <= u64::MAX
    &&& menu_wf(v.menu)
}

/// What one tick does to the whole game, in this order: nothing at all when
/// paused; otherwise every spectre learns the player's position and takes
/// its guarded pursuit step, then the player takes their guarded step along
/// the buffered heading, then every coin under the player's new position is
/// removed and scored, and finally the game is lost if a spectre stands on
/// the player's new position.
pub open spec fn ticked(v: GameStateV) -> GameStateV {
    if v.paused {
        v
    } else {
        let seen = v.player.coords;
        let spectres = v.spectres.map_values(|g: Spectre| spectre_step(g, seen, v.width, v.height));
        let player = player_step(v.player, v.width, v.height);
        GameStateV {
            player,
            spectres,
            coins: remaining_coins(v.coins, player.coords),
            score: v.score + coin_gain(v.coins, player.coords),
            lost: v.lost || caught(spectres, player.coords),
            ..v
        }
    }
}

/// What applying one command does to the game, before the tick that follows
/// it: a movement command becomes the player's buffered heading, pause
/// toggles the paused flag, and quit and unrecognized keys change nothing
/// (quit is the main loop's decision, not the state's).
pub open spec fn applied(v: GameStateV, c: Command) -> GameStateV {
    match c {
        Command::Move(d) => GameStateV {
            player: Player { coords: v.player.coords, heading: Some(d) },
            ..v
        },
        Command::Pause => GameStateV { paused: !v.paused, ..v },
        Command::Quit => v,
        Command::Unrecognized => v,
    }
}

/// One iteration of the main loop, given the command it received: on quit
/// the state is left alone and the loop is told to terminate; on anything
/// else the command is applied, one tick runs, and the loop goes on.
pub open spec fn stepped(v: GameStateV, c: Command) -> (GameStateV, bool) {
    if c is Quit {
        (v, true)
    } else {
        (ticked(applied(v, c)), false)
    }
}

/// Where a whole queue of commands, delivered in order, takes the game:
/// commands are consumed from the front, each followed by its tick, until
/// the queue is empty or a quit command terminates the loop.  The second
/// component says whether quit was reached.
pub open spec fn run(v: GameStateV, cmds: Seq<Command>) -> (GameStateV, bool)
    decreases cmds.len(),
{
    if cmds.len() == 0 {
        (v, false)
    } else if cmds[0] is Quit {
        (v, true)
    } else {
        run(ticked(applied(v, cmds[0])), cmds.skip(1))
    }
}

/// Delivering commands in FIFO order is compositional: a queue processed in
/// two batches, one command after the other, ends exactly where the whole
/// queue processed at once ends.  Together with `run` being a function of
/// the ordered queue alone, this pins down that the observed order of
/// enqueued commands fully determines the resulting state.
pub proof fn lemma_run_append(v: GameStateV, a: Seq<Command>, b: Seq<Command>)
    requires
        !a.contains(Command::Quit),
    ensures
        run(v, a + b) == run(run(v, a).0, b),
    decreases a.len(),
{
    if a.len() == 0 {
        assert(a + b =~= b);
    } else {
        assert(a[0] != Command::Quit);
        assert((a + b)[0] == a[0]);
        let v1 = ticked(applied(v, a[0]));
        assert((a + b).skip(1) =~= a.skip(1) + b);
        assert(!a.skip(1).contains(Command::Quit)) by {
            assert forall|i: int| 0 <= i < a.skip(1).len() implies a.skip(1)[i]
                != Command::Quit by {
                assert(a.skip(1)[i] == a[i + 1]);
            }
        }
        lemma_run_append(v1, a.skip(1), b);
        assert(run(v, a).0 == run(v1, a.skip(1)).0);
    }
}

/// Coins shrink monotonically: a tick never adds a coin, and every coin
/// that survives it already lay on the field before it.
pub proof fn lemma_coins_never_regrow(v: GameStateV)
    ensures
        ticked(v).coins.len() <= v.coins.len(),
        forall|i: int|
            0 <= i < ticked(v).coins.len() ==> v.coins.contains(#[trigger] ticked(v).coins[i]),
{
    if v.paused {
        assert forall|i: int| 0 <= i < ticked(v).coins.len() implies v.coins.contains(
            #[trigger] ticked(v).coins[i],
        ) by {
            assert(v.coins[i] == ticked(v).coins[i]);
        }
    } else {
        lemma_remaining_coins_subset(v.coins, player_step(v.player, v.width, v.height).coords);
    }
}

/// A spectre whose pursuit step stays on the field moves exactly one cell
/// in a tick.
pub proof fn lemma_spectre_moves_one_step(g: Spectre, toward: Point, width: i32, height: i32)
    requires
        steppable(g.coords),
        in_bounds(chase_step(g.coords, toward), width, height),
    ensures
        manhattan(spectre_step(g, toward, width, height).coords, g.coords) == 1,
{
    lemma_chase_step_approaches(g.coords, toward);
}

/// Every coin that survives the player's visit was on the field before it.
proof fn lemma_remaining_coins_subset(s: Seq<Coin>, p: Point)
    ensures
        remaining_coins(s, p).len() <= s.len(),
        forall|i: int|
            0 <= i < remaining_coins(s, p).len() ==> s.contains(#[trigger] remaining_coins(s, p)[i]),
    decreases s.len(),
{
    if s.len() > 0 {
        lemma_remaining_coins_subset(s.drop_last(), p);
        assert forall|i: int| 0 <= i < remaining_coins(s, p).len() implies s.contains(
            #[trigger] remaining_coins(s, p)[i],
        ) by {
            let r = remaining_coins(s, p);
            let rd = remaining_coins(s.drop_last(), p);
            if i < rd.len() {
                let j = choose|j: int| 0 <= j < s.drop_last().len() && s.drop_last()[j] == rd[i];
                assert(s[j] == rd[i]);
            } else {
                assert(r[i] == s.last());
                assert(s[s.len() - 1] == s.last());
            }
        }
    }
}

/// Scoring is conservative: the gain is non-negative, and what the player
/// gains plus what is left on the field is exactly what was on the field.
proof fn lemma_coin_accounting(s: Seq<Coin>, p: Point)
    ensures
        0 <= coin_gain(s, p),
        0 <= total_coin_value(remaining_coins(s, p)),
        total_coin_value(s) == coin_gain(s, p) + total_coin_value(remaining_coins(s, p)),
    decreases s.len(),
{
    if s.len() > 0 {
        lemma_coin_accounting(s.drop_last(), p);
        if s.last().coords != p {
            let rd = remaining_coins(s.drop_last(), p);
            assert(remaining_coins(s, p) == rd.push(s.last()));
            assert(rd.push(s.last()).drop_last() =~= rd);
            assert(total_coin_value(rd.push(s.last())) == total_coin_value(rd) + coin_value(
                s.last(),
            ));
        }
    }
}

/// The authoritative game state: the player, the pursuers, the coins, the
/// pause and lose flags, the score, the playfield dimensions, and the menu.
///
/// The state has a single owner, the main loop.  The input listener never
/// touches it: it only classifies keys into commands and enqueues them, so
/// no part of the state needs a lock.
pub struct GameState {
    player: Player,
    spectres: Vec<Spectre>,
    coins: Vec<Coin>,
    paused: bool,
    lost: bool,
    score: u64,
    width: i32,
    height: i32,
    menu: MainMenu,
}

impl View for GameState {
    type V = GameStateV;

    closed spec fn view(&self) -> GameStateV {
        GameStateV {
            player: self.player,
            spectres: self.spectres@,
            coins: self.coins@,
            paused: self.paused,
            lost: self.lost,
            score: self.score as int,
            width: self.width,
            height: self.height,
            menu: self.menu@,
        }
    }
}

/// The default menu: the root menu the game starts with.
pub open spec fn default_menu_v() -> MenuV {
    MenuV {
        index: 0,
        title: "Rusman"@,
        items: seq![MenuObject::StringLeaf, MenuObject::SubMenu, MenuObject::StringLeaf],
    }
}

/// The four spectres of the default layout, on their distinct fixed start
/// cells around the middle of the field.
pub open spec fn default_spectres() -> Seq<Spectre> {
    seq![
        Spectre { coords: Point { x: 14, y: 8 }, target: Point { x: 0, y: 0 } },
        Spectre { coords: Point { x: 16, y: 8 }, target: Point { x: 0, y: 0 } },
        Spectre { coords: Point { x: 14, y: 10 }, target: Point { x: 0, y: 0 } },
        Spectre { coords: Point { x: 16, y: 10 }, target: Point { x: 0, y: 0 } },
    ]
}

/// How many coins the default layout holds: a 15 by 9 grid.
pub const DEFAULT_COIN_COUNT: usize = 135;

/// The `k`-th coin of the default layout: the pellet grid covers every
/// second cell from (2, 2) to (30, 18), row by row, and the four corners of
/// the grid hold the big coins.
pub open spec fn default_coin(k: int) -> Coin {
    Coin {
        coords: Point { x: (2 + 2 * (k % 15)) as i32, y: (2 + 2 * (k / 15)) as i32 },
        big: k == 0 || k == 14 || k == 120 || k == 134,
    }
}

impl GameState {
    /// The well-formedness of this game state.
    pub open spec fn wf(&self) -> bool {
        state_wf(self@)
    }

    /// Build the default menu.
    fn default_menu() -> (m: MainMenu)
        ensures
            m@ == default_menu_v(),
            m.wf(),
    {
        proof {
            reveal_strlit("Rusman");
        }
        let items: Vec<MenuObject> = vec![
            MenuObject::StringLeaf,
            MenuObject::SubMenu,
            MenuObject::StringLeaf,
        ];
        let mut builder = match MenuBuilder::new() {
            Ok(b) => b,
            Err(_) => unreached(),
        };
        builder.title("Rusman");
        builder.items(items);
        match builder.build() {
            Ok(m) => m,
            Err(_) => unreached(),
        }
    }

    /// The default coin layout.
    fn default_coins() -> (coins: Vec<Coin>)
        ensures
            coins@.len() == DEFAULT_COIN_COUNT,
            forall|k: int| 0 <= k < DEFAULT_COIN_COUNT ==> coins@[k] == default_coin(k),
    {
        let mut coins: Vec<Coin> = Vec::new();
        let mut k: usize = 0;
        while k < DEFAULT_COIN_COUNT
            invariant
                k <= DEFAULT_COIN_COUNT,
                coins@.len() == k,
                forall|j: int| 0 <= j < k ==> coins@[j] == default_coin(j),
            decreases DEFAULT_COIN_COUNT - k,
        {
            let ki: i32 = k as i32;
            let x: i32 = 2 + 2 * (ki % 15);
            let y: i32 = 2 + 2 * (ki / 15);
            let big: bool = k == 0 || k == 14 || k == 120 || k == 134;
            coins.push(Coin { coords: Point { x, y }, big });
            k = k + 1;
        }
        coins
    }

    /// Create a new game with the default layout: the player at (10, 10),
    /// the four spectres on their fixed cells, the full pellet grid, an
    /// unpaused game with score zero, and a freshly built root menu.
    pub fn new() -> (g: GameState)
        ensures
            g.wf(),
            g@.player == (Player { coords: Point { x: 10, y: 10 }, heading: None }),
            g@.spectres == default_spectres(),
            g@.coins.len() == DEFAULT_COIN_COUNT,
            forall|k: int| 0 <= k < DEFAULT_COIN_COUNT ==> g@.coins[k] == default_coin(k),
            g@.paused == false,
            g@.lost == false,
            g@.score == 0,
            g@.width == PLAYFIELD_COLS,
            g@.height == PLAYFIELD_LINES,
            g@.menu == default_menu_v(),
    {
        let spectres: Vec<Spectre> = vec![
            Spectre::new_at_coords(14, 8),
            Spectre::new_at_coords(16, 8),
            Spectre::new_at_coords(14, 10),
            Spectre::new_at_coords(16, 10),
        ];
        let coins: Vec<Coin> = GameState::default_coins();
        let g = GameState {
            player: Player::new_at_coords(10, 10),
            spectres,
            coins,
            paused: false,
            lost: false,
            score: 0,
            width: PLAYFIELD_COLS,
            height: PLAYFIELD_LINES,
            menu: GameState::default_menu(),
        };
        proof {
            assert(g@.spectres =~= default_spectres());
            assert forall|i: int| 0 <= i < g@.coins.len() implies in_bounds(
                #[trigger] g@.coins[i].coords,
                g@.width,
                g@.height,
            ) by {
                assert(g@.coins[i] == default_coin(i));
            }
            lemma_total_value_bound(g@.coins);
        }
        g
    }

    /// Create a game over a custom layout.  The layout is accepted exactly
    /// when the dimensions are positive and within range, every actor and
    /// coin lies on the field, and the coin count is within range; a game
    /// built from it starts unpaused, not lost, with score zero and the
    /// default menu.
    pub fn new_with_layout(
        player: Player,
        spectres: Vec<Spectre>,
        coins: Vec<Coin>,
        width: i32,
        height: i32,
    ) -> (r: Option<GameState>)
        ensures
            r is Some <==> layout_ok(player, spectres@, coins@, width, height),
            (r matches Some(g) ==> g.wf() && g@ == (GameStateV {
                player,
                spectres: spectres@,
                coins: coins@,
                paused: false,
                lost: false,
                score: 0,
                width,
                height,
                menu: default_menu_v(),
            })),
    {
        if !(0 < width && width <= MAX_DIM && 0 < height && height <= MAX_DIM) {
            return None;
        }
        if !point_in_bounds(Point { x: player.x(), y: player.y() }, width, height) {
            return None;
        }
        let mut i: usize = 0;
        while i < spectres.len()
            invariant
                i <= spectres@.len(),
                0 < width,
                0 < height,
                forall|j: int|
                    0 <= j < i ==> in_bounds(#[trigger] spectres@[j].coords, width, height),
            decreases spectres@.len() - i,
        {
            if !point_in_bounds(Point { x: spectres[i].x(), y: spectres[i].y() }, width, height) {
                return None;
            }
            i = i + 1;
        }
        if coins.len() > MAX_COINS {
            return None;
        }
        let mut i: usize = 0;
        while i < coins.len()
            invariant
                i <= coins@.len(),
                0 < width,
                0 < height,
                forall|j: int| 0 <= j < i ==> in_bounds(#[trigger] coins@[j].coords, width, height),
            decreases coins@.len() - i,
        {
            if !point_in_bounds(Point { x: coins[i].x(), y: coins[i].y() }, width, height) {
                return None;
            }
            i = i + 1;
        }
        proof {
            lemma_total_value_bound(coins@);
        }
        Some(
            GameState {
                player,
                spectres,
                coins,
                paused: false,
                lost: false,
                score: 0,
                width,
                height,
                menu: GameState::default_menu(),
            },
        )
    }

    /// Get the player.
    pub fn get_player(&self) -> (r: &Player)
        ensures
            *r == self@.player,
    {
        &self.player
    }

    /// Get the spectres, in their fixed order.
    pub fn get_spectres(&self) -> (r: &Vec<Spectre>)
        ensures
            r@ == self@.spectres,
    {
        &self.spectres
    }

    /// Get the coins still on the field, in their layout order.
    pub fn get_coins(&self) -> (r: &Vec<Coin>)
        ensures
            r@ == self@.coins,
    {
        &self.coins
    }

    /// Get the menu.
    pub fn get_menu(&self) -> (r: &MainMenu)
        ensures
            r@ == self@.menu,
    {
        &self.menu
    }

    /// Whether the game is paused.
    pub fn is_paused(&self) -> (r: bool)
        ensures
            r == self@.paused,
    {
        self.paused
    }

    /// Whether a spectre has caught the player.
    pub fn has_lost(&self) -> (r: bool)
        ensures
            r == self@.lost,
    {
        self.lost
    }

    /// The points scored so far.
    pub fn score(&self) -> (r: u64)
        ensures
            r == self@.score,
    {
        self.score
    }

    /// Playfield width.
    pub fn width(&self) -> (r: i32)
        ensures
            r == self@.width,
    {
        self.width
    }

    /// Playfield height.
    pub fn height(&self) -> (r: i32)
        ensures
            r == self@.height,
    {
        self.height
    }

    /// Apply one classified command to the state, as `applied` says: buffer
    /// a movement, toggle pause, ignore the rest.
    pub fn apply_command(&mut self, c: Command)
        requires
            old(self).wf(),
        ensures
            final(self).wf(),
            final(self)@ == applied(old(self)@, c),
    {
        match c {
            Command::Move(d) => self.player.set_direction(d),
            Command::Pause => self.paused = !self.paused,
            Command::Quit => (),
            Command::Unrecognized => (),
        }
    }

    /// Advance the game by one tick, as `ticked` says: skip entirely when
    /// paused; otherwise move every spectre, then the player, then consume
    /// and score the coins under the player, then decide the lose condition.
    pub fn tick(&mut self)
        requires
            old(self).wf(),
        ensures
            final(self).wf(),
            final(self)@ == ticked(old(self)@),
    {
        if self.paused {
            return ;
        }
        let seen: Point = Point { x: self.player.x(), y: self.player.y() };

        // (b) every spectre learns where the player stands and takes its
        // guarded pursuit step
        let ghost spectres0 = self.spectres@;
        let mut i: usize = 0;
        while i < self.spectres.len()
            invariant
                old(self).wf(),
                i <= self.spectres@.len(),
                self.spectres@.len() == spectres0.len(),
                spectres0 == old(self)@.spectres,
                seen == old(self)@.player.coords,
                self.player == old(self).player,
                self.coins == old(self).coins,
                self.paused == old(self).paused,
                self.lost == old(self).lost,
                self.score == old(self).score,
                self.width == old(self).width,
                self.height == old(self).height,
                self.menu == old(self).menu,
                forall|j: int|
                    0 <= j < i ==> self.spectres@[j] == spectre_step(
                        spectres0[j],
                        seen,
                        self.width,
                        self.height,
                    ),
                forall|j: int| i <= j < spectres0.len() ==> self.spectres@[j] == spectres0[j],
            decreases spectres0.len() - i,
        {
            let mut g: Spectre = self.spectres[i];
            proof {
                assert(g == old(self)@.spectres[i as int]);
                assert(in_bounds(old(self)@.spectres[i as int].coords, old(self)@.width, old(self)@.height));
            }
            g.set_target(seen);
            let n: Point = g.next();
            if point_in_bounds(n, self.width, self.height) {
                g.shift_to_point(n);
            }
            proof {
                assert(g == spectre_step(spectres0[i as int], seen, self.width, self.height));
            }
            self.spectres[i] = g;
            i = i + 1;
        }
        proof {
            assert(self.spectres@ =~= old(self)@.spectres.map_values(
                |g: Spectre| spectre_step(g, seen, old(self)@.width, old(self)@.height),
            ));
        }

        // (c) the player takes their guarded step along the buffered heading
        proof {
            assert(in_bounds(self.player.coords, self.width, self.height));
        }
        let pn: Point = self.player.next();
        if point_in_bounds(pn, self.width, self.height) {
            self.player.shift_to_point(pn);
        }
        proof {
            assert(self.player == player_step(old(self)@.player, self.width, self.height));
        }
        let ppos: Point = Point { x: self.player.x(), y: self.player.y() };

        // (d) every coin under the player's new position is removed and
        // scored
        let ghost coins0 = self.coins@;
        let mut kept: Vec<Coin> = Vec::new();
        let mut gain: u64 = 0;
        let mut i: usize = 0;
        proof {
            assert(coins0 == old(self)@.coins);
            assert(coins0.take(0) =~= Seq::<Coin>::empty());
            lemma_total_value_bound(coins0);
        }
        while i < self.coins.len()
            invariant
                i <= coins0.len(),
                self.coins@ == coins0,
                coins0.len() <= MAX_COINS,
                kept@ == remaining_coins(coins0.take(i as int), ppos),
                gain == coin_gain(coins0.take(i as int), ppos),
                0 <= self.score + total_coin_value(coins0) <= u64::MAX,
                self.score + gain + total_coin_value(remaining_coins(coins0.take(i as int), ppos))
                    <= self.score + total_coin_value(coins0.take(i as int)),
                total_coin_value(coins0.take(i as int)) <= total_coin_value(coins0),
            decreases coins0.len() - i,
        {
            proof {
                assert(coins0.take(i + 1).drop_last() =~= coins0.take(i as int));
                assert(coins0.take(i + 1).last() == coins0[i as int]);
                lemma_coin_accounting(coins0.take(i + 1), ppos);
                lemma_coin_accounting(coins0, ppos);
                lemma_total_take_le(coins0, i + 1);
            }
            let c: Coin = self.coins[i];
            if c.x() == ppos.x && c.y() == ppos.y {
                proof {
                    assert(c.coords == ppos);
                }
                gain = gain + c.value();
            } else {
                kept.push(c);
            }
            i = i + 1;
        }
        proof {
            assert(coins0.take(coins0.len() as int) =~= coins0);
            lemma_coin_accounting(coins0, ppos);
            lemma_remaining_coins_subset(coins0, ppos);
        }
        self.coins = kept;
        self.score = self.score + gain;

        // (e) the game is lost when a spectre stands on the player
        let mut caught_now: bool = false;
        let mut i: usize = 0;
        while i < self.spectres.len()
            invariant
                i <= self.spectres@.len(),
                caught_now == exists|j: int|
                    0 <= j < i && #[trigger] self.spectres@[j].coords == ppos,
                ppos == self.player.coords,
                self.player == player_step(old(self)@.player, old(self)@.width, old(self)@.height),
                self.spectres@ == old(self)@.spectres.map_values(
                    |g: Spectre| spectre_step(g, seen, old(self)@.width, old(self)@.height),
                ),
                seen == old(self)@.player.coords,
                self.coins@ == remaining_coins(old(self)@.coins, ppos),
                self.score as int == old(self)@.score + coin_gain(old(self)@.coins, ppos),
                self.paused == old(self).paused,
                self.lost == old(self).lost,
                self.width == old(self).width,
                self.height == old(self).height,
                self.menu == old(self).menu,
            decreases self.spectres@.len() - i,
        {
            if self.spectres[i].x() == ppos.x && self.spectres[i].y() == ppos.y {
                caught_now = true;
            }
            i = i + 1;
        }
        self.lost = self.lost || caught_now;
        proof {
            assert(caught_now == caught(self@.spectres, self@.player.coords));
            assert(self@ =~= ticked(old(self)@));
            assert forall|j: int| 0 <= j < self@.coins.len() implies in_bounds(
                #[trigger] self@.coins[j].coords,
                self@.width,
                self@.height,
            ) by {
                let c = self@.coins[j];
                assert(old(self)@.coins.contains(c));
                let k = choose|k: int| 0 <= k < old(self)@.coins.len() && old(self)@.coins[k] == c;
                assert(in_bounds(old(self)@.coins[k].coords, self@.width, self@.height));
            }
        }
    }

    /// One iteration of the main loop: apply the received command and run
    /// one tick, or terminate on quit, as `stepped` says.  Returns whether
    /// the loop has to terminate.
    pub fn step(&mut self, c: Command) -> (quit: bool)
        requires
            old(self).wf(),
        ensures
            final(self).wf(),
            (final(self)@, quit) == stepped(old(self)@, c),
    {
        match c {
            Command::Quit => true,
            _ => {
                self.apply_command(c);
                self.tick();
                false
            },
        }
    }

    /// Drain a whole queue of commands in FIFO order, one tick after each,
    /// stopping early on quit, as `run` says.  Returns whether a quit
    /// command was reached.
    pub fn run_commands(&mut self, cmds: &Vec<Command>) -> (quit: bool)
        requires
            old(self).wf(),
        ensures
            final(self).wf(),
            (final(self)@, quit) == run(old(self)@, cmds@),
    {
        let mut i: usize = 0;
        proof {
            assert(cmds@.skip(0) =~= cmds@);
        }
        while i < cmds.len()
            invariant
                i <= cmds@.len(),
                self.wf(),
                run(old(self)@, cmds@) == run(self@, cmds@.skip(i as int)),
            decreases cmds@.len() - i,
        {
            let ghost pre = self@;
            let ghost rest = cmds@.skip(i as int);
            proof {
                assert(rest[0] == cmds@[i as int]);
                assert(rest.skip(1) =~= cmds@.skip(i + 1));
            }
            let c: Command = cmds[i];
            let quit: bool = self.step(c);
            if quit {
                proof {
                    assert(run(pre, rest) == (pre, true));
                }
                return true;
            }
            proof {
                assert(self@ == ticked(applied(pre, c)));
                assert(run(pre, rest) == run(self@, rest.skip(1)));
            }
            i = i + 1;
        }
        proof {
            assert(cmds@.skip(cmds@.len() as int) =~= Seq::<Command>::empty());
        }
        false
    }
}

/// Whether a custom layout is acceptable: positive in-range dimensions,
/// every actor and coin on the field, and a coin count within range.
pub open spec fn layout_ok(
    player: Player,
    spectres: Seq<Spectre>,
    coins: Seq<Coin>,
    width: i32,
    height: i32,
) -> bool {
    &&& 0 < width <= MAX_DIM
    &&& 0 < height <= MAX_DIM
    &&& in_bounds(player.coords, width, height)
    &&& forall|i: int| 0 <= i < spectres.len() ==> in_bounds(#[trigger] spectres[i].coords, width, height)
    &&& forall|i: int| 0 <= i < coins.len() ==> in_bounds(#[trigger] coins[i].coords, width, height)
    &&& coins.len() <= MAX_COINS
}

/// No collection of coins is worth more than the big value a coin apiece.
proof fn lemma_total_value_bound(s: Seq<Coin>)
    ensures
        0 <= total_coin_value(s) <= 5 * s.len(),
    decreases s.len(),
{
    if s.len() > 0 {
        lemma_total_value_bound(s.drop_last());
    }
}

/// A prefix of a coin collection is worth no more than the whole.
proof fn lemma_total_take_le(s: Seq<Coin>, k: int)
    requires
        0 <= k <= s.len(),
    ensures
        total_coin_value(s.take(k)) <= total_coin_value(s),
    decreases s.len() - k,
{
    if k < s.len() {
        lemma_total_take_le(s, k + 1);
        assert(s.take(k + 1).drop_last() =~= s.take(k));
        assert(coin_value(s.take(k + 1).last()) >= 0);
    } else {
        assert(s.take(k) =~= s);
    }
}

} // verus!
