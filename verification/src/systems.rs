//! What happens in a frame, as functions from state and input to state and
//! action. The host reads the keys and the clock, calls these, and carries
//! out what they return: it draws, and it sends what is due to the store.

use vstd::prelude::*;
use crate::health::Health;
use crate::player::{DirectionFlags, Player, PlayerView};
use crate::resources::{GameState, GameStateView};
use crate::states::{AppState, ButtonResponse, GameOverButton, Interaction};
use crate::timer::{lemma_fires_on_the_crossing_tick, total};
use crate::types::Snapshot;

verus! {

impl GameStateView {
    /// The session context after a frame in which `before` was the entity
    /// at its start: if the frame counts as movement, the entity as it is at
    /// the end of the frame is recorded and the quiet period starts again;
    /// then the frame's time passes.
    pub open spec fn frame(self, before: PlayerView, input: DirectionFlags, dt: nat)
        -> GameStateView {
        if before.moved(input) {
            self.record(before.advance(input, dt)).tick(dt)
        } else {
            self.tick(dt)
        }
    }

    /// The session context after a run of frames in which nothing moved,
    /// given by their lengths, oldest first.
    pub open spec fn quiet_frames(self, dts: Seq<nat>) -> GameStateView
        decreases dts.len(),
    {
        if dts.len() == 0 {
            self
        } else {
            self.quiet_frames(dts.drop_last()).tick(dts.last())
        }
    }
}

/// A frame in which nothing moves changes nothing about the entity, and in
/// the context only the timer.
pub proof fn lemma_quiet_frame(gs: GameStateView, p: PlayerView, input: DirectionFlags, dt: nat)
    requires
        !p.moved(input),
    ensures
        p.advance(input, dt) == p,
        gs.frame(p, input, dt) == gs.tick(dt),
        gs.frame(p, input, dt).snapshot() == gs.snapshot(),
{
}

/// The last movement is sent, once, and as it was: after a frame of
/// movement and any run of frames in which nothing moves, the context still
/// holds the entity as the movement left it, and a synchronisation is due
/// exactly when the last of these frames is the one with which the quiet
/// time, the moving frame's own length included, reaches the timer's
/// duration. What is sent then is that recorded state.
pub proof fn lemma_last_movement_is_sent_once(
    gs: GameStateView,
    p: PlayerView,
    input: DirectionFlags,
    dt: nat,
    quiet: Seq<nat>,
)
    requires
        p.moved(input),
    ensures
        ({
            let after = gs.frame(p, input, dt).quiet_frames(quiet);
            let ticks = seq![dt] + quiet;
            let moved_to = p.advance(input, dt);
            &&& after.mirrors(moved_to)
            &&& after.timer == gs.timer.on_movement().run(ticks)
            &&& after.due() <==> total(ticks) >= gs.timer.duration && (quiet.len() == 0 || total(
                ticks.drop_last(),
            ) < gs.timer.duration)
            &&& after.outgoing() == if after.due() {
                Some(gs.record(moved_to).snapshot())
            } else {
                None
            }
        }),
    decreases quiet.len(),
{
    let ticks = seq![dt] + quiet;
    if quiet.len() == 0 {
        assert(ticks == seq![dt]);
        assert(ticks.drop_last() == Seq::<nat>::empty());
        assert(gs.timer.on_movement().run(ticks.drop_last()) == gs.timer.on_movement());
    } else {
        lemma_last_movement_is_sent_once(gs, p, input, dt, quiet.drop_last());
        assert(ticks.drop_last() == seq![dt] + quiet.drop_last());
    }
    lemma_fires_on_the_crossing_tick(gs.timer, ticks);
}

/// Starts a session: an entity at the origin with `max_health` sub-units of
/// health, all of them left, and a context that mirrors it, with an idle
/// timer for a quiet period of `quiet` ticks.
pub fn setup(max_health: u64, quiet: u64) -> (r: (Player, GameState))
    ensures
        r.0@ == PlayerView::spawn(max_health as nat),
        r.1@ == GameStateView::initial(r.0@, quiet as nat),
        r.1@.mirrors(r.0@),
        !r.1@.due(),
{
    let player = Player::spawn(max_health);
    let game_state = GameState::new(&player, quiet);
    (player, game_state)
}

/// One frame of `dt` ticks with the directions of `input` held.
///
/// The entity moves and, if the frame counts as movement, loses health and
/// has its new state recorded in the context, which restarts the quiet
/// period. Then the frame's time passes on the timer. What is returned is
/// what the host has to send to the store: the recorded state, in the one
/// frame that completes a quiet period, and nothing in any other.
///
/// A context that mirrored the entity before the frame mirrors it after, so
/// what is sent is the entity as it is.
pub fn character_movement(
    player: &mut Player,
    input: DirectionFlags,
    dt: u64,
    game_state: &mut GameState,
) -> (sync: Option<Snapshot>)
    ensures
        final(player)@ == old(player)@.advance(input, dt as nat),
        final(game_state)@ == old(game_state)@.frame(old(player)@, input, dt as nat),
        sync is Some <==> final(game_state)@.due(),
        sync matches Some(s) ==> s@ == final(game_state)@.snapshot(),
        old(game_state)@.mirrors(old(player)@) ==> final(game_state)@.mirrors(final(player)@),
        !old(player)@.moved(input) ==> final(player)@ == old(player)@,
{
    let has_moved = player.apply_movement(input, dt);
    player.apply_decay(dt, has_moved);
    if has_moved {
        game_state.record(player);
    }
    game_state.tick(dt)
}

/// The width of the health bar, in hundredths of a percent: `current / max`
/// on a scale from 0 to 10 000, rounded to the nearest integer.
pub fn update_health_bar(health: &Health) -> (fill: u16)
    ensures
        fill == health@.bar_fill(),
        fill <= crate::health::BAR_FULL,
{
    health.ratio(crate::health::BAR_FULL)
}

/// Looks at the entity at the end of a frame: play ends when it is found
/// defeated.
pub fn check_game_over(player: &Player, state: AppState) -> (next: AppState)
    ensures
        next == state.observe(player@.lifecycle()),
{
    state.observed(player.lifecycle())
}

/// Handles one interaction with a button of the game-over screen.
///
/// Returns what the host has to do and the state that follows. Pressing
/// restart replaces the entity by a newly spawned one with the same maximum
/// health and leads back to play; nothing else touches the entity or the
/// state. While the game is being played every interaction is ignored.
pub fn handle_game_over_buttons(
    state: AppState,
    interaction: Interaction,
    button: GameOverButton,
    player: &mut Player,
) -> (r: (ButtonResponse, AppState))
    ensures
        r.0 == state.respond(interaction, button),
        r.1 == state.after(r.0),
        r.0 == ButtonResponse::Restart ==> final(player)@ == PlayerView::spawn(
            old(player)@.health.max,
        ),
        r.0 != ButtonResponse::Restart ==> final(player)@ == old(player)@,
{
    let response = state.response(interaction, button);
    match response {
        ButtonResponse::Restart => {
            *player = Player::spawn(player.health().max());
            (response, AppState::Playing)
        },
        _ => (response, state),
    }
}

} // verus!
