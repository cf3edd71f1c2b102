//! When the programs run that the listener set up.
use vstd::prelude::*;

use crate::effect::EffectView;
use crate::laws::turn_of;
use crate::player::{Event, Phase, PlayerInternal};

verus! {

/// Whether a track plays or is about to: it is loaded, and its sink was asked to start.
pub open spec fn on_air<D, S>(player: PlayerInternal<D, S>) -> bool {
    player.state is Playing || player.phase is Announce || (player.phase matches Phase::Sink(next)
        && next is Load)
}

/// Whether an event ends a load with nothing to play.
pub open spec fn load_fails<D, S>(player: PlayerInternal<D, S>, event: Event<D, S>) -> bool {
    player.phase matches Phase::Load { loader, .. } && (event matches Event::Load(reply)
        && loader.after(reply).1 is Unavailable)
}

/// The programs that effects run, in order.
pub open spec fn programs<D, S>(effects: Seq<EffectView<D, S>>) -> Seq<Seq<char>>
    decreases effects.len(),
{
    if effects.len() == 0 {
        seq![]
    } else {
        match effects.last() {
            EffectView::RunProgram(program) => programs(effects.drop_last()).push(program),
            _ => programs(effects.drop_last()),
        }
    }
}

broadcast proof fn lemma_programs_push<D, S>(
    effects: Seq<EffectView<D, S>>,
    effect: EffectView<D, S>,
)
    ensures
        #[trigger] programs(effects.push(effect)) == (match effect {
            EffectView::RunProgram(program) => programs(effects).push(program),
            _ => programs(effects),
        }),
{
    assert(effects.push(effect).drop_last() =~= effects);
}

/// A program that may be set up, as the programs to run.
pub open spec fn program_of(program: Option<String>) -> Seq<Seq<char>> {
    match program {
        Some(program) => seq![program@],
        None => seq![],
    }
}

/// The program for the start of playing runs exactly when a track goes on air, and the one for
/// the end exactly when it goes off air or a load fails while it is on.
pub proof fn programs_follow_playing<D, S>(player: PlayerInternal<D, S>, event: Event<D, S>)
    requires
        player.wf(),
        player.answered_by(event),
    ensures
        ({
            let turn = turn_of(player, event);
            let starts = !on_air(player) && on_air(turn.player);
            let ends = on_air(player) && (!on_air(turn.player) || load_fails(player, event));
            programs(turn.effects) == if starts {
                program_of(player.config.onstart)
            } else if ends {
                program_of(player.config.onstop)
            } else {
                Seq::<Seq<char>>::empty()
            }
        }),
{
    broadcast use lemma_programs_push;

    reveal(turn_of);
}

} // verus!
