//! How packets get from the decoder to the sink.
use vstd::prelude::*;

use crate::effect::EffectView;
use crate::laws::{
    all_answered, awaits, lemma_packet_turn, player_after, turn_of,
    turns_end_with_their_one_question, turns_keep_players_sound,
};
use crate::load::UNITY;
use crate::player::{Event, Phase, PlayerInternal, Turn};

verus! {

/// A packet that was decoded goes through the filter where there is one; what comes out is
/// multiplied by the track's factor where loudness is evened out and the factor is not one; and
/// what comes of that is written to the sink.
pub proof fn packets_are_filtered_then_scaled_then_written<D, S>(
    player: PlayerInternal<D, S>,
    packet: Vec<i16>,
    filtered: Vec<i16>,
    scaled: Vec<i16>,
)
    requires
        player.wf(),
        player.phase is Packet,
    ensures
        ({
            let factor = player.state->Playing_normalization_factor;
            let decoded = turn_of(player, Event::<D, S>::Packet(Some(packet)));
            let after_filter = if player.has_filter {
                turn_of(decoded.player, Event::<D, S>::Filtered(filtered))
            } else {
                decoded
            };
            let came_out = if player.has_filter {
                filtered
            } else {
                packet
            };
            let scales = player.config.normalization && factor != UNITY;
            let after_scale = if scales {
                turn_of(after_filter.player, Event::<D, S>::Scaled(scaled))
            } else {
                after_filter
            };
            let product = if scales {
                scaled
            } else {
                came_out
            };
            &&& player.has_filter ==> decoded.effects == seq![EffectView::<D, S>::Filter(packet)]
                && decoded.player.answered_by(Event::Filtered(filtered))
            &&& scales ==> after_filter.effects == seq![
                EffectView::<D, S>::Scale { packet: came_out, factor },
            ] && after_filter.player.answered_by(Event::Scaled(scaled))
            &&& after_scale.effects == seq![EffectView::<D, S>::Write(product)]
            &&& after_scale.player == PlayerInternal { phase: Phase::Write, ..player }
        }),
{
    let decoded = turn_of(player, Event::<D, S>::Packet(Some(packet)));
    lemma_packet_decoded(player, packet);
    if player.has_filter {
        lemma_packet_filtered(decoded.player, filtered);
        let after_filter = turn_of(decoded.player, Event::<D, S>::Filtered(filtered));
        if after_filter.player.phase is Scale {
            lemma_packet_scaled(after_filter.player, scaled);
        }
    } else if decoded.player.phase is Scale {
        lemma_packet_scaled(decoded.player, scaled);
    }
}

/// Where a packet goes that is past the filter.
spec fn past_filter<D, S>(player: PlayerInternal<D, S>, packet: Vec<i16>, factor: u32) -> Turn<
    D,
    S,
> {
    if player.config.normalization && factor != UNITY {
        Turn {
            player: PlayerInternal { phase: Phase::Scale, ..player },
            effects: seq![EffectView::Scale { packet, factor }],
        }
    } else {
        Turn {
            player: PlayerInternal { phase: Phase::Write, ..player },
            effects: seq![EffectView::Write(packet)],
        }
    }
}

proof fn lemma_packet_decoded<D, S>(player: PlayerInternal<D, S>, packet: Vec<i16>)
    requires
        player.phase is Packet,
    ensures
        ({
            let factor = player.state->Playing_normalization_factor;
            turn_of(player, Event::<D, S>::Packet(Some(packet))) == if player.has_filter {
                Turn {
                    player: PlayerInternal { phase: Phase::Filter(factor), ..player },
                    effects: seq![EffectView::Filter(packet)],
                }
            } else {
                past_filter(player, packet, factor)
            }
        }),
{
    lemma_packet_turn(player, Event::Packet(Some(packet)));
}

proof fn lemma_packet_filtered<D, S>(player: PlayerInternal<D, S>, packet: Vec<i16>)
    requires
        player.phase is Filter,
    ensures
        turn_of(player, Event::<D, S>::Filtered(packet)) == past_filter(
            player,
            packet,
            player.phase->Filter_0,
        ),
{
    reveal(turn_of);
}

proof fn lemma_packet_scaled<D, S>(player: PlayerInternal<D, S>, packet: Vec<i16>)
    requires
        player.phase is Scale,
    ensures
        turn_of(player, Event::<D, S>::Scaled(packet)) == (Turn::<D, S> {
            player: PlayerInternal { phase: Phase::Write, ..player },
            effects: seq![EffectView::Write(packet)],
        }),
{
    reveal(turn_of);
}

/// What the filter makes of each packet, and what its product with a factor is. Packets are
/// numbered as they come from the decoder, and two that are alike may come out differently.
pub ghost struct Treatment {
    pub filter: spec_fn(nat, Vec<i16>) -> Vec<i16>,
    pub scale: spec_fn(nat, Vec<i16>, u32) -> Vec<i16>,
}

/// How many packets came from the decoder once an event happened.
pub open spec fn count_after<D, S>(count: nat, event: Event<D, S>) -> nat {
    if event matches Event::Packet(Some(_)) {
        count + 1
    } else {
        count
    }
}

impl Treatment {
    /// Whether an event answers an effect as the treatment of the packet with a number has it.
    pub open spec fn followed<D, S>(
        self,
        count: nat,
        asked: EffectView<D, S>,
        event: Event<D, S>,
    ) -> bool {
        match event {
            Event::Filtered(packet) => asked matches EffectView::Filter(given) && packet == (
            self.filter)(count, given),
            Event::Scaled(packet) => asked matches EffectView::Scale { packet: given, factor }
                && packet == (self.scale)(count, given, factor),
            _ => true,
        }
    }

    /// A packet past the filter, as the sink is to get it.
    pub open spec fn scaled<D, S>(
        self,
        count: nat,
        player: PlayerInternal<D, S>,
        packet: Vec<i16>,
        factor: u32,
    ) -> Vec<i16> {
        if player.config.normalization && factor != UNITY {
            (self.scale)(count, packet, factor)
        } else {
            packet
        }
    }

    /// A packet from the decoder, as the sink is to get it.
    pub open spec fn treated<D, S>(
        self,
        count: nat,
        player: PlayerInternal<D, S>,
        packet: Vec<i16>,
        factor: u32,
    ) -> Vec<i16> {
        self.scaled(
            count,
            player,
            if player.has_filter {
                (self.filter)(count, packet)
            } else {
                packet
            },
            factor,
        )
    }

    /// The packet that an event brings from the decoder after some others, if any, as the sink
    /// is to get it.
    pub open spec fn decoded<D, S>(
        self,
        count: nat,
        player: PlayerInternal<D, S>,
        event: Event<D, S>,
    ) -> Seq<Vec<i16>> {
        match event {
            Event::Packet(Some(packet)) => seq![
                self.treated(
                    count + 1,
                    player,
                    packet,
                    player.state->Playing_normalization_factor,
                ),
            ],
            _ => seq![],
        }
    }

    /// The packet that is between decoder and sink, if any, as the sink is to get it. What the
    /// player asked for last holds it.
    pub open spec fn underway<D, S>(
        self,
        count: nat,
        player: PlayerInternal<D, S>,
        asked: EffectView<D, S>,
    ) -> Seq<Vec<i16>> {
        match player.phase {
            Phase::Filter(factor) => seq![
                self.scaled(count, player, (self.filter)(count, asked->Filter_0), factor),
            ],
            Phase::Scale => seq![
                (self.scale)(count, asked->Scale_packet, asked->Scale_factor),
            ],
            _ => seq![],
        }
    }
}

/// The packets that effects write to the sink, in order.
pub open spec fn written<D, S>(effects: Seq<EffectView<D, S>>) -> Seq<Vec<i16>>
    decreases effects.len(),
{
    if effects.len() == 0 {
        seq![]
    } else {
        match effects.last() {
            EffectView::Write(packet) => written(effects.drop_last()).push(packet),
            _ => written(effects.drop_last()),
        }
    }
}

broadcast proof fn lemma_written_push<D, S>(
    effects: Seq<EffectView<D, S>>,
    effect: EffectView<D, S>,
)
    ensures
        #[trigger] written(effects.push(effect)) == (match effect {
            EffectView::Write(packet) => written(effects).push(packet),
            _ => written(effects),
        }),
{
    assert(effects.push(effect).drop_last() =~= effects);
}

/// Whether each event of a row answers what the player asked for last as a treatment has it,
/// where so many packets came from the decoder before.
pub open spec fn all_followed<D, S>(
    count: nat,
    player: PlayerInternal<D, S>,
    asked: EffectView<D, S>,
    events: Seq<Event<D, S>>,
    treatment: Treatment,
) -> bool
    decreases events.len(),
{
    events.len() == 0 || {
        let turn = turn_of(player, events[0]);
        &&& treatment.followed(count, asked, events[0])
        &&& all_followed(
            count_after(count, events[0]),
            turn.player,
            turn.effects.last(),
            events.drop_first(),
            treatment,
        )
    }
}

/// How many packets came from the decoder after a row of events.
pub open spec fn counted_after<D, S>(count: nat, events: Seq<Event<D, S>>) -> nat
    decreases events.len(),
{
    if events.len() == 0 {
        count
    } else {
        counted_after(count_after(count, events[0]), events.drop_first())
    }
}

/// What the player asked for last after a row of events.
pub open spec fn asked_after<D, S>(
    player: PlayerInternal<D, S>,
    asked: EffectView<D, S>,
    events: Seq<Event<D, S>>,
) -> EffectView<D, S>
    decreases events.len(),
{
    if events.len() == 0 {
        asked
    } else {
        let turn = turn_of(player, events[0]);
        asked_after(turn.player, turn.effects.last(), events.drop_first())
    }
}

/// The packets that a row of events brings from the decoder after some others, in order, as the
/// sink is to get them.
pub open spec fn all_decoded<D, S>(
    count: nat,
    player: PlayerInternal<D, S>,
    events: Seq<Event<D, S>>,
    treatment: Treatment,
) -> Seq<Vec<i16>>
    decreases events.len(),
{
    if events.len() == 0 {
        seq![]
    } else {
        treatment.decoded(count, player, events[0]) + all_decoded(
            count_after(count, events[0]),
            turn_of(player, events[0]).player,
            events.drop_first(),
            treatment,
        )
    }
}

/// The packets that are written to the sink while a row of events is taken, in order.
pub open spec fn all_written<D, S>(
    player: PlayerInternal<D, S>,
    events: Seq<Event<D, S>>,
) -> Seq<Vec<i16>>
    decreases events.len(),
{
    if events.len() == 0 {
        seq![]
    } else {
        written(turn_of(player, events[0]).effects) + all_written(
            turn_of(player, events[0]).player,
            events.drop_first(),
        )
    }
}

/// From which number on the filter may still be asked for a packet.
spec fn filters_from<D, S>(count: nat, player: PlayerInternal<D, S>) -> nat {
    if player.phase is Filter {
        count
    } else {
        count + 1
    }
}

/// From which number on a product may still be asked for.
spec fn scales_from<D, S>(count: nat, player: PlayerInternal<D, S>) -> nat {
    if player.phase is Filter || player.phase is Scale {
        count
    } else {
        count + 1
    }
}

/// Whether two treatments are alike for what a player may still ask for.
spec fn alike_from<D, S>(
    count: nat,
    player: PlayerInternal<D, S>,
    one: Treatment,
    other: Treatment,
) -> bool {
    &&& forall|n: nat, packet: Vec<i16>|
        n >= filters_from(count, player) ==> #[trigger] (one.filter)(n, packet) == (other.filter)(
            n,
            packet,
        )
    &&& forall|n: nat, packet: Vec<i16>, factor: u32|
        n >= scales_from(count, player) ==> #[trigger] (one.scale)(n, packet, factor) == (
        other.scale)(n, packet, factor)
}

/// A turn leads to no question on a packet that is past it.
proof fn lemma_packets_move_on<D, S>(count: nat, player: PlayerInternal<D, S>, event: Event<D, S>)
    requires
        player.wf(),
        player.answered_by(event),
    ensures
        filters_from(count, player) <= filters_from(
            count_after(count, event),
            turn_of(player, event).player,
        ),
        scales_from(count, player) <= scales_from(
            count_after(count, event),
            turn_of(player, event).player,
        ),
        player.phase is Filter ==> !(turn_of(player, event).player.phase is Filter),
        player.phase is Scale ==> turn_of(player, event).player.phase is Write,
{
    match (player.phase, event) {
        (Phase::Packet, Event::Packet(Some(packet))) => {
            lemma_packet_decoded(player, packet);
        },
        (Phase::Filter(_), Event::Filtered(packet)) => {
            lemma_packet_filtered(player, packet);
        },
        (Phase::Scale, Event::Scaled(packet)) => {
            lemma_packet_scaled(player, packet);
        },
        _ => {
            lemma_no_packet_passes(player, event);
        },
    }
}

/// Events that follow a treatment follow any other that is alike for what is still asked for.
proof fn lemma_followed_alike<D, S>(
    count: nat,
    player: PlayerInternal<D, S>,
    asked: EffectView<D, S>,
    events: Seq<Event<D, S>>,
    one: Treatment,
    other: Treatment,
)
    requires
        player.wf(),
        all_answered(player, events),
        all_followed(count, player, asked, events, one),
        alike_from(count, player, one, other),
    ensures
        all_followed(count, player, asked, events, other),
    decreases events.len(),
{
    if events.len() > 0 {
        let turn = turn_of(player, events[0]);
        turns_keep_players_sound(player, events[0]);
        lemma_packets_move_on(count, player, events[0]);
        lemma_followed_alike(
            count_after(count, events[0]),
            turn.player,
            turn.effects.last(),
            events.drop_first(),
            one,
            other,
        );
    }
}

/// Whatever the filter and the products are, there is a treatment that they follow: nothing is
/// asked twice of a packet.
pub proof fn some_treatment_is_followed<D, S>(
    count: nat,
    player: PlayerInternal<D, S>,
    asked: EffectView<D, S>,
    events: Seq<Event<D, S>>,
) -> (treatment: Treatment)
    requires
        player.wf(),
        awaits(player, asked),
        all_answered(player, events),
    ensures
        all_followed(count, player, asked, events, treatment),
    decreases events.len(),
{
    if events.len() == 0 {
        Treatment {
            filter: |n: nat, packet: Vec<i16>| packet,
            scale: |n: nat, packet: Vec<i16>, factor: u32| packet,
        }
    } else {
        let event = events[0];
        let counted = count_after(count, event);
        let turn = turn_of(player, event);
        turns_keep_players_sound(player, event);
        turns_end_with_their_one_question(player, event);
        lemma_packets_move_on(count, player, event);
        let later = some_treatment_is_followed(
            counted,
            turn.player,
            turn.effects.last(),
            events.drop_first(),
        );
        let treatment = match event {
            Event::Filtered(packet) => Treatment {
                filter: |n: nat, given: Vec<i16>|
                    if n == count {
                        packet
                    } else {
                        (later.filter)(n, given)
                    },
                scale: later.scale,
            },
            Event::Scaled(packet) => Treatment {
                filter: later.filter,
                scale: |n: nat, given: Vec<i16>, factor: u32|
                    if n == count {
                        packet
                    } else {
                        (later.scale)(n, given, factor)
                    },
            },
            _ => later,
        };
        lemma_followed_alike(
            counted,
            turn.player,
            turn.effects.last(),
            events.drop_first(),
            later,
            treatment,
        );
        treatment
    }
}

/// A turn loses no packet and makes none up: what was under way and what the decoder gave is
/// written or under way after it.
pub proof fn turns_account_for_every_packet<D, S>(
    count: nat,
    player: PlayerInternal<D, S>,
    asked: EffectView<D, S>,
    event: Event<D, S>,
    treatment: Treatment,
)
    requires
        player.wf(),
        player.answered_by(event),
        awaits(player, asked),
        treatment.followed(count, asked, event),
    ensures
        treatment.underway(count, player, asked) + treatment.decoded(count, player, event)
            == written(turn_of(player, event).effects) + treatment.underway(
            count_after(count, event),
            turn_of(player, event).player,
            turn_of(player, event).effects.last(),
        ),
{
    match (player.phase, event) {
        (Phase::Packet, Event::Packet(Some(packet))) => {
            lemma_packet_decoded(player, packet);
        },
        (Phase::Filter(_), Event::Filtered(packet)) => {
            lemma_packet_filtered(player, packet);
        },
        (Phase::Scale, Event::Scaled(packet)) => {
            lemma_packet_scaled(player, packet);
        },
        _ => {
            lemma_no_packet_passes(player, event);
        },
    }
    reveal_with_fuel(written, 2);
}

/// Other turns write no packet and put none under way.
proof fn lemma_no_packet_passes<D, S>(player: PlayerInternal<D, S>, event: Event<D, S>)
    requires
        player.answered_by(event),
        !(player.phase is Filter || player.phase is Scale),
        !(event matches Event::Packet(packet) && packet is Some),
    ensures
        written(turn_of(player, event).effects) == Seq::<Vec<i16>>::empty(),
        !(turn_of(player, event).player.phase is Filter),
        !(turn_of(player, event).player.phase is Scale),
{
    broadcast use lemma_written_push;

    reveal(turn_of);
}

/// Whatever happens to a player, the packets reach the sink in the order in which the decoder
/// gave them, each treated as it should be, none skipped and none repeated; only the last one
/// may still be under way.
pub proof fn packets_reach_the_sink_in_order<D, S>(
    count: nat,
    player: PlayerInternal<D, S>,
    asked: EffectView<D, S>,
    events: Seq<Event<D, S>>,
    treatment: Treatment,
)
    requires
        player.wf(),
        awaits(player, asked),
        all_answered(player, events),
        all_followed(count, player, asked, events, treatment),
    ensures
        treatment.underway(count, player, asked) + all_decoded(count, player, events, treatment)
            == all_written(player, events) + treatment.underway(
            counted_after(count, events),
            player_after(player, events),
            asked_after(player, asked, events),
        ),
    decreases events.len(),
{
    if events.len() > 0 {
        let event = events[0];
        let counted = count_after(count, event);
        let next = turn_of(player, event).player;
        let question = turn_of(player, event).effects.last();
        let rest = events.drop_first();
        turns_account_for_every_packet(count, player, asked, event, treatment);
        turns_keep_players_sound(player, event);
        turns_end_with_their_one_question(player, event);
        packets_reach_the_sink_in_order(counted, next, question, rest, treatment);
        let before = treatment.underway(count, player, asked);
        let decoded = treatment.decoded(count, player, event);
        let out = written(turn_of(player, event).effects);
        let between = treatment.underway(counted, next, question);
        let later = all_decoded(counted, next, rest, treatment);
        assert(before + all_decoded(count, player, events, treatment) =~= (before + decoded)
            + later);
        assert((out + between) + later =~= out + (between + later));
        let left = treatment.underway(
            counted_after(counted, rest),
            player_after(next, rest),
            asked_after(next, question, rest),
        );
        assert(out + (all_written(next, rest) + left) =~= all_written(player, events) + left);
    }
}

} // verus!
