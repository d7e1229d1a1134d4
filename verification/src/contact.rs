//! Ground contact: a two-state machine fed by the engine's collision events.

use vstd::prelude::*;
use crate::player::PlayerState;

verus! {

/// A collision event of one step, between two entities given by their ids.
#[derive(Clone, Copy, Debug, PartialEq, Eq, Structural)]
pub enum CollisionEvent {
    /// The two entities began to touch.
    Started(u64, u64),
    /// The two entities ceased to touch.
    Stopped(u64, u64),
}

impl CollisionEvent {
    /// Whether the entity is one of the two that the event is about.
    pub open spec fn touches(self, entity: u64) -> bool {
        match self {
            CollisionEvent::Started(a, b) => a == entity || b == entity,
            CollisionEvent::Stopped(a, b) => a == entity || b == entity,
        }
    }

    /// Whether the event leaves an entity that it touches airborne: a contact
    /// that stopped does, a contact that started does not.
    pub open spec fn lifts(self) -> bool {
        self is Stopped
    }

    /// Whether the entity is one of the two that the event is about.
    pub fn involves(&self, entity: u64) -> (r: bool)
        ensures
            r == self.touches(entity),
    {
        match *self {
            CollisionEvent::Started(a, b) => a == entity || b == entity,
            CollisionEvent::Stopped(a, b) => a == entity || b == entity,
        }
    }
}

/// The airborne flag after the events of one step, in arrival order: the last
/// event that touches the entity decides, and without one the flag stays.
pub open spec fn airborne_after(events: Seq<CollisionEvent>, entity: u64, before: bool) -> bool
    decreases events.len(),
{
    if events.len() == 0 {
        before
    } else if events.last().touches(entity) {
        events.last().lifts()
    } else {
        airborne_after(events.drop_last(), entity, before)
    }
}

/// The airborne flag after one event.
pub fn apply_contact(is_jumping: bool, event: &CollisionEvent, entity: u64) -> (r: bool)
    ensures
        r == (if event.touches(entity) { event.lifts() } else { is_jumping }),
        r == airborne_after(seq![*event], entity, is_jumping),
{
    proof {
        reveal_with_fuel(airborne_after, 2);
        assert(seq![*event].last() == *event);
        assert(seq![*event].drop_last().len() == 0);
    }
    if event.involves(entity) {
        match *event {
            CollisionEvent::Started(_, _) => false,
            CollisionEvent::Stopped(_, _) => true,
        }
    } else {
        is_jumping
    }
}

/// Feeds the collision events of one step, in arrival order, to the player's
/// airborne flag. Nothing else of the player changes.
pub fn jump_reset(entity: u64, player: &mut PlayerState, events: &Vec<CollisionEvent>)
    ensures
        *final(player) == (PlayerState {
            is_jumping: airborne_after(events@, entity, old(player).is_jumping),
            ..*old(player)
        }),
        events@.len() > 0 && events@.last().touches(entity) ==> final(player).is_jumping
            == events@.last().lifts(),
{
    let mut i: usize = 0;
    while i < events.len()
        invariant
            i <= events.len(),
            *player == (PlayerState {
                is_jumping: airborne_after(events@.take(i as int), entity, old(player).is_jumping),
                ..*old(player)
            }),
        decreases events.len() - i,
    {
        proof {
            assert(events@.take(i + 1).drop_last() =~= events@.take(i as int));
            assert(events@.take(i + 1).last() == events@[i as int]);
        }
        player.is_jumping = apply_contact(player.is_jumping, &events[i], entity);
        i += 1;
    }
    proof {
        assert(events@.take(events.len() as int) =~= events@);
    }
}

/// The last event wins: when the last event of a step touches the entity, it
/// alone decides the airborne flag, whatever came before it.
pub proof fn lemma_last_event_wins(events: Seq<CollisionEvent>, entity: u64, before: bool)
    requires
        events.len() > 0,
        events.last().touches(entity),
    ensures
        airborne_after(events, entity, before) == events.last().lifts(),
{
}

/// Events that do not touch the entity leave the airborne flag as it was.
pub proof fn lemma_foreign_events_ignored(events: Seq<CollisionEvent>, entity: u64, before: bool)
    requires
        forall|i: int| 0 <= i < events.len() ==> !(#[trigger] events[i]).touches(entity),
    ensures
        airborne_after(events, entity, before) == before,
    decreases events.len(),
{
    if events.len() > 0 {
        lemma_foreign_events_ignored(events.drop_last(), entity, before);
    }
}

/// A stop followed by a start leaves the player grounded, a start followed by
/// a stop leaves it airborne, whatever the flag was and whoever the other
/// entity is.
pub proof fn lemma_event_order_decides(player: u64, terrain: u64, before: bool)
    ensures
        !airborne_after(
            seq![CollisionEvent::Stopped(player, terrain), CollisionEvent::Started(player, terrain)],
            player,
            before,
        ),
        airborne_after(
            seq![CollisionEvent::Started(player, terrain), CollisionEvent::Stopped(player, terrain)],
            player,
            before,
        ),
{
    let down = seq![
        CollisionEvent::Stopped(player, terrain),
        CollisionEvent::Started(player, terrain),
    ];
    let up = seq![
        CollisionEvent::Started(player, terrain),
        CollisionEvent::Stopped(player, terrain),
    ];
    assert(down.last() == CollisionEvent::Started(player, terrain));
    assert(up.last() == CollisionEvent::Stopped(player, terrain));
}

} // verus!
