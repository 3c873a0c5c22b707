//! The change relay: it listens for change notifications and publishes each
//! one again, unchanged, until it is told to shut down.
//!
//! Waiting for the shutdown signal and for the next notification is the
//! caller's; what the wait gave is a [`Race`], and [`RelayState::step`]
//! says what to do with it.

use vstd::prelude::*;

verus! {

/// A change notification: the channel it came on and what it carried.
#[derive(Debug, Clone, PartialEq, Eq)]
pub struct Notification {
    pub channel: String,
    pub payload: String,
}

/// What the listener gave while the relay waited.
#[derive(Debug, Clone, PartialEq, Eq)]
pub enum Inbound {
    /// Nothing yet.
    Pending,
    /// A notification.
    Received(Notification),
    /// An error in place of a notification.
    Failed,
}

/// What one wait of the relay gave: whether the shutdown signal has fired,
/// and what the listener gave. Both may have happened at once.
#[derive(Debug, Clone, PartialEq, Eq)]
pub struct Race {
    pub shutdown: bool,
    pub inbound: Inbound,
}

/// The state of the relay.
#[derive(Debug, Clone, Copy, PartialEq, Eq, Structural)]
pub enum RelayState {
    Listening,
    Stopped,
}

/// What the relay does after a wait.
#[derive(Debug, Clone, PartialEq, Eq)]
pub enum RelayAction {
    /// Publish the notification as it was received, ignore a failure to do
    /// so, and wait again.
    Publish(Notification),
    /// Wait again.
    Wait,
    /// Leave the loop.
    Exit,
}

impl RelayState {
    /// The state and the action after a wait that gave `race`. The shutdown
    /// signal wins over whatever the listener gave at the same time. A
    /// relay that has stopped stays stopped.
    pub open spec fn stepped(self, race: Race) -> (RelayState, RelayAction) {
        match self {
            RelayState::Stopped => (RelayState::Stopped, RelayAction::Exit),
            RelayState::Listening => if race.shutdown {
                (RelayState::Stopped, RelayAction::Exit)
            } else {
                match race.inbound {
                    Inbound::Received(notification) => (
                        RelayState::Listening,
                        RelayAction::Publish(notification),
                    ),
                    _ => (RelayState::Listening, RelayAction::Wait),
                }
            },
        }
    }

    /// Decides what follows a wait that gave `race`.
    pub fn step(self, race: Race) -> (next: (RelayState, RelayAction))
        ensures
            next == self.stepped(race),
    {
        match self {
            RelayState::Stopped => (RelayState::Stopped, RelayAction::Exit),
            RelayState::Listening => {
                if race.shutdown {
                    (RelayState::Stopped, RelayAction::Exit)
                } else {
                    match race.inbound {
                        Inbound::Received(notification) => (
                            RelayState::Listening,
                            RelayAction::Publish(notification),
                        ),
                        Inbound::Pending => (RelayState::Listening, RelayAction::Wait),
                        Inbound::Failed => (RelayState::Listening, RelayAction::Wait),
                    }
                }
            },
        }
    }
}

/// What a relay has done: the notifications it published, in order, and the
/// state in which it is.
#[derive(Debug, Clone, PartialEq, Eq)]
pub struct RelayTrace {
    pub published: Vec<Notification>,
    pub state: RelayState,
}

/// Whether the shutdown signal fired in one of `races`.
pub open spec fn shuts_down(races: Seq<Race>) -> bool {
    exists|i: int| 0 <= i < races.len() && (#[trigger] races[i]).shutdown
}

/// The notifications that a listening relay publishes over `races`: those
/// received, in the order received, up to the first wait in which the
/// shutdown signal fired.
pub open spec fn published_over(races: Seq<Race>) -> Seq<Notification>
    decreases races.len(),
{
    if races.len() == 0 {
        Seq::empty()
    } else if races[0].shutdown {
        Seq::empty()
    } else {
        match races[0].inbound {
            Inbound::Received(notification) => seq![notification] + published_over(
                races.drop_first(),
            ),
            _ => published_over(races.drop_first()),
        }
    }
}

/// The state of a relay, listening at first, after `races`.
pub open spec fn state_after(races: Seq<Race>) -> RelayState {
    if shuts_down(races) {
        RelayState::Stopped
    } else {
        RelayState::Listening
    }
}

/// A copy of a notification.
fn copy_notification(notification: &Notification) -> (copy: Notification)
    ensures
        copy == *notification,
{
    Notification {
        channel: notification.channel.clone(),
        payload: notification.payload.clone(),
    }
}

/// A copy of what a wait gave.
fn copy_race(race: &Race) -> (copy: Race)
    ensures
        copy == *race,
{
    Race {
        shutdown: race.shutdown,
        inbound: match &race.inbound {
            Inbound::Pending => Inbound::Pending,
            Inbound::Failed => Inbound::Failed,
            Inbound::Received(notification) => Inbound::Received(copy_notification(notification)),
        },
    }
}

/// Runs a relay, listening at first, over what its waits gave, one after
/// another, and reports what it published and where it stands. It stops
/// reading at the first wait in which the shutdown signal fired.
pub fn run(races: &Vec<Race>) -> (trace: RelayTrace)
    ensures
        trace.published@ == published_over(races@),
        trace.state == state_after(races@),
{
    let mut published: Vec<Notification> = Vec::new();
    let mut state = RelayState::Listening;
    let mut i: usize = 0;
    assert(races@.skip(0) =~= races@);
    while i < races.len() && state == RelayState::Listening
        invariant
            i <= races.len(),
            state == RelayState::Listening ==> !shuts_down(races@.take(i as int)),
            state == RelayState::Listening ==> published@ + published_over(races@.skip(i as int))
                == published_over(races@),
            state == RelayState::Stopped ==> shuts_down(races@),
            state == RelayState::Stopped ==> published@ == published_over(races@),
        decreases races.len() - i, if state == RelayState::Listening { 1int } else { 0int },
    {
        let ghost rest = races@.skip(i as int);
        proof {
            assert(rest.drop_first() =~= races@.skip(i + 1));
        }
        let (next, action) = state.step(copy_race(&races[i]));
        match action {
            RelayAction::Publish(notification) => {
                published.push(notification);
            },
            RelayAction::Wait => {},
            RelayAction::Exit => {},
        }
        state = next;
        i += 1;
    }
    RelayTrace { published, state }
}

/// When the shutdown signal has fired the relay stops and publishes
/// nothing, whatever the listener gave at the same time.
pub proof fn lemma_shutdown_wins(state: RelayState, inbound: Inbound)
    ensures
        state.stepped(Race { shutdown: true, inbound }) == (RelayState::Stopped, RelayAction::Exit),
{
}

/// A relay that has stopped never publishes again.
pub proof fn lemma_stopped_stays_stopped(race: Race)
    ensures
        RelayState::Stopped.stepped(race) == (RelayState::Stopped, RelayAction::Exit),
{
}

/// What the listener gives after the shutdown signal has fired is not
/// published.
pub proof fn lemma_nothing_published_after_shutdown(before: Seq<Race>, after: Seq<Race>)
    requires
        shuts_down(before),
    ensures
        published_over(before + after) == published_over(before),
    decreases before.len(),
{
    let i = choose|i: int| 0 <= i < before.len() && (#[trigger] before[i]).shutdown;
    if !before[0].shutdown {
        assert(before.drop_first()[i - 1].shutdown);
        lemma_nothing_published_after_shutdown(before.drop_first(), after);
        assert((before + after).drop_first() =~= before.drop_first() + after);
    }
}

/// While the shutdown signal has not fired, each notification received is
/// published as it is, after those received before it.
pub proof fn lemma_published_in_order_received(before: Seq<Race>, notification: Notification)
    requires
        !shuts_down(before),
    ensures
        published_over(
            before.push(Race { shutdown: false, inbound: Inbound::Received(notification) }),
        ) == published_over(before).push(notification),
    decreases before.len(),
{
    let last = Race { shutdown: false, inbound: Inbound::Received(notification) };
    if before.len() == 0 {
        assert(before.push(last).drop_first() =~= Seq::<Race>::empty());
        assert(published_over(Seq::<Race>::empty()) =~= Seq::<Notification>::empty());
    } else {
        lemma_published_in_order_received(before.drop_first(), notification);
        assert(before.push(last).drop_first() =~= before.drop_first().push(last));
    }
}

} // verus!
