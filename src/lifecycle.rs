//! The message sets that create, update and erase a device, and what they do
//! to the bus's store of retained messages.

use vstd::prelude::*;
use crate::discovery::{
    Entity, entities, config_topic, config_topic_of, config_payload, config_payload_of, device_json,
    device_json_of, state_topic, state_topic_of, state_payload, state_payload_of,
};
use crate::identity::DeviceIdentity;
use crate::locator::ProductLocator;
use crate::snapshot::ProductSnapshot;

verus! {

/// A retained message: its topic and its payload. An empty payload erases
/// whatever the topic retained.
pub struct Message {
    pub topic: String,
    pub payload: String,
}

impl View for Message {
    type V = (Seq<char>, Seq<char>);

    open spec fn view(&self) -> (Seq<char>, Seq<char>) {
        (self.topic@, self.payload@)
    }
}

pub open spec fn views(ms: Seq<Message>) -> Seq<(Seq<char>, Seq<char>)> {
    ms.map_values(|m: Message| m@)
}

/// The topics of a sequence of messages, in order.
pub open spec fn topics(ms: Seq<(Seq<char>, Seq<char>)>) -> Seq<Seq<char>> {
    ms.map_values(|m: (Seq<char>, Seq<char>)| m.0)
}

/// The discovery configuration messages of a device, one per entity.
pub open spec fn config_messages(prefix: Seq<char>, hash: Seq<char>, device: Seq<char>) -> Seq<
    (Seq<char>, Seq<char>),
> {
    entities().map_values(
        |e: Entity| (config_topic_of(prefix, hash, e), config_payload_of(device, hash, e)),
    )
}

/// The state messages of a device, one per entity.
pub open spec fn state_messages(
    hash: Seq<char>,
    snapshot: (Seq<char>, i64, i64),
    timestamp: Seq<char>,
    version: Seq<char>,
) -> Seq<(Seq<char>, Seq<char>)> {
    entities().map_values(
        |e: Entity| (state_topic_of(hash, e), state_payload_of(e, snapshot, timestamp, version)),
    )
}

/// What a create run publishes: every configuration message, then every
/// state message.
pub open spec fn create_plan(
    hash: Seq<char>,
    locator: (Seq<char>, Seq<char>),
    snapshot: (Seq<char>, i64, i64),
    prefix: Seq<char>,
    version: Seq<char>,
    timestamp: Seq<char>,
) -> Seq<(Seq<char>, Seq<char>)> {
    config_messages(prefix, hash, device_json_of(locator, hash, snapshot.0, version))
        + state_messages(hash, snapshot, timestamp, version)
}

/// What a delete run publishes: an empty payload to every configuration topic,
/// then to every state topic.
pub open spec fn erase_plan(hash: Seq<char>, prefix: Seq<char>) -> Seq<(Seq<char>, Seq<char>)> {
    entities().map_values(|e: Entity| (config_topic_of(prefix, hash, e), Seq::<char>::empty()))
        + entities().map_values(|e: Entity| (state_topic_of(hash, e), Seq::<char>::empty()))
}

/// The messages of a create run whose state time is `timestamp`.
pub fn create_messages_at(
    identity: &DeviceIdentity,
    locator: &ProductLocator,
    snapshot: &ProductSnapshot,
    prefix: &str,
    version: &str,
    timestamp: &str,
) -> (r: Vec<Message>)
    ensures
        views(r@) == create_plan(identity@, locator@, snapshot@, prefix@, version@, timestamp@),
{
    let hash = identity.as_str();
    let device = device_json(locator, identity, snapshot.name.as_str(), version);
    let ghost configs = config_messages(prefix@, hash@, device@);
    let ghost states = state_messages(hash@, snapshot@, timestamp@, version@);
    let mut out: Vec<Message> = Vec::new();
    let mut i: usize = 0;
    while i < 5
        invariant
            i <= 5,
            configs == config_messages(prefix@, hash@, device@),
            views(out@) == configs.take(i as int),
        decreases 5 - i,
    {
        let e = Entity::at(i);
        let m = Message { topic: config_topic(prefix, hash, e), payload: config_payload(device.as_str(), hash, e) };
        let ghost before = out@;
        proof {
            assert(m@ == configs[i as int]);
        }
        out.push(m);
        proof {
            assert(views(out@) =~= views(before).push(m@));
            assert(views(out@) =~= configs.take(i as int + 1));
        }
        i = i + 1;
    }
    let mut j: usize = 0;
    while j < 5
        invariant
            j <= 5,
            configs.len() == 5,
            states == state_messages(hash@, snapshot@, timestamp@, version@),
            views(out@) == configs + states.take(j as int),
        decreases 5 - j,
    {
        let e = Entity::at(j);
        let m = Message { topic: state_topic(hash, e), payload: state_payload(e, snapshot, timestamp, version) };
        let ghost before = out@;
        proof {
            assert(m@ == states[j as int]);
        }
        out.push(m);
        proof {
            assert(views(out@) =~= views(before).push(m@));
            assert(views(out@) =~= configs + states.take(j as int + 1));
        }
        j = j + 1;
    }
    proof {
        assert(configs.take(5) =~= configs);
        assert(states.take(5) =~= states);
    }
    out
}

/// Relies on chrono's `Utc::now`, rendered by `DateTime::to_rfc3339`: the
/// current time as RFC 3339 text. It depends on the clock, so nothing is stated
/// of it.
#[verifier::external_body]
fn now_rfc3339() -> (r: String) {
    chrono::Utc::now().to_rfc3339()
}

/// The messages of a create run, with the current time as the state time.
pub fn create_messages(
    identity: &DeviceIdentity,
    locator: &ProductLocator,
    snapshot: &ProductSnapshot,
    prefix: &str,
    version: &str,
) -> (r: Vec<Message>)
    ensures
        exists|timestamp: Seq<char>|
            views(r@) == create_plan(identity@, locator@, snapshot@, prefix@, version@, timestamp),
{
    let now = now_rfc3339();
    let r = create_messages_at(identity, locator, snapshot, prefix, version, now.as_str());
    proof {
        assert(views(r@) == create_plan(identity@, locator@, snapshot@, prefix@, version@, now@));
    }
    r
}

/// The messages of a delete run: an empty payload for every topic a create run
/// could have written for this device.
pub fn erase_messages(identity: &DeviceIdentity, prefix: &str) -> (r: Vec<Message>)
    ensures
        views(r@) == erase_plan(identity@, prefix@),
{
    let hash = identity.as_str();
    let ghost configs = entities().map_values(
        |e: Entity| (config_topic_of(prefix@, hash@, e), Seq::<char>::empty()),
    );
    let ghost states = entities().map_values(
        |e: Entity| (state_topic_of(hash@, e), Seq::<char>::empty()),
    );
    let mut out: Vec<Message> = Vec::new();
    let mut i: usize = 0;
    while i < 10
        invariant
            i <= 10,
            configs == entities().map_values(
                |e: Entity| (config_topic_of(prefix@, hash@, e), Seq::<char>::empty()),
            ),
            states == entities().map_values(
                |e: Entity| (state_topic_of(hash@, e), Seq::<char>::empty()),
            ),
            views(out@) == (configs + states).take(i as int),
        decreases 10 - i,
    {
        let m = if i < 5 {
            Message { topic: config_topic(prefix, hash, Entity::at(i)), payload: String::new() }
        } else {
            Message { topic: state_topic(hash, Entity::at(i - 5)), payload: String::new() }
        };
        let ghost before = out@;
        proof {
            assert(m@ == (configs + states)[i as int]);
        }
        out.push(m);
        proof {
            assert(views(out@) =~= views(before).push(m@));
            assert(views(out@) =~= (configs + states).take(i as int + 1));
        }
        i = i + 1;
    }
    proof {
        assert((configs + states).take(10) =~= configs + states);
    }
    out
}

/// The erase set addresses exactly the topics that a create run for the same
/// device and discovery prefix writes, in the same order, whatever the
/// snapshot, page, version and time of that run.
pub proof fn erase_covers_create(
    hash: Seq<char>,
    locator: (Seq<char>, Seq<char>),
    snapshot: (Seq<char>, i64, i64),
    prefix: Seq<char>,
    version: Seq<char>,
    timestamp: Seq<char>,
)
    ensures
        topics(erase_plan(hash, prefix)) == topics(
            create_plan(hash, locator, snapshot, prefix, version, timestamp),
        ),
        topics(erase_plan(hash, prefix)).to_set() == topics(
            create_plan(hash, locator, snapshot, prefix, version, timestamp),
        ).to_set(),
        forall|i: int|
            0 <= i < erase_plan(hash, prefix).len() ==> (#[trigger] erase_plan(hash, prefix)[i]).1.len()
                == 0,
{
    assert(topics(erase_plan(hash, prefix)) =~= topics(
        create_plan(hash, locator, snapshot, prefix, version, timestamp),
    ));
}

} // verus!
