use vstd::prelude::*;

use crate::channel::Channel;
use crate::message::{
    fields_valid, Message, ValidationError, ROOM_MAX_CHARS, USERNAME_MAX_CHARS,
};

verus! {

/// How many messages the shared channel holds before it overwrites the oldest.
pub const CHANNEL_CAPACITY: usize = 1024;

/// The greeting that the server answers with at `/world`.
pub fn world() -> (r: &'static str)
    ensures
        r@ == "Hello World!"@,
{
    "Hello World!"
}

/// The state that the server starts with: one empty channel of `CHANNEL_CAPACITY`
/// slots, shared by every publisher and subscriber.
pub fn rocket() -> (r: Channel)
    ensures
        r.wf(),
        r.history() == Seq::<Message>::empty(),
        r.cap() == CHANNEL_CAPACITY,
        r.receiver_count() == 0,
        !r.is_closed(),
{
    Channel::new(CHANNEL_CAPACITY)
}

/// Publishes a message that the boundary has accepted. How many subscribers were
/// listening does not matter: the request succeeds with none.
pub fn post(queue: &mut Channel, form: Message)
    requires
        old(queue).wf(),
        !old(queue).is_closed(),
        old(queue).history().len() < u64::MAX,
    ensures
        final(queue).wf(),
        final(queue).history() == old(queue).history().push(form),
        final(queue).cap() == old(queue).cap(),
        final(queue).receiver_count() == old(queue).receiver_count(),
        final(queue).is_closed() == old(queue).is_closed(),
{
    let _listening = queue.publish(form);
}

/// Handles a publish request: validates its fields and, when they pass, publishes
/// the message. A rejected request never reaches the channel.
pub fn handle_publish(queue: &mut Channel, room: String, username: String, message: String) -> (r:
    Result<(), ValidationError>)
    requires
        old(queue).wf(),
        !old(queue).is_closed(),
        old(queue).history().len() < u64::MAX,
    ensures
        final(queue).wf(),
        r is Ok <==> fields_valid(room@, username@),
        room@.len() > ROOM_MAX_CHARS ==> r == Err::<(), ValidationError>(ValidationError::RoomTooLong),
        room@.len() <= ROOM_MAX_CHARS && username@.len() > USERNAME_MAX_CHARS ==> r == Err::<(), ValidationError>(
            ValidationError::UsernameTooLong,
        ),
        r is Ok ==> final(queue).history() == old(queue).history().push(
            (Message { room, username, message }),
        ),
        r is Err ==> final(queue).history() == old(queue).history(),
        final(queue).cap() == old(queue).cap(),
        final(queue).receiver_count() == old(queue).receiver_count(),
        final(queue).is_closed() == old(queue).is_closed(),
{
    match Message::new(room, username, message) {
        Ok(m) => {
            post(queue, m);
            Ok(())
        },
        Err(e) => Err(e),
    }
}

} // verus!
