use vstd::prelude::*;
use vstd::string::*;

verus! {

/// Longest room name, in characters, that the publish boundary accepts.
pub const ROOM_MAX_CHARS: usize = 30;

/// Longest user name, in characters, that the publish boundary accepts.
pub const USERNAME_MAX_CHARS: usize = 20;

/// One chat message: the room it is addressed to, who wrote it, and its text.
pub struct Message {
    pub room: String,
    pub username: String,
    pub message: String,
}

/// Why a publish request was turned away at the boundary.
#[derive(PartialEq, Eq, Structural, Clone, Copy, Debug)]
pub enum ValidationError {
    /// The room name has more than `ROOM_MAX_CHARS` characters.
    RoomTooLong,
    /// The user name has more than `USERNAME_MAX_CHARS` characters.
    UsernameTooLong,
}

/// The length limits that a message must meet before it may be published.
pub open spec fn fields_valid(room: Seq<char>, username: Seq<char>) -> bool {
    room.len() <= ROOM_MAX_CHARS && username.len() <= USERNAME_MAX_CHARS
}

/// The outcome of validating the three fields of a publish request.
pub open spec fn validate_spec(room: String, username: String, message: String) -> Result<
    Message,
    ValidationError,
> {
    if room@.len() > ROOM_MAX_CHARS {
        Err(ValidationError::RoomTooLong)
    } else if username@.len() > USERNAME_MAX_CHARS {
        Err(ValidationError::UsernameTooLong)
    } else {
        Ok(Message { room, username, message })
    }
}

/// The structured payload of a delivered message: field names with their values, in order.
pub open spec fn payload_spec(m: Message) -> Seq<(Seq<char>, Seq<char>)> {
    seq![("room"@, m.room@), ("username"@, m.username@), ("message"@, m.message@)]
}

/// `fields` holds, pair by pair, the payload of `m`.
pub open spec fn is_payload_of(fields: Seq<(String, String)>, m: Message) -> bool {
    &&& fields.len() == 3
    &&& forall|i: int|
        0 <= i < 3 ==> (#[trigger] fields[i]).0@ == payload_spec(m)[i].0 && fields[i].1@
            == payload_spec(m)[i].1
}

impl Clone for Message {
    fn clone(&self) -> (r: Self)
        ensures
            r == *self,
    {
        Message {
            room: self.room.clone(),
            username: self.username.clone(),
            message: self.message.clone(),
        }
    }
}

impl Message {
    /// Builds a message from the fields of a publish request, rejecting a room name
    /// longer than `ROOM_MAX_CHARS` or a user name longer than `USERNAME_MAX_CHARS`
    /// characters. The room is checked first.
    pub fn new(room: String, username: String, message: String) -> (r: Result<
        Message,
        ValidationError,
    >)
        ensures
            r == validate_spec(room, username, message),
            r is Ok <==> fields_valid(room@, username@),
    {
        if room.as_str().unicode_len() > ROOM_MAX_CHARS {
            Err(ValidationError::RoomTooLong)
        } else if username.as_str().unicode_len() > USERNAME_MAX_CHARS {
            Err(ValidationError::UsernameTooLong)
        } else {
            Ok(Message { room, username, message })
        }
    }

    /// Whether the message meets the length limits of the publish boundary.
    pub fn is_valid(&self) -> (r: bool)
        ensures
            r == fields_valid(self.room@, self.username@),
    {
        self.room.as_str().unicode_len() <= ROOM_MAX_CHARS
            && self.username.as_str().unicode_len() <= USERNAME_MAX_CHARS
    }

    /// The message as a structured payload: the pairs (`room`, room),
    /// (`username`, user name) and (`message`, text), in that order.
    pub fn payload(&self) -> (r: Vec<(String, String)>)
        ensures
            is_payload_of(r@, *self),
    {
        let mut r: Vec<(String, String)> = Vec::new();
        r.push((String::from_str("room"), self.room.clone()));
        r.push((String::from_str("username"), self.username.clone()));
        r.push((String::from_str("message"), self.message.clone()));
        r
    }
}

} // verus!
