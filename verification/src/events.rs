//! The texts of the event stream: what a subscriber is sent and what a
//! publisher is told.

use vstd::prelude::*;
use vstd::string::*;

verus! {

/// The body of a request to publish a message to all subscribers.
#[derive(Clone, Debug)]
pub struct PublishRequest {
    pub msg: String,
}

/// The key under which published messages keep their order.
pub const ORDERING_KEY: &'static str = "order";

/// The frame that carries `message` to a subscriber.
pub open spec fn frame_of(message: Seq<char>) -> Seq<char> {
    "data: "@ + message + "\n\n"@
}

/// The frame for what a subscriber is sent next: the message, or a notice
/// of an error where the subscriber fell behind and the message is lost.
pub open spec fn event_of(message: Option<Seq<char>>) -> Seq<char> {
    match message {
        Some(text) => frame_of(text),
        None => "data: Error\n\n"@,
    }
}

/// The frame for what a subscriber is sent next. `None` stands for a
/// message that the subscriber lost.
pub fn events(message: Option<&str>) -> (frame: String)
    ensures
        frame@ == event_of(
            match message {
                Some(text) => Some(text@),
                None => None,
            },
        ),
{
    match message {
        Some(text) => {
            let mut frame = String::from_str("data: ");
            frame.append(text);
            frame.append("\n\n");
            frame
        },
        None => String::from_str("data: Error\n\n"),
    }
}

/// What a publisher is told, as status and body.
pub open spec fn publish_answer(delivered: bool) -> (u16, Seq<char>) {
    if delivered {
        (200, "Message broadcasted"@)
    } else {
        (500, "Failed to publish message"@)
    }
}

/// What a publisher is told once the message was handed on, or could not
/// be.
pub fn publish(delivered: bool) -> (answer: (u16, &'static str))
    ensures
        (answer.0, answer.1@) == publish_answer(delivered),
{
    if delivered {
        (200, "Message broadcasted")
    } else {
        (500, "Failed to publish message")
    }
}

} // verus!
