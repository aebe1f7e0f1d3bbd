use vstd::prelude::*;
use crate::event::{Event, EventHandler, KeyCode, Modifiers};

verus! {

/// The escape byte, which also starts the arrow-key sequences.
pub const ESC: u8 = 0x1b;

/// The key that a single byte from a raw-mode terminal stands for.
pub open spec fn key_of_byte(byte: u8) -> Event {
    if byte == ESC {
        Event::Key(KeyCode::Esc, Modifiers::none_spec())
    } else if byte == 0x0d || byte == 0x0a {
        Event::Key(KeyCode::Enter, Modifiers::none_spec())
    } else if 1 <= byte <= 26 {
        Event::Key(KeyCode::Char((byte + 0x60) as u8 as char), Modifiers::control_spec())
    } else if 0x20 <= byte <= 0x7e {
        Event::Key(KeyCode::Char(byte as char), Modifiers::none_spec())
    } else {
        Event::Key(KeyCode::Other, Modifiers::none_spec())
    }
}

/// Whether an arrow-key sequence (escape, `[`, then `A` or `B`) starts at
/// `at`.
pub open spec fn arrow_at(bytes: Seq<u8>, at: int) -> bool {
    0 <= at && at + 2 < bytes.len() && bytes[at] == ESC && bytes[at + 1] == 0x5b && (bytes[at + 2]
        == 0x41 || bytes[at + 2] == 0x42)
}

/// The key that starts at `at`.
pub open spec fn key_at(bytes: Seq<u8>, at: int) -> Event {
    if arrow_at(bytes, at) {
        Event::Key(
            if bytes[at + 2] == 0x41 {
                KeyCode::Up
            } else {
                KeyCode::Down
            },
            Modifiers::none_spec(),
        )
    } else {
        key_of_byte(bytes[at])
    }
}

/// The index behind the key that starts at `at`.
pub open spec fn key_end(bytes: Seq<u8>, at: int) -> int {
    if arrow_at(bytes, at) {
        at + 3
    } else {
        at + 1
    }
}

/// The keys that the bytes from `at` on stand for, in order.
pub open spec fn keys_from(bytes: Seq<u8>, at: int) -> Seq<Event>
    decreases bytes.len() - at,
{
    if 0 <= at < bytes.len() {
        seq![key_at(bytes, at)] + keys_from(bytes, key_end(bytes, at))
    } else {
        Seq::empty()
    }
}

/// One decoded key and the index behind it.
#[derive(Clone, Copy, Debug, PartialEq, Eq, Structural)]
pub struct Decoded {
    pub event: Event,
    pub next: usize,
}

/// Decodes the key that starts at `at`.
pub fn decode_key(bytes: &[u8], at: usize) -> (d: Decoded)
    requires
        at < bytes@.len(),
    ensures
        d.event == key_at(bytes@, at as int),
        d.next == key_end(bytes@, at as int),
        at < d.next <= bytes@.len(),
{
    let byte = bytes[at];
    let plain = Modifiers::none();
    if byte == ESC && bytes.len() - at > 2 && bytes[at + 1] == 0x5b && (bytes[at + 2] == 0x41
        || bytes[at + 2] == 0x42) {
        let code = if bytes[at + 2] == 0x41 {
            KeyCode::Up
        } else {
            KeyCode::Down
        };
        Decoded { event: Event::Key(code, plain), next: at + 3 }
    } else {
        let event = if byte == ESC {
            Event::Key(KeyCode::Esc, plain)
        } else if byte == 0x0d || byte == 0x0a {
            Event::Key(KeyCode::Enter, plain)
        } else if 1 <= byte && byte <= 26 {
            Event::Key(KeyCode::Char((byte + 0x60) as char), Modifiers::control())
        } else if 0x20 <= byte && byte <= 0x7e {
            Event::Key(KeyCode::Char(byte as char), plain)
        } else {
            Event::Key(KeyCode::Other, plain)
        };
        Decoded { event, next: at + 1 }
    }
}

impl EventHandler {
    /// The input listener's delivery of raw bytes: every key among them is
    /// queued, in order, behind what waits. A closed stream takes nothing.
    /// The result is the number of keys queued.
    pub fn push_bytes(&mut self, bytes: &[u8]) -> (queued: usize)
        ensures
            final(self)@ == if old(self).closed {
                old(self)@
            } else {
                old(self)@.with_queue(old(self)@.queue + keys_from(bytes@, 0))
            },
            queued == if old(self).closed {
                0
            } else {
                keys_from(bytes@, 0).len()
            },
    {
        if self.closed {
            return 0;
        }
        let mut at: usize = 0;
        let mut queued: usize = 0;
        assert(old(self)@.queue + Seq::<Event>::empty() =~= old(self)@.queue);
        while at < bytes.len()
            invariant
                at <= bytes@.len(),
                queued <= at,
                !self.closed,
                self.closed == old(self).closed,
                self.tick_rate_ms == old(self).tick_rate_ms,
                self.next_tick_ms == old(self).next_tick_ms,
                keys_from(bytes@, 0).len() == queued + keys_from(bytes@, at as int).len(),
                old(self)@.queue + keys_from(bytes@, 0) == self@.queue + keys_from(
                    bytes@,
                    at as int,
                ),
            decreases bytes@.len() - at,
        {
            let d = decode_key(bytes, at);
            proof {
                let rest = keys_from(bytes@, d.next as int);
                assert(keys_from(bytes@, at as int) == seq![d.event] + rest);
                assert(self@.queue + (seq![d.event] + rest) =~= self@.queue.push(d.event) + rest);
            }
            self.queue.push(d.event);
            at = d.next;
            queued = queued + 1;
        }
        assert(self@.queue + Seq::<Event>::empty() =~= self@.queue);
        queued
    }
}

} // verus!
