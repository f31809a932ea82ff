use vstd::prelude::*;

verus! {

/// A message and the turn it was told on.
pub type Message = (usize, String);

/// How many messages the log keeps.
pub const MESSAGE_BUFFER_SIZE: usize = 512;

/// `after` is `before` with `message` told: added as the newest, on the current
/// turn, with the oldest messages beyond the buffer size dropped.
pub open spec fn told(before: Log, after: Log, message: Seq<char>) -> bool {
    &&& after.turn_count == before.turn_count
    &&& after.messages@.len() >= 1
    &&& after.messages@[0].0 == before.turn_count
    &&& after.messages@[0].1@ == message
    &&& after.messages@.drop_first() == before.messages@.take(
        if before.messages@.len() < MESSAGE_BUFFER_SIZE {
            before.messages@.len() as int
        } else {
            MESSAGE_BUFFER_SIZE - 1
        },
    )
}

/// The message log, newest message first.
pub struct Log {
    pub turn_count: usize,
    pub messages: Vec<Message>,
}

impl Log {
    pub fn new() -> (r: Log)
        ensures
            r.turn_count == 1,
            r.messages@.len() == 0,
    {
        Log { turn_count: 1, messages: Vec::new() }
    }

    /// The messages, the most recent first.
    pub fn recent_messages(&self) -> (r: &Vec<Message>)
        ensures
            r@ == self.messages@,
    {
        &self.messages
    }

    /// Adds `message` as the newest, dropping the oldest ones beyond the buffer size.
    pub fn tell(&mut self, message: String)
        ensures
            told(*old(self), *final(self), message@),
            final(self).turn_count == old(self).turn_count,
            final(self).messages@ == seq![(old(self).turn_count, message)] + old(self).messages@.take(
                if old(self).messages@.len() < MESSAGE_BUFFER_SIZE {
                    old(self).messages@.len() as int
                } else {
                    MESSAGE_BUFFER_SIZE - 1
                },
            ),
    {
        while self.messages.len() >= MESSAGE_BUFFER_SIZE
            invariant
                self.turn_count == old(self).turn_count,
                self.messages@ == old(self).messages@.take(self.messages@.len() as int),
                self.messages@.len() <= old(self).messages@.len(),
                old(self).messages@.len() >= MESSAGE_BUFFER_SIZE ==> self.messages@.len()
                    >= MESSAGE_BUFFER_SIZE - 1,
                old(self).messages@.len() < MESSAGE_BUFFER_SIZE ==> self.messages@.len()
                    == old(self).messages@.len(),
            decreases self.messages@.len(),
        {
            self.messages.pop();
        }
        let turn = self.turn_count;
        self.messages.insert(0, (turn, message));
        assert(self.messages@ =~= seq![(old(self).turn_count, message)] + old(self).messages@.take(
            if old(self).messages@.len() < MESSAGE_BUFFER_SIZE {
                old(self).messages@.len() as int
            } else {
                MESSAGE_BUFFER_SIZE - 1
            },
        ));
        assert(self.messages@.drop_first() =~= old(self).messages@.take(
            if old(self).messages@.len() < MESSAGE_BUFFER_SIZE {
                old(self).messages@.len() as int
            } else {
                MESSAGE_BUFFER_SIZE - 1
            },
        ));
    }

    pub fn end_turn(&mut self)
        requires
            old(self).turn_count < usize::MAX,
        ensures
            final(self).turn_count == old(self).turn_count + 1,
            final(self).messages@ == old(self).messages@,
    {
        self.turn_count = self.turn_count + 1;
    }
}

} // verus!
