//! A circular buffer of frames that is read at fractional distances behind
//! its write cursor.
use vstd::prelude::*;

use crate::constants::MAX_CAPACITY;
use crate::fixed::{blend, ceiling, ceiling_of, interpolate, whole, Fixed, ONE};
use crate::frame::Frame;

verus! {

/// What a delay line holds: its slots in buffer order, and the index of the
/// slot that the next write fills.
#[verifier::ext_equal]
pub struct History {
    pub slots: Seq<Frame>,
    pub cursor: int,
}

impl History {
    /// The cursor lies within the slots, and a position among them fits a
    /// fixed-point number.
    pub open spec fn wf(self) -> bool {
        &&& 1 <= self.slots.len() <= MAX_CAPACITY
        &&& 0 <= self.cursor < self.slots.len()
    }

    /// The number of slots.
    pub open spec fn capacity(self) -> int {
        self.slots.len() as int
    }

    /// The delay that a read uses: `delay_length` clamped to
    /// `[0, capacity - 1]`.
    pub open spec fn clamped_delay(self, delay_length: Fixed) -> int {
        if delay_length < 0 {
            0
        } else if delay_length > (self.capacity() - 1) * ONE {
            (self.capacity() - 1) * ONE
        } else {
            delay_length as int
        }
    }

    /// The fractional buffer position of a read: the cursor less the clamped
    /// delay, wrapped into `[0, capacity)`.
    pub open spec fn read_position(self, delay_length: Fixed) -> int {
        let behind = self.cursor * ONE - self.clamped_delay(delay_length);
        if behind < 0 {
            behind + self.capacity() * ONE
        } else {
            behind
        }
    }

    /// The slot at the ceiling of the read position, where the slot after
    /// the last is the first.
    pub open spec fn next_index(self, delay_length: Fixed) -> int {
        let c = ceiling(self.read_position(delay_length));
        if c == self.capacity() {
            0
        } else {
            c
        }
    }

    /// The slot just before `next_index`, where the slot before the first is
    /// the last.
    pub open spec fn previous_index(self, delay_length: Fixed) -> int {
        let next = self.next_index(delay_length);
        if next == 0 {
            self.capacity() - 1
        } else {
            next - 1
        }
    }

    /// How far the read position lies below its ceiling: the weight of the
    /// previous slot in a read.
    pub open spec fn weight(self, delay_length: Fixed) -> int {
        let position = self.read_position(delay_length);
        ceiling(position) * ONE - position
    }

    /// The frame read at `delay_length` behind the cursor: the two
    /// neighbouring slots, blended channel by channel.
    pub open spec fn read(self, delay_length: Fixed) -> Frame {
        let next = self.slots[self.next_index(delay_length)];
        let previous = self.slots[self.previous_index(delay_length)];
        let weight = self.weight(delay_length) as Fixed;
        (blend(next.0, previous.0, weight), blend(next.1, previous.1, weight))
    }

    /// The history after `frame` is written: it fills the slot at the cursor,
    /// and the cursor moves on by one, from the last slot to the first.
    pub open spec fn written(self, frame: Frame) -> History {
        History {
            slots: self.slots.update(self.cursor, frame),
            cursor: if self.cursor + 1 == self.capacity() {
                0
            } else {
                self.cursor + 1
            },
        }
    }

    /// The history after each of `frames` is written, first to last.
    pub open spec fn written_all(self, frames: Seq<Frame>) -> History
        decreases frames.len(),
    {
        if frames.len() == 0 {
            self
        } else {
            self.written_all(frames.drop_last()).written(frames.last())
        }
    }

    /// The slot that lies `age` slots behind the cursor, going round the
    /// buffer.
    pub open spec fn past(self, age: int) -> Frame {
        self.slots[(self.cursor - age) % self.capacity()]
    }

    /// The read position is the cursor less the clamped delay, modulo the
    /// capacity.
    pub proof fn lemma_read_position_wraps(self, delay_length: Fixed)
        requires
            self.wf(),
        ensures
            0 <= self.clamped_delay(delay_length) <= (self.capacity() - 1) * ONE,
            0 <= self.read_position(delay_length) < self.capacity() * ONE,
            self.read_position(delay_length) == (self.cursor * ONE - self.clamped_delay(
                delay_length,
            )) % (self.capacity() * ONE),
    {
        lemma_wrap(
            self.cursor * ONE - self.clamped_delay(delay_length),
            self.capacity() * ONE,
        );
    }

    /// Whatever was written before, a read touches only slots of the buffer,
    /// and weighs them by a fraction: the two slots are neighbours on the
    /// ring.
    pub proof fn lemma_read_within_buffer(self, delay_length: Fixed)
        requires
            self.wf(),
        ensures
            0 <= self.next_index(delay_length) < self.capacity(),
            0 <= self.previous_index(delay_length) < self.capacity(),
            0 <= self.weight(delay_length) < ONE,
            self.next_index(delay_length) == ceiling(self.read_position(delay_length))
                % self.capacity(),
            self.previous_index(delay_length) == (self.next_index(delay_length) - 1)
                % self.capacity(),
    {
        self.lemma_read_position_wraps(delay_length);
        lemma_wrap(ceiling(self.read_position(delay_length)), self.capacity());
        lemma_wrap(self.next_index(delay_length) - 1, self.capacity());
    }

    /// A read at `age` whole slots and a fraction behind the cursor blends
    /// the slot `age` behind with the slot one further behind, the fraction
    /// being the weight of the further one.
    pub proof fn lemma_read_between(self, age: int, fraction: Fixed)
        requires
            self.wf(),
            0 <= age,
            0 <= fraction < ONE,
            age * ONE + fraction <= (self.capacity() - 1) * ONE,
        ensures
            self.read((age * ONE + fraction) as Fixed) == (
                blend(self.past(age).0, self.past(age + 1).0, fraction),
                blend(self.past(age).1, self.past(age + 1).1, fraction),
            ),
    {
        let c = self.capacity();
        let delay_length = (age * ONE + fraction) as Fixed;
        let ahead = self.cursor - age;
        lemma_wrap(ahead, c);
        lemma_wrap(ahead - 1, c);
        let nearer = ahead % c;
        if fraction == 0 {
            assert(self.read_position(delay_length) == nearer * ONE);
        } else {
            let top = if ahead <= 0 {
                ahead + c
            } else {
                ahead
            };
            assert(self.read_position(delay_length) == top * ONE - fraction);
            assert(ceiling(top * ONE - fraction) == top);
        }
        assert(self.next_index(delay_length) == nearer);
        assert(self.previous_index(delay_length) == (ahead - 1) % c);
        assert(self.weight(delay_length) == fraction);
    }

    /// A read at a whole delay returns the slot that lies that many slots
    /// behind the cursor, unblended.
    pub proof fn lemma_read_whole_delay(self, age: int)
        requires
            self.wf(),
            0 <= age < self.capacity(),
        ensures
            whole(age) == age * ONE,
            self.read(whole(age)) == self.past(age),
    {
        self.lemma_read_between(age, 0);
        crate::fixed::lemma_blend_between(self.past(age).0, self.past(age + 1).0, 0);
        crate::fixed::lemma_blend_between(self.past(age).1, self.past(age + 1).1, 0);
    }

    /// A write keeps the history well formed, is read back at delay one, and
    /// moves every other slot one further behind the cursor.
    pub proof fn lemma_written_past(self, frame: Frame, age: int)
        requires
            self.wf(),
            1 <= age <= self.capacity(),
        ensures
            self.written(frame).wf(),
            self.written(frame).capacity() == self.capacity(),
            self.written(frame).past(age) == if age == 1 {
                frame
            } else {
                self.past(age - 1)
            },
    {
        lemma_wrap(self.written(frame).cursor - age, self.capacity());
        lemma_wrap(self.cursor - (age - 1), self.capacity());
    }

    /// Any number of writes keeps the history well formed and its capacity
    /// fixed, and the frame written `age` writes ago lies `age` slots behind
    /// the cursor until the buffer has gone round.
    pub proof fn lemma_written_all_past(self, frames: Seq<Frame>, age: int)
        requires
            self.wf(),
        ensures
            self.written_all(frames).wf(),
            self.written_all(frames).capacity() == self.capacity(),
            1 <= age <= frames.len() && age <= self.capacity() ==> self.written_all(frames).past(
                age,
            ) == frames[frames.len() - age],
        decreases frames.len(),
    {
        if frames.len() > 0 {
            let before = self.written_all(frames.drop_last());
            self.lemma_written_all_past(frames.drop_last(), age - 1);
            if 1 <= age <= self.capacity() {
                before.lemma_written_past(frames.last(), age);
            } else {
                before.lemma_written_past(frames.last(), 1);
            }
        }
    }

    /// However many frames were written before, a read at any delay touches
    /// only slots of the buffer.
    pub proof fn lemma_read_within_buffer_after_writes(
        self,
        frames: Seq<Frame>,
        delay_length: Fixed,
    )
        requires
            self.wf(),
        ensures
            self.written_all(frames).capacity() == self.capacity(),
            0 <= self.written_all(frames).next_index(delay_length) < self.capacity(),
            0 <= self.written_all(frames).previous_index(delay_length) < self.capacity(),
    {
        self.lemma_written_all_past(frames, 0);
        self.written_all(frames).lemma_read_within_buffer(delay_length);
    }

    /// However many frames were written, a read at the whole delay `age`
    /// returns the frame written `age` writes ago, for every delay that the
    /// buffer can hold.
    pub proof fn lemma_round_trip(self, frames: Seq<Frame>, age: int)
        requires
            self.wf(),
            1 <= age <= frames.len(),
            age < self.capacity(),
        ensures
            self.written_all(frames).wf(),
            self.written_all(frames).read(whole(age)) == frames[frames.len() - age],
    {
        self.lemma_written_all_past(frames, age);
        self.written_all(frames).lemma_read_whole_delay(age);
    }

    /// However many frames were written, a read at `age` whole slots and a
    /// fraction behind the cursor blends the frame written `age` writes ago
    /// with the one written before it, the fraction being the weight of the
    /// earlier one.
    pub proof fn lemma_round_trip_between(self, frames: Seq<Frame>, age: int, fraction: Fixed)
        requires
            self.wf(),
            1 <= age < frames.len(),
            0 <= fraction < ONE,
            age * ONE + fraction <= (self.capacity() - 1) * ONE,
        ensures
            self.written_all(frames).read((age * ONE + fraction) as Fixed) == (
                blend(
                    frames[frames.len() - age].0,
                    frames[frames.len() - age - 1].0,
                    fraction,
                ),
                blend(
                    frames[frames.len() - age].1,
                    frames[frames.len() - age - 1].1,
                    fraction,
                ),
            ),
    {
        self.lemma_written_all_past(frames, age);
        self.lemma_written_all_past(frames, age + 1);
        self.written_all(frames).lemma_read_between(age, fraction);
    }
}

/// Reduction modulo `c` of a value within one `c` of the range `[0, c)`.
pub proof fn lemma_wrap(x: int, c: int)
    requires
        c > 0,
        -c <= x < 2 * c,
    ensures
        x % c == if x < 0 {
            x + c
        } else if x >= c {
            x - c
        } else {
            x
        },
{
    let q = if x < 0 {
        -1int
    } else if x >= c {
        1int
    } else {
        0int
    };
    let r = x - q * c;
    assert(q * c == if q == -1 {
        -c
    } else if q == 1 {
        c
    } else {
        0
    }) by (nonlinear_arith)
        requires
            q == -1 || q == 0 || q == 1,
    ;
    vstd::arithmetic::div_mod::lemma_fundamental_div_mod_converse(x, c, q, r);
}

/// A fixed-capacity circular buffer of frames.
pub struct DelayLine {
    /// The slots.
    pub buffer: Vec<Frame>,
    /// The slot that the next write fills.
    pub write_index: usize,
}

impl View for DelayLine {
    type V = History;

    open spec fn view(&self) -> History {
        History { slots: self.buffer@, cursor: self.write_index as int }
    }
}

impl DelayLine {
    /// A delay line over the storage `buffer`, with the cursor at its first
    /// slot. The buffer's contents are its first history.
    pub fn new(buffer: Vec<Frame>) -> (line: Self)
        requires
            1 <= buffer.len() <= MAX_CAPACITY,
        ensures
            line@ == (History { slots: buffer@, cursor: 0 }),
            line@.wf(),
    {
        DelayLine { buffer, write_index: 0 }
    }

    /// The frame at `delay_length` behind the cursor, blended from the two
    /// slots next to that position.
    pub fn read(&self, delay_length: Fixed) -> (frame: Frame)
        requires
            self@.wf(),
        ensures
            frame == self@.read(delay_length),
    {
        proof {
            self@.lemma_read_position_wraps(delay_length);
            self@.lemma_read_within_buffer(delay_length);
        }
        let position = self.get_read_index_fractional(delay_length);
        let top = ceiling_of(position);
        let index_next: usize = if top as usize == self.buffer.len() {
            0
        } else {
            top as usize
        };
        let index_previous: usize = if index_next == 0 {
            self.buffer.len() - 1
        } else {
            index_next - 1
        };
        let delta: Fixed = top * ONE - position;
        let (previous_left, previous_right) = self.buffer[index_previous];
        let (next_left, next_right) = self.buffer[index_next];
        (
            interpolate(next_left, previous_left, delta),
            interpolate(next_right, previous_right, delta),
        )
    }

    /// Stores `frame` at the cursor and moves the cursor on, from the last
    /// slot to the first.
    pub fn write_and_advance(&mut self, frame: Frame)
        requires
            old(self)@.wf(),
        ensures
            final(self)@ == old(self)@.written(frame),
            final(self)@.wf(),
    {
        self.buffer[self.write_index] = frame;
        if self.write_index == self.buffer.len() - 1 {
            self.write_index = 0;
        } else {
            self.write_index += 1;
        }
    }

    /// The fractional buffer position that a read at `delay_length` looks at.
    pub fn get_read_index_fractional(&self, delay_length: Fixed) -> (position: Fixed)
        requires
            self@.wf(),
        ensures
            position == self@.read_position(delay_length),
            0 <= position < self@.capacity() * ONE,
    {
        proof {
            self@.lemma_read_position_wraps(delay_length);
        }
        let max_length: Fixed = self.buffer.len() as i64 * ONE;
        let delay: Fixed = if delay_length < 0 {
            0
        } else if delay_length > max_length - ONE {
            max_length - ONE
        } else {
            delay_length
        };
        let write_position: Fixed = self.write_index as i64 * ONE;
        if delay > write_position {
            max_length - delay + write_position
        } else {
            write_position - delay
        }
    }
}

} // verus!
