//! The per-caller error slot.
//!
//! Each calling thread owns one [`ErrorSlot`]. Every fallible boundary
//! operation clears the slot on entry and, on failure, stores one
//! human-readable message before returning its status code. The slot is
//! never shared between callers: isolation between threads is structural,
//! because an operation only ever touches the slot it was handed.

use vstd::prelude::*;

verus! {

/// At most one pending diagnostic message for one calling thread.
pub struct ErrorSlot {
    message: Option<String>,
}

impl ErrorSlot {
    /// The pending message, if any, as a sequence of characters.
    pub closed spec fn pending(&self) -> Option<Seq<char>> {
        match self.message {
            Some(m) => Some(m@),
            None => None,
        }
    }

    /// A fresh slot holds no diagnostic.
    pub fn new() -> (slot: ErrorSlot)
        ensures
            slot.pending() is None,
    {
        ErrorSlot { message: None }
    }

    /// Stores `message`, replacing any previous diagnostic.
    pub fn set(&mut self, message: String)
        ensures
            final(self).pending() == Some(message@),
    {
        self.message = Some(message);
    }

    /// Removes the pending diagnostic, if any.
    pub fn clear(&mut self)
        ensures
            final(self).pending() is None,
    {
        self.message = None;
    }

    /// A copy of the pending message's UTF-8 bytes, or `None`.
    pub fn pending_bytes(&self) -> (r: Option<Vec<u8>>)
        ensures
            match r {
                Some(b) => self.pending() matches Some(m)
                    && b@ == vstd::utf8::encode_utf8(m),
                None => self.pending() is None,
            },
    {
        match &self.message {
            Some(m) => Some(m.as_str().as_bytes_vec()),
            None => None,
        }
    }
}

/// The status that reading a slot reports: reading depends on nothing but
/// the slot being read.
pub open spec fn last_error_code(slot: ErrorSlot) -> i32 {
    if slot.pending() is None {
        crate::codes::ERROR_GENERIC
    } else {
        crate::codes::SUCCESS
    }
}

/// The number of message bytes that fit before the terminator.
pub open spec fn copy_len(message: Seq<u8>, capacity: int) -> int {
    if message.len() <= capacity - 1 {
        message.len() as int
    } else {
        capacity - 1
    }
}

/// Copies at most `capacity - 1` bytes of `message`, then a terminating
/// zero byte: the buffer-marshalling rule shared by every text output.
/// Truncation is silent.
pub fn terminated_copy(message: &Vec<u8>, capacity: usize) -> (out: Vec<u8>)
    requires
        capacity >= 1,
    ensures
        out@.len() == copy_len(message@, capacity as int) + 1,
        out@.len() <= capacity,
        out@ == message@.take(copy_len(message@, capacity as int)).push(0u8),
{
    let limit: usize = capacity - 1;
    let n: usize = if message.len() <= limit {
        message.len()
    } else {
        limit
    };
    let mut out: Vec<u8> = Vec::new();
    let mut i: usize = 0;
    while i < n
        invariant
            i <= n,
            n == copy_len(message@, capacity as int),
            n <= message@.len(),
            out@ =~= message@.take(n as int).take(i as int),
        decreases n - i,
    {
        out.push(message[i]);
        assert(out@ =~= message@.take(n as int).take(i + 1));
        i = i + 1;
    }
    assert(out@ =~= message@.take(n as int));
    out.push(0u8);
    out
}

} // verus!
