//! The hard-bounded body a JSON response is serialized into: it accepts the
//! serializer's output in bounded chunks and never grows past the public
//! body limit.

use vstd::prelude::*;

use crate::http::base64_encoding::{MAX_PUBLIC_BODY_BYTES, try_reserve_exact};
use crate::http::protocol::ResponseActivity;

verus! {

/// Largest part of the serializer's output accepted by one write.
pub const JSON_WRITE_CHUNK_BYTES: usize = 16_384;

/// How much of a part of `len` bytes a body holding `held` bytes accepts:
/// one chunk at most, and no more than the room left.
pub open spec fn accepted_len(len: nat, held: nat) -> nat {
    let room: nat = if held >= MAX_PUBLIC_BODY_BYTES {
        0
    } else {
        (MAX_PUBLIC_BODY_BYTES - held) as nat
    };
    let chunk: nat = if len < JSON_WRITE_CHUNK_BYTES {
        len
    } else {
        JSON_WRITE_CHUNK_BYTES as nat
    };
    if chunk < room {
        chunk
    } else {
        room
    }
}

/// A JSON response body of at most 8 MiB.
pub struct BoundedJsonBody {
    bytes: Vec<u8>,
}

impl View for BoundedJsonBody {
    type V = Seq<u8>;

    closed spec fn view(&self) -> Seq<u8> {
        self.bytes@
    }
}

impl BoundedJsonBody {
    #[verifier::type_invariant]
    spec fn within_limit(self) -> bool {
        self.bytes@.len() <= MAX_PUBLIC_BODY_BYTES
    }

    /// An empty body.
    pub fn new() -> (res: Self)
        ensures
            res@.len() == 0,
    {
        BoundedJsonBody { bytes: Vec::new() }
    }

    /// Accepts the next part of the serialized output and returns how much
    /// of it was taken: at most one chunk and never beyond the limit. A
    /// non-empty part with no room left is refused (`None`), and so is a
    /// part the allocator has no room for; a refused part leaves the body as
    /// it was.
    pub fn write(&mut self, buffer: &[u8]) -> (res: Option<usize>)
        ensures
            final(self)@.len() <= MAX_PUBLIC_BODY_BYTES,
            accepted_len(buffer@.len(), old(self)@.len()) == 0 && buffer@.len() > 0 ==> res is None,
            res is None ==> final(self)@ == old(self)@,
            res matches Some(n) ==> n == accepted_len(buffer@.len(), old(self)@.len()) && final(self)@ == old(self)@
                + buffer@.take(n as int),
    {
        proof {
            use_type_invariant(&*self);
        }
        let held = self.bytes.len();
        let room = MAX_PUBLIC_BODY_BYTES - held;
        let chunk = if buffer.len() < JSON_WRITE_CHUNK_BYTES {
            buffer.len()
        } else {
            JSON_WRITE_CHUNK_BYTES
        };
        let accepted = if chunk < room {
            chunk
        } else {
            room
        };
        if accepted == 0 && buffer.len() > 0 {
            return None;
        }
        let mut bytes = self.take_bytes();
        if !try_reserve_exact(&mut bytes, accepted) {
            *self = BoundedJsonBody { bytes };
            return None;
        }
        let ghost before = bytes@;
        let mut i: usize = 0;
        while i < accepted
            invariant
                i <= accepted,
                accepted <= buffer@.len(),
                before.len() + accepted <= MAX_PUBLIC_BODY_BYTES,
                bytes@ == before + buffer@.take(i as int),
            decreases accepted - i,
        {
            bytes.push(buffer[i]);
            proof {
                assert(buffer@.take(i + 1) =~= buffer@.take(i as int).push(buffer@[i as int]));
            }
            i = i + 1;
        }
        *self = BoundedJsonBody { bytes };
        Some(accepted)
    }

    /// Accepts the next part as [`Self::write`] does while request `context`
    /// stays active: the request is checked before and after the part is
    /// taken. A request found inactive before refuses the part and leaves the
    /// body as it was; one found inactive after refuses it with the part
    /// already taken.
    pub fn write_cancellable<C: ResponseActivity>(&mut self, buffer: &[u8], context: &C) -> (res: Option<usize>)
        ensures
            final(self)@.len() <= MAX_PUBLIC_BODY_BYTES,
            accepted_len(buffer@.len(), old(self)@.len()) == 0 && buffer@.len() > 0 ==> res is None,
            res matches Some(n) ==> n == accepted_len(buffer@.len(), old(self)@.len()) && final(self)@ == old(self)@
                + buffer@.take(n as int),
            res is None ==> final(self)@ == old(self)@ || final(self)@ == old(self)@ + buffer@.take(
                accepted_len(buffer@.len(), old(self)@.len()) as int,
            ),
    {
        proof {
            use_type_invariant(&*self);
        }
        if context.check_active().is_some() {
            return None;
        }
        let written = self.write(buffer);
        match written {
            Some(n) => {
                if context.check_active().is_some() {
                    return None;
                }
                Some(n)
            },
            None => None,
        }
    }

    fn take_bytes(&mut self) -> (res: Vec<u8>)
        ensures
            res@ == old(self)@,
            res@.len() <= MAX_PUBLIC_BODY_BYTES,
            final(self)@.len() == 0,
    {
        proof {
            use_type_invariant(&*self);
        }
        let mut taken = BoundedJsonBody::new();
        std::mem::swap(&mut taken, self);
        proof {
            use_type_invariant(&taken);
        }
        let BoundedJsonBody { bytes } = taken;
        bytes
    }

    /// Bytes held so far.
    pub fn len(&self) -> (res: usize)
        ensures
            res == self@.len(),
            res <= MAX_PUBLIC_BODY_BYTES,
    {
        proof {
            use_type_invariant(self);
        }
        self.bytes.len()
    }

    /// Hands over the serialized body.
    pub fn into_bytes(self) -> (res: Vec<u8>)
        ensures
            res@ == self@,
            res@.len() <= MAX_PUBLIC_BODY_BYTES,
    {
        proof {
            use_type_invariant(&self);
        }
        self.bytes
    }
}

} // verus!
