//! The kinds of serialized payload the middleware distinguishes, and the raw
//! discriminants it encodes them as.

use crate::error::Error;
use vstd::prelude::*;
use vstd::slice::slice_subrange;

verus! {

/// Raw discriminant of an empty payload.
pub const SERDATA_KIND_EMPTY: u32 = 0;

/// Raw discriminant of a key-only payload.
pub const SERDATA_KIND_KEY: u32 = 1;

/// Raw discriminant of a full-sample payload.
pub const SERDATA_KIND_DATA: u32 = 2;

/// The possible states of a serialized payload.
#[derive(Clone, Copy, Debug, Eq, PartialEq, Structural, Hash)]
pub enum Kind {
    /// Is empty.
    Empty,
    /// Contains the serialized key.
    Key,
    /// Contains the serialized data.
    Data,
}

impl Kind {
    /// The kind a raw discriminant names, or `BadParameter` for any other
    /// value.
    pub fn from_raw(raw: u32) -> (r: Result<Kind, Error>)
        ensures
            raw == SERDATA_KIND_EMPTY ==> r == Ok::<Kind, Error>(Kind::Empty),
            raw == SERDATA_KIND_KEY ==> r == Ok::<Kind, Error>(Kind::Key),
            raw == SERDATA_KIND_DATA ==> r == Ok::<Kind, Error>(Kind::Data),
            raw > SERDATA_KIND_DATA ==> r == Err::<Kind, Error>(Error::BadParameter),
    {
        if raw == SERDATA_KIND_EMPTY {
            Ok(Kind::Empty)
        } else if raw == SERDATA_KIND_KEY {
            Ok(Kind::Key)
        } else if raw == SERDATA_KIND_DATA {
            Ok(Kind::Data)
        } else {
            Err(Error::BadParameter)
        }
    }

    /// The raw discriminant of this kind.
    pub fn as_raw(self) -> (r: u32)
        ensures
            self == Kind::Empty ==> r == SERDATA_KIND_EMPTY,
            self == Kind::Key ==> r == SERDATA_KIND_KEY,
            self == Kind::Data ==> r == SERDATA_KIND_DATA,
    {
        match self {
            Kind::Empty => SERDATA_KIND_EMPTY,
            Kind::Key => SERDATA_KIND_KEY,
            Kind::Data => SERDATA_KIND_DATA,
        }
    }
}

/// The bytes of transport header that precede the serialized payload.
pub const RTPS_HEADER_SIZE: usize = 4;

/// The size of a framed payload: the payload plus its transport header.
pub fn framed_size(payload_size: usize) -> (r: usize)
    requires
        payload_size + RTPS_HEADER_SIZE <= usize::MAX,
    ensures
        r == payload_size + RTPS_HEADER_SIZE,
{
    payload_size + RTPS_HEADER_SIZE
}

/// Frame a serialized payload for hand-off: a zeroed transport header
/// followed by the payload bytes.
pub fn frame_payload(payload: Vec<u8>) -> (r: Vec<u8>)
    ensures
        r@ == seq![0u8, 0u8, 0u8, 0u8] + payload@,
{
    let mut framed: Vec<u8> = Vec::new();
    framed.push(0);
    framed.push(0);
    framed.push(0);
    framed.push(0);
    let mut rest = payload;
    framed.append(&mut rest);
    proof {
        assert(framed@ =~= seq![0u8, 0u8, 0u8, 0u8] + payload@);
    }
    framed
}

/// Strip the transport header off a framed payload; bytes too short to hold
/// the header are rejected.
pub fn unframe(bytes: &[u8]) -> (r: Option<&[u8]>)
    ensures
        bytes@.len() >= RTPS_HEADER_SIZE ==> (r matches Some(payload) && payload@
            == bytes@.subrange(RTPS_HEADER_SIZE as int, bytes@.len() as int)),
        bytes@.len() < RTPS_HEADER_SIZE ==> r is None,
{
    if bytes.len() >= RTPS_HEADER_SIZE {
        Some(slice_subrange(bytes, RTPS_HEADER_SIZE, bytes.len()))
    } else {
        None
    }
}

/// One window of a fragmented payload: the bytes covering the offsets
/// `min .. maxp1` of the whole message.
pub struct Fragment {
    pub min: usize,
    pub maxp1: usize,
    pub bytes: Vec<u8>,
}

impl Fragment {
    /// The window is coherent: its byte count matches the offsets it claims
    /// to cover.
    pub open spec fn wf(self) -> bool {
        self.min <= self.maxp1 && self.bytes@.len() == self.maxp1 - self.min
    }
}

/// What reassembling a fragment chain yields from `offset` onward: each
/// fragment that reaches past the current offset contributes its bytes from
/// that offset up to its end, and the chain must land exactly on `size`.
/// A chain that leaves a gap, steps backward past the current offset, or
/// overshoots the message size yields nothing.
pub open spec fn spec_reassemble_from(frags: Seq<Fragment>, offset: int, size: int) -> Option<
    Seq<u8>,
>
    decreases frags.len(),
{
    if frags.len() == 0 {
        if offset == size {
            Some(Seq::empty())
        } else {
            None
        }
    } else {
        let f = frags[0];
        if f.maxp1 > offset {
            if f.min > offset || f.maxp1 > size {
                None
            } else {
                let piece = f.bytes@.subrange(offset - f.min, f.maxp1 - f.min);
                match spec_reassemble_from(frags.skip(1), f.maxp1 as int, size) {
                    Some(rest) => Some(piece + rest),
                    None => None,
                }
            }
        } else {
            spec_reassemble_from(frags.skip(1), offset, size)
        }
    }
}

/// What reassembling a whole fragment chain yields: nothing for an empty
/// chain or one that does not start at offset zero.
pub open spec fn spec_reassemble(frags: Seq<Fragment>, size: int) -> Option<Seq<u8>> {
    if frags.len() == 0 || frags[0].min != 0 {
        None
    } else {
        spec_reassemble_from(frags, 0, size)
    }
}

/// Reassemble a fragmented payload of `size` bytes from its chain of
/// windows. Fails on an empty chain, a chain that does not start at the
/// beginning, leaves a gap, or overshoots the size.
pub fn defragment(fragments: &Vec<Fragment>, size: usize) -> (r: Option<Vec<u8>>)
    requires
        forall|i: int| 0 <= i < fragments@.len() ==> (#[trigger] fragments@[i]).wf(),
    ensures
        match r {
            Some(buf) => spec_reassemble(fragments@, size as int) == Some(buf@),
            None => spec_reassemble(fragments@, size as int) is None,
        },
{
    if fragments.len() == 0 {
        return None;
    }
    let first = &fragments[0];
    if first.min != 0 {
        return None;
    }
    let mut out: Vec<u8> = Vec::new();
    let mut offset: usize = 0;
    let mut i: usize = 0;
    proof {
        assert(fragments@.skip(0) =~= fragments@);
        match spec_reassemble_from(fragments@, 0, size as int) {
            Some(rest) => {
                assert(Seq::<u8>::empty() + rest =~= rest);
            },
            None => {},
        }
    }
    while i < fragments.len()
        invariant
            forall|k: int| 0 <= k < fragments@.len() ==> (#[trigger] fragments@[k]).wf(),
            0 <= i <= fragments@.len(),
            offset <= size,
            spec_reassemble(fragments@, size as int) == (match spec_reassemble_from(
                fragments@.skip(i as int),
                offset as int,
                size as int,
            ) {
                Some(rest) => Some(out@ + rest),
                None => None::<Seq<u8>>,
            }),
        decreases fragments@.len() - i,
    {
        proof {
            assert(fragments@.skip(i as int)[0] == fragments@[i as int]);
            assert(fragments@.skip(i as int).skip(1) =~= fragments@.skip(i as int + 1));
        }
        let fragment = &fragments[i];
        if fragment.maxp1 > offset {
            if fragment.min > offset || fragment.maxp1 > size {
                return None;
            }
            let mut j: usize = offset - fragment.min;
            let end: usize = fragment.maxp1 - fragment.min;
            let ghost piece = fragment.bytes@.subrange(
                offset - fragment.min,
                fragment.maxp1 - fragment.min,
            );
            let ghost out_before = out@;
            proof {
                assert(out@ =~= out_before + piece.subrange(0, 0));
            }
            while j < end
                invariant
                    fragment.wf(),
                    offset <= fragment.maxp1 <= size,
                    fragment.min <= offset,
                    end == fragment.maxp1 - fragment.min,
                    offset - fragment.min <= j <= end,
                    end <= fragment.bytes@.len(),
                    piece == fragment.bytes@.subrange(
                        offset - fragment.min,
                        fragment.maxp1 - fragment.min,
                    ),
                    out@ == out_before + piece.subrange(0, j - (offset - fragment.min)),
                decreases end - j,
            {
                out.push(fragment.bytes[j]);
                proof {
                    assert(out@ =~= out_before + piece.subrange(
                        0,
                        j + 1 - (offset - fragment.min),
                    ));
                }
                j = j + 1;
            }
            proof {
                assert(piece.subrange(0, piece.len() as int) =~= piece);
                assert(out@ == out_before + piece);
            }
            offset = fragment.maxp1;
        }
        proof {
            assert forall|a: Seq<u8>, b: Seq<u8>, c: Seq<u8>| (a + b) + c =~= a + (b + c) by {}
        }
        i = i + 1;
    }
    proof {
        assert(fragments@.skip(i as int) =~= Seq::<Fragment>::empty());
    }
    if offset == size {
        proof {
            assert(out@ + Seq::<u8>::empty() =~= out@);
        }
        Some(out)
    } else {
        None
    }
}

} // verus!
