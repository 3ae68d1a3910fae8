//! The computing half of waiting on a set of entities: the engine fills a
//! block of attachment slots, one per triggered entity, leaving untriggered
//! slots zero; picking out the triggered attachments is pure logic.

use vstd::prelude::*;

verus! {

/// The nonzero slots of a block, in order.
pub open spec fn spec_triggered(slots: Seq<isize>) -> Seq<isize>
    decreases slots.len(),
{
    if slots.len() == 0 {
        Seq::empty()
    } else {
        let rest = spec_triggered(slots.drop_last());
        if slots.last() != 0 {
            rest.push(slots.last())
        } else {
            rest
        }
    }
}

/// The attachment values of the triggered entities, in slot order: exactly
/// the nonzero slots.
pub fn triggered_attachments(slots: &Vec<isize>) -> (r: Vec<isize>)
    ensures
        r@ == spec_triggered(slots@),
{
    let mut out: Vec<isize> = Vec::new();
    let mut i: usize = 0;
    proof {
        assert(slots@.subrange(0, 0) =~= Seq::<isize>::empty());
    }
    while i < slots.len()
        invariant
            0 <= i <= slots@.len(),
            out@ == spec_triggered(slots@.subrange(0, i as int)),
        decreases slots@.len() - i,
    {
        let slot = slots[i];
        if slot != 0 {
            out.push(slot);
        }
        proof {
            let prefix = slots@.subrange(0, i as int);
            let next = slots@.subrange(0, i as int + 1);
            assert(next.drop_last() =~= prefix);
            assert(next.last() == slots@[i as int]);
        }
        i = i + 1;
    }
    proof {
        assert(slots@.subrange(0, slots@.len() as int) =~= slots@);
    }
    out
}

} // verus!
