use vstd::prelude::*;

verus! {

/// The indices `start, start + 1, .., end - 1`, in increasing order.
pub open spec fn index_range(start: nat, end: nat) -> Seq<u32> {
    Seq::new((end - start) as nat, |i: int| (start + i) as u32)
}

/// Walks the indices `0, 1, .., len - 1` of a list that the C library keeps
/// (include paths, modifiers, layouts, LEDs) and that is read one index at a
/// time.
pub struct IndexCursor {
    ind: u32,
    len: u32,
}

impl IndexCursor {
    #[verifier::type_invariant]
    spec fn well_formed(self) -> bool {
        self.ind <= self.len
    }

    /// The next index that the cursor hands out.
    pub closed spec fn position(self) -> nat {
        self.ind as nat
    }

    /// The number of entries of the list.
    pub closed spec fn length(self) -> nat {
        self.len as nat
    }

    /// The indices that the cursor has yet to hand out, in order.
    pub open spec fn remaining(self) -> Seq<u32> {
        index_range(self.position(), self.length())
    }

    /// A cursor over a list of `len` entries, at its start.
    pub fn new(len: u32) -> (cursor: Self)
        ensures
            cursor.position() == 0,
            cursor.length() == len,
            cursor.remaining() == Seq::new(len as nat, |i: int| i as u32),
    {
        let cursor = IndexCursor { ind: 0, len };
        assert(cursor.remaining() =~= Seq::new(len as nat, |i: int| i as u32));
        cursor
    }

    /// Hands out the next index, or `None` once every index has been handed
    /// out.
    pub fn next_index(&mut self) -> (next: Option<u32>)
        ensures
            final(self).length() == old(self).length(),
            old(self).remaining().len() == 0 ==> next is None && *final(self) == *old(self),
            old(self).remaining().len() > 0 ==> {
                &&& next == Some(old(self).remaining()[0])
                &&& final(self).remaining() == old(self).remaining().drop_first()
                &&& final(self).position() == old(self).position() + 1
            },
    {
        proof {
            use_type_invariant(&*self);
        }
        if self.ind == self.len {
            None
        } else {
            let i = self.ind;
            self.ind = self.ind + 1;
            assert(self.remaining() =~= old(self).remaining().drop_first());
            Some(i)
        }
    }
}

/// A cursor hands out every index of its list exactly once, in increasing
/// order: after `k` indices it stands at index `k` and has `len - k` left,
/// the `k`-th index it hands out is `k`, and once exhausted it stays so.
pub proof fn lemma_cursor_visits_each_index_once(len: u32, k: u32)
    requires
        k <= len,
    ensures
        index_range(0, len as nat).take(k as int) == index_range(0, k as nat),
        index_range(0, len as nat).skip(k as int) == index_range(k as nat, len as nat),
        k < len ==> index_range(k as nat, len as nat)[0] == k,
        index_range(len as nat, len as nat).len() == 0,
        index_range(k as nat, len as nat).len() == len - k,
{
    assert(index_range(0, len as nat).take(k as int) =~= index_range(0, k as nat));
    assert(index_range(0, len as nat).skip(k as int) =~= index_range(k as nat, len as nat));
    assert(index_range(len as nat, len as nat) =~= Seq::<u32>::empty());
}

} // verus!
