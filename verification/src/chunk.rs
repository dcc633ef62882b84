//! Splitting an encoded frame into bounded chunks for transmission. The link
//! accepts only short writes, so a frame goes out as consecutive slices of at
//! most the negotiated write size; concatenating them restores the frame.
use vstd::prelude::*;

verus! {

/// The byte sequences that a vector of chunks holds.
pub open spec fn views_of(cs: Seq<Vec<u8>>) -> Seq<Seq<u8>> {
    cs.map_values(|c: Vec<u8>| c@)
}

/// All chunks joined back together, in order.
pub open spec fn concat_chunks(cs: Seq<Seq<u8>>) -> Seq<u8>
    decreases cs.len(),
{
    if cs.len() == 0 {
        Seq::<u8>::empty()
    } else {
        cs[0] + concat_chunks(cs.drop_first())
    }
}

proof fn lemma_concat_chunks_snoc(cs: Seq<Seq<u8>>, c: Seq<u8>)
    ensures
        concat_chunks(cs.push(c)) == concat_chunks(cs) + c,
    decreases cs.len(),
{
    if cs.len() == 0 {
        assert(cs.push(c).drop_first() =~= Seq::<Seq<u8>>::empty());
        assert(concat_chunks(Seq::<Seq<u8>>::empty()) =~= Seq::<u8>::empty());
        assert(concat_chunks(cs.push(c)) =~= concat_chunks(cs) + c);
    } else {
        lemma_concat_chunks_snoc(cs.drop_first(), c);
        assert(cs.push(c).drop_first() =~= cs.drop_first().push(c));
        assert(concat_chunks(cs.push(c)) =~= concat_chunks(cs) + c);
    }
}

/// Splits a frame into chunks of at most `k` bytes: every chunk but the last
/// is exactly `k` bytes long, no chunk is empty, no byte is reordered or
/// dropped, and joining the chunks gives the frame back.
pub fn chunk_frame(frame: &Vec<u8>, k: usize) -> (r: Vec<Vec<u8>>)
    requires
        k >= 1,
    ensures
        concat_chunks(views_of(r@)) == frame@,
        forall|i: int| 0 <= i < r@.len() - 1 ==> (#[trigger] r@[i])@.len() == k as nat,
        forall|i: int| 0 <= i < r@.len() ==> 1 <= (#[trigger] r@[i])@.len() <= k as nat,
        (r@.len() == 0) == (frame@.len() == 0),
{
    let mut r: Vec<Vec<u8>> = Vec::new();
    let mut pos: usize = 0;
    while pos < frame.len()
        invariant
            k >= 1,
            pos <= frame@.len(),
            concat_chunks(views_of(r@)) == frame@.subrange(0, pos as int),
            forall|i: int| 0 <= i < r@.len() - 1 ==> (#[trigger] r@[i])@.len() == k as nat,
            forall|i: int| 0 <= i < r@.len() ==> 1 <= (#[trigger] r@[i])@.len() <= k as nat,
            (r@.len() == 0) == (pos == 0),
            pos < frame@.len() ==> forall|i: int| 0 <= i < r@.len() ==> (#[trigger] r@[i])@.len() == k as nat,
        decreases frame@.len() - pos,
    {
        let end: usize = if k < frame.len() - pos {
            pos + k
        } else {
            frame.len()
        };
        let mut chunk: Vec<u8> = Vec::new();
        let mut j: usize = pos;
        while j < end
            invariant
                pos <= j <= end,
                end <= frame@.len(),
                chunk@ == frame@.subrange(pos as int, j as int),
            decreases end - j,
        {
            chunk.push(frame[j]);
            proof {
                assert(frame@.subrange(pos as int, j as int + 1) =~= frame@.subrange(
                    pos as int,
                    j as int,
                ).push(frame@[j as int]));
            }
            j = j + 1;
        }
        proof {
            lemma_concat_chunks_snoc(views_of(r@), chunk@);
            assert(views_of(r@.push(chunk)) =~= views_of(r@).push(chunk@));
            assert(frame@.subrange(0, pos as int) + frame@.subrange(pos as int, end as int)
                =~= frame@.subrange(0, end as int));
        }
        r.push(chunk);
        pos = end;
    }
    proof {
        assert(frame@.subrange(0, frame@.len() as int) =~= frame@);
    }
    r
}

} // verus!
