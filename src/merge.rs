//! Merging the audio of all chunks into one stream: a plain byte-for-byte
//! concatenation in chunk order. Each part is assumed to be a self-contained,
//! independently decodable stream; nothing is re-muxed or validated.
use vstd::prelude::*;

verus! {

broadcast use vstd::seq_lib::group_seq_properties;

/// Concatenates `parts` in the order given.
pub fn concat_mp3(parts: &Vec<Vec<u8>>) -> (r: Vec<u8>)
    ensures
        r@ == parts.deep_view().flatten(),
{
    let ghost all = parts.deep_view();
    let mut out: Vec<u8> = Vec::new();
    let mut i: usize = 0;
    while i < parts.len()
        invariant
            all == parts.deep_view(),
            i <= parts.len(),
            out@ == all.take(i as int).flatten(),
        decreases parts.len() - i,
    {
        let part = &parts[i];
        let ghost before = out@;
        let mut j: usize = 0;
        while j < part.len()
            invariant
                all == parts.deep_view(),
                part == parts[i as int],
                i < parts.len(),
                j <= part.len(),
                out@ == before + part@.take(j as int),
            decreases part.len() - j,
        {
            out.push(part[j]);
            assert(part@.take(j + 1) =~= part@.take(j as int).push(part@[j as int]));
            assert(out@ =~= before + part@.take(j + 1));
            j = j + 1;
        }
        proof {
            assert(all[i as int] == part@);
            assert(all.take(i + 1) =~= all.take(i as int).push(all[i as int]));
            all.take(i as int).lemma_flatten_push(all[i as int]);
            assert(part@.take(j as int) =~= part@);
        }
        i = i + 1;
    }
    assert(all.take(i as int) =~= all);
    out
}

} // verus!
