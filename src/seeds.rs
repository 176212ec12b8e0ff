//! The seed list handed to address derivation and to the signer: the caller's
//! seeds in order, then the one-byte bump, in a buffer of fixed capacity.
use vstd::prelude::*;
use vstd::seq_lib::lemma_flatten_concat;

verus! {

/// The bytes of each slice of a seed buffer.
pub open spec fn seed_bytes(buf: Seq<&[u8]>) -> Seq<Seq<u8>> {
    buf.map_values(|s: &[u8]| s@)
}

/// The full seed list: the caller's seeds followed by the bump as a one-byte
/// seed.
pub open spec fn seed_list(seeds: Seq<Seq<u8>>, bump: u8) -> Seq<Seq<u8>> {
    seeds.push(seq![bump])
}

/// `list` followed by `pad` empty seeds, as held in a buffer with room to spare.
pub open spec fn padded(list: Seq<Seq<u8>>, pad: nat) -> Seq<Seq<u8>> {
    list + Seq::new(pad, |i: int| Seq::<u8>::empty())
}

/// Empty seeds add no bytes: a padded list lays out the same bytes as the list.
pub proof fn lemma_padding_adds_no_bytes(list: Seq<Seq<u8>>, pad: nat)
    ensures
        padded(list, pad).flatten() == list.flatten(),
    decreases pad,
{
    let empties = Seq::new(pad, |i: int| Seq::<u8>::empty());
    lemma_flatten_concat(list, empties);
    lemma_empties_flatten(pad);
    assert(padded(list, pad).flatten() =~= list.flatten());
}

proof fn lemma_empties_flatten(pad: nat)
    ensures
        Seq::new(pad, |i: int| Seq::<u8>::empty()).flatten() =~= Seq::<u8>::empty(),
    decreases pad,
{
    if pad > 0 {
        let s = Seq::new(pad, |i: int| Seq::<u8>::empty());
        lemma_empties_flatten((pad - 1) as nat);
        assert(s.drop_first() =~= Seq::new((pad - 1) as nat, |i: int| Seq::<u8>::empty()));
    }
}

/// Lays the caller's seeds and then `bump_seed` into a buffer of `N` slots;
/// the slots after them hold empty seeds.
pub fn assemble_seeds<'a, const N: usize>(seeds: &[&'a [u8]], bump_seed: &'a [u8]) -> (r: [&'a [u8]; N])
    requires
        seeds@.len() < N,
    ensures
        seed_bytes(r@) == padded(
            seed_bytes(seeds@).push(bump_seed@),
            (N - seeds@.len() - 1) as nat,
        ),
{
    let empty: &'a [u8] = &[];
    let mut buf: [&'a [u8]; N] = vstd::array::array_fill_for_copy_types(empty);
    let count = seeds.len();
    let mut i: usize = 0;
    while i < count
        invariant
            count == seeds@.len(),
            count < N,
            i <= count,
            buf@.len() == N,
            forall|j: int| 0 <= j < i ==> #[trigger] buf@[j]@ == seeds@[j]@,
            forall|j: int| i <= j < N ==> #[trigger] buf@[j]@ == Seq::<u8>::empty(),
        decreases count - i,
    {
        buf[i] = seeds[i];
        i = i + 1;
    }
    buf[count] = bump_seed;
    assert(seed_bytes(buf@) =~= padded(
        seed_bytes(seeds@).push(bump_seed@),
        (N - seeds@.len() - 1) as nat,
    ));
    buf
}

} // verus!
