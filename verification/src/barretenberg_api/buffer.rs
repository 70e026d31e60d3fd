use vstd::array::{spec_array_fill_for_copy_type, spec_array_update};
use vstd::prelude::*;

verus! {

/// The fixed-size array that holds exactly the bytes of `bytes`, in order.
/// There is one such array when `bytes` has length `N`, and none otherwise.
pub open spec fn array_of<const N: usize>(bytes: Seq<u8>) -> [u8; N] {
    choose|a: [u8; N]| a@ == bytes
}

/// An array of zeros whose first `n` bytes have been overwritten with the
/// first `n` bytes of `bytes`.
spec fn filled<const N: usize>(bytes: Seq<u8>, n: nat) -> [u8; N]
    decreases n,
{
    if n == 0 {
        spec_array_fill_for_copy_type::<u8, N>(0u8)
    } else {
        spec_array_update(filled::<N>(bytes, (n - 1) as nat), n - 1, bytes[n - 1])
    }
}

proof fn lemma_filled_prefix<const N: usize>(bytes: Seq<u8>, n: nat)
    requires
        n <= N,
        bytes.len() == N,
    ensures
        forall|j: int| 0 <= j < n ==> filled::<N>(bytes, n)@[j] == bytes[j],
    decreases n,
{
    if n > 0 {
        lemma_filled_prefix::<N>(bytes, (n - 1) as nat);
    }
}

/// An array is the only array that holds its own bytes.
pub proof fn lemma_array_of_view<const N: usize>(a: [u8; N])
    ensures
        array_of::<N>(a@) == a,
{
    let chosen = array_of::<N>(a@);
    assert(chosen@ == a@);
    assert(chosen =~= a);
}

/// Every sequence of `N` bytes is held by some array of `N` bytes, so
/// `array_of` gives an array with exactly those bytes.
pub proof fn lemma_array_of_seq<const N: usize>(bytes: Seq<u8>)
    requires
        bytes.len() == N,
    ensures
        array_of::<N>(bytes)@ == bytes,
{
    lemma_filled_prefix::<N>(bytes, N as nat);
    let witness = filled::<N>(bytes, N as nat);
    assert(witness@ =~= bytes);
}

} // verus!
