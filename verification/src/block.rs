//! Moving one block of samples between buffers.
//!
//! The functions here never look at a sample's value, so they are written for
//! any sample type that can be copied.

use vstd::prelude::*;

verus! {

/// Copies `input` to `output` unchanged. This is the whole of the inference
/// stage while no model is loaded.
pub fn pass_through<S: Copy>(input: &[S], output: &mut [S])
    requires
        input@.len() == old(output)@.len(),
    ensures
        final(output)@ == input@,
{
    let n: usize = input.len();
    let mut i: usize = 0;
    while i < n
        invariant
            n == input@.len(),
            n == output@.len(),
            i <= n,
            forall|k: int| 0 <= k < i ==> output@[k] == input@[k],
        decreases n - i,
    {
        output[i] = input[i];
        i += 1;
    }
}

/// Keeps a copy of `block` in `scratch`, in place of what `scratch` held, for
/// a stage that cannot work on the block where it lies.
pub fn capture<S: Copy>(block: &[S], scratch: &mut Vec<S>)
    ensures
        final(scratch)@ == block@,
{
    scratch.clear();
    let n: usize = block.len();
    let mut i: usize = 0;
    while i < n
        invariant
            n == block@.len(),
            i <= n,
            scratch@ == block@.take(i as int),
        decreases n - i,
    {
        scratch.push(block[i]);
        assert(block@.take(i as int).push(block@[i as int]) == block@.take(i + 1));
        i += 1;
    }
    assert(block@.take(n as int) == block@);
}

/// Copies the processed left channel into the right one, so that both
/// outputs carry the same signal.
pub fn mirror<S: Copy>(left: &[S], right: &mut [S])
    requires
        left@.len() == old(right)@.len(),
    ensures
        final(right)@ == left@,
{
    pass_through(left, right);
}

} // verus!
