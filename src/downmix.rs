//! Reducing an interleaved multi-channel buffer to one channel.
//!
//! Which channel to keep is a policy decided by the caller (the loudest one, by
//! energy over the buffer); this module takes that channel out of the
//! interleaved samples, whatever their type.

use vstd::arithmetic::div_mod::lemma_div_plus_one;
use vstd::prelude::*;

verus! {

/// The samples of channel `c` in the interleaved buffer `data` with `n`
/// channels, one per whole frame; a trailing partial frame is ignored.
pub open spec fn channel_samples<T>(data: Seq<T>, n: nat, c: nat) -> Seq<T>
    recommends
        c < n,
    decreases data.len(),
{
    if n == 0 || data.len() < n {
        Seq::empty()
    } else {
        seq![data[c as int]] + channel_samples(data.subrange(n as int, data.len() as int), n, c)
    }
}

proof fn lemma_frame_index_in_bounds(j: int, n: int, c: int, l: int)
    requires
        0 <= j < l / n,
        0 <= c < n,
        0 <= l,
    ensures
        0 <= j * n + c < l,
{
    assert(n * (l / n) + l % n == l) by (nonlinear_arith)
        requires
            0 < n,
    ;
    assert(0 <= l % n) by (nonlinear_arith)
        requires
            0 < n,
    ;
    assert(j * n + n <= n * (l / n)) by (nonlinear_arith)
        requires
            j + 1 <= l / n,
            0 < n,
    ;
    assert(0 <= j * n) by (nonlinear_arith)
        requires
            0 <= j,
            0 < n,
    ;
}

/// Channel `c` holds one sample per whole frame, and sample `i` of it is the
/// interleaved sample `i * n + c`.
pub proof fn lemma_channel_samples_index<T>(data: Seq<T>, n: nat, c: nat)
    requires
        c < n,
    ensures
        channel_samples(data, n, c).len() == data.len() / n,
        forall|i: int|
            0 <= i < data.len() / n ==> #[trigger] channel_samples(data, n, c)[i] == data[i * n
                + c],
    decreases data.len(),
{
    if data.len() >= n {
        let rest = data.subrange(n as int, data.len() as int);
        lemma_channel_samples_index(rest, n, c);
        lemma_div_plus_one(rest.len() as int, n as int);
        assert(n + rest.len() == data.len());
        assert forall|i: int| 0 <= i < data.len() / n implies #[trigger] channel_samples(
            data,
            n,
            c,
        )[i] == data[i * n + c] by {
            lemma_frame_index_in_bounds(i, n as int, c as int, data.len() as int);
            if i > 0 {
                lemma_frame_index_in_bounds(i - 1, n as int, c as int, rest.len() as int);
                assert((i - 1) * n + c + n == i * n + c) by (nonlinear_arith);
                assert(0 <= (i - 1) * n) by (nonlinear_arith)
                    requires
                        i >= 1,
                ;
                assert(i - 1 < rest.len() / n);
                assert(channel_samples(rest, n, c)[i - 1] == rest[(i - 1) * n + c]);
                assert(channel_samples(data, n, c)[i] == channel_samples(rest, n, c)[i - 1]);
            }
        }
    } else {
        assert(data.len() / n == 0) by (nonlinear_arith)
            requires
                data.len() < n,
        ;
    }
}

/// The mono signal of an interleaved buffer with `num_channels` channels,
/// taken from channel `channel`. A buffer of one channel (or of a channel
/// count of zero) is already mono and comes back unchanged; otherwise a trailing
/// partial frame is dropped.
pub fn take_channel<T: Copy>(data: &[T], num_channels: usize, channel: usize) -> (r: Vec<T>)
    requires
        num_channels > 1 ==> channel < num_channels,
    ensures
        num_channels <= 1 ==> r@ == data@,
        num_channels > 1 ==> r@ == channel_samples(data@, num_channels as nat, channel as nat),
{
    let mut out: Vec<T> = Vec::new();
    if num_channels <= 1 {
        let mut i: usize = 0;
        while i < data.len()
            invariant
                i <= data@.len(),
                out@ == data@.subrange(0, i as int),
            decreases data@.len() - i,
        {
            out.push(data[i]);
            assert(out@ =~= data@.subrange(0, i as int + 1));
            i += 1;
        }
        assert(data@.subrange(0, data@.len() as int) =~= data@);
        return out;
    }
    let ghost n = num_channels as nat;
    let ghost c = channel as nat;
    let mut base: usize = 0;
    assert(data@.subrange(0, data@.len() as int) =~= data@);
    while base <= data.len() && data.len() - base >= num_channels
        invariant
            1 < num_channels,
            channel < num_channels,
            n == num_channels as nat,
            c == channel as nat,
            base <= data@.len(),
            out@ + channel_samples(data@.subrange(base as int, data@.len() as int), n, c)
                == channel_samples(data@, n, c),
        decreases data@.len() - base,
    {
        let ghost tail = data@.subrange(base as int, data@.len() as int);
        assert(tail.subrange(n as int, tail.len() as int) =~= data@.subrange(
            base + num_channels,
            data@.len() as int,
        ));
        out.push(data[base + channel]);
        base = base + num_channels;
    }
    assert(channel_samples(data@.subrange(base as int, data@.len() as int), n, c) =~= Seq::<
        T,
    >::empty());
    assert(out@ =~= channel_samples(data@, n, c));
    out
}

} // verus!
