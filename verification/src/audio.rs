//! Audio ingest: downmixing interleaved stereo frames to mono.
//!
//! The transport delivers interleaved two-channel 16-bit samples.  Each
//! (left, right) pair becomes the single mono sample `left/2 + right/2`,
//! with integer division truncating toward zero — the exact arithmetic is
//! preserved even though it is not a rounding average.  A trailing unpaired
//! sample is dropped.

use vstd::prelude::*;

verus! {

/// Halving with truncation toward zero, the arithmetic `x / 2` performs on a
/// signed sample in executable Rust.
pub open spec fn half_toward_zero(x: int) -> int {
    if x >= 0 {
        x / 2
    } else {
        -((-x) / 2)
    }
}

/// The mono sample produced from one (left, right) stereo pair.
pub open spec fn mix_pair(l: i16, r: i16) -> i16 {
    (half_toward_zero(l as int) + half_toward_zero(r as int)) as i16
}

/// The mono sequence produced from an interleaved stereo sequence.
pub open spec fn downmix_spec(s: Seq<i16>) -> Seq<i16> {
    Seq::new((s.len() as int / 2) as nat, |i: int| mix_pair(s[2 * i], s[2 * i + 1]))
}

/// Downmix an interleaved stereo buffer to mono, pairing consecutive samples.
pub fn downmix(stereo: &[i16]) -> (mono: Vec<i16>)
    ensures
        mono@ == downmix_spec(stereo@),
{
    let n: usize = stereo.len() / 2;
    let mut mono: Vec<i16> = Vec::new();
    let mut k: usize = 0;
    while k < n
        invariant
            stereo@.len() <= usize::MAX,
            n == stereo@.len() as int / 2,
            k <= n,
            mono@.len() == k,
            forall|j: int| 0 <= j < k ==> mono@[j] == mix_pair(stereo@[2 * j], stereo@[2 * j + 1]),
        decreases n - k,
    {
        assert(2 * k + 1 < stereo@.len());
        let l: i16 = stereo[2 * k];
        let r: i16 = stereo[2 * k + 1];
        assert(-16384 <= half_toward_zero(l as int) <= 16383);
        assert(-16384 <= half_toward_zero(r as int) <= 16383);
        let m: i16 = l / 2 + r / 2;
        mono.push(m);
        k = k + 1;
    }
    assert(mono@ =~= downmix_spec(stereo@));
    mono
}

} // verus!
