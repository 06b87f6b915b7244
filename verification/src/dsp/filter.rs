//! Digital Filters
//!
//! The fixed-point FIR filter. Samples and coefficients are Q1.15 values
//! (`fixed::types::I1F15`), carried here by their 16-bit representation;
//! the products and sums are computed by the `fixed` crate. The IIR and
//! floating-point filters live in the application.

use vstd::prelude::*;
use fixed::types::I1F15;

verus! {

/// A Q1.15 sample or coefficient, by its 16-bit representation: the value
/// is `bits / 32768`.
pub type Sample = i16;

/// The Q1.15 product of `a` and `b`, rounded down, saturating at the
/// largest value when both are -1.
pub open spec fn q15_mul(a: i16, b: i16) -> i16 {
    if a == i16::MIN && b == i16::MIN {
        i16::MAX
    } else {
        ((a as int * b as int) / 32768) as i16
    }
}

/// The Q1.15 sum of `a` and `b`, saturating at the ends of the range.
pub open spec fn q15_add(a: i16, b: i16) -> i16 {
    let s = a as int + b as int;
    if s > i16::MAX {
        i16::MAX
    } else if s < i16::MIN {
        i16::MIN
    } else {
        s as i16
    }
}

/// `I1F15::saturating_mul`: the product of two Q1.15 numbers, computed as
/// `(a * (b << 1)) >> 16` in 32 bits (rounded down); the one product that
/// does not fit, -1 times -1, gives the largest value.
#[verifier::external_body]
fn q15_saturating_mul(a: i16, b: i16) -> (r: i16)
    ensures
        r == q15_mul(a, b),
{
    I1F15::from_bits(a).saturating_mul(I1F15::from_bits(b)).to_bits()
}

/// `I1F15::saturating_add`: the sum of two Q1.15 numbers, saturating on
/// overflow.
#[verifier::external_body]
fn q15_saturating_add(a: i16, b: i16) -> (r: i16)
    ensures
        r == q15_add(a, b),
{
    I1F15::from_bits(a).saturating_add(I1F15::from_bits(b)).to_bits()
}

/// FIR filter coefficients
#[derive(Clone)]
pub struct FirCoefficients<const N: usize> {
    /// Filter coefficients (symmetric for linear phase)
    taps: Vec<Sample>,
}

impl<const N: usize> View for FirCoefficients<N> {
    type V = Seq<i16>;

    closed spec fn view(&self) -> Seq<i16> {
        self.taps@
    }
}

impl<const N: usize> FirCoefficients<N> {
    /// Create coefficients from their Q1.15 representations
    pub fn from_bits(taps: &[Sample]) -> (r: Self)
        requires
            taps@.len() == N,
        ensures
            r@ == taps@,
    {
        Self { taps: vstd::slice::slice_to_vec(taps) }
    }

    /// Get coefficient at index (zero past the end)
    pub fn get(&self, index: usize) -> (r: Sample)
        ensures
            r == (if index < self@.len() { self@[index as int] } else { 0i16 }),
    {
        if index < self.taps.len() {
            self.taps[index]
        } else {
            0
        }
    }
}

/// The filter output after the first `k` taps: the saturating sum of the
/// saturating products of each coefficient with the sample `i` steps back
/// from `pos` in the circular delay line.
pub open spec fn fir_partial(delay: Seq<i16>, coeffs: Seq<i16>, pos: int, k: nat) -> i16
    decreases k,
{
    if k == 0 {
        0
    } else {
        let i = k - 1;
        let n = delay.len() as int;
        let idx = (pos - i) % n;
        let c = if i < coeffs.len() { coeffs[i] } else { 0i16 };
        q15_add(fir_partial(delay, coeffs, pos, (k - 1) as nat), q15_mul(delay[idx], c))
    }
}

/// Running `inputs` one by one through a filter whose delay line is `delay`
/// with the next sample going to `pos`: the delay line, the position and
/// the outputs, one per input, afterwards.
pub open spec fn fir_run(delay: Seq<i16>, coeffs: Seq<i16>, pos: int, inputs: Seq<i16>) -> (
    Seq<i16>,
    int,
    Seq<i16>,
)
    decreases inputs.len(),
{
    if inputs.len() == 0 {
        (delay, pos, Seq::empty())
    } else {
        let (d, p, out) = fir_run(delay, coeffs, pos, inputs.drop_last());
        let d2 = d.update(p, inputs.last());
        (d2, (p + 1) % (d.len() as int), out.push(fir_partial(d2, coeffs, p, d.len())))
    }
}

/// FIR filter state
pub struct FirFilter<const N: usize> {
    /// Filter coefficients
    coeffs: FirCoefficients<N>,
    /// Delay line (circular buffer)
    delay: Vec<Sample>,
    /// Current position in delay line
    pos: usize,
}

impl<const N: usize> FirFilter<N> {
    /// The coefficients.
    pub closed spec fn spec_coeffs(&self) -> Seq<i16> {
        self.coeffs@
    }

    /// The delay line.
    pub closed spec fn spec_delay(&self) -> Seq<i16> {
        self.delay@
    }

    /// Where the next input sample goes in the delay line.
    pub closed spec fn spec_pos(&self) -> int {
        self.pos as int
    }

    /// Well-formedness: a full delay line and a position inside it.
    pub open spec fn wf(&self) -> bool {
        &&& self.spec_delay().len() == N
        &&& 0 <= self.spec_pos() < N
    }

    /// Create a new FIR filter with given coefficients (delay line zeroed)
    pub fn new(coeffs: FirCoefficients<N>) -> (r: Self)
        requires
            N > 0,
        ensures
            r.wf(),
            r.spec_coeffs() == coeffs@,
            r.spec_pos() == 0,
            forall|i: int| 0 <= i < N ==> r.spec_delay()[i] == 0,
    {
        let mut delay: Vec<Sample> = Vec::new();
        let mut i: usize = 0;
        while i < N
            invariant
                i <= N,
                delay@.len() == i,
                forall|j: int| 0 <= j < i ==> delay@[j] == 0,
            decreases N - i,
        {
            delay.push(0);
            i = i + 1;
        }
        Self { coeffs, delay, pos: 0 }
    }

    /// Process a single sample: store it in the delay line and return the
    /// convolution of the delay line with the coefficients
    pub fn process(&mut self, input: Sample) -> (r: Sample)
        requires
            old(self).wf(),
        ensures
            final(self).wf(),
            final(self).spec_coeffs() == old(self).spec_coeffs(),
            final(self).spec_delay() == old(self).spec_delay().update(old(self).spec_pos(), input),
            final(self).spec_pos() == (old(self).spec_pos() + 1) % (N as int),
            r == fir_partial(final(self).spec_delay(), old(self).spec_coeffs(), old(self).spec_pos(), N as nat),
    {
        let pos = self.pos;
        self.delay.set(pos, input);
        let mut acc: Sample = 0;
        let mut idx = pos;
        assert(pos as int % (N as int) == pos as int) by (nonlinear_arith)
            requires
                pos < N,
        ;
        let mut i: usize = 0;
        while i < N
            invariant
                i <= N,
                N > 0,
                self.delay@.len() == N,
                pos < N,
                idx < N,
                idx as int == (pos as int - i as int) % (N as int),
                acc == fir_partial(self.delay@, self.coeffs@, pos as int, i as nat),
            decreases N - i,
        {
            let c = self.coeffs.get(i);
            let product = q15_saturating_mul(self.delay[idx], c);
            acc = q15_saturating_add(acc, product);
            proof {
                let n = N as int;
                if idx == 0 {
                    assert((pos as int - (i as int + 1)) % n == n - 1) by (nonlinear_arith)
                        requires
                            0 == (pos as int - i as int) % n,
                            n > 0,
                    ;
                } else {
                    assert((pos as int - (i as int + 1)) % n == idx - 1) by (nonlinear_arith)
                        requires
                            idx as int == (pos as int - i as int) % n,
                            idx > 0,
                            n > 0,
                    ;
                }
            }
            if idx == 0 {
                idx = N - 1;
            } else {
                idx = idx - 1;
            }
            i = i + 1;
        }
        self.pos = (self.pos + 1) % N;
        acc
    }

    /// Process a block of samples in-place: each sample is replaced by the
    /// filter output for it, in order, and the filter state moves on as if
    /// they had been processed one by one
    pub fn process_block(&mut self, samples: &mut [Sample])
        requires
            old(self).wf(),
        ensures
            final(self).wf(),
            final(self).spec_coeffs() == old(self).spec_coeffs(),
            final(samples)@ == fir_run(old(self).spec_delay(), old(self).spec_coeffs(), old(self).spec_pos(), old(samples)@).2,
            final(self).spec_delay() == fir_run(old(self).spec_delay(), old(self).spec_coeffs(), old(self).spec_pos(), old(samples)@).0,
            final(self).spec_pos() == fir_run(old(self).spec_delay(), old(self).spec_coeffs(), old(self).spec_pos(), old(samples)@).1,
    {
        let ghost d0 = self.spec_delay();
        let ghost c0 = self.spec_coeffs();
        let ghost p0 = self.spec_pos();
        let ghost input = samples@;
        let mut i: usize = 0;
        assert(input.take(0) =~= Seq::<i16>::empty());
        assert(samples@.take(0) =~= Seq::<i16>::empty());
        while i < samples.len()
            invariant
                i <= samples@.len(),
                samples@.len() == input.len(),
                self.wf(),
                self.spec_coeffs() == c0,
                d0.len() == N,
                0 <= p0 < N,
                self.spec_delay() == fir_run(d0, c0, p0, input.take(i as int)).0,
                self.spec_pos() == fir_run(d0, c0, p0, input.take(i as int)).1,
                samples@.take(i as int) == fir_run(d0, c0, p0, input.take(i as int)).2,
                forall|j: int| i <= j < input.len() ==> samples@[j] == input[j],
            decreases samples@.len() - i,
        {
            proof {
                lemma_fir_run_len(d0, c0, p0, input.take(i as int));
                assert(input.take(i + 1).drop_last() =~= input.take(i as int));
            }
            let out = self.process(samples[i]);
            samples[i] = out;
            proof {
                assert(samples@.take(i + 1) =~= samples@.take(i as int).push(out));
            }
            i = i + 1;
        }
        assert(input.take(i as int) =~= input);
        assert(samples@.take(i as int) =~= samples@);
    }

    /// Reset filter state
    pub fn reset(&mut self)
        requires
            old(self).wf(),
        ensures
            final(self).wf(),
            final(self).spec_coeffs() == old(self).spec_coeffs(),
            final(self).spec_pos() == 0,
            forall|i: int| 0 <= i < N ==> final(self).spec_delay()[i] == 0,
    {
        let mut i: usize = 0;
        while i < N
            invariant
                i <= N,
                self.delay@.len() == N,
                self.coeffs@ == old(self).coeffs@,
                old(self).pos < N,
                self.pos == old(self).pos,
                forall|j: int| 0 <= j < i ==> self.delay@[j] == 0,
            decreases N - i,
        {
            self.delay.set(i, 0);
            i = i + 1;
        }
        self.pos = 0;
    }

    /// Update coefficients (resets state)
    pub fn set_coefficients(&mut self, coeffs: FirCoefficients<N>)
        requires
            old(self).wf(),
        ensures
            final(self).wf(),
            final(self).spec_coeffs() == coeffs@,
            final(self).spec_pos() == 0,
            forall|i: int| 0 <= i < N ==> final(self).spec_delay()[i] == 0,
    {
        self.coeffs = coeffs;
        self.reset();
    }
}

/// Running samples through a filter keeps the length of its delay line and
/// the position inside it, and gives one output per input.
pub proof fn lemma_fir_run_len(delay: Seq<i16>, coeffs: Seq<i16>, pos: int, inputs: Seq<i16>)
    requires
        0 <= pos < delay.len(),
    ensures
        fir_run(delay, coeffs, pos, inputs).0.len() == delay.len(),
        0 <= fir_run(delay, coeffs, pos, inputs).1 < delay.len(),
        fir_run(delay, coeffs, pos, inputs).2.len() == inputs.len(),
    decreases inputs.len(),
{
    if inputs.len() > 0 {
        lemma_fir_run_len(delay, coeffs, pos, inputs.drop_last());
        let p = fir_run(delay, coeffs, pos, inputs.drop_last()).1;
        let n = delay.len() as int;
        assert(0 <= (p + 1) % n < n) by (nonlinear_arith)
            requires
                n > 0,
        ;
    }
}

/// Silence in, silence out: with an all-zero delay line the output is zero,
/// whatever the coefficients.
pub proof fn lemma_fir_silence(delay: Seq<i16>, coeffs: Seq<i16>, pos: int, k: nat)
    requires
        delay.len() > 0,
        forall|i: int| 0 <= i < delay.len() ==> delay[i] == 0,
    ensures
        fir_partial(delay, coeffs, pos, k) == 0,
    decreases k,
{
    if k > 0 {
        lemma_fir_silence(delay, coeffs, pos, (k - 1) as nat);
        let n = delay.len() as int;
        let idx = (pos - (k - 1)) % n;
        assert(0 <= idx < n) by (nonlinear_arith)
            requires
                n > 0,
                idx == (pos - (k - 1)) % n,
        ;
    }
}

} // verus!
