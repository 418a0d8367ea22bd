//! A fixed-capacity circular delay line of Q16 samples with fractional
//! (linearly interpolated) read.  The capacity is chosen once, when the
//! engine is prepared; processing never allocates.

use vstd::prelude::*;
use vstd::arithmetic::div_mod::lemma_div_is_ordered;
use vstd::arithmetic::div_mod::lemma_div_by_multiple;
use vstd::arithmetic::div_mod::lemma_div_pos_is_pos;
use crate::fixed::{mag, ONE, SAMPLE_LIMIT, fp_blend, fp_blend_spec};

verus! {

/// Largest buffer length a delay line accepts; keeps `len * ONE` far from
/// the `i64` range.
pub const MAX_LEN: usize = 0x1000_0000;

/// Mathematical model of a delay line: the ring buffer contents and the
/// write cursor.
pub ghost struct DelayModel {
    pub buf: Seq<i64>,
    pub cursor: int,
}

impl DelayModel {
    /// Well-formed: non-trivial buffer, cursor in range, every stored
    /// sample within the saturation bound.
    pub open spec fn wf(self) -> bool {
        &&& 3 <= self.buf.len() <= MAX_LEN
        &&& 0 <= self.cursor < self.buf.len()
        &&& forall|i: int|
            0 <= i < self.buf.len() ==> mag(#[trigger] self.buf[i] as int) <= SAMPLE_LIMIT as int
    }

    pub open spec fn len(self) -> int {
        self.buf.len() as int
    }

    /// Index of the sample written `k` calls ago (`k = 1` is the most
    /// recent write).
    pub open spec fn back_index(self, k: int) -> int {
        if k <= self.cursor {
            self.cursor - k
        } else {
            self.cursor + self.len() - k
        }
    }

    /// The sample written `k` calls ago.
    pub open spec fn read_at(self, k: int) -> i64 {
        self.buf[self.back_index(k)]
    }

    /// Fractional read at a Q16 offset: linear interpolation between the
    /// samples `off / ONE` and `off / ONE + 1` writes ago.
    pub open spec fn read_frac_spec(self, off: int) -> int {
        let k = off / (ONE as int);
        let f = off % (ONE as int);
        fp_blend_spec(self.read_at(k + 1) as int, self.read_at(k) as int, f)
    }

    /// The state after storing `s` and advancing the cursor.
    pub open spec fn write_spec(self, s: int) -> DelayModel {
        (DelayModel {
            buf: self.buf.update(self.cursor, s as i64),
            cursor: if self.cursor + 1 == self.len() {
                0
            } else {
                self.cursor + 1
            },
        })
    }

    /// Every stored sample is zero.
    pub open spec fn all_zero(self) -> bool {
        forall|i: int| 0 <= i < self.buf.len() ==> #[trigger] self.buf[i] == 0i64
    }
}

/// The model of a freshly allocated delay line: `n` zeros, cursor at the
/// start.
pub open spec fn zero_line_spec(n: int) -> DelayModel {
    (DelayModel { buf: Seq::new(n as nat, |i: int| 0i64), cursor: 0 })
}

/// A circular buffer of samples with a write cursor.
pub struct DelayLine {
    buf: Vec<i64>,
    cursor: usize,
}

impl View for DelayLine {
    type V = DelayModel;

    closed spec fn view(&self) -> DelayModel {
        (DelayModel { buf: self.buf@, cursor: self.cursor as int })
    }
}

impl DelayLine {
    /// A zero-filled delay line of length `n`.
    pub fn with_capacity(n: usize) -> (r: DelayLine)
        requires
            3 <= n <= MAX_LEN,
        ensures
            r@ == zero_line_spec(n as int),
            r@.wf(),
            r@.len() == n,
            r@.cursor == 0,
            r@.all_zero(),
    {
        let mut buf: Vec<i64> = Vec::new();
        while buf.len() < n
            invariant
                buf.len() <= n,
                forall|i: int| 0 <= i < buf.len() ==> #[trigger] buf[i] == 0i64,
            decreases n - buf.len(),
        {
            buf.push(0);
        }
        proof {
            assert(buf@ =~= Seq::new(n as nat, |i: int| 0i64));
        }
        DelayLine { buf, cursor: 0 }
    }

    /// The sample written `k` calls ago.
    pub fn read(&self, k: usize) -> (r: i64)
        requires
            self@.wf(),
            1 <= k < self@.buf.len(),
        ensures
            r == self@.read_at(k as int),
            mag(r as int) <= SAMPLE_LIMIT as int,
    {
        let idx = if k <= self.cursor {
            self.cursor - k
        } else {
            self.cursor + self.buf.len() - k
        };
        self.buf[idx]
    }

    /// Linearly interpolated read at a Q16 offset.
    pub fn read_frac(&self, off: i64) -> (r: i64)
        requires
            self@.wf(),
            ONE <= off,
            off <= (self@.len() - 2) * ONE,
        ensures
            r == self@.read_frac_spec(off as int),
            mag(r as int) <= SAMPLE_LIMIT as int,
    {
        proof {
            lemma_div_pos_is_pos(off as int, ONE as int);
            lemma_div_is_ordered(ONE as int, off as int, ONE as int);
            lemma_div_is_ordered(off as int, (self@.len() - 2) * ONE, ONE as int);
            lemma_div_by_multiple(self@.len() - 2, ONE as int);
        }
        let k = ((off as u64) / 65536) as usize;
        let f = ((off as u64) % 65536) as i64;
        assert(k == off as int / (ONE as int));
        assert(f == off as int % (ONE as int));
        let r0 = self.read(k);
        let r1 = self.read(k + 1);
        fp_blend(r1, r0, f)
    }

    /// Store a sample and advance the cursor.
    pub fn write(&mut self, s: i64)
        requires
            old(self)@.wf(),
            mag(s as int) <= SAMPLE_LIMIT as int,
        ensures
            final(self)@ == old(self)@.write_spec(s as int),
            final(self)@.wf(),
    {
        let idx = self.cursor;
        self.buf[idx] = s;
        if self.cursor + 1 == self.buf.len() {
            self.cursor = 0;
        } else {
            self.cursor = self.cursor + 1;
        }
    }
}

} // verus!
