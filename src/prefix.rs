use vstd::prelude::*;

verus! {

/// The mark sentinel and the ceiling of every count.
pub open spec fn max_usize() -> nat {
    usize::MAX as nat
}

/// `a + b`, held at the largest `usize`.
pub open spec fn clamp_add(a: nat, b: nat) -> nat {
    if a + b > max_usize() {
        max_usize()
    } else {
        a + b
    }
}

/// `a * b`, held at the largest `usize`.
pub open spec fn clamp_mul(a: nat, b: nat) -> nat {
    if a * b > max_usize() {
        max_usize()
    } else {
        a * b
    }
}

/// Left-to-right fold of decimal digits with saturating arithmetic.
pub open spec fn fold_digits(ds: Seq<u8>) -> nat
    decreases ds.len(),
{
    if ds.len() == 0 {
        0
    } else {
        clamp_add(clamp_mul(fold_digits(ds.drop_last()), 10), ds.last() as nat)
    }
}

/// The base-10 value of a digit sequence, unbounded.
pub open spec fn decimal_value(ds: Seq<u8>) -> nat
    decreases ds.len(),
{
    if ds.len() == 0 {
        0
    } else {
        decimal_value(ds.drop_last()) * 10 + ds.last() as nat
    }
}

pub open spec fn all_digits(ds: Seq<u8>) -> bool {
    forall|i: int| 0 <= i < ds.len() ==> ds[i] <= 9
}

/// The multiplier that pending digits stand for: 1 when there are none.
pub open spec fn repeat_count(ds: Seq<u8>) -> nat {
    if ds.len() == 0 {
        1
    } else {
        fold_digits(ds)
    }
}

/// The saturating fold is the base-10 value, held at the largest `usize`.
pub proof fn lemma_fold_is_decimal(ds: Seq<u8>)
    requires
        all_digits(ds),
    ensures
        fold_digits(ds) == if decimal_value(ds) <= max_usize() {
            decimal_value(ds)
        } else {
            max_usize()
        },
    decreases ds.len(),
{
    if ds.len() > 0 {
        let init = ds.drop_last();
        let v = decimal_value(init);
        assert(all_digits(init));
        lemma_fold_is_decimal(init);
        assert(v <= v * 10) by (nonlinear_arith);
        if v > max_usize() {
            assert(max_usize() * 10 > max_usize()) by (nonlinear_arith);
            assert(v * 10 >= max_usize() * 10) by (nonlinear_arith)
                requires v > max_usize();
        }
    }
}

/// Digit keystrokes typed ahead of a movement command.
pub struct RepeatPrefix {
    digits: Vec<u8>,
}

impl View for RepeatPrefix {
    type V = Seq<u8>;

    closed spec fn view(&self) -> Seq<u8> {
        self.digits@
    }
}

impl RepeatPrefix {
    pub open spec fn wf(&self) -> bool {
        all_digits(self@)
    }

    pub fn new() -> (r: RepeatPrefix)
        ensures
            r@ == Seq::<u8>::empty(),
            r.wf(),
    {
        RepeatPrefix { digits: Vec::new() }
    }

    pub fn is_empty(&self) -> (r: bool)
        ensures
            r == (self@.len() == 0),
    {
        self.digits.len() == 0
    }

    /// Appends one digit.
    pub fn push_digit(&mut self, d: u8)
        requires
            old(self).wf(),
            d <= 9,
        ensures
            final(self)@ == old(self)@.push(d),
            final(self).wf(),
    {
        self.digits.push(d);
    }

    /// The pending count (1 when no digit is pending); always leaves the prefix empty.
    pub fn resolve(&mut self) -> (r: usize)
        requires
            old(self).wf(),
        ensures
            r == repeat_count(old(self)@),
            final(self)@ == Seq::<u8>::empty(),
            final(self).wf(),
    {
        let n = self.digits.len();
        let mut acc: usize = 1;
        if n > 0 {
            acc = 0;
            let mut i: usize = 0;
            while i < n
                invariant
                    n == self.digits@.len(),
                    i <= n,
                    acc as nat == fold_digits(self.digits@.take(i as int)),
                decreases n - i,
            {
                assert(self.digits@.take(i as int + 1).drop_last() =~= self.digits@.take(i as int));
                let scaled: usize = match acc.checked_mul(10) {
                    Some(v) => v,
                    None => usize::MAX,
                };
                acc = scaled.saturating_add(self.digits[i] as usize);
                i = i + 1;
            }
            assert(self.digits@.take(n as int) =~= self.digits@);
        }
        self.digits.clear();
        acc
    }
}

} // verus!
