use vstd::prelude::*;

verus! {

/// The exception-flag bits of the MXCSR register that a [`Status`] reports:
/// denormal operand, divide by zero, overflow, underflow and inexact.
pub const EXCEPT_FLAGS: u32 = 0x3E;

/// The exception conditions that one operation can raise.
#[derive(Clone, Copy, Debug, PartialEq, Eq, Structural)]
pub enum Exception {
    Overflow,
    Underflow,
    Inexact,
    Denorm,
    DivZero,
}

/// The MXCSR status bit that records `e`.
pub open spec fn exception_bit(e: Exception) -> u32 {
    match e {
        Exception::Denorm => 0x02,
        Exception::DivZero => 0x04,
        Exception::Overflow => 0x08,
        Exception::Underflow => 0x10,
        Exception::Inexact => 0x20,
    }
}

/// The exceptions that the status bits of the MXCSR word `w` record.
pub open spec fn register_exceptions(w: u32) -> Set<Exception> {
    Set::new(|e: Exception| w & exception_bit(e) != 0)
}

/// Each exception has one bit of its own, among the reported flags.
proof fn lemma_exception_bit(e: Exception)
    ensures
        exception_bit(e) == 0x02 || exception_bit(e) == 0x04 || exception_bit(e) == 0x08
            || exception_bit(e) == 0x10 || exception_bit(e) == 0x20,
{
}

/// A bit is set in a union exactly when it is set in one of its sides.
proof fn lemma_or_bit(a: u32, b: u32, k: u32)
    ensures
        ((a | b) & k != 0) == (a & k != 0 || b & k != 0),
{
    assert(((a | b) & k != 0) == (a & k != 0 || b & k != 0)) by (bit_vector);
}

/// A single bit is set in an intersection exactly when it is set in both sides.
proof fn lemma_and_bit(a: u32, b: u32, k: u32)
    requires
        k == 0x02 || k == 0x04 || k == 0x08 || k == 0x10 || k == 0x20,
    ensures
        ((a & b) & k != 0) == (a & k != 0 && b & k != 0),
{
    assert(((a & b) & k != 0) == (a & k != 0 && b & k != 0)) by (bit_vector)
        requires
            k == 0x02 || k == 0x04 || k == 0x08 || k == 0x10 || k == 0x20,
    ;
}

/// The set of exceptions that one operation raised, held as MXCSR status bits.
#[derive(Clone, Copy)]
pub struct Status {
    inner: u32,
}

impl View for Status {
    type V = Set<Exception>;

    closed spec fn view(&self) -> Set<Exception> {
        register_exceptions(self.inner)
    }
}

impl Exception {
    /// The MXCSR status bit that records this exception.
    fn bit(self) -> (r: u32)
        ensures
            r == exception_bit(self),
    {
        match self {
            Exception::Denorm => 0x02,
            Exception::DivZero => 0x04,
            Exception::Overflow => 0x08,
            Exception::Underflow => 0x10,
            Exception::Inexact => 0x20,
        }
    }
}

impl Status {
    #[verifier::type_invariant]
    spec fn wf(self) -> bool {
        self.inner & !EXCEPT_FLAGS == 0
    }

    /// No exception at all.
    pub fn empty() -> (r: Self)
        ensures
            r@ == Set::<Exception>::empty(),
    {
        let w: u32 = 0;
        assert(w & !0x3Eu32 == 0 && w & 0x02 == 0 && w & 0x04 == 0 && w & 0x08 == 0 && w & 0x10
            == 0 && w & 0x20 == 0) by (bit_vector)
            requires
                w == 0,
        ;
        let r = Status { inner: w };
        assert(r@ =~= Set::<Exception>::empty());
        r
    }

    /// The status in which `e` alone is raised.
    pub fn of(e: Exception) -> (r: Self)
        ensures
            r@ == set![e],
    {
        let k = e.bit();
        proof {
            lemma_exception_bit(e);
            assert forall|x: Exception| #[trigger] exception_bit(x) & k != 0 <==> x == e by {
                lemma_exception_bit(x);
                let kx = exception_bit(x);
                assert((kx & k != 0) == (kx == k)) by (bit_vector)
                    requires
                        k == 0x02 || k == 0x04 || k == 0x08 || k == 0x10 || k == 0x20,
                        kx == 0x02 || kx == 0x04 || kx == 0x08 || kx == 0x10 || kx == 0x20,
                ;
            }
        }
        assert(k & !0x3Eu32 == 0) by (bit_vector)
            requires
                k == 0x02 || k == 0x04 || k == 0x08 || k == 0x10 || k == 0x20,
        ;
        let r = Status { inner: k };
        assert forall|x: Exception| r@.contains(x) <==> #[trigger] set![e].contains(x) by {
            let kx = exception_bit(x);
            assert((k & kx != 0) == (kx & k != 0)) by (bit_vector);
        }
        assert(r@ =~= set![e]);
        r
    }

    /// The exceptions that the status bits of the MXCSR word `word` record;
    /// its control bits and the invalid-operation flag are left out.
    pub fn from_register(word: u32) -> (r: Self)
        ensures
            r@ == register_exceptions(word),
    {
        let w = word & EXCEPT_FLAGS;
        assert(w & !0x3Eu32 == 0) by (bit_vector)
            requires
                w == word & 0x3E,
        ;
        let r = Status { inner: w };
        assert forall|e: Exception| r@.contains(e) <==> #[trigger] register_exceptions(word).contains(
            e,
        ) by {
            lemma_exception_bit(e);
            lemma_and_bit(word, 0x3E, exception_bit(e));
            let k = exception_bit(e);
            assert(0x3Eu32 & k != 0) by (bit_vector)
                requires
                    k == 0x02 || k == 0x04 || k == 0x08 || k == 0x10 || k == 0x20,
            ;
        }
        assert(r@ =~= register_exceptions(word));
        r
    }

    /// Whether any exception was raised.
    pub fn has_exceptions(self) -> (r: bool)
        ensures
            r == (self@ != Set::<Exception>::empty()),
    {
        proof {
            use_type_invariant(&self);
        }
        let w = self.inner;
        let r = w & EXCEPT_FLAGS != 0;
        assert(r == (w & 0x02 != 0 || w & 0x04 != 0 || w & 0x08 != 0 || w & 0x10 != 0 || w & 0x20
            != 0)) by (bit_vector)
            requires
                r == (w & 0x3E != 0),
        ;
        if r {
            assert(self@.contains(Exception::Denorm) || self@.contains(Exception::DivZero)
                || self@.contains(Exception::Overflow) || self@.contains(Exception::Underflow)
                || self@.contains(Exception::Inexact));
        } else {
            assert forall|e: Exception| !#[trigger] self@.contains(e) by {
                lemma_exception_bit(e);
            }
            assert(self@ =~= Set::<Exception>::empty());
        }
        r
    }

    /// Whether the overflow exception was raised.
    pub fn overflow(self) -> (r: bool)
        ensures
            r == self@.contains(Exception::Overflow),
    {
        self.has(Status::of(Exception::Overflow))
    }

    /// Whether the underflow exception was raised.
    pub fn underflow(self) -> (r: bool)
        ensures
            r == self@.contains(Exception::Underflow),
    {
        self.has(Status::of(Exception::Underflow))
    }

    /// Whether the result was inexact.
    pub fn inexact(self) -> (r: bool)
        ensures
            r == self@.contains(Exception::Inexact),
    {
        self.has(Status::of(Exception::Inexact))
    }

    /// Whether an operand was denormal.
    pub fn denorm(self) -> (r: bool)
        ensures
            r == self@.contains(Exception::Denorm),
    {
        self.has(Status::of(Exception::Denorm))
    }

    /// Whether a division by zero was raised.
    pub fn div_zero(self) -> (r: bool)
        ensures
            r == self@.contains(Exception::DivZero),
    {
        self.has(Status::of(Exception::DivZero))
    }

    /// Whether every exception of `status` is also in this one.
    pub fn has(self, status: Self) -> (r: bool)
        ensures
            r == status@.subset_of(self@),
    {
        proof {
            use_type_invariant(&self);
            use_type_invariant(&status);
        }
        let a = self.inner;
        let b = status.inner;
        let r = a & b == b;
        assert(r == ((b & 0x02 != 0 ==> a & 0x02 != 0) && (b & 0x04 != 0 ==> a & 0x04 != 0) && (b
            & 0x08 != 0 ==> a & 0x08 != 0) && (b & 0x10 != 0 ==> a & 0x10 != 0) && (b & 0x20 != 0
            ==> a & 0x20 != 0))) by (bit_vector)
            requires
                a & !0x3Eu32 == 0,
                b & !0x3Eu32 == 0,
                r == (a & b == b),
        ;
        if r {
            assert forall|e: Exception| #[trigger] status@.contains(e) implies self@.contains(e) by {
                lemma_exception_bit(e);
            }
        } else {
            assert(!(status@.contains(Exception::Denorm) ==> self@.contains(Exception::Denorm))
                || !(status@.contains(Exception::DivZero) ==> self@.contains(Exception::DivZero))
                || !(status@.contains(Exception::Overflow) ==> self@.contains(Exception::Overflow))
                || !(status@.contains(Exception::Underflow) ==> self@.contains(
                Exception::Underflow,
            )) || !(status@.contains(Exception::Inexact) ==> self@.contains(Exception::Inexact)));
        }
        r
    }

    /// The exceptions raised in either status.
    pub fn or(self, other: Self) -> (r: Self)
        ensures
            r@ == self@.union(other@),
    {
        proof {
            use_type_invariant(&self);
            use_type_invariant(&other);
        }
        let a = self.inner;
        let b = other.inner;
        let w = a | b;
        assert(w & !0x3Eu32 == 0) by (bit_vector)
            requires
                a & !0x3Eu32 == 0,
                b & !0x3Eu32 == 0,
                w == a | b,
        ;
        let r = Status { inner: w };
        assert forall|e: Exception| #[trigger] r@.contains(e) <==> self@.union(other@).contains(e) by {
            lemma_or_bit(a, b, exception_bit(e));
        }
        assert(r@ =~= self@.union(other@));
        r
    }

    /// The exceptions raised in both statuses.
    pub fn and(self, other: Self) -> (r: Self)
        ensures
            r@ == self@.intersect(other@),
    {
        proof {
            use_type_invariant(&self);
            use_type_invariant(&other);
        }
        let a = self.inner;
        let b = other.inner;
        let w = a & b;
        assert(w & !0x3Eu32 == 0) by (bit_vector)
            requires
                a & !0x3Eu32 == 0,
                w == a & b,
        ;
        let r = Status { inner: w };
        assert forall|e: Exception| #[trigger] r@.contains(e) <==> self@.intersect(other@).contains(
            e,
        ) by {
            lemma_exception_bit(e);
            lemma_and_bit(a, b, exception_bit(e));
        }
        assert(r@ =~= self@.intersect(other@));
        r
    }
}

/// The empty status raises nothing; a status of one exception raises
/// something, and that exception alone.
pub proof fn lemma_single_flags(e: Exception)
    ensures
        set![e] != Set::<Exception>::empty(),
        set![e].contains(e),
        forall|x: Exception| #[trigger] set![e].contains(x) ==> x == e,
{
    assert(set![e].contains(e));
    assert(!Set::<Exception>::empty().contains(e));
}

/// A union holds both of its sides, and an intersection holds `a` exactly
/// when `b` does.
pub proof fn lemma_combine(a: Status, b: Status)
    ensures
        a@.subset_of(a@.union(b@)),
        b@.subset_of(a@.union(b@)),
        a@.subset_of(a@.intersect(b@)) == a@.subset_of(b@),
{
}

} // verus!
