use vstd::prelude::*;

verus! {

/// Value of a big-endian unsigned magnitude.
pub open spec fn be_value(s: Seq<u8>) -> nat
    decreases s.len(),
{
    if s.len() == 0 {
        0
    } else {
        be_value(s.drop_last()) * 256 + (s.last() as nat)
    }
}

/// A big-endian magnitude in its shortest form: no leading zero byte.
pub open spec fn is_minimal(s: Seq<u8>) -> bool {
    s.len() == 0 || s[0] != 0
}

/// A leading zero byte does not change the value.
pub proof fn lemma_leading_zero(t: Seq<u8>)
    ensures
        be_value(seq![0u8] + t) == be_value(t),
    decreases t.len(),
{
    let s = seq![0u8] + t;
    if t.len() == 0 {
        assert(s.drop_last() =~= Seq::<u8>::empty());
        assert(be_value(s) == be_value(s.drop_last()) * 256 + (s.last() as nat));
    } else {
        assert(s.drop_last() =~= seq![0u8] + t.drop_last());
        assert(s.last() == t.last());
        lemma_leading_zero(t.drop_last());
        assert(be_value(s) == be_value(s.drop_last()) * 256 + (s.last() as nat));
        assert(be_value(t) == be_value(t.drop_last()) * 256 + (t.last() as nat));
    }
}

/// A minimal non-empty magnitude is positive.
pub proof fn lemma_minimal_nonempty_positive(s: Seq<u8>)
    requires
        s.len() > 0,
        s[0] != 0,
    ensures
        be_value(s) > 0,
    decreases s.len(),
{
    if s.len() > 1 {
        assert(s.drop_last()[0] == s[0]);
        lemma_minimal_nonempty_positive(s.drop_last());
    }
}

/// Arbitrary-precision unsigned integer, stored as its shortest big-endian magnitude
/// (zero is the empty magnitude).
pub struct BigUint {
    be: Vec<u8>,
}

impl BigUint {
    #[verifier::type_invariant]
    spec fn minimal(self) -> bool {
        is_minimal(self.be@)
    }

    /// The magnitude bytes, shortest big-endian form.
    pub closed spec fn magnitude(self) -> Seq<u8> {
        self.be@
    }

    /// The value zero.
    pub fn zero() -> (r: BigUint)
        ensures
            r@ == 0,
            r.magnitude() == Seq::<u8>::empty(),
    {
        BigUint { be: Vec::new() }
    }

    /// Reads a big-endian magnitude; leading zero bytes are allowed and dropped.
    pub fn from_be_bytes(bytes: &[u8]) -> (r: BigUint)
        ensures
            r@ == be_value(bytes@),
            is_minimal(r.magnitude()),
    {
        let mut start: usize = 0;
        assert(bytes@.subrange(0, bytes.len() as int) =~= bytes@);
        while start < bytes.len() && bytes[start] == 0
            invariant
                start <= bytes.len(),
                be_value(bytes@.subrange(start as int, bytes.len() as int)) == be_value(bytes@),
            decreases bytes.len() - start,
        {
            proof {
                let t = bytes@.subrange(start + 1, bytes.len() as int);
                assert(bytes@.subrange(start as int, bytes.len() as int) =~= seq![0u8] + t);
                lemma_leading_zero(t);
            }
            start = start + 1;
        }
        let mut be: Vec<u8> = Vec::new();
        let mut i: usize = start;
        while i < bytes.len()
            invariant
                start <= i <= bytes.len(),
                be@ == bytes@.subrange(start as int, i as int),
            decreases bytes.len() - i,
        {
            be.push(bytes[i]);
            i = i + 1;
            assert(be@ =~= bytes@.subrange(start as int, i as int));
        }
        BigUint { be }
    }

    /// The shortest big-endian magnitude of this number.
    pub fn to_be_bytes(&self) -> (r: Vec<u8>)
        ensures
            r@ == self.magnitude(),
            is_minimal(r@),
            be_value(r@) == self@,
    {
        proof {
            use_type_invariant(self);
        }
        crate::bytes::bytes_clone(&self.be)
    }

    /// Whether the number is zero.
    pub fn is_zero(&self) -> (r: bool)
        ensures
            r == (self@ == 0),
            r == (self.magnitude().len() == 0),
    {
        proof {
            use_type_invariant(self);
            if self.be@.len() > 0 {
                lemma_minimal_nonempty_positive(self.be@);
            }
        }
        self.be.len() == 0
    }

    /// A copy of this number.
    pub fn copy(&self) -> (r: BigUint)
        ensures
            r@ == self@,
            r.magnitude() == self.magnitude(),
    {
        proof {
            use_type_invariant(self);
        }
        BigUint { be: crate::bytes::bytes_clone(&self.be) }
    }
}

impl View for BigUint {
    type V = nat;

    closed spec fn view(&self) -> nat {
        be_value(self.be@)
    }
}

} // verus!
