use vstd::prelude::*;

verus! {

/// The identity of an account or of a participant: 32 bytes.
#[derive(Clone, Copy, Debug, Eq)]
pub struct Address {
    pub bytes: [u8; 32],
}

impl View for Address {
    type V = Seq<u8>;

    open spec fn view(&self) -> Seq<u8> {
        self.bytes@
    }
}

impl PartialEq for Address {
    fn eq(&self, other: &Address) -> (same: bool) {
        let mut i: usize = 0;
        while i < 32
            invariant
                i <= 32,
                forall|j: int| 0 <= j < i ==> self.bytes[j] == other.bytes[j],
            decreases 32 - i,
        {
            if self.bytes[i] != other.bytes[i] {
                return false;
            }
            i += 1;
        }
        proof {
            assert(self.bytes =~= other.bytes);
        }
        true
    }
}

impl vstd::std_specs::cmp::PartialEqSpecImpl for Address {
    open spec fn obeys_eq_spec() -> bool {
        true
    }

    open spec fn eq_spec(&self, other: &Address) -> bool {
        *self == *other
    }
}

impl Address {
    /// The all-zero address, which stands for "no identity".
    pub open spec fn spec_unset() -> Address {
        Address { bytes: vstd::array::spec_array_fill_for_copy_type::<u8, 32>(0u8) }
    }

    /// The all-zero address, which stands for "no identity".
    #[verifier::when_used_as_spec(spec_unset)]
    pub fn unset() -> (a: Address)
        ensures
            a == Address::spec_unset(),
    {
        Address { bytes: [0u8; 32] }
    }

    /// Whether this is the all-zero address.
    pub open spec fn spec_is_unset(&self) -> bool {
        *self == Address::spec_unset()
    }

    /// Whether this is the all-zero address.
    #[verifier::when_used_as_spec(spec_is_unset)]
    pub fn is_unset(&self) -> (b: bool)
        ensures
            b == self.spec_is_unset(),
    {
        let mut i: usize = 0;
        while i < 32
            invariant
                i <= 32,
                forall|j: int| 0 <= j < i ==> self.bytes[j] == 0,
            decreases 32 - i,
        {
            if self.bytes[i] != 0 {
                assert(Address::spec_unset().bytes[i as int] == 0);
                return false;
            }
            i += 1;
        }
        proof {
            assert(self.bytes =~= Address::spec_unset().bytes);
        }
        true
    }

    /// The 32 bytes as a vector.
    pub fn to_vec(&self) -> (v: Vec<u8>)
        ensures
            v@ == self@,
    {
        let mut v: Vec<u8> = Vec::new();
        let mut i: usize = 0;
        while i < 32
            invariant
                i <= 32,
                v@ == self@.take(i as int),
            decreases 32 - i,
        {
            v.push(self.bytes[i]);
            i += 1;
        }
        v
    }
}

} // verus!
