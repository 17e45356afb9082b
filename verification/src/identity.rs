use vstd::prelude::*;

verus! {

/// An opaque caller identity: the raw bytes of a signing key. Equality is
/// exact, byte for byte, with no normalization, role hierarchy or
/// delegation.
#[derive(Clone, Copy, Eq, Debug)]
pub struct Identity {
    pub key: [u8; 32],
}

impl PartialEq for Identity {
    fn eq(&self, o: &Identity) -> (r: bool) {
        let mut i: usize = 0;
        while i < 32
            invariant
                i <= 32,
                forall|j: int| 0 <= j < i ==> self.key[j] == o.key[j],
            decreases 32 - i,
        {
            if self.key[i] != o.key[i] {
                proof {
                    vstd::array::axiom_array_ext_equal(self.key, o.key);
                }
                return false;
            }
            i = i + 1;
        }
        proof {
            vstd::array::axiom_array_ext_equal(self.key, o.key);
        }
        assert(self.key =~= o.key);
        true
    }
}

impl vstd::std_specs::cmp::PartialEqSpecImpl for Identity {
    open spec fn obeys_eq_spec() -> bool {
        true
    }

    open spec fn eq_spec(&self, o: &Identity) -> bool {
        self.key == o.key
    }
}

/// Process-wide configuration fixed at startup: the single asset identity
/// whose custody this service accepts. Withdrawals must name this asset.
#[derive(Clone, Copy, Debug)]
pub struct Config {
    pub usdc_mint: Identity,
}

} // verus!
