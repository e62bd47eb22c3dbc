//! Identities, and the capability that signs for pooled funds.

use vstd::prelude::*;

verus! {

/// The identity of an account, a token type, a vault or a signer: 32 bytes.
#[derive(Clone, Copy, Debug)]
pub struct Identity {
    pub bytes: [u8; 32],
}

impl View for Identity {
    type V = Seq<u8>;

    open spec fn view(&self) -> Seq<u8> {
        self.bytes@
    }
}

impl PartialEq for Identity {
    fn eq(&self, other: &Self) -> (same: bool) {
        let mut i: usize = 0;
        while i < 32
            invariant
                i <= 32,
                forall|k: int| 0 <= k < i ==> self.bytes[k] == other.bytes[k],
            decreases 32 - i,
        {
            if self.bytes[i] != other.bytes[i] {
                return false;
            }
            i += 1;
        }
        assert(self.bytes =~= other.bytes);
        true
    }
}

impl Eq for Identity {}

impl vstd::std_specs::cmp::PartialEqSpecImpl for Identity {
    open spec fn obeys_eq_spec() -> bool {
        true
    }

    open spec fn eq_spec(&self, other: &Self) -> bool {
        *self == *other
    }
}

impl Identity {
    /// Two identities with the same bytes are the same identity.
    pub proof fn lemma_view_injective(a: Identity, b: Identity)
        ensures
            a@ == b@ <==> a == b,
    {
        if a@ == b@ {
            assert(a.bytes =~= b.bytes);
        }
    }

    /// The bytes of the identity, in order.
    pub fn to_vec(&self) -> (out: Vec<u8>)
        ensures
            out@ == self@,
    {
        let mut out: Vec<u8> = Vec::new();
        let mut i: usize = 0;
        while i < 32
            invariant
                i <= 32,
                out@.len() == i,
                forall|k: int| 0 <= k < i ==> out@[k] == self.bytes[k],
            decreases 32 - i,
        {
            out.push(self.bytes[i]);
            i += 1;
        }
        assert(out@ =~= self@);
        out
    }
}

/// The fixed tag under which the custodial capability is derived: the ASCII
/// bytes of the word `exchange`.
pub open spec fn custody_tag() -> Seq<u8> {
    seq![101u8, 120u8, 99u8, 104u8, 97u8, 110u8, 103u8, 101u8]
}

/// The credential that authorizes transfers out of pool-owned vaults.
///
/// It is derived from the identity of the exchange and the fixed tag, and
/// from nothing else. Only this crate can make one: an operation hands it to
/// the custody gateway inside the transfer that it authorizes.
#[derive(Clone, Copy, Debug, PartialEq, Eq)]
pub struct CustodyCapability {
    exchange: Identity,
}

impl CustodyCapability {
    /// The capability of the exchange with the given identity.
    pub closed spec fn derived_from(exchange: Identity) -> CustodyCapability {
        CustodyCapability { exchange }
    }

    /// The exchange on whose behalf the capability signs.
    pub closed spec fn holder(self) -> Identity {
        self.exchange
    }

    /// The seeds presented to the custody gateway: the tag, then the bytes of
    /// the exchange's identity.
    pub open spec fn seeds(self) -> Seq<Seq<u8>> {
        seq![custody_tag(), self.holder()@]
    }

    pub(crate) fn derive(exchange: Identity) -> (cap: CustodyCapability)
        ensures
            cap == Self::derived_from(exchange),
    {
        CustodyCapability { exchange }
    }

    /// The exchange on whose behalf the capability signs.
    pub fn exchange(&self) -> (id: Identity)
        ensures
            id == self.holder(),
    {
        self.exchange
    }

    /// The seeds to present to the custody gateway.
    pub fn signer_seeds(&self) -> (out: Vec<Vec<u8>>)
        ensures
            out@.len() == 2,
            out@[0]@ == custody_tag(),
            out@[1]@ == self.holder()@,
    {
        let mut tag: Vec<u8> = Vec::new();
        tag.push(101u8);
        tag.push(120u8);
        tag.push(99u8);
        tag.push(104u8);
        tag.push(97u8);
        tag.push(110u8);
        tag.push(103u8);
        tag.push(101u8);
        assert(tag@ =~= custody_tag());
        let mut out: Vec<Vec<u8>> = Vec::new();
        out.push(tag);
        out.push(self.exchange.to_vec());
        out
    }

    /// Derivation is deterministic and loses nothing: a capability is the one
    /// derived from its holder, and the holder of a derived capability is the
    /// exchange it was derived from.
    pub proof fn lemma_derivation(exchange: Identity, cap: CustodyCapability)
        ensures
            Self::derived_from(exchange).holder() == exchange,
            Self::derived_from(cap.holder()) == cap,
    {
    }

    /// No other exchange yields the same credential: capabilities that
    /// present the same seeds belong to the same exchange.
    pub proof fn lemma_unforgeable(a: Identity, b: Identity)
        ensures
            Self::derived_from(a).seeds() == Self::derived_from(b).seeds() <==> a == b,
    {
        let sa = Self::derived_from(a).seeds();
        let sb = Self::derived_from(b).seeds();
        if sa == sb {
            assert(sa[1] == sb[1]);
            Identity::lemma_view_injective(a, b);
        }
    }
}

} // verus!
