//! The registry of GPU providers by vendor, and which provider serves a GPU.
//!
//! Providers are kept in the order they were registered, one per vendor.
use vstd::prelude::*;
use crate::vendor::Vendor;

verus! {

/// A provider registered for `registered` serves GPUs of vendor `gpu`: the
/// same vendor, any Intel provider serving any Intel GPU.
pub open spec fn serves(registered: Vendor, gpu: Vendor) -> bool {
    match (registered, gpu) {
        (Vendor::Intel(_), Vendor::Intel(_)) => true,
        _ => registered == gpu,
    }
}

/// Whether a provider registered for `registered` serves GPUs of `gpu`.
pub fn provider_serves(registered: Vendor, gpu: Vendor) -> (r: bool)
    ensures
        r == serves(registered, gpu),
{
    match (registered, gpu) {
        (Vendor::Intel(_), Vendor::Intel(_)) => true,
        _ => registered == gpu,
    }
}

/// Registered providers, one per vendor.
pub struct GpuProviderManager<P> {
    providers: Vec<(Vendor, P)>,
}

impl<P> GpuProviderManager<P> {
    /// The registrations, in registration order.
    pub closed spec fn registry(self) -> Seq<(Vendor, P)> {
        self.providers@
    }

    /// The registered vendors, in registration order.
    pub open spec fn vendors(self) -> Seq<Vendor> {
        self.registry().map_values(|e: (Vendor, P)| e.0)
    }

    /// No vendor is registered twice.
    #[verifier::type_invariant]
    spec fn wf(self) -> bool {
        forall|i: int, j: int|
            0 <= i < j < self.registry().len() ==> #[trigger] self.registry()[i].0
                != #[trigger] self.registry()[j].0
    }

    /// A manager without providers.
    pub fn new() -> (r: Self)
        ensures
            r.registry().len() == 0,
    {
        GpuProviderManager { providers: Vec::new() }
    }

    /// Registers `provider` for `vendor`, replacing the provider registered
    /// for it before, if any; a new vendor comes last.
    pub fn register_provider(&mut self, vendor: Vendor, provider: P)
        ensures
            (exists|i: int| 0 <= i < old(self).registry().len() && #[trigger] old(self).registry()[i].0 == vendor)
                ==> final(self).registry() == old(self).registry().update(
                choose|i: int| 0 <= i < old(self).registry().len() && #[trigger] old(self).registry()[i].0 == vendor,
                (vendor, provider),
            ),
            !(exists|i: int| 0 <= i < old(self).registry().len() && #[trigger] old(self).registry()[i].0 == vendor)
                ==> final(self).registry() == old(self).registry().push((vendor, provider)),
    {
        proof {
            use_type_invariant(&*self);
        }
        let ghost before = self.providers@;
        let mut taken = GpuProviderManager { providers: Vec::new() };
        std::mem::swap(self, &mut taken);
        let GpuProviderManager { mut providers } = taken;
        let mut i: usize = 0;
        while i < providers.len()
            invariant
                i <= providers@.len(),
                providers@ == before,
                before == old(self).registry(),
                forall|a: int, b: int|
                    0 <= a < b < before.len() ==> #[trigger] before[a].0 != #[trigger] before[b].0,
                forall|j: int| 0 <= j < i ==> #[trigger] providers@[j].0 != vendor,
            decreases providers@.len() - i,
        {
            if providers[i].0 == vendor {
                let ghost k = i as int;
                assert(old(self).registry()[k].0 == vendor);
                let ghost c = choose|c: int| 0 <= c < old(self).registry().len() && #[trigger] old(self).registry()[c].0 == vendor;
                assert(c == k) by {
                    if c != k {
                        if c < k {
                            assert(providers@[c].0 != vendor);
                        } else {
                            assert(before[k].0 != before[c].0);
                        }
                    }
                }
                providers.set(i, (vendor, provider));
                assert(forall|j: int|
                    0 <= j < providers@.len() ==> #[trigger] providers@[j].0 == before[j].0);
                *self = GpuProviderManager { providers };
                return;
            }
            i = i + 1;
        }
        providers.push((vendor, provider));
        *self = GpuProviderManager { providers };
    }

    /// The registrations, in registration order.
    pub fn registered(&self) -> (r: &[(Vendor, P)])
        ensures
            r@ == self.registry(),
    {
        self.providers.as_slice()
    }

    /// The registered vendors, in registration order.
    pub fn get_registered_vendors(&self) -> (r: Vec<Vendor>)
        ensures
            r@ == self.vendors(),
    {
        let mut out: Vec<Vendor> = Vec::new();
        let mut i: usize = 0;
        while i < self.providers.len()
            invariant
                i <= self.providers@.len(),
                out@ == self.vendors().subrange(0, i as int),
            decreases self.providers@.len() - i,
        {
            out.push(self.providers[i].0);
            i = i + 1;
            assert(out@ =~= self.vendors().subrange(0, i as int));
        }
        assert(self.vendors().subrange(0, i as int) =~= self.vendors());
        out
    }

    /// Whether a provider is registered for exactly `vendor`.
    pub fn is_vendor_supported(&self, vendor: &Vendor) -> (r: bool)
        ensures
            r == self.vendors().contains(*vendor),
    {
        let mut i: usize = 0;
        while i < self.providers.len()
            invariant
                i <= self.providers@.len(),
                forall|j: int| 0 <= j < i ==> #[trigger] self.vendors()[j] != *vendor,
            decreases self.providers@.len() - i,
        {
            if self.providers[i].0 == *vendor {
                assert(self.vendors()[i as int] == *vendor);
                return true;
            }
            i = i + 1;
        }
        false
    }

    /// The provider that serves a GPU of vendor `gpu_vendor`: the first
    /// registered one that serves it, if any.
    pub fn provider_for(&self, gpu_vendor: Vendor) -> (r: Option<&P>)
        ensures
            match r {
                Some(p) => exists|i: int|
                    0 <= i < self.registry().len() && serves(self.registry()[i].0, gpu_vendor)
                        && self.registry()[i].1 == *p && forall|j: int|
                        0 <= j < i ==> !serves(#[trigger] self.registry()[j].0, gpu_vendor),
                None => forall|i: int|
                    0 <= i < self.registry().len() ==> !serves(#[trigger] self.registry()[i].0, gpu_vendor),
            },
    {
        let mut i: usize = 0;
        while i < self.providers.len()
            invariant
                i <= self.providers@.len(),
                forall|j: int| 0 <= j < i ==> !serves(#[trigger] self.registry()[j].0, gpu_vendor),
            decreases self.providers@.len() - i,
        {
            if provider_serves(self.providers[i].0, gpu_vendor) {
                let ghost k = i as int;
                assert(0 <= k < self.registry().len() && serves(self.registry()[k].0, gpu_vendor)
                    && self.registry()[k].1 == self.providers@[k].1);
                return Some(&self.providers[i].1);
            }
            i = i + 1;
        }
        None
    }
}

} // verus!
