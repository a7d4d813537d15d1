//! The GPUs of the system as the manager holds them: the detected list, the
//! primary GPU, lookups by index and by vendor, activity and vendor counts.
//!
//! Detecting and refreshing GPUs is the providers' work; the manager takes
//! what they found.
use vstd::prelude::*;
use crate::gpu_info::{vendor_only, GpuError, GpuRecord};
use crate::vendor::{IntelGpuType, Vendor};

verus! {

/// NVIDIA and AMD GPUs are preferred as the primary GPU.
pub open spec fn preferred_primary(v: Vendor) -> bool {
    v == Vendor::Nvidia || v == Vendor::Amd
}

/// `i` is the primary GPU among `gs`: the first NVIDIA or AMD GPU, or the
/// first GPU when there is none of them.
pub open spec fn is_primary_choice(gs: Seq<GpuRecord>, i: int) -> bool {
    ||| {
        &&& 0 <= i < gs.len()
        &&& preferred_primary(gs[i].vendor)
        &&& forall|j: int| 0 <= j < i ==> !preferred_primary(#[trigger] gs[j].vendor)
    }
    ||| {
        &&& i == 0
        &&& forall|j: int| 0 <= j < gs.len() ==> !preferred_primary(#[trigger] gs[j].vendor)
    }
}

/// The operating system the library runs on.
#[derive(Debug, Clone, Copy, PartialEq, Eq, Structural)]
pub enum Platform {
    /// Windows.
    Windows,
    /// Linux.
    Linux,
    /// macOS.
    MacOs,
    /// Any other system.
    Other,
}

/// Which provider refreshes a GPU.
#[derive(Debug, Clone, Copy, PartialEq, Eq, Structural)]
pub enum UpdateRoute {
    /// The NVIDIA provider through NVML on Windows.
    WindowsNvidia,
    /// The AMD provider through ADL on Windows.
    WindowsAmd,
    /// The Intel provider on Windows.
    WindowsIntel,
    /// The NVIDIA provider for Linux.
    LinuxNvidia,
    /// The AMD provider for Linux.
    LinuxAmd,
    /// The macOS provider, whatever the vendor.
    MacOs,
    /// No provider refreshes this GPU; it is left as it is.
    NotImplemented,
}

/// The provider that refreshes a GPU of vendor `v` on `platform`: on
/// Windows the NVIDIA, AMD or Intel provider; on Linux the NVIDIA or AMD
/// provider; on macOS the macOS provider for every GPU; otherwise none.
pub open spec fn update_route_spec(platform: Platform, v: Vendor) -> UpdateRoute {
    match platform {
        Platform::Windows => match v {
            Vendor::Nvidia => UpdateRoute::WindowsNvidia,
            Vendor::Amd => UpdateRoute::WindowsAmd,
            Vendor::Intel(_) => UpdateRoute::WindowsIntel,
            _ => UpdateRoute::NotImplemented,
        },
        Platform::Linux => match v {
            Vendor::Nvidia => UpdateRoute::LinuxNvidia,
            Vendor::Amd => UpdateRoute::LinuxAmd,
            _ => UpdateRoute::NotImplemented,
        },
        Platform::MacOs => UpdateRoute::MacOs,
        Platform::Other => UpdateRoute::NotImplemented,
    }
}

/// The platform whose provider `route` names, if any.
pub open spec fn route_platform(route: UpdateRoute) -> Option<Platform> {
    match route {
        UpdateRoute::WindowsNvidia | UpdateRoute::WindowsAmd | UpdateRoute::WindowsIntel => Some(
            Platform::Windows,
        ),
        UpdateRoute::LinuxNvidia | UpdateRoute::LinuxAmd => Some(Platform::Linux),
        UpdateRoute::MacOs => Some(Platform::MacOs),
        UpdateRoute::NotImplemented => None,
    }
}

/// The provider `route` names serves GPUs of vendor `v`.
pub open spec fn route_serves_vendor(route: UpdateRoute, v: Vendor) -> bool {
    match route {
        UpdateRoute::WindowsNvidia | UpdateRoute::LinuxNvidia => v == Vendor::Nvidia,
        UpdateRoute::WindowsAmd | UpdateRoute::LinuxAmd => v == Vendor::Amd,
        UpdateRoute::WindowsIntel => v is Intel,
        UpdateRoute::MacOs => true,
        UpdateRoute::NotImplemented => false,
    }
}

/// A GPU is refreshed, when it is, by a provider of its own platform that
/// serves its vendor; and it is refreshed whenever its platform has such a
/// provider: on Windows every NVIDIA, AMD and Intel GPU, on Linux every
/// NVIDIA and AMD GPU, on macOS every GPU, and nowhere else.
pub proof fn lemma_update_route_is_the_vendor_provider(platform: Platform, v: Vendor)
    ensures
        update_route_spec(platform, v) != UpdateRoute::NotImplemented ==> route_platform(
            update_route_spec(platform, v),
        ) == Some(platform) && route_serves_vendor(update_route_spec(platform, v), v),
        platform == Platform::Windows && (v == Vendor::Nvidia || v == Vendor::Amd || v is Intel)
            ==> update_route_spec(platform, v) != UpdateRoute::NotImplemented,
        platform == Platform::Linux && (v == Vendor::Nvidia || v == Vendor::Amd)
            ==> update_route_spec(platform, v) != UpdateRoute::NotImplemented,
        platform == Platform::Linux && !(v == Vendor::Nvidia || v == Vendor::Amd)
            ==> update_route_spec(platform, v) == UpdateRoute::NotImplemented,
        platform == Platform::Windows && (v == Vendor::Apple || v == Vendor::Unknown)
            ==> update_route_spec(platform, v) == UpdateRoute::NotImplemented,
        platform == Platform::MacOs ==> update_route_spec(platform, v) != UpdateRoute::NotImplemented,
        platform == Platform::Other ==> update_route_spec(platform, v) == UpdateRoute::NotImplemented,
{
}

/// Which provider refreshes a GPU of vendor `vendor` on `platform`.
pub fn update_route(platform: Platform, vendor: Vendor) -> (r: UpdateRoute)
    ensures
        r == update_route_spec(platform, vendor),
{
    match platform {
        Platform::Windows => match vendor {
            Vendor::Nvidia => UpdateRoute::WindowsNvidia,
            Vendor::Amd => UpdateRoute::WindowsAmd,
            Vendor::Intel(_) => UpdateRoute::WindowsIntel,
            _ => UpdateRoute::NotImplemented,
        },
        Platform::Linux => match vendor {
            Vendor::Nvidia => UpdateRoute::LinuxNvidia,
            Vendor::Amd => UpdateRoute::LinuxAmd,
            _ => UpdateRoute::NotImplemented,
        },
        Platform::MacOs => UpdateRoute::MacOs,
        Platform::Other => UpdateRoute::NotImplemented,
    }
}

/// A GPU known to be active.
pub open spec fn is_active_gpu(g: GpuRecord) -> bool {
    g.active == Some(true)
}

/// The indices of the GPUs of `gs` with vendor `v`, in increasing order.
pub open spec fn vendor_indices(gs: Seq<GpuRecord>, v: Vendor) -> Seq<int>
    decreases gs.len(),
{
    if gs.len() == 0 {
        seq![]
    } else {
        let prev = vendor_indices(gs.drop_last(), v);
        if gs.last().vendor == v {
            prev.push(gs.len() - 1)
        } else {
            prev
        }
    }
}

/// The indices of the active GPUs of `gs`, in increasing order.
pub open spec fn active_indices(gs: Seq<GpuRecord>) -> Seq<int>
    decreases gs.len(),
{
    if gs.len() == 0 {
        seq![]
    } else {
        let prev = active_indices(gs.drop_last());
        if is_active_gpu(gs.last()) {
            prev.push(gs.len() - 1)
        } else {
            prev
        }
    }
}

/// The GPUs of `gs` whose vendor is `v`, in their order.
pub open spec fn with_vendor(gs: Seq<GpuRecord>, v: Vendor) -> Seq<GpuRecord>
    decreases gs.len(),
{
    if gs.len() == 0 {
        seq![]
    } else {
        let prev = with_vendor(gs.drop_last(), v);
        if gs.last().vendor == v {
            prev.push(gs.last())
        } else {
            prev
        }
    }
}

/// The number of GPUs of `gs` whose vendor satisfies `f`.
pub open spec fn count_vendor(gs: Seq<GpuRecord>, f: spec_fn(Vendor) -> bool) -> nat
    decreases gs.len(),
{
    if gs.len() == 0 {
        0
    } else {
        count_vendor(gs.drop_last(), f) + if f(gs.last().vendor) {
            1nat
        } else {
            0nat
        }
    }
}

/// The vendor is Intel, of any type.
pub open spec fn is_intel(v: Vendor) -> bool {
    v is Intel
}

/// How many of the GPUs come from each vendor.
pub struct VendorCounts {
    /// All GPUs.
    pub total_gpus: usize,
    /// NVIDIA GPUs.
    pub nvidia_count: usize,
    /// AMD GPUs.
    pub amd_count: usize,
    /// Intel GPUs.
    pub intel_count: usize,
    /// Apple GPUs.
    pub apple_count: usize,
    /// GPUs of unknown vendor.
    pub unknown_count: usize,
}

/// The first failure among the refresh attempts `results`, if any.
pub open spec fn first_error(results: Seq<(GpuRecord, Result<(), GpuError>)>) -> Option<GpuError>
    decreases results.len(),
{
    if results.len() == 0 {
        None
    } else {
        match results[0].1 {
            Err(e) => Some(e),
            Ok(_) => first_error(results.drop_first()),
        }
    }
}

/// The GPUs after a refresh: each as its refresh attempt left it, whether
/// the attempt succeeded or failed part way.
pub open spec fn refreshed(results: Seq<(GpuRecord, Result<(), GpuError>)>) -> Seq<GpuRecord> {
    results.map_values(|p: (GpuRecord, Result<(), GpuError>)| p.0)
}

/// The GPUs of the system and which of them is the primary one.
pub struct GpuManager {
    gpus: Vec<GpuRecord>,
    primary_gpu_index: usize,
}

/// The index of the primary GPU among `gs`.
fn select_primary_gpu(gs: &Vec<GpuRecord>) -> (r: usize)
    requires
        gs@.len() > 0,
    ensures
        r < gs@.len(),
        is_primary_choice(gs@, r as int),
{
    let mut i: usize = 0;
    while i < gs.len()
        invariant
            i <= gs@.len(),
            gs@.len() > 0,
            forall|j: int| 0 <= j < i ==> !preferred_primary(#[trigger] gs@[j].vendor),
        decreases gs@.len() - i,
    {
        match gs[i].vendor {
            Vendor::Nvidia | Vendor::Amd => {
                return i;
            },
            _ => {},
        }
        i = i + 1;
    }
    0
}

impl GpuManager {
    /// The manager holds at least one GPU and its primary index names one.
    #[verifier::type_invariant]
    spec fn wf(self) -> bool {
        self.primary_gpu_index < self.gpus@.len()
    }

    /// The GPUs, in detection order.
    pub closed spec fn gpus(self) -> Seq<GpuRecord> {
        self.gpus@
    }

    /// The index of the primary GPU.
    pub closed spec fn primary_index(self) -> int {
        self.primary_gpu_index as int
    }

    /// The manager of the detected GPUs: when none was detected it holds one
    /// GPU of unknown vendor, otherwise the detected GPUs with the first
    /// NVIDIA or AMD GPU (else the first GPU) as primary.
    pub fn new(detected: Vec<GpuRecord>) -> (r: Self)
        ensures
            detected@.len() > 0 ==> r.gpus() == detected@ && is_primary_choice(
                r.gpus(),
                r.primary_index(),
            ),
            detected@.len() == 0 ==> r.gpus().len() == 1 && vendor_only(r.gpus()[0], Vendor::Unknown)
                && r.primary_index() == 0,
    {
        let mut gpus = detected;
        if gpus.len() == 0 {
            gpus.push(GpuRecord::unknown());
            GpuManager { gpus, primary_gpu_index: 0 }
        } else {
            let primary = select_primary_gpu(&gpus);
            GpuManager { gpus, primary_gpu_index: primary }
        }
    }

    /// Replaces the GPUs with a new detection, as `new` does.
    pub fn detect_all_gpus(&mut self, detected: Vec<GpuRecord>)
        ensures
            detected@.len() > 0 ==> final(self).gpus() == detected@ && is_primary_choice(
                final(self).gpus(),
                final(self).primary_index(),
            ),
            detected@.len() == 0 ==> final(self).gpus().len() == 1 && vendor_only(
                final(self).gpus()[0],
                Vendor::Unknown,
            ) && final(self).primary_index() == 0,
    {
        *self = Self::new(detected);
    }

    /// The number of GPUs.
    pub fn gpu_count(&self) -> (r: usize)
        ensures
            r == self.gpus().len(),
            r > 0,
    {
        proof {
            use_type_invariant(self);
        }
        self.gpus.len()
    }

    /// The index of the primary GPU; it always names one of the GPUs.
    pub fn primary_gpu_index(&self) -> (r: usize)
        ensures
            r == self.primary_index(),
            r < self.gpus().len(),
    {
        proof {
            use_type_invariant(self);
        }
        self.primary_gpu_index
    }

    /// All GPUs, in detection order.
    pub fn get_all_gpus(&self) -> (r: &Vec<GpuRecord>)
        ensures
            r@ == self.gpus(),
    {
        &self.gpus
    }

    /// Copies of all GPUs.
    pub fn get_all_gpus_owned(&self) -> (r: Vec<GpuRecord>)
        ensures
            r@ == self.gpus(),
    {
        let mut out: Vec<GpuRecord> = Vec::new();
        let mut i: usize = 0;
        while i < self.gpus.len()
            invariant
                i <= self.gpus@.len(),
                out@ == self.gpus@.subrange(0, i as int),
            decreases self.gpus@.len() - i,
        {
            out.push(self.gpus[i].clone());
            i = i + 1;
            assert(out@ =~= self.gpus@.subrange(0, i as int));
        }
        assert(self.gpus@.subrange(0, i as int) =~= self.gpus@);
        out
    }

    /// The primary GPU; there always is one.
    pub fn get_primary_gpu(&self) -> (r: Option<&GpuRecord>)
        ensures
            0 <= self.primary_index() < self.gpus().len(),
            r matches Some(g) && *g == self.gpus()[self.primary_index()],
    {
        proof {
            use_type_invariant(self);
        }
        Some(&self.gpus[self.primary_gpu_index])
    }

    /// A copy of the primary GPU.
    pub fn get_primary_gpu_owned(&self) -> (r: Option<GpuRecord>)
        ensures
            0 <= self.primary_index() < self.gpus().len(),
            r == Some(self.gpus()[self.primary_index()]),
    {
        proof {
            use_type_invariant(self);
        }
        Some(self.gpus[self.primary_gpu_index].clone())
    }

    /// The GPU at `index`, if there is one.
    pub fn get_gpu_by_index(&self, index: usize) -> (r: Option<&GpuRecord>)
        ensures
            index < self.gpus().len() ==> (r matches Some(g) && *g == self.gpus()[index as int]),
            index >= self.gpus().len() ==> r is None,
    {
        if index < self.gpus.len() {
            Some(&self.gpus[index])
        } else {
            None
        }
    }

    /// A copy of the GPU at `index`, if there is one.
    pub fn get_gpu_by_index_owned(&self, index: usize) -> (r: Option<GpuRecord>)
        ensures
            index < self.gpus().len() ==> r == Some(self.gpus()[index as int]),
            index >= self.gpus().len() ==> r is None,
    {
        if index < self.gpus.len() {
            Some(self.gpus[index].clone())
        } else {
            None
        }
    }

    /// Copies of the GPUs of vendor `vendor`, in detection order.
    pub fn get_gpus_by_vendor_owned(&self, vendor: Vendor) -> (r: Vec<GpuRecord>)
        ensures
            r@ == with_vendor(self.gpus(), vendor),
    {
        let mut out: Vec<GpuRecord> = Vec::new();
        let mut i: usize = 0;
        while i < self.gpus.len()
            invariant
                i <= self.gpus@.len(),
                out@ == with_vendor(self.gpus@.subrange(0, i as int), vendor),
            decreases self.gpus@.len() - i,
        {
            let ghost pre = self.gpus@.subrange(0, i as int);
            let ghost ext = self.gpus@.subrange(0, i + 1);
            assert(ext.drop_last() =~= pre);
            if self.gpus[i].vendor == vendor {
                out.push(self.gpus[i].clone());
            }
            i = i + 1;
        }
        assert(self.gpus@.subrange(0, i as int) =~= self.gpus@);
        out
    }

    /// Makes the GPU at `index` the primary one; `GpuNotFound`, and no
    /// change, when there is no GPU at `index`.
    pub fn set_primary_gpu(&mut self, index: usize) -> (r: Result<(), GpuError>)
        ensures
            final(self).gpus() == old(self).gpus(),
            index < old(self).gpus().len() ==> r is Ok && final(self).primary_index() == index,
            index >= old(self).gpus().len() ==> (r matches Err(GpuError::GpuNotFound)
                && final(self).primary_index() == old(self).primary_index()),
    {
        proof {
            use_type_invariant(&*self);
        }
        if index >= self.gpus.len() {
            return Err(GpuError::GpuNotFound);
        }
        self.primary_gpu_index = index;
        Ok(())
    }

    /// Puts the fresh description `gpu` of the GPU at `index` in place;
    /// `GpuNotFound`, and no change, when there is no GPU at `index`.
    pub fn replace_gpu(&mut self, index: usize, gpu: GpuRecord) -> (r: Result<(), GpuError>)
        ensures
            final(self).primary_index() == old(self).primary_index(),
            index < old(self).gpus().len() ==> r is Ok && final(self).gpus() == old(
                self,
            ).gpus().update(index as int, gpu),
            index >= old(self).gpus().len() ==> (r matches Err(GpuError::GpuNotFound)
                && final(self).gpus() == old(self).gpus()),
    {
        proof {
            use_type_invariant(&*self);
        }
        if index >= self.gpus.len() {
            return Err(GpuError::GpuNotFound);
        }
        let (mut gpus, primary) = self.take_parts();
        gpus.set(index, gpu);
        *self = GpuManager { gpus, primary_gpu_index: primary };
        Ok(())
    }

    /// Takes the GPUs and the primary index out of the manager, which is
    /// left holding some other valid content.
    fn take_parts(&mut self) -> (r: (Vec<GpuRecord>, usize))
        ensures
            r.0@ == old(self).gpus@,
            r.1 == old(self).primary_gpu_index,
            r.1 < r.0@.len(),
    {
        let mut taken = GpuManager::new(Vec::new());
        std::mem::swap(self, &mut taken);
        proof {
            use_type_invariant(&taken);
        }
        let GpuManager { gpus, primary_gpu_index } = taken;
        (gpus, primary_gpu_index)
    }

    /// Applies the outcome of refreshing every GPU (`results[i]` for the GPU
    /// at `i`: the description its refresh attempt left, and how the attempt
    /// went): every GPU takes the description its attempt left, updated in
    /// part where the attempt failed; the first failure is reported.
    pub fn refresh_all_gpus(&mut self, results: Vec<(GpuRecord, Result<(), GpuError>)>) -> (r:
        Result<(), GpuError>)
        requires
            results@.len() == old(self).gpus().len(),
        ensures
            final(self).primary_index() == old(self).primary_index(),
            final(self).gpus() == refreshed(results@),
            match first_error(results@) {
                Some(e) => r == Err::<(), GpuError>(e),
                None => r is Ok,
            },
    {
        proof {
            use_type_invariant(&*self);
        }
        let ghost old_gpus = self.gpus@;
        let ghost rs = results@;
        let mut first: Option<GpuError> = None;
        let mut results = results;
        let mut fresh: Vec<GpuRecord> = Vec::new();
        let mut i: usize = 0;
        let n = self.gpus.len();
        assert(rs.subrange(0, rs.len() as int) =~= rs);
        while results.len() > 0
            invariant
                n == rs.len(),
                i + results@.len() == rs.len(),
                results@ == rs.subrange(i as int, rs.len() as int),
                fresh@.len() == i,
                forall|k: int| 0 <= k < i ==> #[trigger] fresh@[k] == rs[k].0,
                match first {
                    Some(e) => first_error(rs) == Some(e),
                    None => first_error(rs) == first_error(rs.subrange(i as int, rs.len() as int)),
                },
            decreases results@.len(),
        {
            let ghost rest = rs.subrange(i as int, rs.len() as int);
            let item = results.remove(0);
            assert(rest[0] == item);
            assert(rest.drop_first() =~= rs.subrange(i + 1, rs.len() as int));
            let (g, outcome) = item;
            fresh.push(g);
            match outcome {
                Ok(()) => {},
                Err(e) => {
                    if first.is_none() {
                        first = Some(e);
                    }
                },
            }
            i = i + 1;
        }
        self.gpus = fresh;
        assert(self.gpus@ =~= refreshed(rs));
        match first {
            Some(e) => Err(e),
            None => {
                assert(rs.subrange(i as int, rs.len() as int) =~= Seq::<
                    (GpuRecord, Result<(), GpuError>),
                >::empty());
                Ok(())
            },
        }
    }

    /// Whether every GPU is known to be active.
    pub fn all_gpus_active(&self) -> (r: bool)
        ensures
            r == forall|i: int| 0 <= i < self.gpus().len() ==> is_active_gpu(#[trigger] self.gpus()[i]),
    {
        let mut i: usize = 0;
        while i < self.gpus.len()
            invariant
                i <= self.gpus@.len(),
                forall|j: int| 0 <= j < i ==> is_active_gpu(#[trigger] self.gpus@[j]),
            decreases self.gpus@.len() - i,
        {
            match self.gpus[i].active {
                Some(true) => {},
                _ => {
                    assert(!is_active_gpu(self.gpus()[i as int]));
                    return false;
                },
            }
            i = i + 1;
        }
        true
    }

    /// The indices of the GPUs of vendor `vendor`, in increasing order: the
    /// positions of what `get_gpus_by_vendor_owned` returns.
    pub fn get_gpu_indices_by_vendor(&self, vendor: Vendor) -> (r: Vec<usize>)
        ensures
            r@.map_values(|k: usize| k as int) == vendor_indices(self.gpus(), vendor),
    {
        let mut out: Vec<usize> = Vec::new();
        let mut i: usize = 0;
        while i < self.gpus.len()
            invariant
                i <= self.gpus@.len(),
                out@.map_values(|k: usize| k as int) == vendor_indices(
                    self.gpus@.subrange(0, i as int),
                    vendor,
                ),
            decreases self.gpus@.len() - i,
        {
            let ghost pre = self.gpus@.subrange(0, i as int);
            let ghost ext = self.gpus@.subrange(0, i + 1);
            assert(ext.drop_last() =~= pre);
            if self.gpus[i].vendor == vendor {
                out.push(i);
            }
            i = i + 1;
            assert(out@.map_values(|k: usize| k as int) =~= vendor_indices(ext, vendor));
        }
        assert(self.gpus@.subrange(0, i as int) =~= self.gpus@);
        out
    }

    /// The indices of the GPUs known to be active, in increasing order.
    pub fn get_active_gpu_indices(&self) -> (r: Vec<usize>)
        ensures
            r@.map_values(|k: usize| k as int) == active_indices(self.gpus()),
    {
        let mut out: Vec<usize> = Vec::new();
        let mut i: usize = 0;
        while i < self.gpus.len()
            invariant
                i <= self.gpus@.len(),
                out@.map_values(|k: usize| k as int) == active_indices(
                    self.gpus@.subrange(0, i as int),
                ),
            decreases self.gpus@.len() - i,
        {
            let ghost pre = self.gpus@.subrange(0, i as int);
            let ghost ext = self.gpus@.subrange(0, i + 1);
            assert(ext.drop_last() =~= pre);
            match self.gpus[i].active {
                Some(true) => out.push(i),
                _ => {},
            }
            i = i + 1;
            assert(out@.map_values(|k: usize| k as int) =~= active_indices(ext));
        }
        assert(self.gpus@.subrange(0, i as int) =~= self.gpus@);
        out
    }

    /// How many GPUs there are of each vendor.
    pub fn vendor_counts(&self) -> (r: VendorCounts)
        ensures
            r.total_gpus == self.gpus().len(),
            r.nvidia_count == count_vendor(self.gpus(), |v: Vendor| v == Vendor::Nvidia),
            r.amd_count == count_vendor(self.gpus(), |v: Vendor| v == Vendor::Amd),
            r.intel_count == count_vendor(self.gpus(), |v: Vendor| is_intel(v)),
            r.apple_count == count_vendor(self.gpus(), |v: Vendor| v == Vendor::Apple),
            r.unknown_count == count_vendor(self.gpus(), |v: Vendor| v == Vendor::Unknown),
    {
        let mut c = VendorCounts {
            total_gpus: 0,
            nvidia_count: 0,
            amd_count: 0,
            intel_count: 0,
            apple_count: 0,
            unknown_count: 0,
        };
        let mut i: usize = 0;
        while i < self.gpus.len()
            invariant
                i <= self.gpus@.len(),
                c.total_gpus == i,
                c.nvidia_count == count_vendor(
                    self.gpus@.subrange(0, i as int),
                    |v: Vendor| v == Vendor::Nvidia,
                ),
                c.amd_count == count_vendor(
                    self.gpus@.subrange(0, i as int),
                    |v: Vendor| v == Vendor::Amd,
                ),
                c.intel_count == count_vendor(
                    self.gpus@.subrange(0, i as int),
                    |v: Vendor| is_intel(v),
                ),
                c.apple_count == count_vendor(
                    self.gpus@.subrange(0, i as int),
                    |v: Vendor| v == Vendor::Apple,
                ),
                c.unknown_count == count_vendor(
                    self.gpus@.subrange(0, i as int),
                    |v: Vendor| v == Vendor::Unknown,
                ),
                c.nvidia_count <= i && c.amd_count <= i && c.intel_count <= i && c.apple_count <= i
                    && c.unknown_count <= i,
            decreases self.gpus@.len() - i,
        {
            let ghost pre = self.gpus@.subrange(0, i as int);
            let ghost ext = self.gpus@.subrange(0, i + 1);
            assert(ext.drop_last() =~= pre);
            assert(ext.last() == self.gpus@[i as int]);
            match self.gpus[i].vendor {
                Vendor::Nvidia => c.nvidia_count = c.nvidia_count + 1,
                Vendor::Amd => c.amd_count = c.amd_count + 1,
                Vendor::Intel(_) => c.intel_count = c.intel_count + 1,
                Vendor::Apple => c.apple_count = c.apple_count + 1,
                Vendor::Unknown => c.unknown_count = c.unknown_count + 1,
            }
            c.total_gpus = c.total_gpus + 1;
            i = i + 1;
        }
        assert(self.gpus@.subrange(0, i as int) =~= self.gpus@);
        c
    }
}

/// Every GPU is counted under exactly one vendor: the vendor counts add up
/// to the number of GPUs.
pub proof fn lemma_vendor_counts_total(gs: Seq<GpuRecord>)
    ensures
        count_vendor(gs, |v: Vendor| v == Vendor::Nvidia) + count_vendor(gs, |v: Vendor| v == Vendor::Amd)
            + count_vendor(gs, |v: Vendor| is_intel(v)) + count_vendor(
            gs,
            |v: Vendor| v == Vendor::Apple,
        ) + count_vendor(gs, |v: Vendor| v == Vendor::Unknown) == gs.len(),
    decreases gs.len(),
{
    if gs.len() > 0 {
        lemma_vendor_counts_total(gs.drop_last());
    }
}

/// The GPUs at the vendor indices of `gs` are, in order, the GPUs of that
/// vendor: `get_gpu_indices_by_vendor` gives the positions of what
/// `get_gpus_by_vendor_owned` returns.
pub proof fn lemma_vendor_indices(gs: Seq<GpuRecord>, v: Vendor)
    ensures
        vendor_indices(gs, v).len() == with_vendor(gs, v).len(),
        forall|k: int|
            0 <= k < vendor_indices(gs, v).len() ==> 0 <= #[trigger] vendor_indices(gs, v)[k]
                < gs.len() && gs[vendor_indices(gs, v)[k]] == with_vendor(gs, v)[k],
    decreases gs.len(),
{
    if gs.len() > 0 {
        let prev = gs.drop_last();
        lemma_vendor_indices(prev, v);
        assert forall|k: int| 0 <= k < vendor_indices(prev, v).len() implies #[trigger] prev[vendor_indices(prev, v)[k]] == gs[vendor_indices(prev, v)[k]] by {}
    }
}

/// The active indices are exactly the positions of the active GPUs, in
/// increasing order.
pub proof fn lemma_active_indices(gs: Seq<GpuRecord>)
    ensures
        forall|k: int|
            0 <= k < active_indices(gs).len() ==> 0 <= #[trigger] active_indices(gs)[k] < gs.len()
                && is_active_gpu(gs[active_indices(gs)[k]]),
        forall|k: int, l: int|
            0 <= k < l < active_indices(gs).len() ==> #[trigger] active_indices(gs)[k]
                < #[trigger] active_indices(gs)[l],
        forall|i: int|
            0 <= i < gs.len() && is_active_gpu(#[trigger] gs[i]) ==> active_indices(gs).contains(i),
    decreases gs.len(),
{
    if gs.len() > 0 {
        let prev = gs.drop_last();
        lemma_active_indices(prev);
        let a = active_indices(gs);
        let p = active_indices(prev);
        assert forall|k: int| 0 <= k < a.len() implies 0 <= #[trigger] a[k] < gs.len() && is_active_gpu(
            gs[a[k]],
        ) by {
            if k < p.len() {
                assert(a[k] == p[k]);
                assert(gs[p[k]] == prev[p[k]]);
            }
        }
        assert forall|k: int, l: int| 0 <= k < l < a.len() implies #[trigger] a[k] < #[trigger] a[l] by {
            if l < p.len() {
                assert(a[k] == p[k] && a[l] == p[l]);
            } else {
                assert(a[k] == p[k]);
            }
        }
        assert forall|i: int| 0 <= i < gs.len() && is_active_gpu(#[trigger] gs[i]) implies a.contains(
            i,
        ) by {
            if i < gs.len() - 1 {
                assert(gs[i] == prev[i]);
                assert(p.contains(i));
                let w = choose|w: int| 0 <= w < p.len() && p[w] == i;
                assert(a[w] == i);
            } else {
                assert(a[a.len() - 1] == i);
            }
        }
    }
}

} // verus!
