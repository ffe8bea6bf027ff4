//! Counter-based random number generation: seed, counter offset and launch
//! geometry of the generator kernels.

use vstd::prelude::*;
use crate::error::{HipError, spec_check_hip};
use crate::module::HipModule;

verus! {

/// Threads per block of the generator kernels.
pub const RNG_BLOCK: u32 = 256;

/// Generator threads that `n` outputs take: each thread writes four values.
pub open spec fn rng_threads(n: u32) -> int {
    (n + 3) / 4
}

/// One launch of a generator kernel.
#[derive(Clone, Copy, Debug, PartialEq, Eq, Structural)]
pub struct RngLaunch {
    /// Number of values written.
    pub n: u32,
    /// Number of generator threads.
    pub threads: u32,
    pub grid: u32,
    pub block: u32,
    pub seed: u64,
    /// Counter offset at which the launch starts.
    pub offset: u64,
}

/// A Philox generator: a loaded kernel module, a seed and a counter offset.
pub struct HipRng {
    module: HipModule,
    seed: u64,
    offset: u64,
}

impl HipRng {
    pub closed spec fn spec_seed(&self) -> u64 {
        self.seed
    }

    pub closed spec fn spec_offset(&self) -> u64 {
        self.offset
    }

    pub closed spec fn spec_module(&self) -> HipModule {
        self.module
    }

    /// A generator over the module loaded from a compiled code object, with
    /// the counter at zero.
    pub fn from_hsaco(seed: u64, module: HipModule) -> (r: HipRng)
        ensures
            r.spec_seed() == seed,
            r.spec_offset() == 0,
            r.spec_module() == module,
    {
        HipRng { module, seed, offset: 0 }
    }

    /// Restarts the generator from `seed` with the counter at zero.
    pub fn set_seed(&mut self, seed: u64)
        ensures
            final(self).spec_seed() == seed,
            final(self).spec_offset() == 0,
            final(self).spec_module() == old(self).spec_module(),
    {
        self.seed = seed;
        self.offset = 0;
    }

    pub fn seed(&self) -> (r: u64)
        ensures
            r == self.spec_seed(),
    {
        self.seed
    }

    pub fn offset(&self) -> (r: u64)
        ensures
            r == self.spec_offset(),
    {
        self.offset
    }

    /// Name of the kernel that fills with uniform values in (0, 1].
    pub fn uniform_kernel() -> (r: &'static str)
        ensures
            r@ == "rng_uniform_f32"@,
    {
        "rng_uniform_f32"
    }

    /// Name of the kernel that fills with normal values.
    pub fn normal_kernel() -> (r: &'static str)
        ensures
            r@ == "rng_normal_f32"@,
    {
        "rng_normal_f32"
    }

    /// The launch that fills a buffer of `len` values: the count goes to the
    /// kernel as a 32-bit value, each thread writes four values, and the
    /// launch starts at the current seed and counter.
    pub fn launch(&self, len: usize) -> (r: RngLaunch)
        requires
            (len as u32) <= u32::MAX - 3,
        ensures
            r.n == len as u32,
            r.threads == rng_threads(r.n),
            r.block == RNG_BLOCK,
            r.grid == (r.threads + 255) / 256,
            r.seed == self.spec_seed(),
            r.offset == self.spec_offset(),
    {
        let n = len as u32;
        let threads = (n + 3) / 4;
        let block = RNG_BLOCK;
        let grid = (threads + block - 1) / block;
        RngLaunch { n, threads, grid, block, seed: self.seed, offset: self.offset }
    }

    /// Moves the counter past a launch that completed, so that the next
    /// launch draws fresh values.
    pub fn advance(&mut self, launch: &RngLaunch)
        requires
            old(self).spec_offset() + launch.threads <= u64::MAX,
        ensures
            final(self).spec_offset() == old(self).spec_offset() + launch.threads,
            final(self).spec_seed() == old(self).spec_seed(),
            final(self).spec_module() == old(self).spec_module(),
    {
        self.offset = self.offset + launch.threads as u64;
    }

    /// The cached handle of a generator kernel, if it was looked up before.
    pub fn cached_kernel(&self, name: &str) -> (r: Option<usize>)
        ensures
            r == self.spec_module().cached(name@),
    {
        self.module.cached_function(name)
    }

    /// Records what the kernel lookup of `name` answered (see
    /// `HipModule::resolve_function`).
    pub fn resolve_kernel(&mut self, name: &str, code: i32, msg: String, func: usize) -> (r: Result<usize, HipError>)
        ensures
            final(self).spec_seed() == old(self).spec_seed(),
            final(self).spec_offset() == old(self).spec_offset(),
            final(self).spec_module().handle() == old(self).spec_module().handle(),
            match spec_check_hip(code, msg) {
                Ok(_) => {
                    &&& r == Ok::<usize, HipError>(func)
                    &&& final(self).spec_module().cached(name@) == Some(func)
                    &&& forall|n: Seq<char>| n != name@ ==> #[trigger] final(self).spec_module().cached(n)
                        == old(self).spec_module().cached(n)
                },
                Err(e) => {
                    &&& r == Err::<usize, HipError>(e)
                    &&& forall|n: Seq<char>| #[trigger] final(self).spec_module().cached(n) == old(self).spec_module().cached(n)
                },
            },
    {
        self.module.resolve_function(name, code, msg, func)
    }

    /// Handle of the loaded module.
    pub fn module_handle(&self) -> (r: usize)
        ensures
            r == self.spec_module().handle(),
    {
        self.module.as_raw()
    }
}

/// Every value of a launch has a generator thread: four per thread.
pub proof fn law_rng_threads_cover(n: u32)
    ensures
        4 * rng_threads(n) >= n,
        4 * rng_threads(n) < n + 4,
{
}

/// The blocks of a launch cover its threads.
pub proof fn law_rng_grid_covers(launch: RngLaunch)
    requires
        launch.block == RNG_BLOCK,
        launch.grid == (launch.threads + 255) / 256,
    ensures
        launch.grid * launch.block >= launch.threads,
{
}

} // verus!
