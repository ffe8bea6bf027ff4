//! The ROCm tensor device: its settings, random seed state and cache of
//! loaded kernel files; and the device-level functions of the backend.

use vstd::prelude::*;
use crate::error::{Error, HipError, hip_error_text, spec_check_hip};
use crate::device::HipDevice;
use crate::blas::RocBlas;
use crate::module::{HipModule, lookup_in, resolve_arch, spec_arch};
use crate::memory::DeviceBuffer;
use crate::dtype::DType;

verus! {

/// Seed that a new device starts its generator with.
pub const DEFAULT_RNG_SEED: u64 = 299792458;

/// Where a tensor device is.
#[derive(Clone, Copy, Debug, PartialEq, Eq, Structural)]
pub enum DeviceLocation {
    Cpu,
    Rocm { gpu_id: usize },
}

/// What has to happen before a kernel file can be used.
#[derive(Clone, Copy, Debug, PartialEq, Eq, Structural)]
pub enum ModuleStep {
    /// It is loaded already.
    Ready,
    /// Its code object exists: load it.
    Load,
    /// Compile the source to a code object, then load it.
    CompileThenLoad,
}

/// A ROCm device of the tensor backend.
pub struct RocmDevice {
    ordinal: usize,
    device: HipDevice,
    blas: RocBlas,
    modules: Vec<(String, HipModule)>,
    kernel_dir: String,
    arch: String,
    rng_seed: u64,
    rng_offset: u64,
}

proof fn lemma_lookup_update<V>(s: Seq<(String, V)>, i: int, v: V, n: Seq<char>)
    requires
        0 <= i < s.len(),
        forall|j: int| i < j < s.len() ==> s[j].0@ != s[i].0@,
    ensures
        lookup_in(s.update(i, (s[i].0, v)), n) == if n == s[i].0@ { Some(v) } else { lookup_in(s, n) },
    decreases s.len(),
{
    let t = s.update(i, (s[i].0, v));
    if i == s.len() - 1 {
        assert(t.drop_last() =~= s.drop_last());
    } else {
        assert(t.drop_last() =~= s.drop_last().update(i, (s[i].0, v)));
        lemma_lookup_update(s.drop_last(), i, v, n);
    }
}

impl RocmDevice {
    pub closed spec fn spec_ordinal(&self) -> usize {
        self.ordinal
    }

    pub closed spec fn spec_kernel_dir(&self) -> Seq<char> {
        self.kernel_dir@
    }

    pub closed spec fn spec_arch(&self) -> Seq<char> {
        self.arch@
    }

    pub closed spec fn spec_seed(&self) -> u64 {
        self.rng_seed
    }

    pub closed spec fn spec_offset(&self) -> u64 {
        self.rng_offset
    }

    /// The module loaded for the kernel file `name`, if any.
    pub closed spec fn spec_device(&self) -> HipDevice {
        self.device
    }

    pub closed spec fn spec_blas(&self) -> RocBlas {
        self.blas
    }

    /// The handles of the loaded modules, in load order.
    pub closed spec fn spec_module_handles(&self) -> Seq<usize> {
        Seq::new(self.modules@.len(), |i: int| self.modules@[i].1.handle())
    }

    pub closed spec fn module(&self, name: Seq<char>) -> Option<HipModule> {
        lookup_in(self.modules@, name)
    }

    /// A device over a selected GPU and a BLAS handle. Kernel files are looked
    /// for in the `CANDLE_ROCM_KERNELS` setting if it is set, in
    /// `default_kernel_dir` otherwise, and compiled for the `HIP_ARCH` setting
    /// (`gfx1010` when unset); the generator starts at the default seed.
    pub fn new(
        ordinal: usize,
        device: HipDevice,
        blas: RocBlas,
        kernel_dir_setting: Option<String>,
        default_kernel_dir: String,
        arch_setting: Option<String>,
    ) -> (r: RocmDevice)
        ensures
            r.spec_ordinal() == ordinal,
            r.spec_device() == device,
            r.spec_blas() == blas,
            r.spec_kernel_dir() == (match kernel_dir_setting {
                Some(d) => d@,
                None => default_kernel_dir@,
            }),
            r.spec_arch() == spec_arch(arch_setting),
            r.spec_seed() == DEFAULT_RNG_SEED,
            r.spec_offset() == 0,
            forall|n: Seq<char>| #[trigger] r.module(n) is None,
            r.spec_module_handles() == Seq::<usize>::empty(),
    {
        let kernel_dir = match kernel_dir_setting {
            Some(d) => d,
            None => default_kernel_dir,
        };
        let arch = resolve_arch(arch_setting);
        let r = RocmDevice {
            ordinal,
            device,
            blas,
            modules: Vec::new(),
            kernel_dir,
            arch,
            rng_seed: DEFAULT_RNG_SEED,
            rng_offset: 0,
        };
        assert forall|n: Seq<char>| #[trigger] r.module(n) is None by {
            assert(r.modules@.len() == 0);
        }
        assert(r.spec_module_handles() =~= Seq::<usize>::empty());
        r
    }

    pub fn ordinal(&self) -> (r: usize)
        ensures
            r == self.spec_ordinal(),
    {
        self.ordinal
    }

    /// Where the device is: the GPU with its ordinal.
    pub fn location(&self) -> (r: DeviceLocation)
        ensures
            r == (DeviceLocation::Rocm { gpu_id: self.spec_ordinal() }),
    {
        DeviceLocation::Rocm { gpu_id: self.ordinal }
    }

    /// Whether two devices are the same GPU.
    pub fn same_device(&self, rhs: &RocmDevice) -> (r: bool)
        ensures
            r == (self.spec_ordinal() == rhs.spec_ordinal()),
    {
        self.ordinal == rhs.ordinal
    }

    /// Restarts the generator state from `seed`.
    pub fn set_seed(&mut self, seed: u64) -> (r: Result<(), Error>)
        ensures
            r is Ok,
            final(self).spec_seed() == seed,
            final(self).spec_offset() == 0,
            final(self).spec_ordinal() == old(self).spec_ordinal(),
            forall|n: Seq<char>| #[trigger] final(self).module(n) == old(self).module(n),
            final(self).spec_module_handles() == old(self).spec_module_handles(),
            final(self).spec_device() == old(self).spec_device(),
            final(self).spec_blas() == old(self).spec_blas(),
    {
        self.rng_seed = seed;
        self.rng_offset = 0;
        Ok(())
    }

    /// The current generator seed.
    pub fn current_seed(&self) -> (r: u64)
        ensures
            r == self.spec_seed(),
    {
        self.rng_seed
    }

    pub fn kernel_dir(&self) -> (r: &String)
        ensures
            r@ == self.spec_kernel_dir(),
    {
        &self.kernel_dir
    }

    pub fn arch(&self) -> (r: &String)
        ensures
            r@ == self.spec_arch(),
    {
        &self.arch
    }

    pub fn hip_device(&self) -> (r: &HipDevice)
        ensures
            *r == self.spec_device(),
    {
        &self.device
    }

    pub fn blas(&self) -> (r: &RocBlas)
        ensures
            *r == self.spec_blas(),
    {
        &self.blas
    }

    fn module_index(&self, name: &str) -> (r: Option<usize>)
        ensures
            r is None <==> self.module(name@) is None,
            r matches Some(i) ==> {
                &&& i < self.modules@.len()
                &&& self.modules@[i as int].0@ == name@
                &&& self.module(name@) == Some(self.modules@[i as int].1)
                &&& forall|j: int| i < j < self.modules@.len() ==> self.modules@[j].0@ != name@
            },
    {
        let key = String::from_str(name);
        let mut i: usize = self.modules.len();
        assert(self.modules@.take(i as int) =~= self.modules@);
        while i > 0
            invariant
                i <= self.modules.len(),
                key@ == name@,
                lookup_in(self.modules@.take(i as int), name@) == lookup_in(self.modules@, name@),
                forall|j: int| i <= j < self.modules@.len() ==> self.modules@[j].0@ != name@,
            decreases i,
        {
            proof {
                assert(self.modules@.take(i as int).drop_last() =~= self.modules@.take(i - 1));
            }
            if self.modules[i - 1].0 == key {
                return Some(i - 1);
            }
            i = i - 1;
        }
        assert(self.modules@.take(0) =~= Seq::<(String, HipModule)>::empty());
        None
    }

    /// Handles of all loaded modules, in the order they were loaded.
    pub fn module_handles(&self) -> (r: Vec<usize>)
        ensures
            r@ == self.spec_module_handles(),
    {
        let mut out: Vec<usize> = Vec::new();
        let mut i: usize = 0;
        while i < self.modules.len()
            invariant
                i <= self.modules@.len(),
                out@.len() == i,
                forall|j: int| 0 <= j < i ==> #[trigger] out@[j] == self.modules@[j].1.handle(),
            decreases self.modules.len() - i,
        {
            out.push(self.modules[i].1.as_raw());
            i = i + 1;
        }
        assert(out@ =~= self.spec_module_handles());
        out
    }

    /// Whether the kernel file `name` is loaded.
    pub fn has_module(&self, name: &str) -> (r: bool)
        ensures
            r == (self.module(name@) is Some),
    {
        self.module_index(name).is_some()
    }

    /// What has to happen before the kernel file `name` can be used, given
    /// whether its code object exists on disk: nothing when it is loaded,
    /// otherwise loading, preceded by compiling when the code object is missing.
    pub fn module_step(&self, name: &str, code_object_exists: bool) -> (r: ModuleStep)
        ensures
            r == (if self.module(name@) is Some {
                ModuleStep::Ready
            } else if code_object_exists {
                ModuleStep::Load
            } else {
                ModuleStep::CompileThenLoad
            }),
    {
        if self.has_module(name) {
            ModuleStep::Ready
        } else if code_object_exists {
            ModuleStep::Load
        } else {
            ModuleStep::CompileThenLoad
        }
    }

    /// Records the module loaded for the kernel file `name`.
    pub fn add_module(&mut self, name: &str, module: HipModule)
        ensures
            final(self).module(name@) == Some(module),
            forall|n: Seq<char>| n != name@ ==> #[trigger] final(self).module(n) == old(self).module(n),
            final(self).spec_ordinal() == old(self).spec_ordinal(),
            final(self).spec_seed() == old(self).spec_seed(),
            final(self).spec_offset() == old(self).spec_offset(),
            final(self).spec_module_handles() == old(self).spec_module_handles().push(module.handle()),
            final(self).spec_device() == old(self).spec_device(),
            final(self).spec_blas() == old(self).spec_blas(),
    {
        let ghost before = self.modules@;
        let ghost handles = self.spec_module_handles();
        self.modules.push((String::from_str(name), module));
        assert(self.modules@.drop_last() =~= before);
        assert(self.spec_module_handles() =~= handles.push(module.handle()));
    }

    /// Handle of the module loaded for the kernel file `name`.
    pub fn module_handle(&self, name: &str) -> (r: Option<usize>)
        ensures
            match self.module(name@) {
                Some(m) => r == Some(m.handle()),
                None => r is None,
            },
    {
        match self.module_index(name) {
            Some(i) => Some(self.modules[i].1.as_raw()),
            None => None,
        }
    }

    /// The cached handle of `kernel` in the kernel file `name`.
    pub fn cached_kernel(&self, name: &str, kernel: &str) -> (r: Option<usize>)
        ensures
            match self.module(name@) {
                Some(m) => r == m.cached(kernel@),
                None => r is None,
            },
    {
        match self.module_index(name) {
            Some(i) => self.modules[i].1.cached_function(kernel),
            None => None,
        }
    }

    /// Records what the lookup of `kernel` in the loaded kernel file `name`
    /// answered (see `HipModule::resolve_function`); other files are untouched.
    pub fn resolve_kernel(&mut self, name: &str, kernel: &str, code: i32, msg: String, func: usize) -> (r: Result<usize, HipError>)
        requires
            old(self).module(name@) is Some,
        ensures
            forall|n: Seq<char>| n != name@ ==> #[trigger] final(self).module(n) == old(self).module(n),
            final(self).module(name@) is Some,
            final(self).module(name@).unwrap().handle() == old(self).module(name@).unwrap().handle(),
            final(self).spec_ordinal() == old(self).spec_ordinal(),
            final(self).spec_seed() == old(self).spec_seed(),
            final(self).spec_module_handles() == old(self).spec_module_handles(),
            final(self).spec_device() == old(self).spec_device(),
            final(self).spec_blas() == old(self).spec_blas(),
            match spec_check_hip(code, msg) {
                Ok(_) => {
                    &&& r == Ok::<usize, HipError>(func)
                    &&& final(self).module(name@).unwrap().cached(kernel@) == Some(func)
                    &&& forall|k: Seq<char>| k != kernel@ ==> #[trigger] final(self).module(name@).unwrap().cached(k)
                        == old(self).module(name@).unwrap().cached(k)
                },
                Err(e) => {
                    &&& r == Err::<usize, HipError>(e)
                    &&& forall|k: Seq<char>| #[trigger] final(self).module(name@).unwrap().cached(k)
                        == old(self).module(name@).unwrap().cached(k)
                },
            },
    {
        let i = match self.module_index(name) {
            Some(i) => i,
            None => {
                assert(false);
                return Err(HipError::KernelNotFound { name: String::from_str(kernel) });
            },
        };
        let ghost before = self.modules@;
        let ghost handles = self.spec_module_handles();
        let mut entry = self.modules.remove(i);
        let r = entry.1.resolve_function(kernel, code, msg, func);
        self.modules.insert(i, entry);
        proof {
            assert(self.modules@ =~= before.update(i as int, (before[i as int].0, entry.1)));
            assert forall|n: Seq<char>| #[trigger] lookup_in(self.modules@, n) == if n == name@ { Some(entry.1) } else { lookup_in(before, n) } by {
                lemma_lookup_update(before, i as int, entry.1, n);
            }
            assert(self.spec_module_handles() =~= handles);
        }
        r
    }

    /// Outcome of synchronising the device, with a failure reported as
    /// `synchronize failed: ` and the failure's text.
    pub fn synchronize(&self, outcome: Result<(), HipError>) -> (r: Result<(), Error>)
        ensures
            match outcome {
                Ok(_) => r is Ok,
                Err(e) => r matches Err(x) && x.text() == "synchronize failed: "@ + hip_error_text(e),
            },
    {
        match outcome {
            Ok(()) => Ok(()),
            Err(e) => Err(Error::from_hip("synchronize failed: ", &e)),
        }
    }
}

/// Tensor storage on a ROCm device: a byte buffer and its element type.
pub struct RocmStorage {
    buf: DeviceBuffer<u8>,
    dtype: DType,
}

impl RocmStorage {
    pub closed spec fn spec_dtype(&self) -> DType {
        self.dtype
    }

    pub closed spec fn spec_bytes(&self) -> usize {
        self.buf.spec_len()
    }

    pub closed spec fn spec_address(&self) -> usize {
        self.buf.address()
    }

    pub fn new(buf: DeviceBuffer<u8>, dtype: DType) -> (r: RocmStorage)
        ensures
            r.spec_dtype() == dtype,
            r.spec_bytes() == buf.spec_len(),
            r.spec_address() == buf.address(),
    {
        RocmStorage { buf, dtype }
    }

    pub fn dtype(&self) -> (r: DType)
        ensures
            r == self.spec_dtype(),
    {
        self.dtype
    }

    /// Device address of the data.
    pub fn as_ptr(&self) -> (r: usize)
        ensures
            r == self.spec_address(),
    {
        self.buf.as_raw()
    }

    pub fn buffer(&self) -> (r: &DeviceBuffer<u8>)
        ensures
            r.spec_len() == self.spec_bytes(),
            r.address() == self.spec_address(),
    {
        &self.buf
    }

    /// Number of whole elements the buffer holds.
    pub fn elem_count(&self) -> (r: usize)
        ensures
            r == self.spec_bytes() as nat / self.spec_dtype().spec_size(),
    {
        proof {
            broadcast use vstd::layout::layout_of_primitives;
        }
        self.buf.byte_size() / self.dtype.size_in_bytes()
    }
}

} // verus!
