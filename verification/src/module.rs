//! Loaded code objects, their kernel lookup cache, and the kernel compiler's
//! command line.

use vstd::prelude::*;
use crate::error::{HipError, check_hip, spec_check_hip};

verus! {

/// The handle that the last entry named `name` records, if any entry does.
pub open spec fn lookup_in<V>(entries: Seq<(String, V)>, name: Seq<char>) -> Option<V>
    decreases entries.len(),
{
    if entries.len() == 0 {
        None
    } else if entries.last().0@ == name {
        Some(entries.last().1)
    } else {
        lookup_in(entries.drop_last(), name)
    }
}

/// A loaded GPU code object, with the kernels looked up in it so far.
#[derive(Clone)]
pub struct HipModule {
    module: usize,
    functions: Vec<(String, usize)>,
}

impl HipModule {
    pub closed spec fn handle(&self) -> usize {
        self.module
    }

    /// The kernel handle cached under `name`, if any.
    pub closed spec fn cached(&self, name: Seq<char>) -> Option<usize> {
        lookup_in(self.functions@, name)
    }

    /// The module that `hipModuleLoad` produced, given the status it answered
    /// and the handle it wrote; nothing is cached yet.
    pub fn load(code: i32, msg: String, handle: usize) -> (r: Result<HipModule, HipError>)
        ensures
            match spec_check_hip(code, msg) {
                Ok(_) => r matches Ok(m) && m.handle() == handle && forall|n: Seq<char>| #[trigger] m.cached(n) is None,
                Err(e) => r == Err::<HipModule, HipError>(e),
            },
    {
        match check_hip(code, msg) {
            Ok(()) => {
                let m = HipModule { module: handle, functions: Vec::new() };
                assert forall|n: Seq<char>| #[trigger] m.cached(n) is None by {
                    assert(m.functions@.len() == 0);
                }
                Ok(m)
            },
            Err(e) => Err(e),
        }
    }

    /// The runtime handle of the code object.
    pub fn as_raw(&self) -> (r: usize)
        ensures
            r == self.handle(),
    {
        self.module
    }

    /// The cached handle of the kernel `name`, if it was looked up before.
    pub fn cached_function(&self, name: &str) -> (r: Option<usize>)
        ensures
            r == self.cached(name@),
    {
        let key = String::from_str(name);
        let mut i: usize = self.functions.len();
        assert(self.functions@.take(i as int) =~= self.functions@);
        while i > 0
            invariant
                i <= self.functions.len(),
                key@ == name@,
                lookup_in(self.functions@.take(i as int), name@) == lookup_in(self.functions@, name@),
            decreases i,
        {
            proof {
                assert(self.functions@.take(i as int).drop_last() =~= self.functions@.take(i - 1));
            }
            if self.functions[i - 1].0 == key {
                return Some(self.functions[i - 1].1);
            }
            i = i - 1;
        }
        None
    }

    /// Records what `hipModuleGetFunction` answered for the kernel `name`:
    /// on success the handle is cached under the name and returned; on failure
    /// the cache is left as it was.
    pub fn resolve_function(&mut self, name: &str, code: i32, msg: String, func: usize) -> (r: Result<usize, HipError>)
        ensures
            final(self).handle() == old(self).handle(),
            match spec_check_hip(code, msg) {
                Ok(_) => {
                    &&& r == Ok::<usize, HipError>(func)
                    &&& final(self).cached(name@) == Some(func)
                    &&& forall|n: Seq<char>| n != name@ ==> #[trigger] final(self).cached(n) == old(self).cached(n)
                },
                Err(e) => {
                    &&& r == Err::<usize, HipError>(e)
                    &&& forall|n: Seq<char>| #[trigger] final(self).cached(n) == old(self).cached(n)
                },
            },
    {
        match check_hip(code, msg) {
            Ok(()) => {
                let ghost before = self.functions@;
                self.functions.push((String::from_str(name), func));
                assert(self.functions@.drop_last() =~= before);
                Ok(func)
            },
            Err(e) => Err(e),
        }
    }
}

/// The ROCm installation root: the `ROCM_PATH` setting when it is set and
/// not empty, `/opt/rocm` otherwise.
pub open spec fn spec_rocm_root(setting: Option<String>) -> Seq<char> {
    match setting {
        Some(p) => if p@.len() > 0 { p@ } else { "/opt/rocm"@ },
        None => "/opt/rocm"@,
    }
}

pub fn rocm_root(setting: Option<String>) -> (r: String)
    ensures
        r@ == spec_rocm_root(setting),
{
    match setting {
        Some(p) => {
            if !p.as_str().is_empty() {
                p
            } else {
                String::from_str("/opt/rocm")
            }
        },
        None => String::from_str("/opt/rocm"),
    }
}

/// The places where the kernel compiler is looked for, in order.
pub open spec fn spec_hipcc_candidates(root: Seq<char>) -> Seq<Seq<char>> {
    seq![root + "/bin/hipcc"@, "/opt/rocm/bin/hipcc"@, "/usr/bin/hipcc"@, "hipcc"@]
}

pub fn hipcc_candidates(root: &String) -> (r: Vec<String>)
    ensures
        r@.len() == 4,
        forall|i: int| 0 <= i < 4 ==> #[trigger] r@[i]@ == spec_hipcc_candidates(root@)[i],
{
    let mut v: Vec<String> = Vec::new();
    v.push(root.clone().concat("/bin/hipcc"));
    v.push(String::from_str("/opt/rocm/bin/hipcc"));
    v.push(String::from_str("/usr/bin/hipcc"));
    v.push(String::from_str("hipcc"));
    v
}

/// The first candidate that exists, or `hipcc` (found through the search
/// path) when none does.
pub fn pick_hipcc(candidates: Vec<String>, exists: &[bool]) -> (r: String)
    requires
        candidates@.len() == exists@.len(),
    ensures
        (exists|i: int| 0 <= i < exists@.len() && exists@[i]) ==> (exists|i: int|
            0 <= i < exists@.len() && exists@[i] && r@ == candidates@[i]@ && (forall|j: int| 0 <= j < i ==> !exists@[j])),
        (forall|i: int| 0 <= i < exists@.len() ==> !exists@[i]) ==> r@ == "hipcc"@,
{
    let mut i: usize = 0;
    while i < exists.len()
        invariant
            i <= exists@.len(),
            candidates@.len() == exists@.len(),
            forall|j: int| 0 <= j < i ==> !exists@[j],
        decreases exists.len() - i,
    {
        if exists[i] {
            return candidates[i].clone();
        }
        i = i + 1;
    }
    String::from_str("hipcc")
}

/// Arguments of the compiler call that builds a code object for `arch`
/// from the source at `src` into `out`.
pub open spec fn spec_hipcc_args(arch: Seq<char>, out: Seq<char>, src: Seq<char>) -> Seq<Seq<char>> {
    seq![
        "--genco"@,
        "--offload-arch="@ + arch,
        "-O3"@,
        "--cuda-device-only"@,
        "-include"@,
        "hip/hip_runtime.h"@,
        "-o"@,
        out,
        src,
    ]
}

pub fn hipcc_args(arch: &str, out: &str, src: &str) -> (r: Vec<String>)
    ensures
        r@.len() == 9,
        forall|i: int| 0 <= i < 9 ==> #[trigger] r@[i]@ == spec_hipcc_args(arch@, out@, src@)[i],
{
    let mut v: Vec<String> = Vec::new();
    v.push(String::from_str("--genco"));
    v.push(String::from_str("--offload-arch=").concat(arch));
    v.push(String::from_str("-O3"));
    v.push(String::from_str("--cuda-device-only"));
    v.push(String::from_str("-include"));
    v.push(String::from_str("hip/hip_runtime.h"));
    v.push(String::from_str("-o"));
    v.push(String::from_str(out));
    v.push(String::from_str(src));
    v
}

/// Outcome of a compiler run: the spawn failure's text if it could not be
/// started, a failure naming the exit status if it did not succeed.
pub fn compile_result(spawn_error: Option<String>, success: bool, status_text: &str) -> (r: Result<(), HipError>)
    ensures
        match spawn_error {
            Some(e) => r matches Err(HipError::KernelCompileFailed { msg }) && msg@ == e@,
            None => if success {
                r is Ok
            } else {
                r matches Err(HipError::KernelCompileFailed { msg }) && msg@ == "hipcc exited with "@ + status_text@
            },
        },
{
    match spawn_error {
        Some(e) => Err(HipError::KernelCompileFailed { msg: e }),
        None => {
            if success {
                Ok(())
            } else {
                Err(HipError::KernelCompileFailed { msg: String::from_str("hipcc exited with ").concat(status_text) })
            }
        },
    }
}

/// Target architecture: the `HIP_ARCH` setting, or `gfx1010` when it is unset.
pub open spec fn spec_arch(setting: Option<String>) -> Seq<char> {
    match setting {
        Some(a) => a@,
        None => "gfx1010"@,
    }
}

pub fn resolve_arch(setting: Option<String>) -> (r: String)
    ensures
        r@ == spec_arch(setting),
{
    match setting {
        Some(a) => a,
        None => String::from_str("gfx1010"),
    }
}

/// Source and code-object file names of the kernel file `name`.
pub fn kernel_file_names(name: &str) -> (r: (String, String))
    ensures
        r.0@ == name@ + ".hip"@,
        r.1@ == name@ + ".hsaco"@,
{
    (String::from_str(name).concat(".hip"), String::from_str(name).concat(".hsaco"))
}

} // verus!
