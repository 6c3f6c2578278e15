//! The options that the engine is initialized with, and how each crosses the boundary.

use crate::text::has_nul;
use vstd::prelude::*;
use vstd::std_specs::convert::FromSpecImpl;
use vstd::utf8::encode_utf8;

verus! {

/// The compute backend that the engine runs on.
#[derive(Debug, Clone, Copy, PartialEq, Eq, Structural)]
pub enum AccelationMode {
    /// No backend is asked for.
    NoAcceleration,
    Cpu,
    Gpu,
}

impl AccelationMode {
    /// The integer that selects this backend on the engine's side.
    pub open spec fn code(self) -> i32 {
        match self {
            AccelationMode::NoAcceleration => 0i32,
            AccelationMode::Cpu => 1i32,
            AccelationMode::Gpu => 2i32,
        }
    }
}

impl From<AccelationMode> for i32 {
    fn from(mode: AccelationMode) -> (code: i32) {
        match mode {
            AccelationMode::NoAcceleration => 0,
            AccelationMode::Cpu => 1,
            AccelationMode::Gpu => 2,
        }
    }
}

impl FromSpecImpl<AccelationMode> for i32 {
    open spec fn obeys_from_spec() -> bool {
        true
    }

    open spec fn from_spec(mode: AccelationMode) -> i32 {
        mode.code()
    }
}

/// How many threads the engine computes with.
#[derive(Debug, Clone, Copy, PartialEq, Eq, Structural)]
pub enum CpuNumThreads {
    /// The engine chooses.
    Auto,
    /// This many threads, from 1 up.
    Num(u16),
}

impl CpuNumThreads {
    /// The count that crosses the boundary: 0 leaves the choice to the engine.
    pub open spec fn count(self) -> u16 {
        match self {
            CpuNumThreads::Auto => 0u16,
            CpuNumThreads::Num(n) => n,
        }
    }

    /// An explicit count is at least 1.
    pub open spec fn valid(self) -> bool {
        self matches CpuNumThreads::Num(n) ==> n >= 1
    }
}

impl From<CpuNumThreads> for u16 {
    fn from(threads: CpuNumThreads) -> (count: u16) {
        match threads {
            CpuNumThreads::Auto => 0,
            CpuNumThreads::Num(n) => n,
        }
    }
}

impl FromSpecImpl<CpuNumThreads> for u16 {
    open spec fn obeys_from_spec() -> bool {
        true
    }

    open spec fn from_spec(threads: CpuNumThreads) -> u16 {
        threads.count()
    }
}

/// The code tells the backend: two backends with one code are one backend.
pub proof fn lemma_code_tells_mode(a: AccelationMode, b: AccelationMode)
    ensures
        0 <= a.code() <= 2,
        a.code() == b.code() <==> a == b,
{
}

/// Among valid settings the count tells `Auto` from an explicit count: it is
/// 0 for `Auto` alone.
pub proof fn lemma_count_tells_auto(threads: CpuNumThreads)
    requires
        threads.valid(),
    ensures
        threads.count() == 0 <==> threads == CpuNumThreads::Auto,
{
}

/// What the engine is initialized with.
#[derive(Debug, Clone)]
pub struct InitializeOptions {
    pub acceleration_mode: AccelationMode,
    pub cpu_num_threads: CpuNumThreads,
    /// Whether every model is loaded when the engine is initialized.
    pub load_all_models: bool,
    /// The directory of the Open JTalk dictionary.
    pub open_jtalk_dict_dir: String,
}

/// The options as plain values: the path is the sequence of its characters.
pub struct InitializeOptionsView {
    pub acceleration_mode: AccelationMode,
    pub cpu_num_threads: CpuNumThreads,
    pub load_all_models: bool,
    pub open_jtalk_dict_dir: Seq<char>,
}

impl View for InitializeOptions {
    type V = InitializeOptionsView;

    open spec fn view(&self) -> InitializeOptionsView {
        InitializeOptionsView {
            acceleration_mode: self.acceleration_mode,
            cpu_num_threads: self.cpu_num_threads,
            load_all_models: self.load_all_models,
            open_jtalk_dict_dir: self.open_jtalk_dict_dir@,
        }
    }
}

impl InitializeOptionsView {
    /// Options that the binding takes as meant: the dictionary path can cross
    /// the boundary, and an explicit thread count is a count.
    pub open spec fn valid(self) -> bool {
        &&& !has_nul(encode_utf8(self.open_jtalk_dict_dir))
        &&& self.cpu_num_threads.valid()
    }

    /// The options of `InitializeOptions::default()`.
    pub open spec fn defaults() -> InitializeOptionsView {
        InitializeOptionsView {
            acceleration_mode: AccelationMode::NoAcceleration,
            cpu_num_threads: CpuNumThreads::Auto,
            load_all_models: false,
            open_jtalk_dict_dir: "open_jtalk_dic_utf_8-1.11"@,
        }
    }
}

impl Default for InitializeOptions {
    fn default() -> (options: InitializeOptions)
        ensures
            options@ == InitializeOptionsView::defaults(),
    {
        InitializeOptions {
            acceleration_mode: AccelationMode::NoAcceleration,
            cpu_num_threads: CpuNumThreads::Auto,
            load_all_models: false,
            open_jtalk_dict_dir: "open_jtalk_dic_utf_8-1.11".to_owned(),
        }
    }
}

} // verus!
