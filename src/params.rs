use vstd::prelude::*;

use crate::flags::{RingFeature, SetupFlag, SETUP_SQ_POLL};

verus! {

/// The parameter block for creating a ring: setup flags, features, and the
/// pinning and idle time of the kernel-side submitter thread.
#[derive(Debug, Clone, Copy, PartialEq, Eq, Structural)]
pub struct RringParams {
    flags: SetupFlag,
    features: RingFeature,
    sq_thread_cpu: u32,
    sq_thread_idle: u32,
}

impl RringParams {
    pub closed spec fn spec_flags(&self) -> SetupFlag {
        self.flags
    }

    pub closed spec fn spec_features(&self) -> RingFeature {
        self.features
    }

    pub closed spec fn spec_sq_thread_cpu(&self) -> u32 {
        self.sq_thread_cpu
    }

    pub closed spec fn spec_sq_thread_idle(&self) -> u32 {
        self.sq_thread_idle
    }

    /// Whether the flags ask for a kernel-side submitter thread.
    pub open spec fn spec_sq_poll(&self) -> bool {
        self.spec_flags().spec_bits() & SETUP_SQ_POLL != 0
    }

    /// A parameter block with the submitter thread's CPU and idle time unset.
    pub fn new(flags: SetupFlag, features: RingFeature) -> (r: Self)
        ensures
            r.spec_flags() == flags,
            r.spec_features() == features,
            r.spec_sq_thread_cpu() == 0,
            r.spec_sq_thread_idle() == 0,
    {
        RringParams { flags, features, sq_thread_cpu: 0, sq_thread_idle: 0 }
    }

    /// Pins the submitter thread to CPU `val`; ignored unless the flags ask
    /// for a submitter thread.
    pub fn set_sq_thread_cpu(&mut self, val: u32)
        ensures
            final(self).spec_flags() == old(self).spec_flags(),
            final(self).spec_features() == old(self).spec_features(),
            final(self).spec_sq_thread_idle() == old(self).spec_sq_thread_idle(),
            final(self).spec_sq_thread_cpu() == if old(self).spec_sq_poll() {
                val
            } else {
                old(self).spec_sq_thread_cpu()
            },
    {
        if self.flags.bits() & SETUP_SQ_POLL != 0 {
            self.sq_thread_cpu = val;
        }
    }

    /// Sets the submitter thread's idle time; ignored unless the flags ask
    /// for a submitter thread.
    pub fn set_sq_thread_idle(&mut self, val: u32)
        ensures
            final(self).spec_flags() == old(self).spec_flags(),
            final(self).spec_features() == old(self).spec_features(),
            final(self).spec_sq_thread_cpu() == old(self).spec_sq_thread_cpu(),
            final(self).spec_sq_thread_idle() == if old(self).spec_sq_poll() {
                val
            } else {
                old(self).spec_sq_thread_idle()
            },
    {
        if self.flags.bits() & SETUP_SQ_POLL != 0 {
            self.sq_thread_idle = val;
        }
    }

    pub fn flags(&self) -> (r: SetupFlag)
        ensures
            r == self.spec_flags(),
    {
        self.flags
    }

    pub fn features(&self) -> (r: RingFeature)
        ensures
            r == self.spec_features(),
    {
        self.features
    }

    pub fn sq_thread_cpu(&self) -> (r: u32)
        ensures
            r == self.spec_sq_thread_cpu(),
    {
        self.sq_thread_cpu
    }

    pub fn sq_thread_idle(&self) -> (r: u32)
        ensures
            r == self.spec_sq_thread_idle(),
    {
        self.sq_thread_idle
    }
}

} // verus!
