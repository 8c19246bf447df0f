//! Bookkeeping for the process-wide fault interceptor.
//!
//! The fault handler is a single process-wide resource.  This state machine
//! decides when it is installed and uninstalled — exclusive nesting: install
//! on the first live region, uninstall when the last one is destroyed — and
//! enforces the single-save-point rule: at most one guarded touch may be
//! unresolved at a time, and a touch may only begin while a region is live.
//! The caller that owns the real handler registration performs the install
//! and uninstall actions these transitions hand back.

use vstd::prelude::*;

verus! {

/// State of the fault-interceptor singleton: how many protected regions are
/// live, and whether a guarded touch is currently unresolved.
pub struct Interceptor {
    depth: u64,
    touching: bool,
}

impl Interceptor {
    /// Number of live protected regions.
    pub closed spec fn nesting(self) -> int {
        self.depth as int
    }

    /// A guarded touch has begun and not yet resolved, so its save point is
    /// the active one.
    pub closed spec fn touch_pending(self) -> bool {
        self.touching
    }

    /// The fault handler is installed exactly while some region is live.
    pub open spec fn handler_installed(self) -> bool {
        self.nesting() >= 1
    }

    /// A new guarded touch may begin: the handler is installed and no other
    /// touch is unresolved.
    pub open spec fn may_begin_touch(self) -> bool {
        self.handler_installed() && !self.touch_pending()
    }

    /// A touch is only ever pending while the handler is installed.
    pub open spec fn wf(self) -> bool {
        self.touch_pending() ==> self.nesting() >= 1
    }

    /// The state after one more region is created.
    pub closed spec fn entered(self) -> Interceptor {
        Interceptor { depth: (self.nesting() + 1) as u64, touching: self.touch_pending() }
    }

    /// The state after one region is destroyed.
    pub closed spec fn left(self) -> Interceptor {
        Interceptor { depth: (self.nesting() - 1) as u64, touching: self.touch_pending() }
    }

    /// No region live, no touch pending, handler not installed.
    pub fn new() -> (r: Interceptor)
        ensures
            r.nesting() == 0,
            !r.touch_pending(),
            r.wf(),
    {
        Interceptor { depth: 0, touching: false }
    }

    /// A protected region is created.  Returns whether the caller must now
    /// install the OS fault handler: exactly on the transition from no live
    /// region to one.
    pub fn enter_region(&mut self) -> (install: bool)
        requires
            old(self).wf(),
            old(self).nesting() < u64::MAX,
        ensures
            final(self).wf(),
            *final(self) == old(self).entered(),
            final(self).nesting() == old(self).nesting() + 1,
            final(self).touch_pending() == old(self).touch_pending(),
            install <==> old(self).nesting() == 0,
            final(self).handler_installed(),
    {
        let install = self.depth == 0;
        self.depth = self.depth + 1;
        install
    }

    /// A protected region is destroyed.  Returns `Ok(uninstall)` — with
    /// `uninstall` true exactly when the last live region went away, so the
    /// caller must restore the previous fault handling — and `Err(())` when
    /// the destruction is a contract violation: no region is live, or the
    /// only live region would go away while a touch is still unresolved.
    pub fn leave_region(&mut self) -> (r: Result<bool, ()>)
        requires
            old(self).wf(),
        ensures
            final(self).wf(),
            r is Ok <==> (old(self).nesting() >= 1 && !(old(self).nesting() == 1 && old(
                self,
            ).touch_pending())),
            r is Ok ==> *final(self) == old(self).left(),
            r is Ok ==> (r->Ok_0 <==> final(self).nesting() == 0),
            r is Err ==> *final(self) == *old(self),
    {
        if self.depth == 0 {
            return Err(());
        }
        if self.depth == 1 && self.touching {
            return Err(());
        }
        self.depth = self.depth - 1;
        Ok(self.depth == 0)
    }

    /// A guarded touch asks to begin, capturing the save point.  Rejected —
    /// with nothing changed — unless the handler is installed and no other
    /// touch is unresolved; the save point is never silently overwritten.
    pub fn begin_touch(&mut self) -> (r: Result<(), ()>)
        requires
            old(self).wf(),
        ensures
            final(self).wf(),
            r is Ok <==> old(self).may_begin_touch(),
            r is Ok ==> final(self).touch_pending(),
            r is Err ==> *final(self) == *old(self),
            final(self).nesting() == old(self).nesting(),
    {
        if self.depth >= 1 && !self.touching {
            self.touching = true;
            Ok(())
        } else {
            Err(())
        }
    }

    /// The pending guarded touch resolves, successfully or through the fault
    /// handler, and its save point is retired.  Returns the touch's outcome:
    /// `Ok(())` when the copy completed, `Err(())` when it faulted.
    pub fn finish_touch(&mut self, faulted: bool) -> (r: Result<(), ()>)
        requires
            old(self).wf(),
            old(self).touch_pending(),
        ensures
            final(self).wf(),
            !final(self).touch_pending(),
            final(self).nesting() == old(self).nesting(),
            r is Ok <==> !faulted,
    {
        self.touching = false;
        if faulted {
            Err(())
        } else {
            Ok(())
        }
    }

    /// Creating an inner region while an outer one is live, then destroying
    /// it, returns to exactly the outer state; and while the inner region is
    /// live, a guarded touch is permitted exactly when it was before, so
    /// touches through either handle behave identically.
    pub proof fn lemma_nested_region_transparent(self)
        requires
            self.wf(),
            1 <= self.nesting() < u64::MAX,
        ensures
            self.entered().left() == self,
            self.entered().may_begin_touch() == self.may_begin_touch(),
            self.entered().handler_installed(),
            self.entered().wf(),
    {
    }
}

} // verus!
