//! Lifecycle of a standalone instance.
//!
//! One process hosts two components: the datanode (storage and regions) and
//! the frontend (the protocol servers). The datanode starts before the
//! frontend, so no request can arrive before the internals that would serve
//! it are running, and stopping goes the other way around. The invariant
//! that ordering protects: whenever the frontend is up, its datanode is up.

use vstd::prelude::*;

verus! {

/// Whether one component is running.
#[derive(Clone, Copy, Debug, PartialEq, Eq, Structural)]
pub enum ComponentState {
    Stopped,
    Started,
}

/// A standalone instance: its two components and where each stands.
#[derive(Clone, Copy, Debug, PartialEq, Eq, Structural)]
pub struct Instance {
    pub datanode: ComponentState,
    pub frontend: ComponentState,
}

impl Instance {
    /// The frontend never serves without its datanode: this is what the
    /// start and stop ordering protects, and every transition preserves it.
    pub open spec fn wf(self) -> bool {
        self.frontend is Started ==> self.datanode is Started
    }

    /// A freshly built instance: nothing runs yet.
    pub fn new() -> (r: Instance)
        ensures
            r.datanode is Stopped,
            r.frontend is Stopped,
            r.wf(),
    {
        Instance { datanode: ComponentState::Stopped, frontend: ComponentState::Stopped }
    }

    /// First step of starting: the datanode comes up while the frontend is
    /// still down, so nothing can be asked of it yet.
    pub fn start_datanode(&mut self)
        requires
            old(self).frontend is Stopped,
        ensures
            final(self).datanode is Started,
            final(self).frontend == old(self).frontend,
            final(self).wf(),
    {
        self.datanode = ComponentState::Started;
    }

    /// Second step of starting: the frontend opens only once the datanode
    /// it delegates to is running.
    pub fn start_frontend(&mut self)
        requires
            old(self).datanode is Started,
        ensures
            final(self).frontend is Started,
            final(self).datanode == old(self).datanode,
            final(self).wf(),
    {
        self.frontend = ComponentState::Started;
    }

    /// First step of stopping: the frontend closes first, so no new request
    /// reaches a datanode that is about to go away.
    pub fn stop_frontend(&mut self)
        requires
            old(self).wf(),
        ensures
            final(self).frontend is Stopped,
            final(self).datanode == old(self).datanode,
            final(self).wf(),
    {
        self.frontend = ComponentState::Stopped;
    }

    /// Second step of stopping: the datanode goes down only after the
    /// frontend no longer serves.
    pub fn stop_datanode(&mut self)
        requires
            old(self).frontend is Stopped,
        ensures
            final(self).datanode is Stopped,
            final(self).frontend == old(self).frontend,
            final(self).wf(),
    {
        self.datanode = ComponentState::Stopped;
    }

    /// Starts the whole instance in order; afterwards both components run.
    pub fn start(&mut self)
        requires
            old(self).frontend is Stopped,
        ensures
            final(self).datanode is Started,
            final(self).frontend is Started,
            final(self).wf(),
    {
        self.start_datanode();
        self.start_frontend();
    }

    /// Stops the whole instance in order; afterwards nothing runs.
    pub fn stop(&mut self)
        requires
            old(self).wf(),
        ensures
            final(self).datanode is Stopped,
            final(self).frontend is Stopped,
            final(self).wf(),
    {
        self.stop_frontend();
        self.stop_datanode();
    }
}

} // verus!
