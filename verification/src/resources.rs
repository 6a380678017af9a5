//! The size-dependent GPU resources, as a record of what exists and at what
//! size. The shell owns the GPU objects themselves; this record tells it
//! what it must allocate and what it must let go.

use crate::geometry::Extent;
use vstd::prelude::*;

verus! {

/// What exists of the size-dependent resources, each with the size it was
/// made for, and the client size they have to match.
#[derive(Clone, Copy, Debug, PartialEq, Eq, Structural)]
pub struct ResourceSet {
    /// The client size of the latest resize.
    pub client: Extent,
    /// The window-sized surface the screen region is copied into.
    pub staging: Option<Extent>,
    /// The extended surface.
    pub extended: Option<Extent>,
    /// The view through which effects read the extended surface.
    pub extended_input: Option<Extent>,
    /// The view through which the extend pass writes the extended surface.
    pub extended_output: Option<Extent>,
    /// The view of the swap chain's back buffer.
    pub render_target: Option<Extent>,
}

impl ResourceSet {
    /// Nothing exists, for a client of size `client`.
    pub open spec fn empty(client: Extent) -> ResourceSet {
        ResourceSet {
            client,
            staging: None,
            extended: None,
            extended_input: None,
            extended_output: None,
            render_target: None,
        }
    }

    pub open spec fn all_absent(self) -> bool {
        &&& self.staging is None
        &&& self.extended is None
        &&& self.extended_input is None
        &&& self.extended_output is None
        &&& self.render_target is None
    }

    /// Everything exists: the staging surface and the render target at the
    /// client size, the extended surface at some size and both its views at
    /// that same size.
    pub open spec fn fully_present(self) -> bool {
        &&& self.staging == Some(self.client)
        &&& self.render_target == Some(self.client)
        &&& self.extended is Some
        &&& self.extended_input == self.extended
        &&& self.extended_output == self.extended
    }

    /// The state between frames: nothing, or everything at matching sizes.
    pub open spec fn settled(self) -> bool {
        self.all_absent() || self.fully_present()
    }

    /// What holds at every moment: the two views of the extended surface
    /// exist exactly when it does and at its size, and a render target is
    /// one for the current client size.
    pub open spec fn consistent(self) -> bool {
        &&& self.extended_input == self.extended
        &&& self.extended_output == self.extended
        &&& self.render_target is Some ==> self.render_target == Some(self.client)
    }

    pub open spec fn cleared(self) -> ResourceSet {
        ResourceSet::empty(self.client)
    }

    pub open spec fn resized(self, client: Extent) -> ResourceSet {
        ResourceSet::empty(client)
    }

    pub open spec fn with_staging(self, extent: Extent) -> ResourceSet {
        ResourceSet { staging: Some(extent), ..self }
    }

    pub open spec fn with_extended(self, extent: Extent) -> ResourceSet {
        ResourceSet {
            extended: Some(extent),
            extended_input: Some(extent),
            extended_output: Some(extent),
            ..self
        }
    }

    pub open spec fn with_render_target(self) -> ResourceSet {
        ResourceSet { render_target: Some(self.client), ..self }
    }

    /// The set once a frame for a client of size `client`, with an extended
    /// surface of size `extended`, has everything it needs. A client size
    /// other than the recorded one counts as a resize.
    pub open spec fn provisioned(self, client: Extent, extended: Extent) -> ResourceSet {
        let base = if self.client == client {
            self
        } else {
            self.resized(client)
        };
        base.with_staging(client).with_extended(extended).with_render_target()
    }

    /// What has to be allocated to get from `self` to
    /// `self.provisioned(client, extended)`.
    pub open spec fn shortfall(self, client: Extent, extended: Extent) -> Provisioning {
        let base = if self.client == client {
            self
        } else {
            self.resized(client)
        };
        Provisioning {
            staging: if base.staging == Some(client) {
                None
            } else {
                Some(client)
            },
            extended: if base.extended == Some(extended) {
                None
            } else {
                Some(extended)
            },
            render_target: base.render_target is None,
        }
    }
}

/// The allocations a frame asks of the shell before it can render.
#[derive(Clone, Copy, Debug, PartialEq, Eq, Structural)]
pub struct Provisioning {
    /// Size of the staging surface (and its view) to create, if any.
    pub staging: Option<Extent>,
    /// Size of the extended surface (and its two views) to create, if any.
    pub extended: Option<Extent>,
    /// Whether to create the view of the swap chain's back buffer.
    pub render_target: bool,
}

impl Provisioning {
    pub open spec fn nothing() -> Provisioning {
        Provisioning { staging: None, extended: None, render_target: false }
    }

    /// Whether there is nothing to allocate.
    pub fn is_nothing(&self) -> (b: bool)
        ensures
            b == (*self == Provisioning::nothing()),
    {
        self.staging.is_none() && self.extended.is_none() && !self.render_target
    }
}

/// The record of the size-dependent resources.
pub struct ResourceCache {
    set: ResourceSet,
}

impl View for ResourceCache {
    type V = ResourceSet;

    closed spec fn view(&self) -> ResourceSet {
        self.set
    }
}

impl ResourceCache {
    /// What holds of every record: it is consistent.
    #[verifier::type_invariant]
    pub open spec fn inv(self) -> bool {
        self@.consistent()
    }

    /// A record with nothing in it, for a client of size `client`.
    pub fn new(client: Extent) -> (c: ResourceCache)
        ensures
            c@ == ResourceSet::empty(client),
    {
        ResourceCache {
            set: ResourceSet {
                client,
                staging: None,
                extended: None,
                extended_input: None,
                extended_output: None,
                render_target: None,
            },
        }
    }

    /// What the record holds. It is consistent at every moment.
    pub fn snapshot(&self) -> (s: ResourceSet)
        ensures
            s == self@,
            s.consistent(),
    {
        proof {
            use_type_invariant(self);
        }
        self.set
    }

    /// Forgets every size-dependent resource, whatever exists.
    pub fn invalidate_all(&mut self)
        ensures
            final(self)@ == old(self)@.cleared(),
            final(self)@.all_absent(),
            final(self)@.client == old(self)@.client,
        no_unwind
    {
        self.set = ResourceSet {
            client: self.set.client,
            staging: None,
            extended: None,
            extended_input: None,
            extended_output: None,
            render_target: None,
        };
    }

    /// Takes in a new client size and forgets every size-dependent resource.
    pub fn resize(&mut self, client: Extent)
        ensures
            final(self)@ == old(self)@.resized(client),
            final(self)@.all_absent(),
            final(self)@.client == client,
        no_unwind
    {
        self.set = ResourceSet {
            client,
            staging: None,
            extended: None,
            extended_input: None,
            extended_output: None,
            render_target: None,
        };
    }

    /// Makes sure a staging surface of the given size is on record. Returns
    /// whether one has to be allocated: `false` when a surface of exactly
    /// that size exists already, in which case nothing changes.
    pub fn ensure_staging(&mut self, width: u32, height: u32) -> (allocate: bool)
        ensures
            final(self)@ == old(self)@.with_staging(Extent { width, height }),
            allocate == (old(self)@.staging != Some(Extent { width, height })),
            !allocate ==> final(self)@ == old(self)@,
        no_unwind
    {
        proof {
            use_type_invariant(&*self);
        }
        let wanted = Extent { width, height };
        let allocate = match self.set.staging {
            Some(e) => e.width != width || e.height != height,
            None => true,
        };
        if allocate {
            self.set.staging = Some(wanted);
        }
        allocate
    }

    /// Makes sure an extended surface of the given size, with both its
    /// views, is on record. Returns whether they have to be allocated:
    /// `false` when a surface of exactly that size exists already, in which
    /// case nothing changes.
    pub fn ensure_extended(&mut self, width: u32, height: u32) -> (allocate: bool)
        ensures
            final(self)@ == old(self)@.with_extended(Extent { width, height }),
            allocate == (old(self)@.extended != Some(Extent { width, height })),
            !allocate ==> final(self)@ == old(self)@,
        no_unwind
    {
        proof {
            use_type_invariant(&*self);
        }
        let wanted = Extent { width, height };
        let allocate = match self.set.extended {
            Some(e) => e.width != width || e.height != height,
            None => true,
        };
        if allocate {
            self.set = ResourceSet {
                client: self.set.client,
                staging: self.set.staging,
                extended: Some(wanted),
                extended_input: Some(wanted),
                extended_output: Some(wanted),
                render_target: self.set.render_target,
            };
        }
        allocate
    }

    /// Makes sure a render target for the current client size is on record.
    /// Returns whether it has to be created: `false` when one exists
    /// already, in which case nothing changes.
    pub fn ensure_render_target(&mut self) -> (allocate: bool)
        ensures
            final(self)@ == old(self)@.with_render_target(),
            allocate == (old(self)@.render_target is None),
            !allocate ==> final(self)@ == old(self)@,
        no_unwind
    {
        proof {
            use_type_invariant(&*self);
        }
        let allocate = match self.set.render_target {
            Some(_) => false,
            None => true,
        };
        if allocate {
            self.set.render_target = Some(self.set.client);
        }
        allocate
    }

    /// Makes sure that everything a frame needs is on record: the staging
    /// surface and the render target at the client size, the extended
    /// surface at `extended`. A client size other than the recorded one
    /// counts as a resize. Returns what has to be allocated.
    pub fn ensure_all(&mut self, client: Extent, extended: Extent) -> (p: Provisioning)
        ensures
            final(self)@ == old(self)@.provisioned(client, extended),
            p == old(self)@.shortfall(client, extended),
            final(self)@.fully_present(),
            final(self)@.client == client,
            final(self)@.extended == Some(extended),
        no_unwind
    {
        if self.set.client.width != client.width || self.set.client.height != client.height {
            self.resize(client);
        }
        let staging = self.ensure_staging(client.width, client.height);
        let ext = self.ensure_extended(extended.width, extended.height);
        let render_target = self.ensure_render_target();
        Provisioning {
            staging: if staging {
                Some(client)
            } else {
                None
            },
            extended: if ext {
                Some(extended)
            } else {
                None
            },
            render_target,
        }
    }
}

/// What can happen to the set between two moments of rest.
pub enum SetEvent {
    /// The window took a new client size.
    Resize(Extent),
    /// The device went away.
    Lost,
    /// A frame provisioned everything for the current client size, with an
    /// extended surface of the given size.
    Frame(Extent),
}

impl ResourceSet {
    /// The set after one event.
    pub open spec fn after(self, event: SetEvent) -> ResourceSet {
        match event {
            SetEvent::Resize(client) => self.resized(client),
            SetEvent::Lost => self.cleared(),
            SetEvent::Frame(extended) => self.provisioned(self.client, extended),
        }
    }

    /// The set after a sequence of events, first to last.
    pub open spec fn after_all(self, events: Seq<SetEvent>) -> ResourceSet
        decreases events.len(),
    {
        if events.len() == 0 {
            self
        } else {
            self.after_all(events.drop_last()).after(events.last())
        }
    }
}

/// The client size after a sequence of events: that of the last resize, or
/// `initial` if there was none.
pub open spec fn latest_client(initial: Extent, events: Seq<SetEvent>) -> Extent
    decreases events.len(),
{
    if events.len() == 0 {
        initial
    } else {
        match events.last() {
            SetEvent::Resize(client) => client,
            _ => latest_client(initial, events.drop_last()),
        }
    }
}

/// Whatever sequence of resizes, device losses and frames a settled set
/// goes through, it ends up settled: either nothing exists, or everything
/// exists and the staging surface and the render target have exactly the
/// size of the latest resize. After a resize or a loss nothing exists;
/// after a frame everything does.
pub proof fn lemma_set_settles(start: ResourceSet, events: Seq<SetEvent>)
    requires
        start.settled(),
    ensures
        start.after_all(events).settled(),
        start.after_all(events).consistent(),
        start.after_all(events).client == latest_client(start.client, events),
        start.after_all(events).staging is Some ==> start.after_all(events).staging == Some(
            latest_client(start.client, events),
        ),
        start.after_all(events).render_target is Some ==> start.after_all(events).render_target
            == Some(latest_client(start.client, events)),
        events.len() > 0 && events.last() is Frame ==> start.after_all(events).fully_present(),
        events.len() > 0 && !(events.last() is Frame) ==> start.after_all(events).all_absent(),
    decreases events.len(),
{
    if events.len() > 0 {
        lemma_set_settles(start, events.drop_last());
    }
}

/// Ensuring twice is ensuring once: a second request for the same size
/// orders nothing and changes nothing, and a request for another size
/// leaves no surface of the old size behind.
pub proof fn lemma_ensure_idempotent(set: ResourceSet, a: Extent, b: Extent)
    ensures
        set.with_staging(a).with_staging(a) == set.with_staging(a),
        set.with_extended(a).with_extended(a) == set.with_extended(a),
        set.with_render_target().with_render_target() == set.with_render_target(),
        set.provisioned(a, b).provisioned(a, b) == set.provisioned(a, b),
        set.provisioned(a, b).shortfall(a, b) == Provisioning::nothing(),
        set.with_staging(a).with_staging(b).staging == Some(b),
        set.with_extended(a).with_extended(b).extended == Some(b),
        set.with_extended(a).with_extended(b).extended_input == Some(b),
        set.with_extended(a).with_extended(b).extended_output == Some(b),
{
}

} // verus!
