//! The registry binder: choosing, among the globals the compositor
//! advertises, the two this daemon needs.
//!
//! During one discovery pass the compositor advertises every global it
//! offers.  The binder records the first advertised global for each wanted
//! interface — a surface factory and an idle-inhibit-manager factory — and
//! then checks that both were found at a sufficient version.  First
//! encountered wins when several globals share an interface, and a wanted
//! interface advertised only below the requested version is a fail-fast
//! startup error; both are deliberate policy choices, made explicit here.

use vstd::prelude::*;

verus! {

use crate::text::str_eq;

/// The interface identifier of the surface factory.
pub open spec fn compositor_interface() -> Seq<char> {
    "wl_compositor"@
}

/// The interface identifier of the idle-inhibit-manager factory.
pub open spec fn idle_inhibit_manager_interface() -> Seq<char> {
    "zwp_idle_inhibit_manager_v1"@
}

/// The protocol version requested of the surface factory.
pub const COMPOSITOR_VERSION: u32 = 1;

/// The protocol version requested of the idle-inhibit-manager factory.
pub const IDLE_INHIBIT_MANAGER_VERSION: u32 = 1;

/// One global advertised by the compositor during the discovery pass:
/// numeric name, interface identifier, advertised version.
pub struct GlobalEntry {
    pub name: u32,
    pub interface: String,
    pub version: u32,
}

/// The recorded match for one wanted interface: the numeric name and
/// advertised version of the first advertised global carrying it.
#[derive(Clone, Copy, Debug, PartialEq, Eq, Structural)]
pub struct BoundGlobal {
    pub name: u32,
    pub version: u32,
}

/// The first advertised global carrying `interface`, if any.
pub open spec fn first_match(globals: Seq<GlobalEntry>, interface: Seq<char>) -> Option<
    BoundGlobal,
>
    decreases globals.len(),
{
    if globals.len() == 0 {
        None
    } else if globals[0].interface@ == interface {
        Some(BoundGlobal { name: globals[0].name, version: globals[0].version })
    } else {
        first_match(globals.drop_first(), interface)
    }
}

/// How one advertisement changes a slot: a matching global fills it only
/// while it is still empty (first encountered wins).
pub open spec fn record_first(
    slot: Option<BoundGlobal>,
    is_wanted: bool,
    name: u32,
    version: u32,
) -> Option<BoundGlobal> {
    if slot is None && is_wanted {
        Some(BoundGlobal { name, version })
    } else {
        slot
    }
}

/// Appending one more advertised global to a pass changes each first match
/// as one `record_first` step.
proof fn lemma_first_match_extend(s: Seq<GlobalEntry>, g: GlobalEntry, interface: Seq<char>)
    ensures
        first_match(s.push(g), interface) == record_first(
            first_match(s, interface),
            g.interface@ == interface,
            g.name,
            g.version,
        ),
    decreases s.len(),
{
    if s.len() == 0 {
        assert(s.push(g)[0] == g);
        assert(s.push(g).drop_first() =~= s);
    } else {
        assert(s.push(g)[0] == s[0]);
        assert(s.push(g).drop_first() =~= s.drop_first().push(g));
        lemma_first_match_extend(s.drop_first(), g, interface);
    }
}

/// The two capabilities the daemon needs, both found.
#[derive(Clone, Copy, Debug, PartialEq, Eq, Structural)]
pub struct Bindings {
    pub compositor: BoundGlobal,
    pub idle_inhibit_manager: BoundGlobal,
}

/// Why the discovery pass cannot produce a usable set of bindings.  Any of
/// these is fatal at startup: the daemon must not proceed with a partially
/// bound capability set.
#[derive(Clone, Copy, Debug, PartialEq, Eq, Structural)]
pub enum BindError {
    /// No global with the idle-inhibit-manager interface was advertised.
    MissingIdleInhibitManager,
    /// The first idle-inhibit-manager global is below the requested version.
    IdleInhibitManagerVersionTooLow,
    /// No global with the surface-factory interface was advertised.
    MissingCompositor,
    /// The first surface-factory global is below the requested version.
    CompositorVersionTooLow,
}

/// The outcome of a finished pass: both slots filled at sufficient
/// versions, or the first failure — the idle-inhibit manager is checked
/// before the surface factory.
pub open spec fn spec_finish(
    compositor: Option<BoundGlobal>,
    idle_inhibit_manager: Option<BoundGlobal>,
) -> Result<Bindings, BindError> {
    match idle_inhibit_manager {
        None => Err(BindError::MissingIdleInhibitManager),
        Some(m) => {
            if m.version < IDLE_INHIBIT_MANAGER_VERSION {
                Err(BindError::IdleInhibitManagerVersionTooLow)
            } else {
                match compositor {
                    None => Err(BindError::MissingCompositor),
                    Some(c) => {
                        if c.version < COMPOSITOR_VERSION {
                            Err(BindError::CompositorVersionTooLow)
                        } else {
                            Ok(Bindings { compositor: c, idle_inhibit_manager: m })
                        }
                    },
                }
            }
        },
    }
}

/// Records, over one enumeration of advertised globals, the first
/// advertised global for each wanted interface.
pub struct RegistryBinder {
    pub compositor: Option<BoundGlobal>,
    pub idle_inhibit_manager: Option<BoundGlobal>,
}

impl RegistryBinder {
    /// A binder with both slots empty, ready for a discovery pass.
    pub fn new() -> (r: RegistryBinder)
        ensures
            r.compositor is None,
            r.idle_inhibit_manager is None,
    {
        RegistryBinder { compositor: None, idle_inhibit_manager: None }
    }

    /// Record one advertised global: each wanted interface fills its slot
    /// only while the slot is still empty.
    pub fn on_global(&mut self, name: u32, interface: &str, version: u32)
        ensures
            final(self).compositor == record_first(
                old(self).compositor,
                interface@ == compositor_interface(),
                name,
                version,
            ),
            final(self).idle_inhibit_manager == record_first(
                old(self).idle_inhibit_manager,
                interface@ == idle_inhibit_manager_interface(),
                name,
                version,
            ),
    {
        if self.compositor.is_none() && str_eq(interface, "wl_compositor") {
            self.compositor = Some(BoundGlobal { name, version });
        }
        if self.idle_inhibit_manager.is_none() && str_eq(interface, "zwp_idle_inhibit_manager_v1") {
            self.idle_inhibit_manager = Some(BoundGlobal { name, version });
        }
    }

    /// Close the pass: both capabilities bound at sufficient versions, or
    /// the error that makes startup fail.
    pub fn finish(&self) -> (r: Result<Bindings, BindError>)
        ensures
            r == spec_finish(self.compositor, self.idle_inhibit_manager),
    {
        match self.idle_inhibit_manager {
            None => Err(BindError::MissingIdleInhibitManager),
            Some(m) => {
                if m.version < IDLE_INHIBIT_MANAGER_VERSION {
                    Err(BindError::IdleInhibitManagerVersionTooLow)
                } else {
                    match self.compositor {
                        None => Err(BindError::MissingCompositor),
                        Some(c) => {
                            if c.version < COMPOSITOR_VERSION {
                                Err(BindError::CompositorVersionTooLow)
                            } else {
                                Ok(Bindings { compositor: c, idle_inhibit_manager: m })
                            }
                        },
                    }
                }
            },
        }
    }
}

/// One whole discovery pass: walk the advertised globals in order, bind the
/// first advertisement of each wanted interface, and require both to be
/// present at a sufficient version.
pub fn bind_globals(globals: &Vec<GlobalEntry>) -> (r: Result<Bindings, BindError>)
    ensures
        r == spec_finish(
            first_match(globals@, compositor_interface()),
            first_match(globals@, idle_inhibit_manager_interface()),
        ),
{
    let mut binder = RegistryBinder::new();
    let mut i: usize = 0;
    while i < globals.len()
        invariant
            i <= globals.len(),
            binder.compositor == first_match(globals@.take(i as int), compositor_interface()),
            binder.idle_inhibit_manager == first_match(
                globals@.take(i as int),
                idle_inhibit_manager_interface(),
            ),
        decreases globals.len() - i,
    {
        let g = &globals[i];
        binder.on_global(g.name, g.interface.as_str(), g.version);
        proof {
            assert(globals@.take(i + 1) =~= globals@.take(i as int).push(globals@[i as int]));
            lemma_first_match_extend(
                globals@.take(i as int),
                globals@[i as int],
                compositor_interface(),
            );
            lemma_first_match_extend(
                globals@.take(i as int),
                globals@[i as int],
                idle_inhibit_manager_interface(),
            );
        }
        i += 1;
    }
    proof {
        assert(globals@.take(globals@.len() as int) =~= globals@);
    }
    binder.finish()
}

} // verus!
