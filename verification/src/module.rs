//! Core module system: every functional area of the app implements
//! `Module` and is registered at compile time in `ModuleRegistry`; there is
//! no runtime plugin loading.

use crate::command_bus::CommandBus;
use vstd::prelude::*;

verus! {

/// Capability a module can declare it needs. The registry collects these
/// at startup so what a module can touch (ECU, network, filesystem...) is
/// explicit and auditable; it is declarative control, not a sandbox.
#[derive(Debug, Clone, Copy, PartialEq, Eq, Hash, Structural)]
pub enum Capability {
    Ecu,
    Sqlite,
    Network,
    Filesystem,
    Ai,
    Usb,
}

#[derive(Debug, Clone)]
pub struct ModuleManifest {
    pub id: &'static str,
    pub version: &'static str,
    pub capabilities: &'static [Capability],
}

#[derive(Debug)]
pub enum ModuleError {
    StartupFailed { module_id: &'static str, reason: String },
}

/// The human-readable text of a startup failure.
pub open spec fn module_error_text(module_id: Seq<char>, reason: Seq<char>) -> Seq<char> {
    "module '"@ + module_id + "' failed to start: "@ + reason
}

impl ModuleError {
    /// The human-readable text of this error.
    pub fn message(&self) -> (r: String)
        ensures
            match self {
                ModuleError::StartupFailed { module_id, reason } => r@ == module_error_text(
                    module_id@,
                    reason@,
                ),
            },
    {
        match self {
            ModuleError::StartupFailed { module_id, reason } => {
                let mut s = String::from_str("module '");
                s.append(module_id);
                s.append("' failed to start: ");
                s.append(reason.as_str());
                s
            },
        }
    }
}

/// Shared context handed to every module at startup.
pub struct AppContext {}

/// A module may describe what its hooks do by two relations; one that
/// does not describe them keeps the defaults, which allow anything.
pub trait Module: Send + Sync {
    /// Whether registering this module may take the bus from `before` to
    /// `after`.
    open spec fn registration_allows(&self, before: &CommandBus, after: &CommandBus) -> bool {
        true
    }

    /// Whether the startup hook may return `result` for `ctx`.
    open spec fn startup_allows(&self, ctx: &AppContext, result: Result<(), ModuleError>) -> bool {
        true
    }

    /// Whether `manifest` may return `m`.
    open spec fn manifest_allows(&self, m: ModuleManifest) -> bool {
        true
    }

    fn manifest(&self) -> (m: ModuleManifest)
        ensures
            self.manifest_allows(m),
    ;

    /// Registers this module's commands on the bus. A no-op body is valid
    /// for stub modules.
    fn register(&self, bus: &mut CommandBus)
        ensures
            self.registration_allows(&*old(bus), &*final(bus)),
    ;

    /// Called once at application startup, after registration.
    fn on_startup(&self, ctx: &AppContext) -> (r: Result<(), ModuleError>)
        ensures
            self.startup_allows(ctx, r),
    ;
}

/// A run of `start_all` over `modules`: `buses[i]` is the bus before module
/// `i` registered and `buses[i + 1]` the bus after; the first `count`
/// modules were registered, in order, going from `before` to `after`; the
/// startup hooks of all of them returned `Ok`, except that when `result` is
/// an error, it is what the last of them returned. `Ok` means every module
/// was started.
pub open spec fn start_trace(
    modules: Seq<Box<dyn Module>>,
    ctx: &AppContext,
    buses: Seq<CommandBus>,
    count: int,
    before: CommandBus,
    after: CommandBus,
    result: Result<(), ModuleError>,
) -> bool {
    &&& 0 <= count <= modules.len()
    &&& buses.len() == count + 1
    &&& buses[0] == before
    &&& buses[count] == after
    &&& forall|i: int|
        0 <= i < count ==> #[trigger] modules[i].registration_allows(&buses[i], &buses[i + 1])
    &&& match result {
        Ok(()) => {
            &&& count == modules.len()
            &&& forall|i: int| 0 <= i < count ==> #[trigger] modules[i].startup_allows(ctx, Ok(()))
        },
        Err(e) => {
            &&& count >= 1
            &&& forall|i: int|
                0 <= i < count - 1 ==> #[trigger] modules[i].startup_allows(ctx, Ok(()))
            &&& modules[count - 1].startup_allows(ctx, Err(e))
        },
    }
}

/// Compile-time registry: modules are listed explicitly, never discovered
/// at runtime.
pub struct ModuleRegistry {
    modules: Vec<Box<dyn Module>>,
}

impl ModuleRegistry {
    /// The registered modules, in registration order.
    pub closed spec fn modules(&self) -> Seq<Box<dyn Module>> {
        self.modules@
    }

    pub fn new() -> (r: Self)
        ensures
            r.modules() == Seq::<Box<dyn Module>>::empty(),
    {
        ModuleRegistry { modules: Vec::new() }
    }

    /// Appends `module` to the registry, after the modules already there,
    /// and returns the registry for chaining.
    pub fn register(&mut self, module: Box<dyn Module>) -> (r: &mut Self)
        ensures
            r.modules() === old(self).modules().push(module),
            *final(r) == *final(self),
    {
        self.modules.push(module);
        self
    }

    /// The manifests of the registered modules, in registration order.
    pub fn manifests(&self) -> (r: Vec<ModuleManifest>)
        ensures
            r@.len() == self.modules().len(),
            forall|i: int| 0 <= i < r@.len() ==> #[trigger] self.modules()[i].manifest_allows(r@[i]),
    {
        let mut r: Vec<ModuleManifest> = Vec::new();
        let mut i: usize = 0;
        while i < self.modules.len()
            invariant
                i <= self.modules@.len(),
                r@.len() == i,
                forall|j: int| 0 <= j < i ==> #[trigger] self.modules()[j].manifest_allows(r@[j]),
            decreases self.modules@.len() - i,
        {
            let m = self.modules[i].manifest();
            r.push(m);
            i = i + 1;
        }
        r
    }

    /// Wires every registered module onto the bus and runs its startup
    /// hook, in registration order, stopping at the first module whose
    /// startup fails and returning that failure.
    pub fn start_all(&self, bus: &mut CommandBus, ctx: &AppContext) -> (r: Result<(), ModuleError>)
        ensures
            exists|buses: Seq<CommandBus>, count: int|
                #[trigger] start_trace(self.modules(), ctx, buses, count, *old(bus), *final(bus), r),
            self.modules().len() == 0 ==> r is Ok && *final(bus) == *old(bus),
    {
        let ghost modules = self.modules();
        let ghost mut buses: Seq<CommandBus> = seq![*bus];
        let mut i: usize = 0;
        assert(modules.len() == self.modules@.len());
        while i < self.modules.len()
            invariant
                modules == self.modules(),
                modules.len() == self.modules@.len(),
                i <= self.modules@.len(),
                buses.len() == i + 1,
                buses[0] == *old(bus),
                buses[i as int] == *bus,
                forall|j: int|
                    0 <= j < i ==> #[trigger] modules[j].registration_allows(&buses[j], &buses[j + 1]),
                forall|j: int| 0 <= j < i ==> #[trigger] modules[j].startup_allows(ctx, Ok(())),
            decreases self.modules@.len() - i,
        {
            let module = &self.modules[i];
            assert(modules[i as int] == *module);
            module.register(bus);
            proof {
                buses = buses.push(*bus);
            }
            let started = module.on_startup(ctx);
            assert(modules[i as int].startup_allows(ctx, started));
            match started {
                Ok(u) => {
                    assert(u == ());
                    assert(started == Ok::<(), ModuleError>(()));
                },
                Err(e) => {
                    assert(start_trace(modules, ctx, buses, i + 1, *old(bus), *bus, Err(e)));
                    return Err(e);
                },
            }
            i = i + 1;
        }
        assert(start_trace(modules, ctx, buses, i as int, *old(bus), *bus, Ok(())));
        Ok(())
    }
}

impl Default for ModuleRegistry {
    fn default() -> (r: Self)
        ensures
            r.modules() == Seq::<Box<dyn Module>>::empty(),
    {
        Self::new()
    }
}

} // verus!
