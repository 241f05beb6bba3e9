use bmw_toolbox_lib::command_bus::{Command, CommandBus};
use bmw_toolbox_lib::module::{
    AppContext, Capability, Module, ModuleError, ModuleManifest, ModuleRegistry,
};

struct StubModule;

impl Module for StubModule {
    fn manifest(&self) -> ModuleManifest {
        ModuleManifest { id: "stub", version: "0.1.0", capabilities: &[Capability::Sqlite] }
    }

    fn register(&self, _bus: &mut CommandBus) {}

    fn on_startup(&self, _ctx: &AppContext) -> Result<(), ModuleError> {
        Ok(())
    }
}

struct Echo(u8);

impl Command for Echo {
    type Output = u8;
}

struct EchoModule;

impl Module for EchoModule {
    fn manifest(&self) -> ModuleManifest {
        ModuleManifest { id: "echo", version: "1.0.0", capabilities: &[] }
    }

    fn register(&self, bus: &mut CommandBus) {
        bus.register::<Echo, _>(|cmd| cmd.0);
    }

    fn on_startup(&self, _ctx: &AppContext) -> Result<(), ModuleError> {
        Ok(())
    }
}

struct FailingModule;

impl Module for FailingModule {
    fn manifest(&self) -> ModuleManifest {
        ModuleManifest { id: "failing", version: "0.0.1", capabilities: &[Capability::Ecu] }
    }

    fn register(&self, _bus: &mut CommandBus) {}

    fn on_startup(&self, _ctx: &AppContext) -> Result<(), ModuleError> {
        Err(ModuleError::StartupFailed { module_id: "failing", reason: "no adapter".to_string() })
    }
}

#[test]
fn registry_starts_all_registered_modules() {
    let mut registry = ModuleRegistry::new();
    registry.register(Box::new(StubModule));

    assert_eq!(registry.manifests().len(), 1);
    assert_eq!(registry.manifests()[0].id, "stub");

    let mut bus = CommandBus::new();
    let ctx = AppContext {};
    assert!(registry.start_all(&mut bus, &ctx).is_ok());
}

#[test]
fn manifests_follow_registration_order() {
    let mut registry = ModuleRegistry::new();
    registry.register(Box::new(EchoModule)).register(Box::new(StubModule));
    let ids: Vec<&str> = registry.manifests().iter().map(|m| m.id).collect();
    assert_eq!(ids, vec!["echo", "stub"]);
    assert_eq!(registry.manifests()[1].capabilities, &[Capability::Sqlite]);
}

#[test]
fn start_all_registers_module_commands_on_the_bus() {
    let mut registry = ModuleRegistry::new();
    registry.register(Box::new(EchoModule));
    let mut bus = CommandBus::new();
    registry.start_all(&mut bus, &AppContext {}).unwrap();
    assert_eq!(bus.dispatch(Echo(9)).unwrap(), 9);
}

#[test]
fn start_all_stops_at_first_failing_module() {
    let mut registry = ModuleRegistry::new();
    registry.register(Box::new(FailingModule));
    registry.register(Box::new(EchoModule));
    let mut bus = CommandBus::new();
    let err = registry.start_all(&mut bus, &AppContext {}).unwrap_err();
    assert_eq!(err.message(), "module 'failing' failed to start: no adapter");
    // The module after the failing one was never wired onto the bus.
    assert!(bus.dispatch(Echo(1)).is_err());
}

#[test]
fn empty_registry_starts_cleanly() {
    let registry = ModuleRegistry::new();
    assert!(registry.manifests().is_empty());
    assert!(registry.start_all(&mut CommandBus::new(), &AppContext {}).is_ok());
}
