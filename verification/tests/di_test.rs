use di::{dependency_key, required_value};
use di::{Component, ComponentConfig, Config, Context, Error, Injected, PropsMap, System, SystemBuilder, Table, Value};
use std::collections::HashMap;
use std::sync::{Arc, Mutex};

trait Log {
    fn log(&self, msg: &str);
    fn seen(&self) -> Vec<String>;
}

trait Storage {
    fn set(&self, name: &str, value: i32);
    fn get(&self, name: &str) -> Option<i32>;
}

/// The type-erased instance payload shared by every component in these
/// tests: a tagged union of the interfaces the components implement.
enum Comp {
    Log(Arc<dyn Log>),
    Storage(Arc<dyn Storage>),
}

struct ConsoleLog {
    prefix: String,
    messages: Mutex<Vec<String>>,
}

fn default_prefix() -> String {
    "#".to_string()
}

impl Log for ConsoleLog {
    fn log(&self, msg: &str) {
        let mut messages = self.messages.lock().unwrap();
        messages.push(format!("{}/ {}", self.prefix, msg));
    }

    fn seen(&self) -> Vec<String> {
        self.messages.lock().unwrap().clone()
    }
}

struct MemoryStorage {
    log: Arc<dyn Log>,
    values: Mutex<HashMap<String, i32>>,
}

impl Storage for MemoryStorage {
    fn set(&self, name: &str, value: i32) {
        let mut values = self.values.lock().unwrap();
        self.log.log(&format!("set {}={}", name, value));
        values.insert(name.to_string(), value);
    }

    fn get(&self, name: &str) -> Option<i32> {
        let values = self.values.lock().unwrap();
        self.log.log(&format!("get {}", name));
        values.get(name).cloned()
    }
}

/// The factory dispatcher: builds each registered component type by name.
struct Factories;

impl Component for Factories {
    type Handle = Comp;

    fn create(
        ctx: &mut Context<Comp>,
        _interface: &str,
        name: &str,
        props: &PropsMap,
    ) -> Result<Arc<Comp>, Error> {
        match name {
            "ConsoleLog" => {
                let prefix = match props.get("prefix") {
                    Some(v) => match v.as_str() {
                        Some(s) => s.clone(),
                        None => return Err(Error::InvalidProperty {
                            component_name: "ConsoleLog".to_string(),
                            property_name: "prefix".to_string(),
                            message: "Expect string".to_string(),
                        }),
                    },
                    None => default_prefix(),
                };
                Ok(Arc::new(Comp::Log(Arc::new(ConsoleLog {
                    prefix,
                    messages: Mutex::new(Vec::new()),
                }))))
            }
            "StrictLog" => {
                let prefix_value = required_value(props, "StrictLog", "prefix")?;
                let prefix = match prefix_value.as_str() {
                    Some(s) => s.clone(),
                    None => return Err(Error::InvalidProperty {
                        component_name: "StrictLog".to_string(),
                        property_name: "prefix".to_string(),
                        message: "Expect string".to_string(),
                    }),
                };
                Ok(Arc::new(Comp::Log(Arc::new(ConsoleLog {
                    prefix,
                    messages: Mutex::new(Vec::new()),
                }))))
            }
            "MemoryStorage" => {
                let key = dependency_key(props, "MemoryStorage", "log")?.clone();
                let dep = ctx.get::<Factories>("Log", key.as_str())?;
                let log = match &*dep.0 {
                    Comp::Log(l) => l.clone(),
                    _ => return Err(Error::Other("log dependency is not a Log".to_string())),
                };
                Ok(Arc::new(Comp::Storage(Arc::new(MemoryStorage {
                    log,
                    values: Mutex::new(HashMap::new()),
                }))))
            }
            _ => Err(Error::Other(format!("unknown component {}", name))),
        }
    }
}

fn expect_err(r: Result<Injected<Comp>, Error>) -> Error {
    match r {
        Err(e) => e,
        Ok(_) => panic!("expected an error"),
    }
}

fn as_storage(handle: &Injected<Comp>) -> Arc<dyn Storage> {
    match &*handle.0 {
        Comp::Storage(s) => s.clone(),
        _ => panic!("expected a Storage instance"),
    }
}

fn as_log(handle: &Injected<Comp>) -> Arc<dyn Log> {
    match &*handle.0 {
        Comp::Log(l) => l.clone(),
        _ => panic!("expected a Log instance"),
    }
}

fn component_entry(name: &str, props: PropsMap) -> ComponentConfig {
    ComponentConfig { name: name.to_string(), props }
}

/// The standard wiring: a console log under "log", and a memory storage
/// under "storage" whose "log" property names the log's wiring key.
fn standard_config() -> Config {
    let mut components: Table<ComponentConfig> = Table::new();
    components.insert("log".to_string(), component_entry("ConsoleLog", Table::new()));
    let mut storage_props: PropsMap = Table::new();
    storage_props.insert("log".to_string(), Value::Str("log".to_string()));
    components.insert(
        "storage".to_string(),
        component_entry("MemoryStorage", storage_props),
    );
    Config { components }
}

fn standard_system() -> System {
    SystemBuilder::new()
        .register("Log", "ConsoleLog")
        .register("Log", "StrictLog")
        .register("Storage", "MemoryStorage")
        .run(standard_config())
}

#[test]
fn test_component() {
    let system = SystemBuilder::new()
        .config_file("tests/config.json")
        .register("Log", "ConsoleLog")
        .register("Storage", "MemoryStorage")
        .run(standard_config());
    let mut ctx = system.create_context::<Comp>();
    let storage = as_storage(&ctx.get::<Factories>("Storage", "storage").unwrap());
    storage.set("a", 10);
    storage.set("b", 20);
    storage.get("a");
}

#[test]
fn singleton_per_key() {
    let system = standard_system();
    let mut ctx = system.create_context::<Comp>();
    let first = ctx.get::<Factories>("Storage", "storage").unwrap();
    let second = ctx.get::<Factories>("Storage", "storage").unwrap();
    let s1 = as_storage(&first);
    let s2 = as_storage(&second);
    s1.set("a", 10);
    assert_eq!(s2.get("a"), Some(10));
}

#[test]
fn isolation_across_contexts() {
    let system = standard_system();
    let mut ctx1 = system.create_context::<Comp>();
    let mut ctx2 = system.create_context::<Comp>();
    let s1 = as_storage(&ctx1.get::<Factories>("Storage", "storage").unwrap());
    let s2 = as_storage(&ctx2.get::<Factories>("Storage", "storage").unwrap());
    s1.set("a", 10);
    assert_eq!(s1.get("a"), Some(10));
    assert_eq!(s2.get("a"), None);
}

#[test]
fn type_mismatch_detected() {
    let system = standard_system();
    let mut ctx = system.create_context::<Comp>();
    let first = ctx.get::<Factories>("Storage", "storage").unwrap();
    let err = expect_err(ctx.get::<Factories>("Log", "storage"));
    match err {
        Error::NotImplemented { trait_name, component_name } => {
            assert_eq!(trait_name, "Log");
            assert_eq!(component_name, "MemoryStorage");
        }
        other => panic!("expected NotImplemented, got {:?}", other),
    }
    let s = as_storage(&first);
    s.set("a", 10);
    assert_eq!(s.get("a"), Some(10));
}

#[test]
fn default_policy_missing_property() {
    let mut components: Table<ComponentConfig> = Table::new();
    components.insert("log".to_string(), component_entry("StrictLog", Table::new()));
    let system = SystemBuilder::new()
        .register("Log", "StrictLog")
        .run(Config { components });
    let mut ctx = system.create_context::<Comp>();
    let err = expect_err(ctx.get::<Factories>("Log", "log"));
    match err {
        Error::MissingProperty { component_name, property_name } => {
            assert_eq!(component_name, "StrictLog");
            assert_eq!(property_name, "prefix");
        }
        other => panic!("expected MissingProperty, got {:?}", other),
    }
}

#[test]
fn default_policy_routine_and_zero_value() {
    let system = standard_system();
    let mut ctx = system.create_context::<Comp>();
    let storage = as_storage(&ctx.get::<Factories>("Storage", "storage").unwrap());
    // The zero-value default: a fresh storage map starts empty.
    assert_eq!(storage.get("a"), None);
    let log = as_log(&ctx.get::<Factories>("Log", "log").unwrap());
    // The default-producing routine supplied the "#" prefix.
    assert_eq!(log.seen(), vec!["#/ get a".to_string()]);
}

#[test]
fn configured_value_overrides_default() {
    let mut components: Table<ComponentConfig> = Table::new();
    let mut props: PropsMap = Table::new();
    props.insert("prefix".to_string(), Value::Str(">".to_string()));
    components.insert("log".to_string(), component_entry("ConsoleLog", props));
    let system = SystemBuilder::new()
        .register("Log", "ConsoleLog")
        .run(Config { components });
    let mut ctx = system.create_context::<Comp>();
    let log = as_log(&ctx.get::<Factories>("Log", "log").unwrap());
    log.log("hello");
    assert_eq!(log.seen(), vec![">/ hello".to_string()]);
}

#[test]
fn dependency_wiring_end_to_end() {
    let system = standard_system();
    let mut ctx = system.create_context::<Comp>();
    let storage = as_storage(&ctx.get::<Factories>("Storage", "storage").unwrap());
    storage.set("a", 10);
    assert_eq!(storage.get("a"), Some(10));
    let log = as_log(&ctx.get::<Factories>("Log", "log").unwrap());
    assert_eq!(log.seen().len(), 2);
    assert_eq!(log.seen(), vec!["#/ set a=10".to_string(), "#/ get a".to_string()]);
}

#[test]
fn unregistered_component_name() {
    let mut components: Table<ComponentConfig> = Table::new();
    components.insert("log".to_string(), component_entry("NoSuchLog", Table::new()));
    let system = SystemBuilder::new()
        .register("Log", "ConsoleLog")
        .run(Config { components });
    let mut ctx = system.create_context::<Comp>();
    let err = expect_err(ctx.get::<Factories>("Log", "log"));
    match err {
        Error::ComponentNotFound { name } => assert_eq!(name, "log"),
        other => panic!("expected ComponentNotFound, got {:?}", other),
    }
}

#[test]
fn unregistered_interface() {
    let system = SystemBuilder::new()
        .register("Log", "ConsoleLog")
        .run(standard_config());
    let mut ctx = system.create_context::<Comp>();
    let err = expect_err(ctx.get::<Factories>("Storage", "storage"));
    match err {
        Error::TraitNotDefined { name } => assert_eq!(name, "Storage"),
        other => panic!("expected TraitNotDefined, got {:?}", other),
    }
}

#[test]
fn missing_wiring_key() {
    let system = standard_system();
    let mut ctx = system.create_context::<Comp>();
    for _ in 0..2 {
        let err = expect_err(ctx.get::<Factories>("Storage", "missing"));
        match err {
            Error::ComponentConfigNotFound { name } => assert_eq!(name, "missing"),
            other => panic!("expected ComponentConfigNotFound, got {:?}", other),
        }
    }
    // The failed lookups poisoned nothing.
    let storage = as_storage(&ctx.get::<Factories>("Storage", "storage").unwrap());
    storage.set("a", 10);
    assert_eq!(storage.get("a"), Some(10));
}

#[test]
fn dependency_property_must_be_string() {
    let mut components: Table<ComponentConfig> = Table::new();
    components.insert("log".to_string(), component_entry("ConsoleLog", Table::new()));
    let mut storage_props: PropsMap = Table::new();
    storage_props.insert("log".to_string(), Value::Int(5));
    components.insert(
        "storage".to_string(),
        component_entry("MemoryStorage", storage_props),
    );
    let system = SystemBuilder::new()
        .register("Log", "ConsoleLog")
        .register("Storage", "MemoryStorage")
        .run(Config { components });
    let mut ctx = system.create_context::<Comp>();
    let err = expect_err(ctx.get::<Factories>("Storage", "storage"));
    match err {
        Error::InvalidProperty { component_name, property_name, message } => {
            assert_eq!(component_name, "MemoryStorage");
            assert_eq!(property_name, "log");
            assert_eq!(message, "Expect string");
        }
        other => panic!("expected InvalidProperty, got {:?}", other),
    }
}

#[test]
fn dependency_property_missing() {
    let mut components: Table<ComponentConfig> = Table::new();
    components.insert("log".to_string(), component_entry("ConsoleLog", Table::new()));
    components.insert(
        "storage".to_string(),
        component_entry("MemoryStorage", Table::new()),
    );
    let system = SystemBuilder::new()
        .register("Log", "ConsoleLog")
        .register("Storage", "MemoryStorage")
        .run(Config { components });
    let mut ctx = system.create_context::<Comp>();
    let err = expect_err(ctx.get::<Factories>("Storage", "storage"));
    match err {
        Error::MissingProperty { component_name, property_name } => {
            assert_eq!(component_name, "MemoryStorage");
            assert_eq!(property_name, "log");
        }
        other => panic!("expected MissingProperty, got {:?}", other),
    }
}

#[test]
fn failed_resolution_is_not_cached() {
    let mut components: Table<ComponentConfig> = Table::new();
    components.insert("log".to_string(), component_entry("StrictLog", Table::new()));
    let system = SystemBuilder::new()
        .register("Log", "StrictLog")
        .run(Config { components });
    let mut ctx = system.create_context::<Comp>();
    assert!(ctx.get::<Factories>("Log", "log").is_err());
    // The failure left no cache entry behind, so the same mistake is
    // reported again rather than a poisoned instance handed out.
    assert!(ctx.get::<Factories>("Log", "log").is_err());
}

#[test]
fn table_insert_and_replace() {
    let mut table: Table<Value> = Table::new();
    assert!(table.get("a").is_none());
    table.insert("a".to_string(), Value::Int(1));
    table.insert("b".to_string(), Value::Int(2));
    match table.get("a") {
        Some(Value::Int(n)) => assert_eq!(*n, 1),
        other => panic!("unexpected {:?}", other),
    }
    table.insert("a".to_string(), Value::Int(3));
    match table.get("a") {
        Some(Value::Int(n)) => assert_eq!(*n, 3),
        other => panic!("unexpected {:?}", other),
    }
    match table.get("b") {
        Some(Value::Int(n)) => assert_eq!(*n, 2),
        other => panic!("unexpected {:?}", other),
    }
}

#[test]
fn registry_lookup_distinctions() {
    let mut registry = di::Registry::new();
    assert!(!registry.contains_interface("Log"));
    registry.register("Log", "ConsoleLog");
    assert!(registry.contains_interface("Log"));
    assert!(registry.contains_component("Log", "ConsoleLog"));
    assert!(!registry.contains_component("Log", "FileLog"));
    assert!(!registry.contains_interface("Storage"));
    // Registering the same pair again changes nothing.
    registry.register("Log", "ConsoleLog");
    assert!(registry.contains_component("Log", "ConsoleLog"));
}

#[test]
fn value_accessors() {
    assert_eq!(Value::Int(7).as_int(), Some(7));
    assert_eq!(Value::Str("x".to_string()).as_int(), None);
    assert_eq!(Value::Bool(true).as_bool(), Some(true));
    assert_eq!(Value::Null.as_bool(), None);
    let v = Value::Str("x".to_string());
    assert_eq!(v.as_str().map(|s| s.as_str()), Some("x"));
    assert_eq!(Value::Int(7).as_str(), None);
}

#[test]
fn builder_remembers_config_file() {
    let builder = SystemBuilder::new().config_file("tests/config.json");
    assert_eq!(builder.config_file.as_deref(), Some("tests/config.json"));
}
