use runkit::{ServiceError, ServiceManager};

#[test]
fn validates_service_name() {
    let manager = ServiceManager::default();
    assert!(manager.validate_service_name("valid_name-01").is_ok());
    assert!(manager.validate_service_name("../bad").is_err());
    assert!(manager.validate_service_name("").is_err());
}

#[test]
fn validates_more_service_names() {
    let manager = ServiceManager::default();
    assert!(manager.validate_service_name("x.y_z").is_ok());
    assert!(manager.validate_service_name("a/b").is_err());
    assert!(manager.validate_service_name("a b").is_err());
    assert!(manager.validate_service_name("caf\u{e9}").is_err());
    assert!(manager.validate_service_name("AZaz09-_.").is_ok());
    assert_eq!(
        manager.validate_service_name("a;b"),
        Err(ServiceError::InvalidServiceName("a;b".to_string()))
    );
}

#[test]
fn manager_keeps_its_paths() {
    let manager = ServiceManager::default();
    assert_eq!(manager.definitions_dir(), "/etc/sv");
    assert_eq!(manager.enabled_dir(), "/var/service");
    assert_eq!(manager.sv_command_path(), "sv");
    let manager = ServiceManager::new("/defs", "/run/").with_sv_command("/bin/sv");
    assert_eq!(manager.definitions_dir(), "/defs");
    assert_eq!(manager.enabled_dir(), "/run/");
    assert_eq!(manager.sv_command_path(), "/bin/sv");
    assert_eq!(manager.definition_path("a"), "/defs/a");
    assert_eq!(manager.enabled_path("a"), "/run/a");
    assert_eq!(ServiceManager::new("", "x").definition_path("a"), "a");
}
