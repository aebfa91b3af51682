use tsunami::add;
use tsunami::errors::{LoadError, PluginError, VersionComponent};
use tsunami::handshake::{evaluate_handshake, ModuleProbe, VersionToken};

fn host() -> VersionToken {
    VersionToken { toolchain: "1.75.0".to_string(), package: "1.0.0".to_string() }
}

fn symbols(toolchain: &str, package: &str) -> ModuleProbe {
    ModuleProbe::Symbols {
        toolchain: Some(toolchain.to_string()),
        package: Some(package.to_string()),
    }
}

#[test]
fn it_works() {
    let result = add(2, 2);
    assert_eq!(result, 4);
}

#[test]
fn matching_token_accepted() {
    let r = evaluate_handshake(&host(), &symbols("1.75.0", "1.0.0"));
    assert!(r.is_ok());
}

#[test]
fn package_mismatch_rejected() {
    let r = evaluate_handshake(&host(), &symbols("1.75.0", "2.0.0"));
    match r {
        Err(LoadError::VersionMismatch { component, expected, found }) => {
            assert!(matches!(component, VersionComponent::Package));
            assert_eq!(expected, "1.0.0");
            assert_eq!(found, "2.0.0");
        },
        other => panic!("expected a package mismatch, got {:?}", other),
    }
}

#[test]
fn toolchain_mismatch_reported_before_package() {
    // both components differ and the package symbol is even absent: the
    // toolchain is examined first, so its mismatch is the error
    let probe = ModuleProbe::Symbols { toolchain: Some("1.74.0".to_string()), package: None };
    let r = evaluate_handshake(&host(), &probe);
    match r {
        Err(LoadError::VersionMismatch { component, expected, found }) => {
            assert!(matches!(component, VersionComponent::Toolchain));
            assert_eq!(expected, "1.75.0");
            assert_eq!(found, "1.74.0");
        },
        other => panic!("expected a toolchain mismatch, got {:?}", other),
    }
}

#[test]
fn missing_toolchain_symbol_rejected() {
    let probe = ModuleProbe::Symbols { toolchain: None, package: Some("1.0.0".to_string()) };
    let r = evaluate_handshake(&host(), &probe);
    assert!(matches!(r, Err(LoadError::MissingHandshake)));
}

#[test]
fn missing_package_symbol_rejected() {
    let probe = ModuleProbe::Symbols { toolchain: Some("1.75.0".to_string()), package: None };
    let r = evaluate_handshake(&host(), &probe);
    assert!(matches!(r, Err(LoadError::MissingHandshake)));
}

#[test]
fn unreadable_module_rejected() {
    let r = evaluate_handshake(&host(), &ModuleProbe::NotFound);
    assert!(matches!(r, Err(LoadError::ModuleNotFound)));
}

#[test]
fn invalid_module_rejected() {
    let r = evaluate_handshake(&host(), &ModuleProbe::Invalid);
    assert!(matches!(r, Err(LoadError::ModuleInvalid)));
}

#[test]
fn plugin_error_keeps_message() {
    let e = PluginError::new("initialisation refused".to_string());
    assert_eq!(e.message(), "initialisation refused");
}
