use hyperql_zed::command::LaunchCommand;
use hyperql_zed::extension::HyperqlExtension;
use hyperql_zed::extension::missing_server_message;
use hyperql_zed::extension::resolve_launch_command;
use hyperql_zed::extension::server_binary_name;

#[test]
fn factory_constructs() {
    let a = HyperqlExtension::new();
    let b = HyperqlExtension::new();
    assert!(a == b);
}

#[test]
fn binary_name_exact() {
    assert_eq!(server_binary_name(), "hyperql-lsp");
}

#[test]
fn success_path() {
    let r = resolve_launch_command(
        "hyperql",
        Some("/usr/local/bin/hyperql-lsp".to_string()),
    );
    match r {
        Ok(c) => {
            assert_eq!(c.command, "/usr/local/bin/hyperql-lsp");
            assert!(c.args.is_empty());
            assert!(c.env.is_empty());
        }
        Err(e) => panic!("expected a launch command, got error: {e}"),
    }
}

#[test]
fn missing_binary_reports_error_naming_binary() {
    let r = resolve_launch_command("hyperql", None);
    match r {
        Ok(_) => panic!("expected an error when the binary is missing"),
        Err(e) => assert!(e.contains("hyperql-lsp")),
    }
}

#[test]
fn missing_binary_message_exact() {
    let r = resolve_launch_command("hyperql", None);
    assert_eq!(r.err(), Some(missing_server_message()));
    assert_eq!(
        missing_server_message(),
        "hyperql-lsp not found in PATH. Please install the HyperQL LSP server."
    );
}

#[test]
fn args_and_env_empty_regardless_of_path() {
    let paths = ["", "/", "relative/hyperql-lsp", "/opt/tools/hyperql-lsp"];
    for p in paths {
        let r = resolve_launch_command("hyperql", Some(p.to_string()));
        match r {
            Ok(c) => {
                assert_eq!(c.command, p);
                assert!(c.args.is_empty());
                assert!(c.env.is_empty());
            }
            Err(e) => panic!("expected a launch command, got error: {e}"),
        }
    }
}

#[test]
fn server_id_independent() {
    let a = resolve_launch_command("server-one", Some("/usr/bin/hyperql-lsp".to_string()));
    let b = resolve_launch_command("server-two", Some("/usr/bin/hyperql-lsp".to_string()));
    match (a, b) {
        (Ok(ca), Ok(cb)) => {
            assert_eq!(ca.command, cb.command);
            assert_eq!(ca.args, cb.args);
            assert_eq!(ca.env, cb.env);
        }
        _ => panic!("expected launch commands from both calls"),
    }
    let ea = resolve_launch_command("server-one", None);
    let eb = resolve_launch_command("server-two", None);
    assert_eq!(ea.err(), eb.err());
}

#[test]
fn bare_command_builder() {
    let c = LaunchCommand::bare("/usr/bin/hyperql-lsp".to_string());
    assert_eq!(c.command, "/usr/bin/hyperql-lsp");
    assert!(c.args.is_empty());
    assert!(c.env.is_empty());
}
