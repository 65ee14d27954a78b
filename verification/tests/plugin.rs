//! Socket paths and the plugin child's command line.

use actix_directory::plugin::{plugin_args, sock_path, Plugin};
use actix_directory::app::App;

#[test]
fn sock_path_joins_dir_and_name() {
    assert_eq!(sock_path("/tmp/ad-1", "main"), "/tmp/ad-1/main.sock");
    assert_eq!(sock_path("/tmp/ad-1", "weather"), "/tmp/ad-1/weather.sock");
}

#[test]
fn plugin_args_accept_exactly_two_sockets() {
    let args = vec!["/tmp/d/main.sock".to_string(), "/tmp/d/p.sock".to_string()];
    let socks = plugin_args(&args).unwrap();
    assert_eq!(socks.directory, "/tmp/d/main.sock");
    assert_eq!(socks.listen, "/tmp/d/p.sock");

    assert!(plugin_args(&vec!["one".to_string()]).is_none());
    assert!(plugin_args(&Vec::new()).is_none());
    assert!(plugin_args(&vec!["a".into(), "b".into(), "c".into()]).is_none());
}

#[test]
fn plugin_spawn_keeps_extra_arguments() {
    let plugin = Plugin {
        name: "ext".to_string(),
        exec_path: "/usr/local/bin/ext".to_string(),
        opt_args: vec!["--verbose".to_string(), "--color".to_string()],
        messages: vec!["a".to_string()],
    };
    let (_app, spawn) = plugin.add_to(App::new(), "/tmp/sockets");
    assert_eq!(
        spawn.args,
        vec![
            "/tmp/sockets/main.sock".to_string(),
            "/tmp/sockets/ext.sock".to_string(),
            "--verbose".to_string(),
            "--color".to_string(),
        ]
    );
}
