use std::path::Path;

use backend_supervisor::command::{
    are_nul_free, build_command, command_for, command_with, is_nul_free,
};
use backend_supervisor::server::{development_target, plan_production, ResolvedTarget};

fn texts(items: &[&str]) -> Vec<String> {
    items.iter().map(|s| s.to_string()).collect()
}

#[test]
fn command_holds_program_arguments_and_directory() {
    let command = command_with("npm", &texts(&["run", "dev"]), Some("/work/apps/server")).unwrap();
    let built = command.as_std();
    assert_eq!(built.get_program(), "npm");
    let args: Vec<_> = built.get_args().collect();
    assert_eq!(args, vec!["run", "dev"]);
    assert_eq!(built.get_current_dir(), Some(Path::new("/work/apps/server")));
}

#[test]
fn command_without_directory_inherits_the_callers() {
    let command = command_with("/opt/app/server", &texts(&["--port", "8787"]), None).unwrap();
    let built = command.as_std();
    assert_eq!(built.get_program(), "/opt/app/server");
    let args: Vec<_> = built.get_args().collect();
    assert_eq!(args, vec!["--port", "8787"]);
    assert_eq!(built.get_current_dir(), None);
}

#[test]
fn command_without_arguments_has_none() {
    let command = command_with("server", &Vec::new(), None).unwrap();
    assert_eq!(command.as_std().get_program(), "server");
    assert_eq!(command.as_std().get_args().count(), 0);
}

#[test]
fn development_command_runs_the_package_manager_in_the_server_directory() {
    let command = build_command(&development_target("/work/project".to_string())).unwrap();
    let built = command.as_std();
    assert_eq!(built.get_program(), "npm");
    let args: Vec<_> = built.get_args().collect();
    assert_eq!(args, vec!["run", "dev"]);
    let expected = Path::new("/work/project").join("apps").join("server");
    assert_eq!(built.get_current_dir(), Some(expected.as_path()));
}

#[test]
fn production_command_runs_the_companion_with_the_port() {
    let target = plan_production(Ok("/opt/app".to_string()), false, 8787).unwrap();
    let command = build_command(&target).unwrap();
    let built = command.as_std();
    let expected = Path::new("/opt/app").join("server");
    assert_eq!(built.get_program(), expected.as_os_str());
    let args: Vec<_> = built.get_args().collect();
    assert_eq!(args, vec!["--port", "8787"]);
    assert_eq!(built.get_current_dir(), None);
}

#[test]
fn nul_is_told_apart() {
    assert!(is_nul_free(""));
    assert!(is_nul_free("npm"));
    assert!(!is_nul_free("\0"));
    assert!(!is_nul_free("np\0m"));
    assert!(!is_nul_free("npm\0"));
    assert!(are_nul_free(&texts(&[])));
    assert!(are_nul_free(&texts(&["run", "dev"])));
    assert!(!are_nul_free(&texts(&["run", "d\0ev"])));
}

#[test]
fn no_command_is_built_from_text_with_nul() {
    assert!(command_with("np\0m", &texts(&["run"]), None).is_none());
    assert!(command_with("npm", &texts(&["run", "de\0v"]), None).is_none());
    assert!(command_with("npm", &texts(&["run"]), Some("/wo\0rk")).is_none());
    assert!(command_with("npm", &texts(&["run"]), Some("/work")).is_some());
}

#[test]
fn command_for_development_runs_in_the_joined_directory() {
    let target = development_target("/work/project".to_string());
    let command = command_for(&target, "/work/project/apps/server").unwrap();
    let built = command.as_std();
    assert_eq!(built.get_program(), "npm");
    let args: Vec<_> = built.get_args().collect();
    assert_eq!(args, vec!["run", "dev"]);
    assert_eq!(built.get_current_dir(), Some(Path::new("/work/project/apps/server")));
    assert!(command_for(&target, "/work/pro\0ject/apps/server").is_none());
}

#[test]
fn command_for_production_runs_the_joined_file() {
    let target = plan_production(Ok("/opt/app".to_string()), false, 8787).unwrap();
    let command = command_for(&target, "/opt/app/server").unwrap();
    let built = command.as_std();
    assert_eq!(built.get_program(), "/opt/app/server");
    let args: Vec<_> = built.get_args().collect();
    assert_eq!(args, vec!["--port", "8787"]);
    assert_eq!(built.get_current_dir(), None);
    assert!(command_for(&target, "/opt/a\0pp/server").is_none());
}

#[test]
fn build_command_refuses_a_root_with_nul() {
    assert!(build_command(&development_target("/work/pro\0ject".to_string())).is_none());
    let target = plan_production(Ok("/opt/a\0pp".to_string()), false, 8787).unwrap();
    assert!(build_command(&target).is_none());
}

#[test]
fn build_command_owes_a_command_for_texts_without_nul() {
    let target = ResolvedTarget::Development {
        root: "/work".to_string(),
        subpath: Vec::new(),
        command: "npm".to_string(),
        args: texts(&["run", "dev"]),
    };
    let command = build_command(&target).unwrap();
    assert_eq!(command.as_std().get_program(), "npm");
    assert_eq!(command.as_std().get_current_dir(), Some(Path::new("/work")));
    assert!(build_command(&development_target("".to_string())).is_some());
    assert!(build_command(&plan_production(Ok("".to_string()), true, 0).unwrap()).is_some());
}

#[test]
fn build_command_refuses_a_program_or_argument_with_nul() {
    let target = ResolvedTarget::Development {
        root: "/work".to_string(),
        subpath: texts(&["apps", "server"]),
        command: "np\0m".to_string(),
        args: texts(&["run", "dev"]),
    };
    assert!(build_command(&target).is_none());
    let target = ResolvedTarget::Production {
        dir: "/opt/app".to_string(),
        file_name: "server".to_string(),
        args: texts(&["--port", "87\087"]),
    };
    assert!(build_command(&target).is_none());
    let target = ResolvedTarget::Development {
        root: "/work".to_string(),
        subpath: texts(&["apps", "ser\0ver"]),
        command: "npm".to_string(),
        args: texts(&["run", "dev"]),
    };
    assert!(build_command(&target).is_none());
}
