use matchmaker::config::Config;
use matchmaker::launcher::dedicated_server_executable;
use matchmaker::launcher::launch_command;
use matchmaker::launcher::resources_link;
use matchmaker::launcher::strip_parent;
use matchmaker::launcher::LAUNCHER;
use matchmaker::workspace::join_path;
use matchmaker::workspace::random_suffix;
use matchmaker::workspace::Naming;
use matchmaker::workspace::UniqueDirectory;
use matchmaker::workspace::STAMP_PATTERN;
use matchmaker::workspace::SUFFIX_LENGTH;
use std::path::Path;

fn config_with(working_directiries_path: &str, dedicated_server_dir: &str) -> Config {
    Config {
        config_format_version: "0.0.2".to_string(),
        working_directiries_path: working_directiries_path.to_string(),
        dedicated_server_dir: dedicated_server_dir.to_string(),
        matchmaker_port: 14736,
        network_interface: "0.0.0.0".to_string(),
    }
}

fn retry(search: UniqueDirectory) -> UniqueDirectory {
    match search.resolve(true) {
        Naming::Retry(next) => next,
        Naming::Settled(_) => panic!("a name that is taken must not be settled on"),
    }
}

#[test]
fn paths_are_joined_with_one_separator() {
    assert_eq!(join_path("instances", "a"), "instances/a");
    assert_eq!(join_path("instances/", "a"), "instances/a");
    assert_eq!(join_path("", "a"), "a");
    assert_eq!(join_path("/", "a"), "/a");
    assert_eq!(join_path("instances", ""), "instances/");
    assert_eq!(join_path("instances", "/abs"), "/abs");
    assert_eq!(join_path("a/b", "c/d"), "a/b/c/d");
}

#[test]
fn paths_are_joined_as_the_standard_library_joins_them() {
    let parts = ["", "/", "a", "a/", "/a", "a/b", "../x", "./", "r\u{e9}sum\u{e9}", "x//"];
    for dir in parts {
        for name in parts {
            let expected = Path::new(dir).join(name).to_string_lossy().to_string();
            assert_eq!(join_path(dir, name), expected, "{:?} {:?}", dir, name);
        }
    }
}

#[test]
fn suffix_has_seven_letters_or_digits() {
    assert_eq!(SUFFIX_LENGTH, 7);
    for _ in 0..200 {
        let suffix = random_suffix();
        assert_eq!(suffix.len(), 7);
        assert!(suffix.chars().all(|c| c.is_ascii_alphanumeric()), "{:?}", suffix);
    }
}

#[test]
fn suffixes_vary() {
    let first = random_suffix();
    let mut differs = false;
    for _ in 0..20 {
        if random_suffix() != first {
            differs = true;
        }
    }
    assert!(differs);
}

#[test]
fn name_starts_with_the_stamp_of_the_second() {
    let search = UniqueDirectory::begin("instances", 0).unwrap();
    let path = search.candidate();
    assert!(path.starts_with("instances/700101_000000_"), "{:?}", path);
    assert_eq!(path.len(), "instances/700101_000000_".len() + 7);

    let search = UniqueDirectory::begin("instances", 1_700_000_000).unwrap();
    let path = search.candidate();
    assert!(path.starts_with("instances/231114_221320_"), "{:?}", path);

    let search = UniqueDirectory::begin("/srv/work/", 951_782_399).unwrap();
    let path = search.candidate();
    assert!(path.starts_with("/srv/work/000228_235959_"), "{:?}", path);
}

#[test]
fn stamp_holds_date_and_time_of_day() {
    assert_eq!(STAMP_PATTERN, "%y%m%d_%H%M%S_");
    let search = UniqueDirectory::begin("", 1_709_210_096).unwrap();
    assert_eq!(&search.candidate()[..14], "240229_123456_");
    let search = UniqueDirectory::begin("", 253_402_300_799).unwrap();
    assert_eq!(&search.candidate()[..14], "991231_235959_");
    let search = UniqueDirectory::begin("", -1).unwrap();
    assert_eq!(&search.candidate()[..14], "691231_235959_");
}

#[test]
fn name_ends_with_a_random_suffix() {
    let search = UniqueDirectory::begin("", 1_000_000_000).unwrap();
    let name = search.candidate();
    assert_eq!(name.len(), 21);
    assert_eq!(&name[..14], "010909_014640_");
    assert!(name[14..].chars().all(|c| c.is_ascii_alphanumeric()), "{:?}", name);
}

#[test]
fn seconds_outside_the_calendar_give_no_name() {
    assert!(UniqueDirectory::begin("instances", i64::MAX).is_none());
    assert!(UniqueDirectory::begin("instances", i64::MIN).is_none());
    assert!(UniqueDirectory::begin("instances", 253_402_300_799).is_some());
    assert!(UniqueDirectory::begin("instances", -1).is_some());
}

#[test]
fn free_candidate_is_settled_on() {
    let search = UniqueDirectory::begin("instances", 86_400).unwrap();
    let candidate = search.candidate();
    match search.resolve(false) {
        Naming::Settled(path) => assert_eq!(path, candidate),
        Naming::Retry(_) => panic!("a free name must be settled on"),
    }
}

#[test]
fn taken_candidate_is_replaced_within_the_same_second() {
    let search = UniqueDirectory::begin("instances", 86_400).unwrap();
    let first = search.candidate();
    let search = retry(search);
    let second = search.candidate();
    assert!(first.starts_with("instances/700102_000000_"));
    assert!(second.starts_with("instances/700102_000000_"));
    assert_eq!(second.len(), first.len());
    assert_ne!(first, second);
}

#[test]
fn retries_go_on_until_a_name_is_free() {
    let mut existing: Vec<String> = Vec::new();
    let mut search = UniqueDirectory::begin("root", 42).unwrap();
    for _ in 0..50 {
        existing.push(search.candidate());
        search = retry(search);
    }
    let settled = loop {
        let taken = existing.contains(&search.candidate());
        match search.resolve(taken) {
            Naming::Settled(path) => break path,
            Naming::Retry(next) => search = next,
        }
    };
    assert!(!existing.contains(&settled));
    assert!(settled.starts_with("root/700101_000042_"));
}

#[test]
fn workspace_links_to_the_shared_resources() {
    let plan = resources_link("instances/240101_120000_abcdefg", "/opt/game");
    assert_eq!(plan.target, "/opt/game/resources");
    assert_eq!(plan.link, "instances/240101_120000_abcdefg/resources");
    let plan = resources_link("instances/x/", "..");
    assert_eq!(plan.target, "../resources");
    assert_eq!(plan.link, "instances/x/resources");
}

#[test]
fn server_is_launched_through_the_helper() {
    assert_eq!(LAUNCHER, "./run_detached_process.sh");
    let command = launch_command(8005, "instances/240101_120000_abcdefg", "/opt/game");
    assert_eq!(command.program, "./run_detached_process.sh");
    assert_eq!(
        command.arguments,
        vec![
            "instances/240101_120000_abcdefg".to_string(),
            "/opt/game/DedicatedServer".to_string(),
            "--open-port 8005".to_string(),
        ]
    );
}

#[test]
fn launch_command_names_the_port() {
    let command = launch_command(8999, "w", "../bin");
    assert_eq!(command.arguments.len(), 3);
    assert_eq!(command.arguments[0], "w");
    assert_eq!(command.arguments[1], "../bin/DedicatedServer");
    assert_eq!(command.arguments[2], "--open-port 8999");
}

#[test]
fn executable_of_an_absolute_server_directory() {
    let config = config_with("instances", "/opt/game");
    assert_eq!(dedicated_server_executable(&config), Some("/opt/game/DedicatedServer".to_string()));
    let config = config_with("instances", "/opt/game/");
    assert_eq!(dedicated_server_executable(&config), Some("/opt/game/DedicatedServer".to_string()));
}

#[test]
fn executable_of_a_relative_server_directory() {
    let config = config_with("instances", "../bin");
    assert_eq!(
        dedicated_server_executable(&config),
        Some("instances/bin/DedicatedServer".to_string())
    );
    let config = config_with("/srv/instances/", "../");
    assert_eq!(
        dedicated_server_executable(&config),
        Some("/srv/instances/DedicatedServer".to_string())
    );
}

#[test]
fn relative_server_directory_has_to_step_up() {
    assert_eq!(dedicated_server_executable(&config_with("instances", ".")), None);
    assert_eq!(dedicated_server_executable(&config_with("instances", "bin")), None);
    assert_eq!(dedicated_server_executable(&config_with("instances", "")), None);
    assert_eq!(dedicated_server_executable(&config_with("instances", "..bin")), None);
    assert_eq!(dedicated_server_executable(&config_with("instances", "./../bin")), None);
    assert_eq!(dedicated_server_executable(&config_with("instances", "...")), None);
}

#[test]
fn stepping_up_alone_names_the_root_of_the_working_directories() {
    assert_eq!(
        dedicated_server_executable(&config_with("instances", "..")),
        Some("instances/DedicatedServer".to_string())
    );
    assert_eq!(
        dedicated_server_executable(&config_with("instances", "../")),
        Some("instances/DedicatedServer".to_string())
    );
}

#[test]
fn repeated_separators_after_the_step_up_are_passed_over() {
    assert_eq!(
        dedicated_server_executable(&config_with("instances", "..//bin")),
        Some("instances/bin/DedicatedServer".to_string())
    );
    assert_eq!(
        dedicated_server_executable(&config_with("instances", ".././bin/")),
        Some("instances/bin/DedicatedServer".to_string())
    );
}

#[test]
fn first_component_is_taken_off() {
    assert_eq!(strip_parent(".."), Some("".to_string()));
    assert_eq!(strip_parent("../"), Some("".to_string()));
    assert_eq!(strip_parent("../bin"), Some("bin".to_string()));
    assert_eq!(strip_parent("../bin/"), Some("bin".to_string()));
    assert_eq!(strip_parent("..//bin//x/."), Some("bin//x".to_string()));
    assert_eq!(strip_parent("../../bin"), Some("../bin".to_string()));
    assert_eq!(strip_parent("../.hidden"), Some(".hidden".to_string()));
    assert_eq!(strip_parent("../a/./b"), Some("a/./b".to_string()));
    assert_eq!(strip_parent("bin"), None);
    assert_eq!(strip_parent("."), None);
    assert_eq!(strip_parent(""), None);
    assert_eq!(strip_parent("..."), None);
    assert_eq!(strip_parent("..bin"), None);
    assert_eq!(strip_parent("/.."), None);
}

#[test]
fn first_component_is_taken_off_as_the_standard_library_does() {
    let parts = ["", ".", "..", "/", "//", "./", "../", "/.", "/..", "a", ".a", "a.", "...", "b/"];
    let mut paths: Vec<String> = Vec::new();
    for first in parts {
        for second in parts {
            for third in parts {
                paths.push(format!("{}{}{}", first, second, third));
                paths.push(format!("..{}{}{}", first, second, third));
                paths.push(format!("../{}{}{}", first, second, third));
            }
        }
    }
    for path in paths {
        let expected = match Path::new(&path).strip_prefix("../") {
            Ok(below) => Some(below.to_string_lossy().to_string()),
            Err(_) => None,
        };
        assert_eq!(strip_parent(&path), expected, "{:?}", path);
    }
}

#[test]
fn executable_is_where_the_standard_library_puts_it() {
    let roots = ["instances", "instances/", "/srv/work", "", "."];
    let dirs = [
        "/opt/game", "/opt/game/", "/", "..", "../", "../bin", "../bin/", "..//bin", ".././bin",
        "../../bin", "../a/b/.", "bin", ".", "", "..bin",
    ];
    for root in roots {
        for dir in dirs {
            let expected = if Path::new(dir).is_absolute() {
                Some(Path::new(dir).join("DedicatedServer").to_string_lossy().to_string())
            } else {
                match Path::new(dir).strip_prefix("../") {
                    Ok(below) => Some(
                        Path::new(root)
                            .join(below)
                            .join("DedicatedServer")
                            .to_string_lossy()
                            .to_string(),
                    ),
                    Err(_) => None,
                }
            };
            assert_eq!(
                dedicated_server_executable(&config_with(root, dir)),
                expected,
                "{:?} {:?}",
                root,
                dir
            );
        }
    }
}
