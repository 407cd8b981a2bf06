use nix::sys::stat::Mode;
use wye::config::resolve_session_number;
use wye::pipe::{pipe_path, session_of_entry, PIPE_MODE};
use wye::{WYE_PIPE_DIR, WYE_PIPE_PREFIX};

#[test]
fn pipe_path_is_directory_prefix_hyphen_number() {
    assert_eq!(pipe_path(7), "/tmp/wye-7");
    assert_eq!(pipe_path(0), "/tmp/wye-0");
    assert_eq!(pipe_path(120), "/tmp/wye-120");
    assert_eq!(pipe_path(u32::MAX), "/tmp/wye-4294967295");
    assert_eq!(pipe_path(31), format!("{}/{}-{}", WYE_PIPE_DIR, WYE_PIPE_PREFIX, 31));
}

#[test]
fn entry_names_give_session_numbers() {
    assert_eq!(session_of_entry("wye-7"), Some(7));
    assert_eq!(session_of_entry("wye-0"), Some(0));
    assert_eq!(session_of_entry("wye-4294967295"), Some(u32::MAX));
    assert_eq!(session_of_entry("wye-+7"), Some(7));
    assert_eq!(session_of_entry("wye-007"), Some(7));
}

#[test]
fn other_names_give_none() {
    assert_eq!(session_of_entry(""), None);
    assert_eq!(session_of_entry("wye"), None);
    assert_eq!(session_of_entry("wye-"), None);
    assert_eq!(session_of_entry("wye-a"), None);
    assert_eq!(session_of_entry("wye7"), None);
    assert_eq!(session_of_entry("wye-7 "), None);
    assert_eq!(session_of_entry("way-7"), None);
    assert_eq!(session_of_entry("wyé-7"), None);
    assert_eq!(session_of_entry("-wye-7"), None);
    assert_eq!(session_of_entry("wye-4294967296"), None);
    assert_eq!(session_of_entry("/tmp/wye-7"), None);
}

#[test]
fn entry_names_are_read_as_by_strip_prefix_and_parse() {
    let names = ["wye-1", "wye-", "wye", "wye-x1", "wye-+2", "wye--2", "x", "wye-10", "wye-٣"];
    for name in names {
        let expected = name.strip_prefix("wye-").and_then(|rest| rest.parse::<u32>().ok());
        assert_eq!(session_of_entry(name), expected, "on {:?}", name);
    }
}

#[test]
fn a_pipe_is_found_again_by_its_name() {
    for number in [0u32, 1, 8, 10, 4095, u32::MAX] {
        let path = pipe_path(number);
        let name = path.strip_prefix("/tmp/").unwrap();
        assert_eq!(session_of_entry(name), Some(number));
    }
}

#[test]
fn a_new_session_follows_a_running_one() {
    let running = pipe_path(41);
    let entries = vec![running.strip_prefix("/tmp/").unwrap().to_string()];
    assert_eq!(resolve_session_number(None, &entries), Ok(42));
}

#[test]
fn pipe_mode_is_all_for_the_owner_only() {
    assert_eq!(PIPE_MODE, 0o700);
    assert_eq!(Mode::from_bits(PIPE_MODE), Some(Mode::S_IRWXU));
}
