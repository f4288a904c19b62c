use fxr_reloader::frontend::{
    decimal_text, format_process_label, get_project_title, get_running_games, is_supported_game,
    reload_log_entry, GameProcess,
};

fn process(pid: u32, name: &str) -> GameProcess {
    GameProcess { pid, name: name.to_string() }
}

fn names(games: &[GameProcess]) -> Vec<(u32, String)> {
    games.iter().map(|game| (game.pid, game.name.clone())).collect()
}

#[test]
fn only_games_are_offered_and_the_greatest_identifier_comes_first() {
    let processes = vec![
        process(400, "explorer.exe"),
        process(812, "eldenring.exe"),
        process(4, "System"),
        process(9000, "sekiro.exe"),
        process(77, "start_protected_game.exe"),
        process(5120, "armoredcore6.exe"),
        process(6000, "EldenRing.exe"),
    ];
    let games = get_running_games(&processes);
    assert_eq!(
        names(&games),
        vec![
            (9000, "sekiro.exe".to_string()),
            (5120, "armoredcore6.exe".to_string()),
            (812, "eldenring.exe".to_string()),
            (77, "start_protected_game.exe".to_string()),
        ]
    );
}

#[test]
fn of_two_games_with_one_identifier_the_first_stays_first() {
    let processes = vec![
        process(10, "eldenring.exe"),
        process(20, "sekiro.exe"),
        process(10, "armoredcore6.exe"),
        process(20, "start_protected_game.exe"),
    ];
    let games = get_running_games(&processes);
    assert_eq!(
        names(&games),
        vec![
            (20, "sekiro.exe".to_string()),
            (20, "start_protected_game.exe".to_string()),
            (10, "eldenring.exe".to_string()),
            (10, "armoredcore6.exe".to_string()),
        ]
    );
}

#[test]
fn no_processes_no_games() {
    assert!(get_running_games(&[]).is_empty());
    assert!(get_running_games(&[process(1, "notepad.exe")]).is_empty());
}

#[test]
fn the_supported_games() {
    for name in ["eldenring.exe", "armoredcore6.exe", "sekiro.exe", "start_protected_game.exe"] {
        assert!(is_supported_game(name));
    }
    for name in ["", "eldenring", "ELDENRING.EXE", "eldenring.exe ", "darksouls3.exe"] {
        assert!(!is_supported_game(name));
    }
}

#[test]
fn processes_are_equal_by_their_identifier() {
    assert_eq!(process(7, "eldenring.exe"), process(7, "sekiro.exe"));
    assert_ne!(process(7, "eldenring.exe"), process(8, "eldenring.exe"));
}

#[test]
fn labels_and_titles() {
    assert_eq!(format_process_label(&process(4242, "eldenring.exe")), "eldenring.exe (4242)");
    assert_eq!(format_process_label(&process(0, "")), " (0)");
    assert_eq!(
        format_process_label(&process(u32::MAX, "sekiro.exe")),
        "sekiro.exe (4294967295)"
    );
    assert_eq!(get_project_title("0.3.1"), "FXR reloader v0.3.1");
    assert_eq!(get_project_title(""), "FXR reloader v");
}

#[test]
fn numbers_in_decimal() {
    assert_eq!(decimal_text(0), "0");
    assert_eq!(decimal_text(9), "9");
    assert_eq!(decimal_text(10), "10");
    assert_eq!(decimal_text(1_000_000), "1000000");
    assert_eq!(decimal_text(305_419_896), "305419896");
    for n in [1u32, 19, 100, 101, 65_535, 4_294_967_295] {
        assert_eq!(decimal_text(n), n.to_string());
    }
}

#[test]
fn the_log_tells_of_each_reload() {
    assert_eq!(reload_log_entry(Ok(())), "Reloaded FXR");
    assert_eq!(
        reload_log_entry(Err("Failed to find specified process.".to_string())),
        "Failed to reload FXR: Failed to find specified process."
    );
    assert_eq!(reload_log_entry(Err(String::new())), "Failed to reload FXR: ");
}
