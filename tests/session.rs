use retroswiper::launch::{classify, launch_command, Platform};
use retroswiper::library::LibraryIndex;
use retroswiper::session::{Action, Event, Phase, Supervisor};

fn line(name: &str) -> Event {
    Event::Line(format!("Event: time 2.0, type 1 (EV_KEY), code 1 (KEY_{}), value 0", name))
}

fn library() -> LibraryIndex {
    let v = vec!["roms/nes/mario.nes".to_string(), "roms/sms/sonic.sms".to_string()];
    LibraryIndex::build(&v)
}

#[test]
fn platform_from_path_prefix() {
    assert_eq!(classify("roms/nes/mario.nes"), Some(Platform::Nes));
    assert_eq!(classify("roms/sms/sonic.sms"), Some(Platform::Sms));
    assert_eq!(classify("roms/smc/zelda.smc"), Some(Platform::Snes));
    assert_eq!(classify("roms/gba/x.gba"), None);
}

#[test]
fn launch_commands_per_platform() {
    let l = launch_command(Platform::Nes, "roms/nes/mario.nes");
    assert_eq!(l.program, "bin/nestopia");
    assert_eq!(l.args, vec!["-f".to_string(), "roms/nes/mario.nes".to_string()]);
    assert_eq!(l.env, vec![("MESA_GL_VERSION_OVERRIDE".to_string(), "3.2".to_string())]);
    let l = launch_command(Platform::Sms, "roms/sms/sonic.sms");
    assert_eq!(l.program, "bin/osmose");
    assert_eq!(l.args, vec!["-fs", "-nn2x", "-joy", "roms/sms/sonic.sms"]);
    assert!(l.env.is_empty());
    let l = launch_command(Platform::Snes, "roms/smc/zelda.smc");
    assert_eq!(l.program, "bin/snes9x");
    assert_eq!(l.args, vec!["roms/smc/zelda.smc"]);
    assert!(l.env.is_empty());
}

#[test]
fn end_to_end_launch_then_missing_selection() {
    let games = library();
    let mut s = Supervisor::new("ROMS/NES/MARIO.NES".to_string());
    match s.step(&games, Event::Begin) {
        Action::Spawn(l) => {
            assert_eq!(l.program, "bin/nestopia");
            assert_eq!(l.args, vec!["-f", "roms/nes/mario.nes"]);
        }
        _ => panic!("expected a spawn"),
    }
    assert!(matches!(s.step(&games, Event::EmulatorStarted(true)), Action::Listen));
    assert!(s.emulator_live());
    // swipe "Xzelda?" : the raw text up to the end sentinel is "Xzelda"
    assert!(matches!(s.step(&games, line("LEFTSHIFT")), Action::Read));
    for k in ["X", "Z", "E", "L", "D", "A", "LEFTSHIFT", "SLASH"] {
        assert!(matches!(s.step(&games, line(k)), Action::Read));
    }
    assert!(matches!(s.step(&games, line("ENTER")), Action::TearDown(true)));
    assert_eq!(s.phase(), Phase::TearingDown);
    assert_eq!(s.current_key(), "ROMS/ZELDA");
    match s.step(&games, Event::TornDown) {
        Action::NotFound(k) => assert_eq!(k, "ROMS/ZELDA"),
        _ => panic!("expected not found"),
    }
    assert!(!s.emulator_live());
    assert_eq!(s.phase(), Phase::Listening);
}

#[test]
fn placeholder_ends_selection() {
    let games = library();
    let mut s = Supervisor::new("NONE".to_string());
    assert!(matches!(s.step(&games, Event::Begin), Action::NotFound(_)));
    for k in ["X", "N", "E", "S", "SLASH", "M", "A", "R", "I", "O", "DOT", "N", "E", "S", "F13", "Q"] {
        assert!(matches!(s.step(&games, line(k)), Action::Read));
    }
    assert!(matches!(s.step(&games, line("ENTER")), Action::TearDown(false)));
    assert_eq!(s.current_key(), "ROMS/NES/MARIO.NES");
    assert!(matches!(s.step(&games, Event::TornDown), Action::Spawn(_)));
}

#[test]
fn swipe_without_sentinel_keeps_newline() {
    let games = library();
    let mut s = Supervisor::new("NONE".to_string());
    assert!(matches!(s.step(&games, Event::Begin), Action::NotFound(_)));
    for k in ["X", "Z", "E", "L", "D", "A"] {
        assert!(matches!(s.step(&games, line(k)), Action::Read));
    }
    assert!(matches!(s.step(&games, line("ENTER")), Action::TearDown(false)));
    assert_eq!(s.current_key(), "ROMS/ZELDA\n");
}

#[test]
fn spawn_failure_leaves_no_emulator() {
    let games = library();
    let mut s = Supervisor::new("ROMS/SMS/SONIC.SMS".to_string());
    assert!(matches!(s.step(&games, Event::Begin), Action::Spawn(_)));
    assert!(matches!(s.step(&games, Event::EmulatorStarted(false)), Action::Listen));
    assert!(!s.emulator_live());
    assert!(matches!(s.step(&games, Event::StreamEnded), Action::TearDown(false)));
}

#[test]
fn never_two_emulators() {
    let games = library();
    let mut s = Supervisor::new("ROMS/NES/MARIO.NES".to_string());
    let mut live = 0;
    let mut action = s.step(&games, Event::Begin);
    for _ in 0..3 {
        assert!(matches!(action, Action::Spawn(_)));
        assert_eq!(live, 0);
        // a second Begin while a spawn is awaited is ignored
        assert!(matches!(s.step(&games, Event::Begin), Action::Ignore));
        assert!(matches!(s.step(&games, Event::EmulatorStarted(true)), Action::Listen));
        live += 1;
        assert!(matches!(s.step(&games, Event::Begin), Action::Ignore));
        // Xnes/mario.nes, so the same game again
        for k in ["X", "N", "E", "S", "SLASH", "M", "A", "R", "I", "O", "DOT", "N", "E", "S"] {
            assert!(matches!(s.step(&games, line(k)), Action::Read));
        }
        match s.step(&games, line("F13")) {
            Action::Read => {}
            _ => panic!("expected read"),
        }
        match s.step(&games, line("ENTER")) {
            Action::TearDown(kill) => {
                assert!(kill);
                live -= 1;
            }
            _ => panic!("expected tear-down"),
        }
        action = s.step(&games, Event::TornDown);
    }
}

#[test]
fn out_of_phase_events_are_ignored() {
    let games = library();
    let mut s = Supervisor::new("ROMS/NES/MARIO.NES".to_string());
    assert!(matches!(s.step(&games, line("A")), Action::Ignore));
    assert!(matches!(s.step(&games, Event::StreamEnded), Action::Ignore));
    assert!(matches!(s.step(&games, Event::TornDown), Action::Ignore));
    assert!(matches!(s.step(&games, Event::EmulatorStarted(true)), Action::Ignore));
    assert_eq!(s.phase(), Phase::Launching);
}

#[test]
fn invalid_system_is_reported() {
    let v = vec!["roms/gba/x.gba".to_string()];
    let games = LibraryIndex::build(&v);
    let mut s = Supervisor::new("ROMS/GBA/X.GBA".to_string());
    match s.step(&games, Event::Begin) {
        Action::InvalidSystem(p) => assert_eq!(p, "roms/gba/x.gba"),
        _ => panic!("expected invalid system"),
    }
    assert_eq!(s.phase(), Phase::Listening);
}
