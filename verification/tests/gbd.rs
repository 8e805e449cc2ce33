use rugby::gbd::lang::Keyword;
use rugby::gbd::session::{Input, Next, Session};
use rugby::gbd::points::Breakpoint;
use rugby::gbd::{Debugger, Error, Tick};

#[test]
fn debugger_takes_control_on_edges_when_enabled() {
    let mut dbg = Debugger::new();
    assert!(dbg.paused());
    assert!(!dbg.ready());
    dbg.enable();
    assert!(dbg.ready()); // cycle 0 is a machine cycle edge
    dbg.cycle();
    assert!(!dbg.ready()); // cycle 1 is not
    for _ in 0..3 {
        dbg.cycle();
    }
    assert!(dbg.ready());
    dbg.resume();
    assert!(!dbg.paused());
    dbg.pause();
    assert!(dbg.paused());
}

#[test]
fn debugger_steps_over_edges() {
    let mut dbg = Debugger::new();
    dbg.set_freq(Tick::Dot);
    dbg.step(2);
    assert!(!dbg.ready());
    dbg.cycle();
    assert!(!dbg.ready());
    dbg.cycle();
    assert!(dbg.ready());
}

#[test]
fn debugger_stops_at_breakpoints_after_ignored_crossings() {
    let mut dbg = Debugger::new();
    dbg.set_freq(Tick::Dot);
    assert_eq!(dbg.set_breakpoint(0x0150), 0);
    assert_eq!(dbg.set_breakpoint(0x0200), 1);
    dbg.sync(0x0150, true, 0, 0);
    assert!(dbg.ready());
    assert_eq!(dbg.ignore_breakpoint(0, 2), Ok(()));
    assert!(!dbg.ready());
    dbg.cycle();
    assert!(!dbg.ready());
    dbg.cycle();
    assert!(dbg.ready());
    assert_eq!(dbg.disable_breakpoint(0), Ok(()));
    assert!(!dbg.ready());
    assert_eq!(dbg.enable_breakpoint(0), Ok(()));
    assert!(dbg.ready());
}

#[test]
fn debugger_breakpoint_numbers_are_restored() {
    let mut dbg = Debugger::new();
    assert_eq!(dbg.set_breakpoint(0x10), 0);
    assert_eq!(dbg.set_breakpoint(0x20), 1);
    assert_eq!(dbg.delete_breakpoint(0), Ok(()));
    assert_eq!(dbg.delete_breakpoint(0), Err(Error::Breakpoint));
    assert_eq!(dbg.disable_breakpoint(7), Err(Error::Breakpoint));
    assert_eq!(dbg.breakpoints(), vec!["breakpoint 1 @ $0020".to_string()]);
    assert_eq!(dbg.set_breakpoint(0x30), 2);
    assert_eq!(dbg.set_breakpoint(0x10), 0);
    assert_eq!(dbg.ignore_breakpoint(2, 3), Ok(()));
    assert_eq!(dbg.disable_breakpoint(1), Ok(()));
    assert_eq!(
        dbg.breakpoints(),
        vec![
            "breakpoint 0 @ $0010".to_string(),
            "breakpoint 1 @ $0020: disabled".to_string(),
            "breakpoint 2 @ $0030: will ignore next 3 crossings".to_string(),
        ]
    );
}

#[test]
fn debugger_texts() {
    let mut dbg = Debugger::new();
    dbg.sync(0xc0de, false, 0, 0);
    for _ in 0..12 {
        dbg.cycle();
    }
    assert_eq!(dbg.prompt_text(), "(#12 @ $c0de)> ");
    dbg.reset();
    assert_eq!(dbg.cycles(), 0);
    assert_eq!(Tick::Insn.to_string(), "instruction");
    assert_eq!(Tick::default().to_string(), "mach");
    let bpt = Breakpoint { disable: false, ignore: 0 };
    assert_eq!(bpt.display(4, 0x1), "breakpoint 4 @ $0001");
}

#[test]
fn debugger_line_and_frame_edges() {
    let mut dbg = Debugger::new();
    dbg.enable();
    dbg.set_freq(Tick::Line);
    dbg.sync(0, false, 5, 3);
    assert!(!dbg.ready());
    dbg.sync(0, false, 0, 3);
    assert!(dbg.ready());
    dbg.set_freq(Tick::Frame);
    assert!(!dbg.ready());
    dbg.sync(0, false, 0, 0);
    assert!(dbg.ready());
    dbg.set_freq(Tick::Insn);
    assert!(!dbg.ready());
    dbg.sync(0, true, 0, 0);
    assert!(dbg.ready());
}

#[test]
fn session_runs_programs_and_repeats_them() {
    let mut s: Session<u8> = Session::new();
    assert_eq!(s.fetch(), None);
    assert!(matches!(s.input(Input::Empty), Next::Prompt));
    assert!(matches!(s.input(Input::Program(vec![1, 2])), Next::Exec(1)));
    assert_eq!(s.fetch(), Some(2));
    assert_eq!(s.fetch(), None);
    // Empty input repeats the previous program.
    assert!(matches!(s.input(Input::Empty), Next::Exec(1)));
    assert_eq!(s.fetch(), Some(2));
    // An empty program counts as empty input.
    assert!(matches!(s.input(Input::Program(vec![])), Next::Exec(1)));
    assert_eq!(s.fetch(), Some(2));
    // A failure forgets the previous program.
    assert!(matches!(s.input(Input::Failed), Next::Fail));
    assert!(matches!(s.input(Input::Empty), Next::Prompt));
    assert!(matches!(s.input(Input::Quit), Next::Quit));
}

#[test]
fn keyword_help_texts() {
    assert!(Keyword::All.help().starts_with("Game Boy Debugger.\n\nCOMMANDS:\n* `break`"));
    assert!(Keyword::Break.help().starts_with("`break <ADDRESS>`\n\nSet a breakpoint"));
    assert!(Keyword::Quit.help().ends_with("Aliases: `q`"));
    assert!(Keyword::Serial.help().contains("\"Hello, world!\""));
}
