use chess_link::render::{Perspective, Side};
use chess_link::session::{Action, Mode, Session, Source};

fn apply(a: Action) -> String {
    match a {
        Action::Apply(t) => t,
        other => panic!("expected a move, got {:?}", other),
    }
}

#[test]
fn local_game_two_moves_then_quit() {
    let mut s = Session::new(Mode::Local);
    assert_eq!(s.perspective(), Perspective::WhiteBottom);
    let t = apply(s.on_line("e2e4\n"));
    assert_eq!(t, "e2e4");
    assert_eq!(s.record_move(Source::Keyboard, &t, Ok(())), None);
    assert_eq!(s.to_move, Side::Black);
    let t = apply(s.on_line("e7e5\n"));
    assert_eq!(t, "e7e5");
    assert_eq!(s.record_move(Source::Keyboard, &t, Ok(())), None);
    assert_eq!(s.to_move, Side::White);
    assert_eq!(s.pending, None);
    assert_eq!(s.on_line("q\n"), Action::Stop);
}

#[test]
fn local_commands_become_actions() {
    let s = Session::new(Mode::Local);
    assert_eq!(s.on_line("quit"), Action::Stop);
    assert_eq!(s.on_line("exit"), Action::Stop);
    assert_eq!(s.on_line("save"), Action::Save("game.txt".to_string()));
    assert_eq!(s.on_line("load a.txt"), Action::Load("a.txt".to_string()));
    assert_eq!(s.on_line("   "), Action::Redraw);
}

#[test]
fn host_move_reaches_remote() {
    let mut host = Session::new(Mode::Host);
    let mut remote = Session::new(Mode::Remote);
    assert_eq!(host.source(), Source::Keyboard);
    assert_eq!(remote.source(), Source::Wire);
    assert_eq!(host.perspective(), Perspective::WhiteBottom);
    assert_eq!(remote.perspective(), Perspective::BlackBottom);

    let t = apply(host.on_line("e2e4\n"));
    let sent = host.record_move(Source::Keyboard, &t, Ok(()));
    assert_eq!(sent, Some("e2e4".to_string()));

    let mut frame = [0u8; 4];
    frame.copy_from_slice(sent.unwrap().as_bytes());
    let t = apply(remote.on_frame(&frame));
    assert_eq!(t, "e2e4");
    assert_eq!(remote.record_move(Source::Wire, &t, Ok(())), None);
    assert_eq!(remote.to_move, Side::Black);
    assert_eq!(remote.source(), Source::Keyboard);
    assert_eq!(host.source(), Source::Wire);
}

#[test]
fn out_of_range_frame_is_rejected() {
    let mut host = Session::new(Mode::Host);
    let t = apply(host.on_line("e2e4"));
    host.record_move(Source::Keyboard, &t, Ok(()));
    assert_eq!(host.source(), Source::Wire);

    let t = apply(host.on_frame(b"z9z9"));
    assert_eq!(t, "z9z9");
    let sent = host.record_move(Source::Wire, &t, Err("invalid square z9".to_string()));
    assert_eq!(sent, None);
    assert_eq!(host.pending, Some("invalid square z9".to_string()));
    assert_eq!(host.to_move, Side::Black);
    assert_eq!(host.source(), Source::Wire);
}

#[test]
fn rejected_move_then_correction() {
    let mut s = Session::new(Mode::Local);
    s.record_move(Source::Keyboard, "e2e5", Err("illegal move e2e5".to_string()));
    assert_eq!(s.to_move, Side::White);
    assert_eq!(s.pending, Some("illegal move e2e5".to_string()));
    s.record_move(Source::Keyboard, "e2e4", Ok(()));
    assert_eq!(s.pending, None);
    assert_eq!(s.to_move, Side::Black);
}

#[test]
fn empty_engine_message_still_leaves_an_error() {
    let mut s = Session::new(Mode::Remote);
    s.record_move(Source::Wire, "", Err(String::new()));
    assert_eq!(s.pending, Some("move rejected".to_string()));
    assert_eq!(s.to_move, Side::White);
}

#[test]
fn rejected_local_move_is_not_forwarded() {
    let mut host = Session::new(Mode::Host);
    let sent = host.record_move(Source::Keyboard, "e2e5", Err("illegal".to_string()));
    assert_eq!(sent, None);
    assert_eq!(host.source(), Source::Keyboard);
}

#[test]
fn remote_forwards_its_own_moves() {
    let mut remote = Session::new(Mode::Remote);
    remote.record_move(Source::Wire, "e2e4", Ok(()));
    let t = apply(remote.on_line(" e7e5 \n"));
    assert_eq!(remote.record_move(Source::Keyboard, &t, Ok(())), Some("e7e5".to_string()));
    assert_eq!(remote.to_move, Side::White);
}

#[test]
fn peers_fed_the_same_verdicts_stay_in_step() {
    let verdicts: Vec<Result<(), String>> =
        vec![Ok(()), Err("no".to_string()), Ok(()), Ok(()), Err("bad".to_string())];
    let mut host = Session::new(Mode::Host);
    let mut remote = Session::new(Mode::Remote);
    for v in verdicts {
        let hs = host.source();
        let rs = remote.source();
        assert_ne!(hs, rs);
        host.record_move(hs, "e2e4", v.clone());
        remote.record_move(rs, "e2e4", v);
        assert_eq!(host.to_move, remote.to_move);
        assert_eq!(host.pending, remote.pending);
    }
    assert_eq!(host.to_move, Side::Black);
    assert_eq!(host.pending, Some("bad".to_string()));
}

#[test]
fn save_and_load_outcomes() {
    let mut s = Session::new(Mode::Local);
    s.record_save(Ok(()));
    assert_eq!(s, Session::new(Mode::Local));
    s.record_save(Err("disk full".to_string()));
    assert_eq!(s.pending, Some("disk full".to_string()));
    assert_eq!(s.to_move, Side::White);
    s.record_load(Ok(Side::Black));
    assert_eq!(s.to_move, Side::Black);
    assert_eq!(s.pending, Some("disk full".to_string()));
    s.record_load(Err("no such file".to_string()));
    assert_eq!(s.to_move, Side::Black);
    assert_eq!(s.pending, Some("no such file".to_string()));
}
