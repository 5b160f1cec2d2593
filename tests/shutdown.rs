use steel_tui::shutdown::{ShutdownSequence, ShutdownStep};

#[test]
fn drain_runs_in_fixed_order_once() {
    let mut s = ShutdownSequence::new(2);
    let mut steps = Vec::new();
    loop {
        let step = s.next_step();
        if step == ShutdownStep::Done {
            break;
        }
        steps.push(step);
    }
    assert_eq!(
        steps,
        vec![
            ShutdownStep::DrainScheduled,
            ShutdownStep::DrainWorld(0),
            ShutdownStep::DrainWorld(1),
            ShutdownStep::SaveWorld(0),
            ShutdownStep::SaveWorld(1),
            ShutdownStep::SavePlayers,
            ShutdownStep::Notice,
        ]
    );
    assert_eq!(s.next_step(), ShutdownStep::Done);
}

#[test]
fn no_worlds_still_saves_players() {
    let mut s = ShutdownSequence::new(0);
    assert_eq!(s.next_step(), ShutdownStep::DrainScheduled);
    assert_eq!(s.next_step(), ShutdownStep::SavePlayers);
    assert_eq!(s.next_step(), ShutdownStep::Notice);
    assert_eq!(s.next_step(), ShutdownStep::Done);
}

#[test]
fn saved_total_accumulates_and_saturates() {
    let mut s = ShutdownSequence::new(1);
    s.record_saved(3);
    s.record_saved(4);
    assert_eq!(s.saved_total(), 7);
    s.record_saved(u64::MAX);
    assert_eq!(s.saved_total(), u64::MAX);
}
