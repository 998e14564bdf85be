use pomo::engine::{Effect, Message, Pomo, PomoState, DEFAULT_LENGTH_MS};
use pomo::parse::length_ms_from_text;

fn set_minutes(p: &mut Pomo, text: &str) -> Effect {
    p.update(Message::PomoLengthChanged(String::from(text)), 0)
}

#[test]
fn new_timer_is_idle_with_two_minutes() {
    let p = Pomo::new();
    assert_eq!(p.length_ms(), 120_000);
    assert_eq!(p.remaining_ms(), 120_000);
    assert_eq!(p.state(), PomoState::Idle);
    assert_eq!(DEFAULT_LENGTH_MS, 120_000);
    assert!(!p.wants_ticks());
}

#[test]
fn two_minute_countdown_completes_and_resets() {
    let mut p = Pomo::new();
    assert_eq!(p.length_ms(), 120_000);
    assert_eq!(p.update(Message::TogglePressed, 1_000), Effect::Nothing);
    assert_eq!(p.state(), PomoState::Ticking { last_tick: 1_000 });
    assert_eq!(p.update(Message::Tick(61_000), 61_000), Effect::Nothing);
    assert_eq!(p.remaining_ms(), 60_000);
    assert!(p.wants_ticks());
    assert_eq!(p.update(Message::Tick(121_000), 121_000), Effect::Completed);
    assert_eq!(p.state(), PomoState::Idle);
    assert_eq!(p.remaining_ms(), 120_000);
    assert_eq!(p.update(Message::Tick(131_000), 131_000), Effect::Nothing);
    assert_eq!(p.remaining_ms(), 120_000);
}

#[test]
fn cancel_after_ten_seconds_restores_length() {
    let mut p = Pomo::new();
    set_minutes(&mut p, "1");
    assert_eq!(p.length_ms(), 60_000);
    p.update(Message::TogglePressed, 0);
    p.update(Message::Tick(10_000), 10_000);
    assert_eq!(p.remaining_ms(), 50_000);
    p.update(Message::TogglePressed, 10_000);
    assert_eq!(p.state(), PomoState::Idle);
    assert_eq!(p.remaining_ms(), 60_000);
}

#[test]
fn length_text_three_then_empty() {
    let mut p = Pomo::new();
    set_minutes(&mut p, "3");
    assert_eq!(p.length_ms(), 180_000);
    assert_eq!(p.remaining_ms(), 180_000);
    set_minutes(&mut p, "");
    assert_eq!(p.length_ms(), 180_000);
    assert_eq!(p.remaining_ms(), 180_000);
}

#[test]
fn length_text_abc_ignored_and_five_applied() {
    let mut p = Pomo::new();
    set_minutes(&mut p, "abc");
    assert_eq!(p.length_ms(), 120_000);
    assert_eq!(p.remaining_ms(), 120_000);
    set_minutes(&mut p, "5");
    assert_eq!(p.length_ms(), 300_000);
    assert_eq!(p.remaining_ms(), 300_000);
}

#[test]
fn length_text_forms() {
    assert_eq!(length_ms_from_text("5"), Some(300_000));
    assert_eq!(length_ms_from_text("+2"), Some(120_000));
    assert_eq!(length_ms_from_text("007"), Some(420_000));
    assert_eq!(length_ms_from_text("0"), Some(0));
    assert_eq!(length_ms_from_text(""), None);
    assert_eq!(length_ms_from_text("+"), None);
    assert_eq!(length_ms_from_text("-5"), None);
    assert_eq!(length_ms_from_text(" 5"), None);
    assert_eq!(length_ms_from_text("5m"), None);
    assert_eq!(length_ms_from_text("1_0"), None);
    assert_eq!(length_ms_from_text("18446744073709551616"), None);
    assert_eq!(length_ms_from_text("307445734561825"), Some(307_445_734_561_825 * 60_000));
    assert_eq!(length_ms_from_text("307445734561826"), None);
}

#[test]
fn cancel_while_idle_changes_nothing() {
    let mut p = Pomo::new();
    set_minutes(&mut p, "4");
    assert_eq!(p.update(Message::CancelPressed, 50), Effect::Nothing);
    assert_eq!(p.state(), PomoState::Idle);
    assert_eq!(p.length_ms(), 240_000);
    assert_eq!(p.remaining_ms(), 240_000);
}

#[test]
fn split_buttons_start_and_cancel() {
    let mut p = Pomo::new();
    p.update(Message::StartPressed, 100);
    assert_eq!(p.state(), PomoState::Ticking { last_tick: 100 });
    p.update(Message::StartPressed, 900);
    assert_eq!(p.state(), PomoState::Ticking { last_tick: 100 });
    p.update(Message::Tick(90_100), 90_100);
    assert_eq!(p.remaining_ms(), 30_000);
    p.update(Message::CancelPressed, 90_200);
    assert_eq!(p.state(), PomoState::Idle);
    assert_eq!(p.remaining_ms(), 120_000);
    p.update(Message::CancelPressed, 90_300);
    assert_eq!(p.state(), PomoState::Idle);
    assert_eq!(p.remaining_ms(), 120_000);
}

#[test]
fn ticks_strictly_decrease_then_one_completion() {
    let mut p = Pomo::new();
    set_minutes(&mut p, "1");
    p.update(Message::TogglePressed, 0);
    let mut last = p.remaining_ms();
    let mut completions = 0;
    let mut t: u64 = 0;
    while t < 70_000 {
        t += 10;
        let e = p.update(Message::Tick(t), t);
        if e == Effect::Completed {
            completions += 1;
        } else if p.wants_ticks() {
            assert!(p.remaining_ms() < last);
            last = p.remaining_ms();
        }
    }
    assert_eq!(completions, 1);
    assert_eq!(p.state(), PomoState::Idle);
    assert_eq!(p.remaining_ms(), 60_000);
}

#[test]
fn completes_below_one_second() {
    let mut p = Pomo::new();
    p.update(Message::TogglePressed, 0);
    assert_eq!(p.update(Message::Tick(119_000), 119_000), Effect::Nothing);
    assert_eq!(p.remaining_ms(), 1_000);
    assert_eq!(p.update(Message::Tick(119_001), 119_001), Effect::Completed);
    assert_eq!(p.remaining_ms(), 120_000);
}

#[test]
fn overshooting_tick_clamps_and_completes() {
    let mut p = Pomo::new();
    p.update(Message::TogglePressed, 0);
    assert_eq!(p.update(Message::Tick(500_000), 500_000), Effect::Completed);
    assert_eq!(p.state(), PomoState::Idle);
    assert_eq!(p.remaining_ms(), 120_000);
}

#[test]
fn earlier_tick_reading_counts_as_no_time() {
    let mut p = Pomo::new();
    p.update(Message::TogglePressed, 5_000);
    assert_eq!(p.update(Message::Tick(4_000), 4_000), Effect::Nothing);
    assert_eq!(p.remaining_ms(), 120_000);
    assert_eq!(p.state(), PomoState::Ticking { last_tick: 4_000 });
}

#[test]
fn idle_ignores_tick() {
    let mut p = Pomo::new();
    assert_eq!(p.update(Message::Tick(30_000), 30_000), Effect::Nothing);
    assert_eq!(p.state(), PomoState::Idle);
    assert_eq!(p.remaining_ms(), 120_000);
}

#[test]
fn length_change_while_ticking_clamps_remaining() {
    let mut p = Pomo::new();
    p.update(Message::TogglePressed, 0);
    p.update(Message::Tick(30_000), 30_000);
    assert_eq!(p.remaining_ms(), 90_000);
    set_minutes(&mut p, "1");
    assert_eq!(p.length_ms(), 60_000);
    assert_eq!(p.remaining_ms(), 60_000);
    assert!(p.wants_ticks());
    set_minutes(&mut p, "10");
    assert_eq!(p.length_ms(), 600_000);
    assert_eq!(p.remaining_ms(), 60_000);
}

#[test]
fn zero_length_completes_on_first_tick() {
    let mut p = Pomo::new();
    set_minutes(&mut p, "0");
    assert_eq!(p.remaining_ms(), 0);
    p.update(Message::TogglePressed, 0);
    assert_eq!(p.update(Message::Tick(0), 0), Effect::Completed);
    assert_eq!(p.remaining_ms(), 0);
    assert_eq!(p.state(), PomoState::Idle);
}

#[test]
fn clock_parts_and_label() {
    let mut p = Pomo::new();
    assert_eq!(p.clock_parts(), (2, 0));
    assert_eq!(p.toggle_label(), "Start");
    p.update(Message::TogglePressed, 0);
    assert_eq!(p.toggle_label(), "Cancel");
    p.update(Message::Tick(45_500), 45_500);
    assert_eq!(p.clock_parts(), (1, 14));
    set_minutes(&mut p, "75");
    p.update(Message::TogglePressed, 0);
    assert_eq!(p.clock_parts(), (15, 0));
}
