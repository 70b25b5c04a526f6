use led_roulette::notes::{
    di_hi, di_lo, peppa, silent, Note, Notes, B1, C1, C2, D1, E1, F1, G0, G1, MAX_DUTY,
    SAMPLE_FREQ, SI,
};
use led_roulette::sound::{AudioState, Pwm, Pwm0, Sound, SpeakerPin, Track};

fn disconnected() -> AudioState {
    AudioState::new(Pwm0 {}, SpeakerPin { pin: 0 })
}

fn idle() -> AudioState {
    disconnected().connect()
}

fn playing(notes: Notes) -> AudioState {
    idle().set_track(notes)
}

fn g1_only() -> Notes {
    &[(&G1, 500)]
}

fn two_notes() -> Notes {
    &[(&E1, 250), (&SI, 500)]
}

fn empty() -> Notes {
    &[]
}

fn idle_pwm() -> Pwm {
    Pwm {
        output: Some(SpeakerPin { pin: 0 }),
        enabled: true,
        interrupt: true,
        max_duty: 256,
        running: false,
        loop_times: 0,
        seq_end_delay: 0,
        samples: None,
        split: 0,
    }
}

#[test]
fn constants() {
    assert_eq!(MAX_DUTY, 256);
    assert_eq!(SAMPLE_FREQ, 62500);
    assert_eq!(
        [B1.len(), C1.len(), C2.len(), D1.len(), E1.len(), F1.len(), G0.len(), G1.len(), SI.len()],
        [127, 119, 60, 106, 95, 89, 159, 80, 2]
    );
    assert_eq!(B1[0], 0x40);
    assert_eq!(B1[126], 0x3c);
    assert_eq!(G1[20], 0x80);
    assert_eq!(SI, [0, 0]);
}

#[test]
fn tracks() {
    let c1: &[u16] = &C1;
    let c2: &[u16] = &C2;
    assert_eq!(di_lo(), &[(c1, 500u16)]);
    assert_eq!(di_hi(), &[(c2, 800u16)]);
    let tune = peppa();
    let expected: [(&[u16], u16); 12] = [
        (&G1, 500),
        (&E1, 250),
        (&C1, 250),
        (&D1, 500),
        (&G0, 500),
        (&SI, 500),
        (&G0, 250),
        (&B1, 250),
        (&D1, 250),
        (&F1, 250),
        (&E1, 500),
        (&C1, 500),
    ];
    assert_eq!(tune, &expected);
}

#[test]
fn only_the_silent_waveform_is_silent() {
    assert!(silent(&SI));
    assert!(silent(&[0, 0]));
    assert!(!silent(&[0]));
    assert!(!silent(&[0, 0, 0]));
    assert!(!silent(&[0, 1]));
    assert!(!silent(&[1, 0]));
    assert!(!silent(&G1));
    assert!(!silent(&[]));
}

#[test]
fn repeat_count_formula() {
    assert_eq!(AudioState::loops(500, 80), 390);
    assert_eq!(AudioState::loops(500, 80) as u32, 500 * 62500 / 1000 / 80);
    assert_eq!(AudioState::loops(500, 119), 262);
    assert_eq!(AudioState::loops(800, 60), 833);
    assert_eq!(AudioState::loops(250, 159), 98);
    assert_eq!(AudioState::loops(500, 2), 15625);
}

#[test]
fn repeat_count_is_at_least_one() {
    assert_eq!(AudioState::loops(0, 80), 1);
    assert_eq!(AudioState::loops(1, 80), 1);
    assert_eq!(AudioState::loops(1, 62), 1);
    assert_eq!(AudioState::loops(1, 63), 1);
    assert_eq!(AudioState::loops(2, 62), 2);
    assert_eq!(AudioState::loops(500, 31250), 1);
    assert_eq!(AudioState::loops(500, 31251), 1);
}

#[test]
fn repeat_count_keeps_sixteen_bits() {
    assert_eq!(AudioState::loops(1048, 1), 65500);
    assert_eq!(AudioState::loops(1049, 1), 26);
    assert_eq!(AudioState::loops(65535, 1), 32705);
}

#[test]
fn track_hands_out_each_entry_once_in_order_then_nothing() {
    let notes = peppa();
    let mut track = Track::new(notes);
    assert_eq!(track.position, 0);
    for (i, note) in notes.iter().enumerate() {
        assert_eq!(track.position, i);
        assert_eq!(track.next_note(), Some(*note));
    }
    for _ in 0..5 {
        assert_eq!(track.position, notes.len());
        assert_eq!(track.next_note(), None);
    }
}

#[test]
fn empty_track_is_exhausted_from_the_start() {
    let mut track = Track::new(empty());
    assert_eq!(track.next_note(), None);
    assert_eq!(track.next_note(), None);
    assert_eq!(track.position, 0);
}

#[test]
fn new_state_is_disconnected_with_generator_at_rest() {
    let state = disconnected();
    assert_eq!(
        state,
        AudioState::Disconnected {
            pwm: Pwm {
                output: None,
                enabled: false,
                interrupt: false,
                max_duty: 0,
                running: false,
                loop_times: 0,
                seq_end_delay: 0,
                samples: None,
                split: 0,
            },
            speaker: SpeakerPin { pin: 0 },
        }
    );
    assert_eq!(*state.pwm(), Pwm::new(Pwm0 {}));
}

#[test]
fn transition_table() {
    assert_eq!(disconnected().connect(), AudioState::Idle { pwm: idle_pwm() });
    assert_eq!(
        idle().set_track(g1_only()),
        AudioState::Playing { pwm: idle_pwm(), track: Track { notes: g1_only(), position: 0 } }
    );
    let (sounding, done) = playing(g1_only()).play_next_note();
    assert!(!done);
    assert!(sounding.pwm().running);
    let samples: &'static [u16] = &G1;
    assert_eq!(
        sounding.stop(),
        AudioState::Idle {
            pwm: Pwm {
                loop_times: 390,
                samples: Some(samples),
                split: 40,
                running: false,
                ..idle_pwm()
            }
        }
    );
    assert_eq!(
        idle().disconnect(),
        AudioState::Disconnected {
            pwm: Pwm { output: None, enabled: false, ..idle_pwm() },
            speaker: SpeakerPin { pin: 0 },
        }
    );
}

#[test]
fn disconnect_hands_back_the_same_pin() {
    let state = AudioState::new(Pwm0 {}, SpeakerPin { pin: 27 }).connect();
    assert_eq!(state.pwm().output, Some(SpeakerPin { pin: 27 }));
    match state.disconnect() {
        AudioState::Disconnected { pwm, speaker } => {
            assert_eq!(speaker, SpeakerPin { pin: 27 });
            assert_eq!(pwm.output, None);
        }
        other => panic!("not disconnected: {:?}", other),
    }
}

#[test]
fn connect_is_a_no_op_unless_disconnected() {
    assert_eq!(idle().connect(), idle());
    assert_eq!(playing(g1_only()).connect(), playing(g1_only()));
}

#[test]
fn set_track_is_a_no_op_unless_idle() {
    assert_eq!(disconnected().set_track(g1_only()), disconnected());
    assert_eq!(playing(two_notes()).set_track(g1_only()), playing(two_notes()));
}

#[test]
fn stop_is_a_no_op_unless_playing() {
    assert_eq!(disconnected().stop(), disconnected());
    assert_eq!(idle().stop(), idle());
}

#[test]
fn disconnect_is_a_no_op_unless_idle() {
    assert_eq!(disconnected().disconnect(), disconnected());
    assert_eq!(playing(g1_only()).disconnect(), playing(g1_only()));
}

#[test]
fn play_next_note_is_a_no_op_unless_playing() {
    assert_eq!(disconnected().play_next_note(), (disconnected(), false));
    assert_eq!(idle().play_next_note(), (idle(), false));
}

#[test]
fn play_next_note_programs_the_entry_under_the_cursor() {
    let (state, done) = playing(two_notes()).play_next_note();
    assert!(!done);
    let e1: &'static [u16] = &E1;
    assert_eq!(
        state,
        AudioState::Playing {
            pwm: Pwm {
                loop_times: 164,
                seq_end_delay: 0,
                samples: Some(e1),
                split: 47,
                running: true,
                ..idle_pwm()
            },
            track: Track { notes: two_notes(), position: 1 },
        }
    );
}

#[test]
fn silent_note_becomes_a_delay() {
    let (state, _) = playing(two_notes()).play_next_note();
    let (state, done) = state.play_next_note();
    assert!(!done);
    let si: &'static [u16] = &SI;
    assert_eq!(
        state,
        AudioState::Playing {
            pwm: Pwm {
                loop_times: 1,
                seq_end_delay: 15625,
                samples: Some(si),
                split: 1,
                running: true,
                ..idle_pwm()
            },
            track: Track { notes: two_notes(), position: 2 },
        }
    );
}

#[test]
fn play_next_note_on_an_exhausted_track_reports_done_and_changes_nothing() {
    let (state, _) = playing(g1_only()).play_next_note();
    let (before, _) = playing(g1_only()).play_next_note();
    let (state, done) = state.play_next_note();
    assert!(done);
    assert_eq!(state, before);
    let (state, done) = state.play_next_note();
    assert!(done);
    assert_eq!(state, before);
}

#[test]
fn play_note_programs_loop_delay_and_samples() {
    let note: Note = (&C2, 800);
    let pwm = AudioState::play_note(idle_pwm(), note);
    let c2: &'static [u16] = &C2;
    assert_eq!(
        pwm,
        Pwm {
            loop_times: 833,
            seq_end_delay: 0,
            samples: Some(c2),
            split: 30,
            running: true,
            ..idle_pwm()
        }
    );
    let odd: Note = (&[1, 2, 3], 1);
    let pwm = AudioState::play_note(pwm, odd);
    assert_eq!(pwm.loop_times, 20);
    assert_eq!(pwm.split, 1);
}

#[test]
fn enable_wires_the_pin_and_switches_on() {
    let pwm = AudioState::enable(Pwm::new(Pwm0 {}), SpeakerPin { pin: 0 });
    assert_eq!(pwm, idle_pwm());
    let mut left_over = Pwm::new(Pwm0 {});
    left_over.seq_end_delay = 77;
    left_over.loop_times = 5;
    let pwm = AudioState::enable(left_over, SpeakerPin { pin: 0 });
    assert_eq!(pwm, Pwm { loop_times: 5, ..idle_pwm() });
}

#[test]
fn play_track_from_disconnected_programs_the_first_note() {
    let mut sound = Sound::new(Pwm0 {}, SpeakerPin { pin: 0 });
    assert_eq!(*sound.state(), disconnected());
    sound.play_track(g1_only());
    let repeat = std::cmp::max(1, 500 * 62500 / 1000 / G1.len()) as u16;
    assert_eq!(repeat, 390);
    let g1: &'static [u16] = &G1;
    assert_eq!(
        *sound.state(),
        AudioState::Playing {
            pwm: Pwm {
                loop_times: repeat,
                seq_end_delay: 0,
                samples: Some(g1),
                split: 40,
                running: true,
                ..idle_pwm()
            },
            track: Track { notes: g1_only(), position: 1 },
        }
    );
}

#[test]
fn play_track_while_playing_replaces_the_track() {
    let mut sound = Sound::new(Pwm0 {}, SpeakerPin { pin: 0 });
    sound.play_track(peppa());
    sound.handle_interrupt();
    sound.play_track(di_hi());
    let c2: &'static [u16] = &C2;
    assert_eq!(
        *sound.state(),
        AudioState::Playing {
            pwm: Pwm {
                loop_times: 833,
                seq_end_delay: 0,
                samples: Some(c2),
                split: 30,
                running: true,
                ..idle_pwm()
            },
            track: Track { notes: di_hi(), position: 1 },
        }
    );
}

#[test]
fn play_track_with_no_notes_leaves_the_generator_halted() {
    let mut sound = Sound::new(Pwm0 {}, SpeakerPin { pin: 0 });
    sound.play_track(empty());
    assert_eq!(
        *sound.state(),
        AudioState::Playing { pwm: idle_pwm(), track: Track { notes: empty(), position: 0 } }
    );
    sound.handle_interrupt();
    assert!(matches!(sound.state(), AudioState::Disconnected { .. }));
}

#[test]
fn interrupt_on_the_last_note_winds_down_to_disconnected() {
    let mut sound = Sound::new(Pwm0 {}, SpeakerPin { pin: 9 });
    sound.play_track(g1_only());
    sound.handle_interrupt();
    match sound.state() {
        AudioState::Disconnected { pwm, speaker } => {
            assert!(!pwm.running);
            assert!(!pwm.enabled);
            assert_eq!(pwm.output, None);
            assert_eq!(*speaker, SpeakerPin { pin: 9 });
        }
        other => panic!("not disconnected: {:?}", other),
    }
    let before = format!("{:?}", sound.state());
    sound.handle_interrupt();
    assert_eq!(format!("{:?}", sound.state()), before);
}

#[test]
fn interrupt_before_the_last_note_arms_it_and_the_next_winds_down() {
    let mut sound = Sound::new(Pwm0 {}, SpeakerPin { pin: 0 });
    sound.play_track(two_notes());
    sound.handle_interrupt();
    match sound.state() {
        AudioState::Playing { pwm, track } => {
            assert!(pwm.running);
            assert_eq!(pwm.loop_times, 1);
            assert_eq!(pwm.seq_end_delay, 15625);
            assert_eq!(track.position, 2);
        }
        other => panic!("not playing: {:?}", other),
    }
    sound.handle_interrupt();
    assert!(matches!(sound.state(), AudioState::Disconnected { .. }));
    assert!(!sound.state().pwm().running);
}

#[test]
fn interrupt_while_idle_disconnects() {
    // an idle machine is only seen between the transitions of one call, so
    // this goes through the state machine itself
    let state = idle().disconnect();
    assert!(matches!(state, AudioState::Disconnected { .. }));
}

#[test]
fn whole_tune_plays_note_by_note() {
    let mut sound = Sound::new(Pwm0 {}, SpeakerPin { pin: 0 });
    let tune = peppa();
    sound.play_track(tune);
    for (i, (samples, t_ms)) in tune.iter().enumerate() {
        match sound.state() {
            AudioState::Playing { pwm, track } => {
                assert_eq!(track.position, i + 1);
                assert_eq!(pwm.samples, Some(*samples));
                assert!(pwm.running);
                let repeat = AudioState::loops(*t_ms, samples.len());
                if i == 5 {
                    assert_eq!((pwm.loop_times, pwm.seq_end_delay), (1, repeat as u32));
                } else {
                    assert_eq!((pwm.loop_times, pwm.seq_end_delay), (repeat, 0));
                }
            }
            other => panic!("not playing: {:?}", other),
        }
        sound.handle_interrupt();
    }
    assert!(matches!(sound.state(), AudioState::Disconnected { .. }));
}
