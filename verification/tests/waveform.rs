use amberol_core::waveform_generator::{
    bus_reply, BusMessage, PeaksAction, PipelineState, WaveformGenerator,
};
use amberol_core::waveform_view::{measure, waveform_bars, BarSpan, Orientation};

#[test]
fn new_generator_has_no_peaks() {
    let g: WaveformGenerator<(f64, f64)> = WaveformGenerator::new();
    assert!(!g.has_peaks());
    assert!(g.peaks().is_none());
}

#[test]
fn generation_starts_with_empty_peaks_and_reads_the_uri() {
    let mut g: WaveformGenerator<f64> = WaveformGenerator::new();
    g.set_uri(Some("file:///song.ogg".to_string()));
    assert_eq!(g.generate_peaks(), Some("file:///song.ogg".to_string()));
    assert!(g.has_peaks());
    assert_eq!(g.peaks(), Some(vec![]));
}

#[test]
fn peaks_are_gathered_in_order() {
    let mut g: WaveformGenerator<f64> = WaveformGenerator::new();
    g.generate_peaks();
    assert!(g.receive(PeaksAction::Peak(0.5, 0.25)));
    assert!(g.receive(PeaksAction::Peak(1.0, 0.75)));
    assert!(g.receive(PeaksAction::Peak(0.0, 0.1)));
    assert_eq!(g.peaks(), Some(vec![(0.5, 0.25), (1.0, 0.75), (0.0, 0.1)]));
}

#[test]
fn end_of_stream_stops_and_keeps_peaks() {
    let mut g: WaveformGenerator<f64> = WaveformGenerator::new();
    g.generate_peaks();
    g.receive(PeaksAction::Peak(0.5, 0.5));
    assert!(!g.receive(PeaksAction::Eos));
    assert_eq!(g.peaks(), Some(vec![(0.5, 0.5)]));
}

#[test]
fn peaks_before_generation_are_dropped() {
    let mut g: WaveformGenerator<f64> = WaveformGenerator::new();
    assert!(g.receive(PeaksAction::Peak(0.5, 0.5)));
    assert!(g.peaks().is_none());
}

#[test]
fn regeneration_resets_peaks_and_keeps_uri() {
    let mut g: WaveformGenerator<f64> = WaveformGenerator::new();
    g.set_uri(Some("a".to_string()));
    g.generate_peaks();
    g.receive(PeaksAction::Peak(0.5, 0.5));
    g.set_uri(None);
    assert_eq!(g.peaks(), Some(vec![(0.5, 0.5)]));
    assert_eq!(g.generate_peaks(), None);
    assert_eq!(g.peaks(), Some(vec![]));
}

#[test]
fn bus_end_of_stream_stops_pipeline() {
    let r = bus_reply::<f64>(true, BusMessage::Eos);
    assert_eq!(r.set_state, Some(PipelineState::Null));
    assert!(matches!(r.send, Some(PeaksAction::Eos)));
    assert!(!r.keep_watching);
}

#[test]
fn bus_error_readies_pipeline_and_ends_stream() {
    let r = bus_reply::<f64>(true, BusMessage::Error);
    assert_eq!(r.set_state, Some(PipelineState::Ready));
    assert!(matches!(r.send, Some(PeaksAction::Eos)));
    assert!(!r.keep_watching);
}

#[test]
fn bus_level_sends_peaks() {
    let r = bus_reply(true, BusMessage::Level(0.5f64, 0.25f64));
    assert_eq!(r.set_state, None);
    assert!(matches!(r.send, Some(PeaksAction::Peak(l, rr)) if l == 0.5 && rr == 0.25));
    assert!(r.keep_watching);
}

#[test]
fn bus_other_messages_are_passed_over() {
    let r = bus_reply::<f64>(true, BusMessage::Other);
    assert_eq!(r.set_state, None);
    assert!(r.send.is_none());
    assert!(r.keep_watching);
}

#[test]
fn bus_watch_stops_once_pipeline_is_gone() {
    let r = bus_reply::<f64>(false, BusMessage::Level(0.5, 0.5));
    assert_eq!(r.set_state, None);
    assert!(r.send.is_none());
    assert!(!r.keep_watching);
}

#[test]
fn measure_is_48_pixels_high() {
    assert_eq!(measure(Orientation::Horizontal), (0, 0, -1, -1));
    assert_eq!(measure(Orientation::Vertical), (48, 48, -1, -1));
    assert_eq!(measure(Orientation::Unknown), (0, 0, -1, -1));
}

#[test]
fn nothing_is_drawn_without_peaks_or_area() {
    assert!(waveform_bars(0, 100, 48).is_empty());
    assert!(waveform_bars(10, 0, 48).is_empty());
    assert!(waveform_bars(10, 100, 0).is_empty());
}

#[test]
fn peaks_are_grouped_per_two_pixels() {
    // 10 peaks over 4 pixels: ceil(10 / 2) = 5 peaks per bar
    assert_eq!(
        waveform_bars(10, 4, 48),
        vec![
            BarSpan { start: 0, end: 5, offset: 2 },
            BarSpan { start: 5, end: 10, offset: 4 },
        ]
    );
    // 7 peaks over 5 pixels: ceil(14 / 5) = 3 per bar, last bar partial
    assert_eq!(
        waveform_bars(7, 5, 48),
        vec![
            BarSpan { start: 0, end: 3, offset: 2 },
            BarSpan { start: 3, end: 6, offset: 4 },
            BarSpan { start: 6, end: 7, offset: 6 },
        ]
    );
}

#[test]
fn few_peaks_get_one_bar_each() {
    let bars = waveform_bars(3, 100, 48);
    assert_eq!(bars.len(), 3);
    for (k, b) in bars.iter().enumerate() {
        assert_eq!((b.start, b.end, b.offset), (k, k + 1, 2 * (k as u32 + 1)));
    }
}

#[test]
fn bars_fit_the_width_and_cover_every_peak() {
    for n in [1usize, 2, 3, 7, 100, 1000, 4801] {
        for w in [1i32, 2, 3, 5, 64, 333, 1920] {
            let bars = waveform_bars(n, w, 48);
            assert!(2 * bars.len() as i64 <= w as i64 + 1);
            let mut next = 0;
            for b in &bars {
                assert_eq!(b.start, next);
                assert!(b.end > b.start);
                next = b.end;
            }
            assert_eq!(next, n);
        }
    }
}

#[test]
fn one_pixel_wide_waveform_has_one_bar() {
    assert_eq!(waveform_bars(50, 1, 48), vec![BarSpan { start: 0, end: 50, offset: 2 }]);
}

#[test]
fn a_bus_run_gathers_its_levels_in_order() {
    let mut g: WaveformGenerator<f64> = WaveformGenerator::new();
    g.generate_peaks();
    let run = vec![
        BusMessage::Level(0.1, 0.2),
        BusMessage::Other,
        BusMessage::Level(0.3, 0.4),
        BusMessage::Eos,
        BusMessage::Level(0.9, 0.9),
    ];
    for message in run {
        let reply = bus_reply(true, message);
        if let Some(action) = reply.send {
            if !g.receive(action) {
                break;
            }
        }
        if !reply.keep_watching {
            break;
        }
    }
    assert_eq!(g.peaks(), Some(vec![(0.1, 0.2), (0.3, 0.4)]));
}
