use com_croftsoft_lib_animation::frame_rater::simple::SimpleFrameRater;
use com_croftsoft_lib_animation::frame_rater::updater::ControlSnapshot;
use com_croftsoft_lib_animation::frame_rater::updater::FrameRaterUpdater;
use com_croftsoft_lib_animation::frame_rater::updater::FrameRaterUpdaterInputs;
use com_croftsoft_lib_animation::frame_rater::FrameRate;
use com_croftsoft_lib_animation::frame_rater::FrameRater;

const ZERO: FrameRate = FrameRate { frames: 0, span_millis: 1 };

fn quiet(update_time_millis: i64) -> ControlSnapshot {
    ControlSnapshot {
        frame_rate_display_change_requested: None,
        reset_requested: false,
        time_to_update: false,
        update_period_millis_changed: None,
        update_time_millis,
    }
}

fn due(update_time_millis: i64) -> ControlSnapshot {
    ControlSnapshot { time_to_update: true, ..quiet(update_time_millis) }
}

struct Panel {
    show: Option<bool>,
    now: i64,
}

impl FrameRaterUpdaterInputs for Panel {
    fn get_frame_rate_display_change_requested(&self) -> Option<bool> {
        self.show
    }

    fn get_reset_requested(&self) -> bool {
        false
    }

    fn get_time_to_update(&self) -> bool {
        true
    }

    fn get_update_period_millis_changed(&self) -> Option<i64> {
        None
    }

    fn get_update_time_millis(&self) -> i64 {
        self.now
    }
}

#[test]
fn reset_suppresses_the_sample_of_its_cycle() {
    let mut rater = SimpleFrameRater::new(20);
    let mut updater = FrameRaterUpdater::new(true);
    updater.update_from(&mut rater, &due(0));
    updater.update_from(&mut rater, &due(20));
    assert_eq!(rater.get_frames_per_second_sampled(), FrameRate { frames: 1, span_millis: 20 });
    let reset = ControlSnapshot { reset_requested: true, ..due(40) };
    updater.update_from(&mut rater, &reset);
    assert_eq!(rater.get_frames_per_second_sampled(), ZERO);
    assert_eq!(rater.sample_count(), 0);
    assert!(updater.frame_rate_display());
}

#[test]
fn switching_the_display_on_clears_before_sampling() {
    let mut rater = SimpleFrameRater::new(20);
    rater.sample(0);
    rater.sample(20);
    assert_eq!(rater.get_frames_per_second_sampled(), FrameRate { frames: 1, span_millis: 20 });
    let mut updater = FrameRaterUpdater::new(false);
    let on = ControlSnapshot { frame_rate_display_change_requested: Some(true), ..due(40) };
    updater.update_from(&mut rater, &on);
    assert!(updater.frame_rate_display());
    assert_eq!(rater.get_frames_per_second_sampled(), ZERO);
    assert_eq!(rater.sample_count(), 1);
    assert_eq!(rater.sample_time(0), Some(40));
}

#[test]
fn switching_the_display_off_keeps_the_window_and_stops_sampling() {
    let mut rater = SimpleFrameRater::new(20);
    let mut updater = FrameRaterUpdater::new(true);
    updater.update_from(&mut rater, &due(0));
    updater.update_from(&mut rater, &due(20));
    let off = ControlSnapshot { frame_rate_display_change_requested: Some(false), ..due(40) };
    updater.update_from(&mut rater, &off);
    assert!(!updater.frame_rate_display());
    assert_eq!(rater.sample_count(), 2);
    assert_eq!(rater.get_frames_per_second_sampled(), FrameRate { frames: 1, span_millis: 20 });
    updater.update_from(&mut rater, &due(60));
    assert_eq!(rater.sample_count(), 2);
}

#[test]
fn a_period_change_applies_while_the_display_is_off() {
    let mut rater = SimpleFrameRater::new(20);
    rater.sample(0);
    let mut updater = FrameRaterUpdater::new(false);
    let change = ControlSnapshot { update_period_millis_changed: Some(250), ..due(10) };
    updater.update_from(&mut rater, &change);
    assert_eq!(rater.frame_sample_size_target(), 4);
    assert_eq!(rater.sample_count(), 0);
}

#[test]
fn a_period_change_comes_before_the_sample() {
    let mut rater = SimpleFrameRater::new(20);
    let mut updater = FrameRaterUpdater::new(true);
    updater.update_from(&mut rater, &due(0));
    let change = ControlSnapshot { update_period_millis_changed: Some(-1), ..due(10) };
    updater.update_from(&mut rater, &change);
    assert_eq!(rater.frame_sample_size_target(), 1_000);
    assert_eq!(rater.sample_count(), 1);
    assert_eq!(rater.sample_time(0), Some(10));
    assert_eq!(rater.get_frames_per_second_sampled(), ZERO);
}

#[test]
fn a_reset_keeps_the_configuration_of_its_cycle() {
    let mut rater = SimpleFrameRater::new(20);
    let mut updater = FrameRaterUpdater::new(false);
    let all = ControlSnapshot {
        frame_rate_display_change_requested: Some(true),
        reset_requested: true,
        time_to_update: true,
        update_period_millis_changed: Some(100),
        update_time_millis: 5,
    };
    updater.update_from(&mut rater, &all);
    assert!(updater.frame_rate_display());
    assert_eq!(rater.frame_sample_size_target(), 10);
    assert_eq!(rater.sample_count(), 0);
    assert_eq!(rater.get_frames_per_second_sampled(), ZERO);
}

#[test]
fn nothing_is_sampled_unless_an_update_is_due() {
    let mut rater = SimpleFrameRater::new(20);
    let mut updater = FrameRaterUpdater::new(true);
    updater.update_from(&mut rater, &quiet(0));
    assert_eq!(rater.sample_count(), 0);
    updater.update_from(&mut rater, &due(1));
    assert_eq!(rater.sample_count(), 1);
}

#[test]
fn signals_are_read_through_the_inputs_of_the_caller() {
    let mut rater = SimpleFrameRater::new(20);
    let mut updater = FrameRaterUpdater::new(false);
    updater.update(&mut rater, &Panel { show: None, now: 0 });
    assert_eq!(rater.sample_count(), 0);
    updater.update(&mut rater, &Panel { show: Some(true), now: 20 });
    updater.update(&mut rater, &Panel { show: None, now: 45 });
    assert!(updater.frame_rate_display());
    assert_eq!(rater.sample_count(), 2);
    assert_eq!(rater.get_frames_per_second_sampled(), FrameRate { frames: 1, span_millis: 25 });
}

#[test]
fn a_snapshot_answers_with_its_own_fields() {
    let s = ControlSnapshot {
        frame_rate_display_change_requested: Some(false),
        reset_requested: true,
        time_to_update: false,
        update_period_millis_changed: Some(33),
        update_time_millis: 99,
    };
    assert_eq!(s.get_frame_rate_display_change_requested(), Some(false));
    assert!(s.get_reset_requested());
    assert!(!s.get_time_to_update());
    assert_eq!(s.get_update_period_millis_changed(), Some(33));
    assert_eq!(s.get_update_time_millis(), 99);
}

#[test]
fn update_on_a_snapshot_is_update_from() {
    let mut rater = SimpleFrameRater::new(20);
    let mut updater = FrameRaterUpdater::new(true);
    updater.update(&mut rater, &due(0));
    updater.update(&mut rater, &due(50));
    assert_eq!(rater.get_frames_per_second_sampled(), FrameRate { frames: 1, span_millis: 50 });
    updater.update(&mut rater, &ControlSnapshot { reset_requested: true, ..due(70) });
    assert_eq!(rater.get_frames_per_second_sampled(), ZERO);
    assert_eq!(rater.sample_count(), 0);
}
