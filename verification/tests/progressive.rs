use render_baby::progressive::{div_ceil, workgroups, PassIterator, PassStep, ProgressiveRenderHelper, SAMPLES_PER_PASS};

#[test]
fn helper_new_one_pass_per_sample() {
    let h = ProgressiveRenderHelper::new(500);
    assert_eq!(h.total_passes, 500);
    assert_eq!(h.current_pass, 0);
    assert_eq!(h.total_samples, 500);
    assert_eq!(h.samples_per_pass, SAMPLES_PER_PASS);
}

#[test]
fn helper_update_recomputes_passes() {
    let mut h = ProgressiveRenderHelper { total_passes: 1, current_pass: 3, total_samples: 1, samples_per_pass: 4 };
    let r = h.update(10);
    assert_eq!(h.total_passes, 3);
    assert_eq!(h.total_samples, 10);
    assert_eq!(h.current_pass, 3);
    assert_eq!(r, h);
}

#[test]
fn div_ceil_rounds_up() {
    assert_eq!(div_ceil(0, 16), 0);
    assert_eq!(div_ceil(16, 16), 1);
    assert_eq!(div_ceil(17, 16), 2);
    assert_eq!(div_ceil(u32::MAX, 1), u32::MAX);
    assert_eq!(div_ceil(u32::MAX, 2), 2_147_483_648);
    assert_eq!(workgroups(400), 25);
    assert_eq!(workgroups(401), 26);
}

#[test]
fn pass_iterator_runs_each_pass_once() {
    let mut it = PassIterator::new(ProgressiveRenderHelper::new(3));
    assert_eq!(it.next_step(), PassStep::Run { clear_accumulation: true, pass: 0, total: 3 });
    it.complete_pass();
    assert_eq!(it.next_step(), PassStep::Run { clear_accumulation: false, pass: 1, total: 3 });
    it.complete_pass();
    assert_eq!(it.next_step(), PassStep::Run { clear_accumulation: false, pass: 2, total: 3 });
    it.complete_pass();
    assert_eq!(it.next_step(), PassStep::Exhausted);
    assert!(!it.helper.has_next());
}

#[test]
fn pass_iterator_restarts_at_zero() {
    let h = ProgressiveRenderHelper { total_passes: 2, current_pass: 2, total_samples: 2, samples_per_pass: 1 };
    let mut it = PassIterator::new(h);
    assert_eq!(it.helper.current_pass, 0);
    assert!(matches!(it.next_step(), PassStep::Run { pass: 0, .. }));
}
