use dozer_tracing::sampler::Sampler;

#[test]
fn zero_percent_samples_no_root() {
    let s = Sampler::new(0);
    assert!(!s.should_sample_root(0));
    assert!(!s.should_sample_root(1));
    assert!(!s.should_sample_root(u64::MAX / 2));
    assert!(!s.should_sample_root(u64::MAX));
}

#[test]
fn hundred_percent_samples_every_root() {
    let s = Sampler::new(100);
    assert!(s.should_sample_root(0));
    assert!(s.should_sample_root(1));
    assert!(s.should_sample_root(u64::MAX / 2));
    assert!(s.should_sample_root(u64::MAX));
}

#[test]
fn observed_fraction_tracks_the_percentage() {
    let s = Sampler::new(25);
    let n: u64 = 10_000;
    let step = u64::MAX / n;
    let mut sampled: u64 = 0;
    for i in 0..n {
        if s.should_sample_root(i * step) {
            sampled += 1;
        }
    }
    // 25% of 10 000 evenly spread roots, within a small tolerance.
    assert!(sampled >= 2400, "sampled only {sampled} of {n}");
    assert!(sampled <= 2600, "sampled as many as {sampled} of {n}");
}

#[test]
fn child_spans_inherit_the_parent_decision() {
    let s = Sampler::new(0);
    // Even a zero-percent sampler keeps recording inside a sampled trace,
    assert!(s.should_sample(Some(true), u64::MAX));
    // and a full sampler never resurrects a dropped trace.
    let all = Sampler::new(100);
    assert!(!all.should_sample(Some(false), 0));
}

#[test]
fn root_spans_decide_by_ratio() {
    let s = Sampler::new(50);
    assert_eq!(s.percent(), 50);
    // The low half of the identifier space is recorded, the high half is not.
    assert!(s.should_sample(None, 0));
    assert!(!s.should_sample(None, u64::MAX));
}
