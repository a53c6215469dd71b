use bgtop::avg::Avg;

#[test]
fn avg_starts_empty() {
    let a = Avg::new(0, 0);
    assert_eq!(a.n(), 0);
    assert_eq!(a.result(), 0);
}

#[test]
fn avg_single_sample_is_that_sample() {
    let mut a = Avg::new(0, 0);
    a.add(500);
    assert_eq!(a.n(), 1);
    assert_eq!(a.result(), 500);
}

#[test]
fn avg_equals_arithmetic_mean() {
    let mut a = Avg::new(0, 0);
    for s in [100u32, 200, 600] {
        a.add(s);
    }
    assert_eq!(a.n(), 3);
    assert_eq!(a.result(), 300);
}

#[test]
fn avg_batch_matches_one_by_one() {
    let samples: Vec<u32> = vec![7, 11, 13, 17, 19];
    let mut one_by_one = Avg::new(0, 0);
    for &s in &samples {
        one_by_one.add(s);
    }
    let mut batch = Avg::new(0, 0);
    batch.add_samples(&samples);
    assert_eq!(batch.n(), one_by_one.n());
    assert_eq!(batch.result(), one_by_one.result());
}

#[test]
fn avg_resumes_from_snapshot() {
    // Absorb the first two samples, persist (n, sum), rebuild, and finish:
    // the outcome matches an uninterrupted run over all four samples.
    let mut first = Avg::new(0, 0);
    first.add(100);
    first.add(200);
    let (n, sum) = (first.n(), first.sum);
    let mut resumed = Avg::new(n, sum);
    resumed.add(600);
    resumed.add(300);

    let mut whole = Avg::new(0, 0);
    for s in [100u32, 200, 600, 300] {
        whole.add(s);
    }
    assert_eq!(resumed.n(), whole.n());
    assert_eq!(resumed.result(), whole.result());
}

#[test]
fn avg_mean_is_integer_part() {
    let mut a = Avg::new(0, 0);
    a.add(100);
    a.add(101);
    // (100 + 101) / 2 = 100.5; the hundredths mean reports its integer part.
    assert_eq!(a.result(), 100);
}
