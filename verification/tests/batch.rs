use cliobulk::batch::process_bulk;
use cliobulk::commands::{concurrency_for, concurrency_limit, progress_of, ProcessOptions, ProcessResult};
use cliobulk::job::{advance, FailureKind, JobEvent, Stage};

fn files(n: usize) -> Vec<(String, String)> {
    (0..n).map(|i| (format!("in/{}.png", i), format!("out/{}.png", i))).collect()
}

fn ok(path: &str) -> ProcessResult {
    ProcessResult { success: true, path: path.to_string(), error: None }
}

#[test]
fn three_quarters_of_the_cores_and_at_least_one() {
    assert_eq!(concurrency_limit(8), 6);
    assert_eq!(concurrency_limit(0), 1);
    assert_eq!(concurrency_limit(1), 1);
    assert_eq!(concurrency_limit(2), 1);
    assert_eq!(concurrency_limit(3), 2);
    assert_eq!(concurrency_limit(4), 3);
    assert_eq!(concurrency_limit(5), 3);
    assert_eq!(concurrency_limit(16), 12);
    assert_eq!(concurrency_limit(usize::MAX), usize::MAX / 4 * 3 + 2);
    assert_eq!(concurrency_for(Some(8)), 6);
    assert_eq!(concurrency_for(None), 3);
}

#[test]
fn progress_is_the_ordinal_over_the_total() {
    let of_five: Vec<u32> = (0..5).map(|i| progress_of(i, 5)).collect();
    assert_eq!(of_five, vec![20_000, 40_000, 60_000, 80_000, 100_000]);
    let of_three: Vec<u32> = (0..3).map(|i| progress_of(i, 3)).collect();
    assert_eq!(of_three, vec![33_333, 66_666, 100_000]);
    assert_eq!(progress_of(0, 7), 14_285);
    assert_eq!(progress_of(0, 1), 100_000);
    assert_eq!(progress_of(usize::MAX - 1, usize::MAX), 100_000);
}

#[test]
fn a_batch_knows_its_jobs() {
    let o = ProcessOptions { brightness: 50, ..ProcessOptions::identity() };
    let batch = process_bulk(files(3), o, Some(8));
    assert_eq!(batch.len(), 3);
    assert_eq!(batch.limit(), 6);
    assert_eq!(batch.running(), 0);
    assert!(!batch.is_done());
    for i in 0..3 {
        let j = batch.job(i).unwrap();
        assert_eq!(j.input_path(), &format!("in/{}.png", i));
        assert_eq!(j.output_path(), &format!("out/{}.png", i));
        assert_eq!((j.index(), j.total()), (i, 3));
        assert_eq!(j.progress(), progress_of(i, 3));
        assert_eq!(j.options(), o);
    }
    assert!(batch.job(3).is_none());
}

#[test]
fn an_empty_batch_is_done() {
    let mut batch = process_bulk(Vec::new(), ProcessOptions::identity(), None);
    assert_eq!(batch.limit(), 3);
    assert!(batch.is_done());
    assert_eq!(batch.start_next(), None);
    assert!(!batch.complete(ok("x")));
    assert!(batch.results().is_empty());
}

#[test]
fn at_most_six_jobs_hold_a_token_with_eight_cores() {
    let mut batch = process_bulk(files(20), ProcessOptions::identity(), Some(8));
    let mut most = 0;
    let mut order = Vec::new();
    let mut rounds = 0;
    while !batch.is_done() {
        while let Some(i) = batch.start_next() {
            order.push(i);
            most = most.max(batch.running());
            assert!(batch.running() <= 6);
        }
        assert_eq!(batch.start_next(), None);
        // let a varying number of jobs end
        for _ in 0..(rounds % 3 + 1) {
            if batch.running() > 0 {
                assert!(batch.complete(ok("done")));
            }
        }
        rounds += 1;
    }
    assert_eq!(most, 6);
    assert_eq!(order, (0..20).collect::<Vec<_>>());
    assert_eq!(batch.running(), 0);
    assert_eq!(batch.results().len(), 20);
    assert!(!batch.complete(ok("late")));
    assert_eq!(batch.results().len(), 20);
}

#[test]
fn one_failing_job_leaves_the_others_alone() {
    let mut list = files(5);
    list[2].1 = "out/2.exe".to_string();
    let mut batch = process_bulk(list, ProcessOptions::identity(), Some(8));
    while let Some(i) = batch.start_next() {
        let job = batch.job(i).unwrap();
        let mut stage = Stage::Pending;
        let mut event = JobEvent::Authorized { input: true, output: true };
        let result = loop {
            let step = advance(job, stage, event);
            stage = step.stage;
            if let Some(result) = step.result {
                if i == 2 {
                    assert_eq!(step.failure, Some(FailureKind::UnsupportedExtension));
                    assert_eq!(step.payload.unwrap().stage, "failed");
                } else {
                    assert_eq!(step.payload.unwrap().stage, "completed");
                }
                break result;
            }
            event = JobEvent::Done;
        };
        assert!(stage.terminal());
        assert!(batch.complete(result));
    }
    assert!(batch.is_done());
    let outcomes: Vec<(bool, &str)> =
        batch.results().iter().map(|r| (r.success, r.path.as_str())).collect();
    assert_eq!(
        outcomes,
        vec![
            (true, "out/0.png"),
            (true, "out/1.png"),
            (false, "out/2.exe"),
            (true, "out/3.png"),
            (true, "out/4.png")
        ]
    );
    assert!(batch.results()[2].error.is_some());
}
