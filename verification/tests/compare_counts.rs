use tonic::Code;
use tonic::Status;

use rs_reconcile::compare::compare_cnt_src_new;
use rs_reconcile::compare::compare_start;
use rs_reconcile::compare::compare_step;
use rs_reconcile::compare::CompareAction;
use rs_reconcile::compare::CompareWait;

#[test]
fn compare_starts_with_the_source() {
    let a: CompareAction<String> = compare_start();
    assert!(matches!(a, CompareAction::Fetch(CompareWait::Source)));
}

#[test]
fn source_count_leads_to_target() {
    let a: CompareAction<String> = compare_step(&"k".to_string(), CompareWait::Source, Ok(3));
    assert!(matches!(a, CompareAction::Fetch(CompareWait::Target { count_src: 3 })));
}

#[test]
fn both_counts_finish_the_comparison() {
    let key = "2024-08-12".to_string();
    let a = compare_step(&key, CompareWait::Target { count_src: 3 }, Ok(5));
    match a {
        CompareAction::Finish(Ok(c)) => {
            assert_eq!(c.key, "2024-08-12");
            assert_eq!(c.count_src, 3);
            assert_eq!(c.count_tgt, 5);
        }
        _ => panic!("expected a finished comparison"),
    }
}

#[test]
fn source_failure_ends_the_comparison() {
    let a: CompareAction<u32> = compare_step(&1, CompareWait::Source, Err(Status::not_found("no src")));
    match a {
        CompareAction::Finish(Err(e)) => {
            assert_eq!(e.code(), Code::NotFound);
            assert_eq!(e.message(), "no src");
        }
        _ => panic!("expected the source's failure"),
    }
}

#[test]
fn target_failure_ends_the_comparison() {
    let a: CompareAction<u32> =
        compare_step(&1, CompareWait::Target { count_src: 9 }, Err(Status::internal("no tgt")));
    match a {
        CompareAction::Finish(Err(e)) => {
            assert_eq!(e.code(), Code::Internal);
            assert_eq!(e.message(), "no tgt");
        }
        _ => panic!("expected the target's failure"),
    }
}

#[test]
fn full_run_of_a_comparison() {
    let answers = [Ok(10u64), Ok(12u64)];
    let key = 7u32;
    let mut action: CompareAction<u32> = compare_start();
    let mut asked = 0;
    let result = loop {
        match action {
            CompareAction::Fetch(wait) => {
                let count = match wait {
                    CompareWait::Source => answers[0].clone(),
                    CompareWait::Target { .. } => answers[1].clone(),
                };
                asked += 1;
                action = compare_step(&key, wait, count);
            }
            CompareAction::Finish(r) => break r,
        }
    };
    assert_eq!(asked, 2);
    let c = result.unwrap();
    assert_eq!((c.key, c.count_src, c.count_tgt), (7, 10, 12));
}

#[test]
fn comparison_holds_its_source_and_target() {
    let c = compare_cnt_src_new("src", 42u64);
    assert_eq!(*c.source(), "src");
    assert_eq!(*c.target(), 42);
}
