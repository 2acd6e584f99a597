use std::collections::{BTreeSet, HashSet};

use lib::aperture::merge_dark_dims;
use lib::{ConvergenceLoss, Diagnostic, Eh, Imperfect, IntoEh, Loss};

type Conv = Imperfect<i32, String, ConvergenceLoss>;

fn step_partial(x: i32) -> Conv {
    Imperfect::Partial(x * 2, ConvergenceLoss::new(4))
}

fn step_fail(_: i32) -> Conv {
    Imperfect::Failure("broke".to_string(), ConvergenceLoss::new(6))
}

fn step_success(x: i32) -> Conv {
    Imperfect::Success(x + 10)
}

fn samples() -> Vec<Conv> {
    vec![
        Imperfect::Success(1),
        Imperfect::Partial(2, ConvergenceLoss::new(3)),
        Imperfect::Failure("gone".to_string(), ConvergenceLoss::new(5)),
    ]
}

#[test]
fn bind_left_identity_on_values() {
    assert_eq!(Conv::Success(7).eh(step_partial), step_partial(7));
    assert_eq!(Conv::Success(7).eh(step_fail), step_fail(7));
    assert_eq!(Conv::Success(7).eh(step_success), step_success(7));
}

#[test]
fn bind_right_identity_on_values() {
    for m in samples() {
        assert_eq!(m.clone().eh(Imperfect::Success), m);
    }
}

#[test]
fn bind_associativity_on_values() {
    let steps: Vec<fn(i32) -> Conv> = vec![step_partial, step_fail, step_success];
    for m in samples() {
        for f in steps.iter() {
            for g in steps.iter() {
                let lhs = m.clone().eh(f).eh(g);
                let rhs = m.clone().eh(|x| f(x).eh(g));
                assert_eq!(lhs, rhs);
            }
        }
    }
}

#[test]
fn map_identity_and_composition() {
    for m in samples() {
        assert_eq!(m.clone().map(|x| x), m);
        assert_eq!(
            m.clone().map(|x| x + 1).map(|x| x * 3),
            m.clone().map(|x| (x + 1) * 3)
        );
        assert_eq!(m.clone().map(|x| x - 4), m.clone().eh(|x| Imperfect::Success(x - 4)));
    }
}

#[test]
fn recover_from_failure_is_never_success() {
    let failed = Conv::Failure("gone".to_string(), ConvergenceLoss::new(2));
    let r = failed.recover(|_| Imperfect::Success(0));
    assert_eq!(r, Imperfect::Partial(0, ConvergenceLoss::new(2)));
    let r2 = Conv::Failure("gone".to_string(), ConvergenceLoss::new(2))
        .recover(|e| Imperfect::Failure(format!("{}!", e), ConvergenceLoss::new(1)));
    assert_eq!(r2, Imperfect::Failure("gone!".to_string(), ConvergenceLoss::new(2)));
}

#[test]
fn failure_short_circuits_and_keeps_loss() {
    let m = Conv::Failure("early".to_string(), ConvergenceLoss::new(8));
    let r = m.eh(step_partial).eh(step_success);
    assert_eq!(r, Imperfect::Failure("early".to_string(), ConvergenceLoss::new(8)));
}

#[test]
fn context_absorbing_twice_equals_absorbing_combined() {
    let mut a: Eh<ConvergenceLoss> = Eh::new();
    let _ = a.eh(Conv::Partial(1, ConvergenceLoss::new(3)));
    let _ = a.eh(Conv::Failure("x".to_string(), ConvergenceLoss::new(9)));
    let mut b: Eh<ConvergenceLoss> = Eh::new();
    let _ = b.eh(Conv::Partial(1, ConvergenceLoss::new(3).combine(ConvergenceLoss::new(9))));
    assert_eq!(a.into_loss(), b.into_loss());
}

#[test]
fn context_with_string_log_joins_messages() {
    let mut ctx: Eh<String> = Eh::new();
    let a = ctx.eh(Imperfect::<u8, (), String>::Partial(1, "first".to_string()));
    let b = ctx.tri(Imperfect::<u8, (), String>::Success(2));
    let c = ctx.imp(Imperfect::<u8, (), String>::Failure((), "second".to_string()));
    assert_eq!((a, b, c), (Ok(1), Ok(2), Err(())));
    let done: Imperfect<u8, (), String> = ctx.finish(3);
    assert_eq!(done, Imperfect::Partial(3, "first; second".to_string()));
}

#[test]
fn result_round_trip_is_identity() {
    for r in [Ok::<i32, String>(4), Err("no".to_string())] {
        let i: Conv = r.clone().into();
        let back: Result<i32, String> = i.into();
        assert_eq!(back, r);
    }
}

#[test]
fn from_option_none_is_failure_with_zero() {
    let i: Imperfect<u8, (), usize> = None.into();
    assert_eq!(i, Imperfect::Failure((), 0));
    let j: Imperfect<u8, (), usize> = Some(5).into();
    assert_eq!(j, Imperfect::Success(5));
}

#[test]
fn into_eh_result_keeps_context() {
    let mut ctx: Eh<usize> = Eh::new();
    let _ = Imperfect::<u8, (), usize>::Partial(1, 4).into_eh(&mut ctx);
    let r = IntoEh::<u8, (), usize>::into_eh(Err::<u8, ()>(()), &mut ctx);
    assert_eq!(r, Err(()));
    assert_eq!(ctx.loss(), Some(&4));
}

#[test]
fn unwrap_or_matches_unwrap_or_else() {
    for m in samples() {
        assert_eq!(m.clone().unwrap_or(-1), m.clone().unwrap_or_else(|_| -1));
    }
}

#[test]
fn compose_success_is_next_and_partial_carries() {
    let next: Imperfect<&str, String, ConvergenceLoss> = Imperfect::Partial("n", ConvergenceLoss::new(2));
    assert_eq!(Conv::Success(1).compose(next.clone()), next);
    let carried = Conv::Partial(1, ConvergenceLoss::new(6)).compose(next);
    assert_eq!(carried, Imperfect::Partial("n", ConvergenceLoss::new(6)));
}

#[test]
fn compose_failure_converts_error() {
    let a: Imperfect<u8, &str, usize> = Imperfect::Failure("bad", 2);
    let c: Imperfect<u8, String, usize> = a.compose(Imperfect::Success(1));
    assert_eq!(c, Imperfect::Failure("bad".to_string(), 2));
}

#[test]
fn pair_loss_combines_componentwise() {
    let a = (3usize, 10u64);
    let b = (4usize, u64::MAX);
    assert_eq!(a.combine(b), (7, u64::MAX));
    assert_eq!(<(usize, u64)>::zero(), (0, 0));
    assert!(<(usize, u64)>::zero().is_zero());
    assert!(!(0usize, 1u64).is_zero());
    assert_eq!((5usize, 6u64).combine(<(usize, u64)>::zero()), (5, 6));
    assert_eq!((5usize, 6u64).combine(<(usize, u64)>::total()), (usize::MAX, u64::MAX));
    assert_eq!(<(usize, u64)>::total().combine((5, 6)), (usize::MAX, u64::MAX));
}

#[test]
fn pair_loss_in_imperfect() {
    let i: Imperfect<&str, &str, (usize, u64)> = Imperfect::Partial("value", (2, 7));
    assert_eq!(i.loss(), (2, 7));
}

#[test]
fn string_log_is_associative_with_empties() {
    let parts = ["", "a", "b c", ""];
    for x in parts {
        for y in parts {
            for z in parts {
                let lhs = x.to_string().combine(y.to_string()).combine(z.to_string());
                let rhs = x.to_string().combine(y.to_string().combine(z.to_string()));
                assert_eq!(lhs, rhs);
            }
        }
    }
}

#[test]
fn collection_total_does_not_absorb() {
    assert_eq!(vec![1u8].combine(Vec::total()), vec![1u8]);
    assert_eq!("x".to_string().combine(String::total()), "x");
    let h: HashSet<u8> = [1].into_iter().collect();
    assert_eq!(h.clone().combine(HashSet::total()), h);
    let t: BTreeSet<u8> = [1].into_iter().collect();
    assert_eq!(t.clone().combine(BTreeSet::total()), t);
}

#[test]
fn numeric_total_absorbs() {
    assert_eq!(u64::total().combine(0), u64::MAX);
    assert_eq!(0u64.combine(u64::total()), u64::MAX);
    let t = ConvergenceLoss::total();
    assert_eq!(ConvergenceLoss::new(0).combine(t).steps(), usize::MAX);
}

#[test]
fn convergence_display_large_number() {
    assert_eq!(ConvergenceLoss::new(1205).to_string(), "1205 steps from crystal");
    assert_eq!(ConvergenceLoss::new(0).to_string(), "0 steps from crystal");
}

#[test]
fn is_zero_matches_zero() {
    assert!(!usize::total().is_zero());
    assert!(Vec::<u8>::new().is_zero());
    assert!(!ConvergenceLoss::new(1).is_zero());
    assert!(ConvergenceLoss::zero().is_zero());
}

#[test]
fn err_with_loss_and_as_ref() {
    let m = Conv::Failure("oops".to_string(), ConvergenceLoss::new(4));
    let r = m.as_ref();
    assert_eq!(r, Imperfect::Failure(&"oops".to_string(), ConvergenceLoss::new(4)));
    assert_eq!(m.err_with_loss(), Some(("oops".to_string(), ConvergenceLoss::new(4))));
}

#[test]
fn diagnostic_keeps_message() {
    let d = Diagnostic::new("boom");
    assert_eq!(d.as_str(), "boom");
    assert_eq!(d.clone(), Diagnostic::new("boom"));
    assert_ne!(d, Diagnostic::new("bang"));
}

#[test]
fn dark_dims_union_sorted() {
    assert_eq!(merge_dark_dims(vec![0, 2], vec![1, 2]), vec![0, 1, 2]);
    assert_eq!(merge_dark_dims(vec![3, 1], vec![1, 0, 0]), vec![0, 1, 3]);
    assert_eq!(merge_dark_dims(vec![], vec![5, 4, 5]), vec![5, 4, 5]);
    assert_eq!(merge_dark_dims(vec![1, 3], vec![]), vec![1, 3]);
    assert_eq!(merge_dark_dims(vec![2, 0], vec![]), vec![2, 0]);
    assert_eq!(merge_dark_dims(vec![], vec![2, 0]), vec![2, 0]);
}

#[test]
fn dark_dims_keeps_existing_repeats() {
    assert_eq!(merge_dark_dims(vec![2, 2], vec![2, 1]), vec![1, 2, 2]);
}

#[test]
fn context_holds_left_fold_of_losses() {
    let mut ctx: Eh<String> = Eh::new();
    let _ = ctx.eh(Imperfect::<u8, (), String>::Success(0));
    assert_eq!(ctx.loss(), None);
    let _ = ctx.eh(Imperfect::<u8, (), String>::Partial(1, "a".to_string()));
    let _ = ctx.eh(Imperfect::<u8, (), String>::Success(2));
    let _ = ctx.eh(Imperfect::<u8, (), String>::Failure((), "b".to_string()));
    let _ = ctx.eh(Imperfect::<u8, (), String>::Partial(3, "c".to_string()));
    assert_eq!(ctx.loss(), Some(&"a; b; c".to_string()));
    assert_eq!(ctx.into_loss(), Some("a".to_string().combine("b".to_string()).combine("c".to_string())));
}

#[test]
fn loss_of_failure_with_loss_is_the_carried_loss() {
    let i: Imperfect<u8, &str, String> = Imperfect::failure_with_loss("e", "carried".to_string());
    assert_eq!(i.loss(), "carried");
}

#[test]
fn imp_and_tri_agree_with_eh() {
    for m in samples() {
        assert_eq!(m.clone().imp(step_partial), m.clone().eh(step_partial));
        assert_eq!(m.clone().tri(step_fail), m.clone().eh(step_fail));
    }
}

#[test]
fn compose_is_bind_with_constant_step() {
    let next: Conv = Imperfect::Partial(9, ConvergenceLoss::new(1));
    for m in samples() {
        let n = next.clone();
        assert_eq!(m.clone().compose(next.clone()), m.clone().eh(move |_| n));
    }
}
