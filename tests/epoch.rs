use train_epoch::accumulation::Accumulation;
use train_epoch::epoch::{EpochError, GradientAction, ItemPlan, TrainEpoch, TrainRun, ValidEpoch};

/// Runs a single-device training pass over `items` items, raising the
/// cancellation flag after the item numbered `stop_after`, if any.
fn single_pass(epoch: &mut TrainEpoch, items: usize, stop_after: Option<usize>) -> (Vec<ItemPlan>, usize) {
    let mut run = epoch.start();
    let mut plans = Vec::new();
    for _ in 0..items {
        let plan = run.begin_item();
        plans.push(plan);
        if !run.after_item(stop_after == Some(plan.iteration)) {
            break;
        }
    }
    let ended = epoch.finish(run);
    (plans, ended)
}

/// Runs a lock-step pass over sources of the given lengths.
fn multi_pass(epoch: &mut TrainEpoch, lens: &[usize], stop_after: Option<usize>) -> (Vec<(usize, ItemPlan)>, usize) {
    let mut run: TrainRun = epoch.start_multi_device(lens.len()).unwrap();
    let mut plans = Vec::new();
    let mut k: usize = 0;
    'outer: loop {
        let fetched = lens.iter().filter(|&&n| k < n).count();
        if !run.begin_iteration(fetched) {
            break;
        }
        for device in 0..lens.len() {
            let plan = run.begin_item();
            plans.push((device, plan));
            if !run.after_item(stop_after == Some(plan.iteration)) {
                break 'outer;
            }
        }
        k += 1;
    }
    let ended = epoch.finish(run);
    (plans, ended)
}

fn update_points(plans: &[ItemPlan]) -> Vec<usize> {
    plans.iter().filter(|p| p.action != GradientAction::Accumulate).map(|p| p.iteration).collect()
}

#[test]
fn window_two_five_items_updates_after_two_and_four() {
    let mut epoch = TrainEpoch::new(1, 3, Some(2));
    let (plans, ended) = single_pass(&mut epoch, 5, None);
    let actions: Vec<GradientAction> = plans.iter().map(|p| p.action).collect();
    assert_eq!(
        actions,
        vec![
            GradientAction::Accumulate,
            GradientAction::AccumulateAndApply,
            GradientAction::Accumulate,
            GradientAction::AccumulateAndApply,
            GradientAction::Accumulate,
        ]
    );
    assert_eq!(update_points(&plans), vec![2, 4]);
    assert_eq!(ended, 1);
    assert_eq!(epoch.epoch(), 2);
}

#[test]
fn two_devices_three_items_each_no_window() {
    let mut epoch = TrainEpoch::new(1, 1, None);
    let (plans, ended) = multi_pass(&mut epoch, &[3, 3], None);
    let iterations: Vec<usize> = plans.iter().map(|(_, p)| p.iteration).collect();
    assert_eq!(iterations, vec![1, 2, 3, 4, 5, 6]);
    let devices: Vec<usize> = plans.iter().map(|(d, _)| *d).collect();
    assert_eq!(devices, vec![0, 1, 0, 1, 0, 1]);
    // The window is one per device: an update after each lock-step iteration.
    let only: Vec<ItemPlan> = plans.iter().map(|(_, p)| *p).collect();
    assert_eq!(update_points(&only), vec![2, 4, 6]);
    assert!(only.iter().all(|p| p.action != GradientAction::ApplyNow));
    assert_eq!(ended, 1);
    assert_eq!(epoch.epoch(), 2);
}

#[test]
fn no_window_updates_after_every_item() {
    let mut epoch = TrainEpoch::new(4, 9, None);
    let (plans, _) = single_pass(&mut epoch, 7, None);
    assert_eq!(plans.len(), 7);
    assert!(plans.iter().all(|p| p.action == GradientAction::ApplyNow));
    assert!(plans.iter().all(|p| p.epoch == 4 && p.epoch_total == 9));
}

#[test]
fn window_three_drops_remainder() {
    let mut epoch = TrainEpoch::new(1, 1, Some(3));
    let (plans, _) = single_pass(&mut epoch, 8, None);
    assert_eq!(update_points(&plans), vec![3, 6]);
}

#[test]
fn multi_device_window_is_scaled_by_devices() {
    let mut epoch = TrainEpoch::new(1, 1, Some(2));
    let (plans, _) = multi_pass(&mut epoch, &[4, 4, 4], None);
    let only: Vec<ItemPlan> = plans.iter().map(|(_, p)| *p).collect();
    assert_eq!(only.len(), 12);
    assert_eq!(update_points(&only), vec![6, 12]);
}

#[test]
fn window_of_zero_acts_as_one() {
    let mut epoch = TrainEpoch::new(1, 1, Some(0));
    let (plans, _) = single_pass(&mut epoch, 3, None);
    assert_eq!(update_points(&plans), vec![1, 2, 3]);
    assert!(plans.iter().all(|p| p.action == GradientAction::AccumulateAndApply));
}

#[test]
fn iteration_restarts_every_epoch() {
    let mut epoch = TrainEpoch::new(1, 2, None);
    let (first, e1) = single_pass(&mut epoch, 3, None);
    let (second, e2) = multi_pass(&mut epoch, &[2, 2], None);
    assert_eq!(first.iter().map(|p| p.iteration).collect::<Vec<_>>(), vec![1, 2, 3]);
    assert_eq!(second.iter().map(|(_, p)| p.iteration).collect::<Vec<_>>(), vec![1, 2, 3, 4]);
    assert!(second.iter().all(|(_, p)| p.epoch == 2));
    assert_eq!((e1, e2), (1, 2));
    assert_eq!(epoch.epoch(), 3);
}

#[test]
fn cancellation_stops_before_next_item_and_still_ends() {
    let mut epoch = TrainEpoch::new(2, 5, Some(2));
    let (plans, ended) = single_pass(&mut epoch, 10, Some(3));
    assert_eq!(plans.len(), 3);
    assert_eq!(ended, 2);
    assert_eq!(epoch.epoch(), 3);
}

#[test]
fn cancellation_inside_lock_step_iteration() {
    let mut epoch = TrainEpoch::new(1, 1, None);
    let (plans, ended) = multi_pass(&mut epoch, &[5, 5, 5], Some(4));
    assert_eq!(plans.len(), 4);
    assert_eq!(plans[3].0, 0);
    assert_eq!(ended, 1);
}

#[test]
fn equal_sources_process_every_item() {
    let mut epoch = TrainEpoch::new(1, 1, None);
    let (plans, _) = multi_pass(&mut epoch, &[5, 5, 5], None);
    assert_eq!(plans.len(), 15);
}

#[test]
fn ragged_sources_stop_at_shortest() {
    let mut epoch = TrainEpoch::new(1, 1, None);
    let (plans, ended) = multi_pass(&mut epoch, &[4, 2, 3], None);
    assert_eq!(plans.len(), 6);
    assert_eq!(plans.last().unwrap().1.iteration, 6);
    assert_eq!(ended, 1);
}

#[test]
fn partial_iteration_is_refused() {
    let epoch = TrainEpoch::new(1, 1, None);
    let mut run = epoch.start_multi_device(3).unwrap();
    assert!(!run.begin_iteration(2));
    let mut run2 = epoch.start_multi_device(3).unwrap();
    assert!(run2.begin_iteration(3));
}

#[test]
fn no_device_is_rejected() {
    let epoch = TrainEpoch::new(1, 1, Some(4));
    assert!(matches!(epoch.start_multi_device(0), Err(EpochError::NoDevice)));
}

#[test]
fn train_epoch_accessors() {
    let epoch = TrainEpoch::new(3, 7, Some(5));
    assert_eq!(epoch.epoch(), 3);
    assert_eq!(epoch.epoch_total(), 7);
    assert_eq!(epoch.grad_accumulation(), Some(5));
}

#[test]
fn validation_numbers_items_and_keeps_epoch() {
    let epoch = ValidEpoch::new(6, 8);
    let mut run = epoch.start();
    let mut seen = Vec::new();
    for _ in 0..4 {
        seen.push(run.begin_item());
        assert!(run.after_item(false));
    }
    assert_eq!(seen, vec![1, 2, 3, 4]);
    assert_eq!(epoch.finish(run), 6);
    assert_eq!(epoch.epoch(), 6);
    assert_eq!(epoch.epoch_total(), 8);
}

#[test]
fn validation_cancellation_still_ends() {
    let epoch = ValidEpoch::new(2, 2);
    let mut run = epoch.start();
    assert_eq!(run.begin_item(), 1);
    assert!(run.after_item(false));
    assert_eq!(run.begin_item(), 2);
    assert!(!run.after_item(true));
    assert_eq!(epoch.finish(run), 2);
}

#[test]
fn accumulation_counts_up_to_window() {
    let mut acc = Accumulation::new(3);
    assert_eq!(acc.window_size(), 3);
    assert!(!acc.record());
    assert!(!acc.record());
    assert_eq!(acc.pending_count(), 2);
    assert!(acc.record());
    assert_eq!(acc.pending_count(), 0);
    assert_eq!(Accumulation::new(0).window_size(), 1);
}
