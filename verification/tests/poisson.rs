use procgen_types::poisson::{PoissonAction, PoissonEvent, PoissonSampler, MAX_ATTEMPTS};

#[test]
fn a_new_sampler_has_its_first_point_placed_and_active() {
    let sampler = PoissonSampler::new(5, 4, (2, 3));
    assert_eq!(sampler.placed(), 1);
    assert_eq!(sampler.action(), PoissonAction::Pick { active_len: 1 });
}

#[test]
fn a_sampler_for_one_point_is_finished_at_once() {
    let sampler = PoissonSampler::new(1, 4, (0, 0));
    assert_eq!(sampler.action(), PoissonAction::Finish);
}

#[test]
fn neighbours_scan_the_block_around_a_cell() {
    let sampler = PoissonSampler::new(5, 4, (2, 3));
    // around (1, 2): the first point lies at the offset (+1, +1), the last place scanned
    let found = sampler.neighbours((1, 2));
    assert_eq!(found.len(), 9);
    assert_eq!(found[8], Some(0));
    assert!(found[..8].iter().all(|f| f.is_none()));
    // around (3, 3) the block is brought into the grid: (2, 3) is scanned at
    // the offsets (-1, 0) and (-1, +1)
    let found = sampler.neighbours((3, 3));
    assert_eq!(
        found,
        vec![None, Some(0), Some(0), None, None, None, None, None, None]
    );
}

#[test]
fn an_accepted_candidate_is_placed_registered_and_active() {
    let mut sampler = PoissonSampler::new(3, 4, (0, 0));
    assert_eq!(
        sampler.step(PoissonEvent::Picked { active_index: 0 }),
        PoissonAction::Propose { parent: 0 }
    );
    assert_eq!(
        sampler.step(PoissonEvent::Accepted { cell: (3, 3) }),
        PoissonAction::Pick { active_len: 2 }
    );
    assert_eq!(sampler.placed(), 2);
    assert_eq!(sampler.neighbours((3, 3))[4], Some(1));
    assert_eq!(
        sampler.step(PoissonEvent::Picked { active_index: 1 }),
        PoissonAction::Propose { parent: 1 }
    );
    assert_eq!(sampler.step(PoissonEvent::Accepted { cell: (1, 1) }), PoissonAction::Finish);
    assert_eq!(sampler.placed(), 3);
}

#[test]
fn a_point_is_retired_after_the_bound_of_rejections() {
    let mut sampler = PoissonSampler::new(3, 4, (0, 0));
    sampler.step(PoissonEvent::Picked { active_index: 0 });
    for _ in 1..MAX_ATTEMPTS {
        assert_eq!(sampler.step(PoissonEvent::Rejected), PoissonAction::Propose { parent: 0 });
    }
    // the thirtieth rejection empties the active list: the sampling ends short
    assert_eq!(sampler.step(PoissonEvent::Rejected), PoissonAction::Finish);
    assert_eq!(sampler.placed(), 1);
}

#[test]
fn retiring_keeps_the_other_active_points() {
    let mut sampler = PoissonSampler::new(10, 8, (0, 0));
    sampler.step(PoissonEvent::Picked { active_index: 0 });
    sampler.step(PoissonEvent::Accepted { cell: (4, 4) });
    sampler.step(PoissonEvent::Picked { active_index: 0 });
    let mut action = PoissonAction::Finish;
    for _ in 0..MAX_ATTEMPTS {
        action = sampler.step(PoissonEvent::Rejected);
    }
    assert_eq!(action, PoissonAction::Pick { active_len: 1 });
    assert_eq!(
        sampler.step(PoissonEvent::Picked { active_index: 0 }),
        PoissonAction::Propose { parent: 1 }
    );
}

#[test]
fn never_more_points_are_placed_than_asked_for() {
    for count in 1..20usize {
        let mut sampler = PoissonSampler::new(count, 16, (0, 0));
        let mut action = sampler.action();
        let mut k = 0usize;
        loop {
            action = match action {
                PoissonAction::Finish => break,
                PoissonAction::Pick { active_len } => {
                    sampler.step(PoissonEvent::Picked { active_index: k % active_len })
                }
                PoissonAction::Propose { .. } => {
                    k += 1;
                    if k % 3 == 0 {
                        sampler.step(PoissonEvent::Accepted { cell: (k % 16, (k / 16) % 16) })
                    } else {
                        sampler.step(PoissonEvent::Rejected)
                    }
                }
            };
            assert!(sampler.placed() <= count);
        }
        assert!(sampler.placed() <= count);
    }
}
