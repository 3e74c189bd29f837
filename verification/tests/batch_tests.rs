use nae::batch::{chunk_indices, split_chunks, BatchPlan, IndexBatch, SpriteBatchState, MAX_PER_BATCH, MAX_VERTICES};

#[test]
fn batch_plans() {
    let mut b = IndexBatch::new();
    assert_eq!(b.plan(3), BatchPlan::Append);
    assert_eq!(b.plan(MAX_VERTICES), BatchPlan::FlushFirst);
    assert_eq!(b.plan(MAX_VERTICES + 1), BatchPlan::Split);
    b.push_indices(&vec![0; MAX_VERTICES - 3]);
    assert_eq!(b.plan(2), BatchPlan::Append);
    assert_eq!(b.plan(3), BatchPlan::FlushFirst);
    assert_eq!(b.flush(), MAX_VERTICES - 3);
    assert_eq!(b.flush(), 0);
}

#[test]
fn pushed_indices_are_rebased() {
    let mut b = IndexBatch::new();
    assert_eq!(b.push_indices(&[0, 1, 2]), 0);
    assert_eq!(b.push_indices(&[0, 2, 1, 5]), 3);
    assert_eq!(b.flush(), 7);
    assert_eq!(b.push_indices(&[4]), 0);
    assert_eq!(b.flush(), 1);
}

#[test]
fn split_draws_into_batches() {
    assert_eq!(split_chunks(10, 4), vec![(0, 4), (4, 8), (8, 10)]);
    assert_eq!(split_chunks(8, 4), vec![(0, 4), (4, 8), (8, 8)]);
    assert_eq!(split_chunks(3, 4), vec![(0, 3)]);
    assert_eq!(split_chunks(0, 4), vec![(0, 0)]);
    assert_eq!(chunk_indices(4), vec![0, 1, 2, 3]);
    assert!(chunk_indices(0).is_empty());
}

#[test]
fn sprite_batch_one_texture_per_batch() {
    let mut b = SpriteBatchState::new();
    assert_eq!(b.plan_quad(1), (None, 0));
    assert_eq!(b.plan_quad(1), (None, 2));
    // a new texture draws the pending batch with the old one first
    assert_eq!(b.plan_quad(2), (Some((1, 4)), 0));
    assert_eq!(b.flush(), Some((2, 2)));
    assert_eq!(b.flush(), None);
}

#[test]
fn sprite_batch_flushes_when_full() {
    let mut b = SpriteBatchState::new();
    let mut drawn = Vec::new();
    for _ in 0..MAX_PER_BATCH {
        let (d, _) = b.plan_quad(7);
        if let Some(d) = d {
            drawn.push(d);
        }
    }
    // 5416 / 2 quads; the batch is drawn before it would reach the limit
    assert_eq!(drawn[0], (7, MAX_PER_BATCH - 2));
    assert_eq!(drawn.len(), 2);
}

#[test]
fn sprite_pattern_keeps_texture_after_flush() {
    let mut b = SpriteBatchState::new();
    assert_eq!(b.plan_pattern_quad(1), (None, 0));
    assert_eq!(b.plan_pattern_quad(2), (Some((1, 2)), 0));
    // the batch still carries texture 1
    assert_eq!(b.flush(), Some((1, 2)));
}
