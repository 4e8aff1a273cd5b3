use starglow::bloom::{
    downsample_plan, run_downsample_uniform, run_upsample_uniform, upsample_plan, BlendMode,
    LoadOp,
};

#[test]
fn downsample_plan_descends_the_chain() {
    let plan = downsample_plan(5);
    assert_eq!(plan.len(), 4);
    for (i, pass) in plan.iter().enumerate() {
        assert_eq!(pass.src_level, i);
        assert_eq!(pass.dst_level, i + 1);
        assert_eq!(pass.load, LoadOp::ClearBlack);
        assert_eq!(pass.blend, BlendMode::Replace);
    }
    // strictly sequential: each pass reads what the previous one wrote
    for i in 1..plan.len() {
        assert_eq!(plan[i].src_level, plan[i - 1].dst_level);
    }
}

#[test]
fn upsample_plan_climbs_back_to_level_zero() {
    let plan = upsample_plan(5);
    assert_eq!(plan.len(), 4);
    for (j, pass) in plan.iter().enumerate() {
        assert_eq!(pass.src_level, 4 - j);
        assert_eq!(pass.dst_level, 3 - j);
        assert_eq!(pass.load, LoadOp::LoadExisting);
        assert_eq!(pass.blend, BlendMode::AdditiveOneOne);
    }
    assert_eq!(plan[plan.len() - 1].dst_level, 0);
}

#[test]
fn single_level_chain_skips_bloom() {
    assert_eq!(downsample_plan(1).len(), 0);
    assert_eq!(upsample_plan(1).len(), 0);
}

#[test]
fn uniform_round_trip_conserves_energy() {
    // a uniform color 7 at level 0 (stale garbage below it is overwritten)
    let mut levels: Vec<u64> = vec![7, 9001, 3, 2, 1];
    run_downsample_uniform(&mut levels);
    assert_eq!(levels, vec![7, 7, 7, 7, 7]);
    run_upsample_uniform(&mut levels);
    // each upsample adds exactly one copy of the level's value: no
    // amplification beyond the additive blend factor of 1.0 per level
    assert_eq!(levels, vec![35, 28, 21, 14, 7]);
    assert_eq!(levels[0], 5 * 7);
}

#[test]
fn upsample_accumulates_suffix_sums() {
    let mut levels: Vec<u64> = vec![10, 20, 30];
    run_upsample_uniform(&mut levels);
    assert_eq!(levels, vec![60, 50, 30]);
}

#[test]
fn upsample_single_level_is_identity() {
    let mut levels: Vec<u64> = vec![u64::MAX];
    run_upsample_uniform(&mut levels);
    assert_eq!(levels, vec![u64::MAX]);
}
