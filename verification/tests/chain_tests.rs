use starglow::chain::{halve_dim, MipChain, MIP_LEVELS};

#[test]
fn level_dims_800_600() {
    // 800×600 with five levels: each level rounds up the half.
    let c = MipChain::create(7, 800, 600);
    let expected = [(800, 600), (400, 300), (200, 150), (100, 75), (50, 38)];
    for (k, (w, h)) in expected.iter().enumerate() {
        assert_eq!(c.level_width(k), *w);
        assert_eq!(c.level_height(k), *h);
    }
    assert_eq!(MIP_LEVELS, 5);
    assert_eq!(c.instance, 0);
}

#[test]
fn level_dims_odd_sizes_round_up() {
    let c = MipChain::create(0, 1919, 1079);
    assert_eq!(c.level_width(1), 960);
    assert_eq!(c.level_height(1), 540);
    assert_eq!(c.level_width(2), 480);
    assert_eq!(c.level_height(2), 270);
    assert_eq!(c.level_width(3), 240);
    assert_eq!(c.level_height(3), 135);
    assert_eq!(c.level_width(4), 120);
    assert_eq!(c.level_height(4), 68);
}

#[test]
fn level_dims_never_reach_zero() {
    let c = MipChain::create(0, 1, 1);
    for k in 0..MIP_LEVELS {
        assert_eq!(c.level_width(k), 1);
        assert_eq!(c.level_height(k), 1);
    }
}

#[test]
fn recreate_replaces_whole_chain() {
    let mut c = MipChain::create(3, 800, 600);
    let old_view = c.view(0);
    c.recreate(1024, 768);
    assert_eq!(c.instance, 1);
    assert_eq!(c.width, 1024);
    assert_eq!(c.height, 768);
    assert_eq!(c.level_width(4), 64);
    assert_eq!(c.level_height(4), 48);
    // handles derived before the recreation no longer match the chain
    let new_view = c.view(0);
    assert_ne!(old_view, new_view);
    assert_eq!(new_view.chain_instance, 1);
}

#[test]
fn handles_carry_instance_and_level() {
    let c = MipChain::create(3, 64, 64);
    for k in 0..MIP_LEVELS {
        assert_eq!(c.view(k).level, k);
        assert_eq!(c.view(k).chain_instance, 0);
        assert_eq!(c.sampling_bind_set(k).level, k);
        assert_eq!(c.sampling_bind_set(k).chain_instance, 0);
    }
}

#[test]
fn halve_dim_rounds_up() {
    assert_eq!(halve_dim(800), 400);
    assert_eq!(halve_dim(75), 38);
    assert_eq!(halve_dim(1), 1);
    assert_eq!(halve_dim(0), 0);
    assert_eq!(halve_dim(u32::MAX), 1 << 31);
}
