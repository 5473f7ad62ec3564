use pepa::animation::AnimationAsset;
use pepa::registry::FRAME_INTERVAL_US;
use pepa::{
    AnimateEvent, Animation, AnimationAssets, AnimationClip, AnimationIndices, Direction,
    RepeatingTimer, StateMachine, TextureAtlasState,
};

#[test]
fn new_sets_bounds() {
    let ind = AnimationIndices::new(3, 9);
    assert_eq!(ind.first, 3);
    assert_eq!(ind.last, 9);
}

#[test]
fn full_wrap_after_eight_completions() {
    let ind = AnimationIndices::new(0, 7);
    let mut idx: usize = 0;
    for step in 1..=8 {
        idx = ind.advance(idx);
        assert!(idx >= ind.first && idx <= ind.last);
        if step < 8 {
            assert_eq!(idx, step);
        }
    }
    assert_eq!(idx, 0);
}

#[test]
fn advance_snaps_low_index_to_first() {
    let ind = AnimationIndices::new(4, 7);
    assert_eq!(ind.advance(0), 4);
    assert_eq!(ind.advance(7), 4);
    assert_eq!(ind.advance(9), 4);
    assert_eq!(ind.advance(5), 6);
}

#[test]
fn timer_completes_once_per_interval() {
    let mut t = RepeatingTimer::new(70_000);
    assert!(!t.tick(30_000));
    assert!(!t.tick(30_000));
    assert!(t.tick(30_000));
    assert_eq!(t.elapsed_us, 20_000);
}

#[test]
fn clip_advances_only_on_completion() {
    let mut clip = AnimationClip {
        indices: AnimationIndices::new(0, 7),
        timer: RepeatingTimer::new(FRAME_INTERVAL_US),
    };
    let mut idx: usize = 0;
    clip.animate(&mut idx, 30_000);
    assert_eq!(idx, 0);
    clip.animate(&mut idx, 50_000);
    assert_eq!(idx, 1);
    for _ in 0..7 {
        clip.animate(&mut idx, FRAME_INTERVAL_US);
    }
    assert_eq!(idx, 0);
}

fn one_asset_registry(
    state: StateMachine,
    direction: Direction,
    ind: AnimationIndices,
    layout: u64,
    texture: u64,
) -> AnimationAssets {
    let mut assets = AnimationAssets::new();
    assets.assets.push((
        state,
        AnimationAsset {
            atlas_layout: layout,
            texture,
            indices: vec![(direction, ind)],
            is_loaded: true,
        },
    ));
    assets
}

#[test]
fn mid_playback_switch_clamps_not_resets() {
    let assets = one_asset_registry(
        StateMachine::attack(),
        Direction::Left,
        AnimationIndices::new(0, 4),
        8,
        9,
    );
    let mut anim = Animation {
        timer: RepeatingTimer::new(FRAME_INTERVAL_US),
        direction: Direction::Down,
        state: StateMachine::walk(),
    };
    let mut atlas = TextureAtlasState { layout: 1, index: 5 };
    let mut texture: u64 = 2;

    let ev = AnimateEvent::new(StateMachine::attack(), Direction::Left);
    anim.apply_event(&mut atlas, &mut texture, &assets, &ev);

    assert_eq!(atlas.index, 4);
    assert_eq!(atlas.layout, 8);
    assert_eq!(texture, 9);
    assert_eq!(anim.state, StateMachine::attack());
    assert_eq!(anim.direction, Direction::Left);
}

#[test]
fn switch_below_new_range_clamps_to_first() {
    let assets = one_asset_registry(
        StateMachine::run(),
        Direction::Up,
        AnimationIndices::new(3, 6),
        11,
        12,
    );
    let mut anim = Animation {
        timer: RepeatingTimer::new(FRAME_INTERVAL_US),
        direction: Direction::Down,
        state: StateMachine::walk(),
    };
    let mut atlas = TextureAtlasState { layout: 1, index: 1 };
    let mut texture: u64 = 2;

    let ev = AnimateEvent::new(StateMachine::run(), Direction::Up);
    anim.apply_event(&mut atlas, &mut texture, &assets, &ev);
    assert_eq!(atlas.index, 3);
}

#[test]
fn event_driven_player_advances_in_registered_range() {
    let assets = one_asset_registry(
        StateMachine::walk(),
        Direction::Down,
        AnimationIndices::new(0, 2),
        1,
        2,
    );
    let mut anim = Animation {
        timer: RepeatingTimer::new(FRAME_INTERVAL_US),
        direction: Direction::Down,
        state: StateMachine::walk(),
    };
    let mut atlas = TextureAtlasState { layout: 1, index: 0 };

    anim.animate(&mut atlas, &assets, FRAME_INTERVAL_US);
    assert_eq!(atlas.index, 1);
    anim.animate(&mut atlas, &assets, FRAME_INTERVAL_US);
    assert_eq!(atlas.index, 2);
    anim.animate(&mut atlas, &assets, FRAME_INTERVAL_US);
    assert_eq!(atlas.index, 0);
}

#[test]
fn unregistered_direction_leaves_index_untouched() {
    let assets = one_asset_registry(
        StateMachine::walk(),
        Direction::Down,
        AnimationIndices::new(0, 2),
        1,
        2,
    );
    let mut anim = Animation {
        timer: RepeatingTimer::new(FRAME_INTERVAL_US),
        direction: Direction::Up,
        state: StateMachine::walk(),
    };
    let mut atlas = TextureAtlasState { layout: 1, index: 1 };

    anim.animate(&mut atlas, &assets, FRAME_INTERVAL_US);
    assert_eq!(atlas.index, 1);
}

#[test]
fn several_notifications_apply_in_order_last_wins() {
    let mut assets = AnimationAssets::new();
    assets.assets.push((
        StateMachine::walk(),
        AnimationAsset {
            atlas_layout: 21,
            texture: 22,
            indices: vec![(Direction::Left, AnimationIndices::new(0, 4))],
            is_loaded: true,
        },
    ));
    assets.assets.push((
        StateMachine::attack(),
        AnimationAsset {
            atlas_layout: 31,
            texture: 32,
            indices: vec![(Direction::Up, AnimationIndices::new(2, 3))],
            is_loaded: true,
        },
    ));
    let mut anim = Animation {
        timer: RepeatingTimer::new(FRAME_INTERVAL_US),
        direction: Direction::Down,
        state: StateMachine::idle(),
    };
    let mut atlas = TextureAtlasState { layout: 1, index: 9 };
    let mut texture: u64 = 2;

    let events = vec![
        AnimateEvent::new(StateMachine::walk(), Direction::Left),
        AnimateEvent::new(StateMachine::attack(), Direction::Up),
    ];
    anim.listen_for_texture_change(&mut atlas, &mut texture, &assets, &events);

    // 9 clamps to 4 in [0, 4], then 4 clamps to 3 in [2, 3]; the second
    // notification's state is what remains visible.
    assert_eq!(atlas.index, 3);
    assert_eq!(atlas.layout, 31);
    assert_eq!(texture, 32);
    assert_eq!(anim.state, StateMachine::attack());
    assert_eq!(anim.direction, Direction::Up);
}

#[test]
fn no_notifications_change_nothing() {
    let assets = AnimationAssets::new();
    let mut anim = Animation {
        timer: RepeatingTimer::new(FRAME_INTERVAL_US),
        direction: Direction::Down,
        state: StateMachine::idle(),
    };
    let mut atlas = TextureAtlasState { layout: 1, index: 5 };
    let mut texture: u64 = 2;
    anim.listen_for_texture_change(&mut atlas, &mut texture, &assets, &vec![]);
    assert_eq!(atlas.index, 5);
    assert_eq!(atlas.layout, 1);
    assert_eq!(texture, 2);
    assert_eq!(anim.state, StateMachine::idle());
}

#[test]
fn animate_event_builder() {
    let mut ev = AnimateEvent::new(StateMachine::run(), Direction::Right);
    assert_eq!(ev.new_state, StateMachine::run());
    assert_eq!(ev.new_direction, Direction::Right);
    assert_eq!(ev.new_timer_duration_us, None);
    ev.new_timer(Some(40_000));
    assert_eq!(ev.new_timer_duration_us, Some(40_000));
    ev.new_timer(None);
    assert_eq!(ev.new_timer_duration_us, None);
}
