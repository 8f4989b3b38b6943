use pingpong::chain::{
    plan_passes, workgroups, BindingSet, ChainError, Dispatch, KernelChain, TextureSlot,
};
use pingpong::status::{PinPongStatus, Status};

fn chain_of(kernels: Vec<u32>) -> KernelChain {
    match KernelChain::new(kernels) {
        Ok(c) => c,
        Err(_) => panic!("chain refused"),
    }
}

#[test]
fn empty_chain_is_refused() {
    assert!(matches!(KernelChain::new(vec![]), Err(ChainError::EmptyChain)));
}

#[test]
fn chain_keeps_kernels_in_order() {
    let c = chain_of(vec![4, 9, 2]);
    assert_eq!(c.len(), 3);
    assert_eq!(c.kernel(0), 4);
    assert_eq!(c.kernel(1), 9);
    assert_eq!(c.kernel(2), 2);
}

#[test]
fn workgroups_round_down() {
    assert_eq!(workgroups(1920, 1080), (120, 67));
    assert_eq!(workgroups(15, 16), (0, 1));
    assert_eq!(workgroups(0, 0), (0, 0));
}

#[test]
fn seed_and_two_filters_flip_three_times() {
    let c = chain_of(vec![0, 1, 2]);
    let mut s = Status::new();
    let plan = plan_passes(&c, &mut s, 1920, 1080);
    assert_eq!(plan.len(), 3);
    let bindings: Vec<BindingSet> = plan.iter().map(|d| d.binding).collect();
    assert_eq!(bindings, vec![BindingSet::Even, BindingSet::Odd, BindingSet::Even]);
    // Init -> F1T2 -> F2T1 -> F1T2
    assert_eq!(s.ping_pong, PinPongStatus::F1T2);
    assert_eq!(s.ping_pong.final_slot(), TextureSlot::B);
    assert_eq!(
        plan[1],
        Dispatch { kernel: 1, binding: BindingSet::Odd, groups_x: 120, groups_y: 67 }
    );
}

#[test]
fn seed_alone_ends_after_one_flip() {
    let c = chain_of(vec![5]);
    let mut s = Status::new();
    let plan = plan_passes(&c, &mut s, 32, 48);
    assert_eq!(plan, vec![Dispatch { kernel: 5, binding: BindingSet::Even, groups_x: 2, groups_y: 3 }]);
    assert_eq!(s.ping_pong, PinPongStatus::F1T2);
}

#[test]
fn even_and_odd_chains_end_on_opposite_states() {
    let mut finals = Vec::new();
    for n in 1..=6u32 {
        let c = chain_of((0..n).collect());
        let mut s = Status::new();
        let plan = plan_passes(&c, &mut s, 64, 64);
        assert_eq!(plan.len(), n as usize);
        for (i, d) in plan.iter().enumerate() {
            let expected = if i % 2 == 0 { BindingSet::Even } else { BindingSet::Odd };
            assert_eq!(d.binding, expected);
            assert_ne!(d.binding.source(), d.binding.destination());
        }
        // the render stage samples what the last pass wrote
        assert_eq!(s.ping_pong.final_slot(), plan[plan.len() - 1].binding.destination());
        finals.push(s.ping_pong);
    }
    for (i, st) in finals.iter().enumerate() {
        let n = i + 1;
        let expected = if n % 2 == 1 { PinPongStatus::F1T2 } else { PinPongStatus::F2T1 };
        assert_eq!(*st, expected);
    }
}

#[test]
fn planning_leaves_other_status_fields() {
    let c = chain_of(vec![0, 1]);
    let mut s = Status::new();
    s.set_elapsed(1_000_000);
    s.elapsed_frame = 7;
    plan_passes(&c, &mut s, 16, 16);
    assert_eq!(s.elapsed_frame, 7);
    assert_eq!(s.next_frame_index, 90);
    assert_eq!(s.ping_pong, PinPongStatus::F2T1);
}

#[test]
fn binding_sets_name_their_textures() {
    assert_eq!(BindingSet::Even.source(), TextureSlot::A);
    assert_eq!(BindingSet::Even.destination(), TextureSlot::B);
    assert_eq!(BindingSet::Odd.source(), TextureSlot::B);
    assert_eq!(BindingSet::Odd.destination(), TextureSlot::A);
    assert_eq!(PinPongStatus::F2T1.final_slot(), TextureSlot::A);
    assert_eq!(PinPongStatus::FtT2.binding(), BindingSet::Even);
    assert_eq!(PinPongStatus::F1T2.binding(), BindingSet::Odd);
    assert_eq!(PinPongStatus::F2T1.binding(), BindingSet::Even);
}
