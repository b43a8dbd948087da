use toy_hover_battle::control::{agent_rng_seed, agent_seed, AiDifficulty, Behavior, ControllerKind};

#[test]
fn controller_cycles_through_all_kinds() {
    let mut k = ControllerKind::Human;
    let seq: Vec<_> = (0..5)
        .map(|_| {
            let c = k;
            k = k.next();
            c
        })
        .collect();
    assert_eq!(
        seq,
        vec![
            ControllerKind::Human,
            ControllerKind::Ai(AiDifficulty::Easy),
            ControllerKind::Ai(AiDifficulty::Normal),
            ControllerKind::Ai(AiDifficulty::Hard),
            ControllerKind::Human,
        ]
    );
}

#[test]
fn prev_undoes_next_for_every_kind() {
    let all = [
        ControllerKind::Human,
        ControllerKind::Ai(AiDifficulty::Easy),
        ControllerKind::Ai(AiDifficulty::Normal),
        ControllerKind::Ai(AiDifficulty::Hard),
    ];
    for k in all {
        assert_eq!(k.next().prev(), k);
        assert_eq!(k.prev().next(), k);
        assert_ne!(k.next(), k);
    }
    assert_eq!(ControllerKind::Human.prev(), ControllerKind::Ai(AiDifficulty::Hard));
}

#[test]
fn labels_name_the_setting() {
    assert_eq!(ControllerKind::Human.label(), "Human");
    assert_eq!(ControllerKind::Ai(AiDifficulty::Easy).label(), "Easy");
    assert_eq!(ControllerKind::Ai(AiDifficulty::Normal).label(), "Normal");
    assert_eq!(AiDifficulty::Hard.label(), "Hard");
    assert_eq!(Behavior::Pivot.label(), "Pivot");
    assert_eq!(Behavior::Withdraw.label(), "Withdraw");
    assert_eq!(Behavior::Inactive.label(), "Inactive");
}

#[test]
fn only_ai_kinds_are_ai() {
    assert!(!ControllerKind::Human.is_ai());
    assert!(ControllerKind::Ai(AiDifficulty::Easy).is_ai());
    assert!(ControllerKind::Ai(AiDifficulty::Hard).is_ai());
}

#[test]
fn agent_seeds_vary_by_slot_and_difficulty() {
    assert_eq!(agent_seed(0, AiDifficulty::Easy), 0xA1_5EED);
    assert_eq!(agent_seed(0, AiDifficulty::Normal), 10616100);
    assert_eq!(agent_seed(0, AiDifficulty::Hard), 10656603);
    assert_eq!(agent_seed(1, AiDifficulty::Easy), 21151194);
    assert_eq!(agent_seed(1, AiDifficulty::Hard), 21232200);
}

#[test]
fn agent_stream_seed_mixes_in_the_slot() {
    assert_eq!(agent_rng_seed(2024, 0), 2024);
    assert_eq!(agent_rng_seed(2024, 1), 11400714819323198461);
}
