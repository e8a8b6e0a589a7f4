use battle_contract::{
    Battle, BattleContract, BattleStatus, GameError, Move, PlayerStat,
};

fn setup_test() -> (String, String, String, BattleContract) {
    let contract_id = String::from("CCONTRACT");
    let user_1 = String::from("GUSERONE");
    let user_2 = String::from("GUSERTWO");
    let client = BattleContract::new(contract_id.clone());
    (contract_id, user_1, user_2, client)
}

fn stat(addr: &str, class: u32, h: u32, a: u32, d: u32, in_battle: bool, has_sword: bool) -> PlayerStat {
    PlayerStat {
        player_address: addr.to_string(),
        sword_class: class,
        health: h,
        attack: a,
        defense: d,
        in_battle,
        has_sword,
    }
}

#[test]
fn create_player() {
    let (_contract_id, user_1, _user_2, mut client) = setup_test();
    client.add_player(user_1.clone()).unwrap();
    assert_eq!(
        client.get_player_stats(&user_1),
        PlayerStat {
            player_address: user_1.clone(),
            sword_class: 0,
            health: 100,
            attack: 10,
            defense: 10,
            in_battle: false,
            has_sword: false,
        }
    );
}

#[test]
fn forge_and_melt_blade() {
    let (_contract_id, user_1, _user_2, mut client) = setup_test();
    client.add_player(user_1.clone()).unwrap();
    assert_eq!(client.get_player_stats(&user_1).sword_class, 0);
    let class_1: u32 = 1;
    let class_2: u32 = 2;

    client.forge_blade(user_1.clone(), class_1).unwrap();
    assert_eq!(
        client.get_player_stats(&user_1),
        PlayerStat {
            player_address: user_1.clone(),
            sword_class: class_1,
            health: 108,
            attack: 14,
            defense: 13,
            in_battle: false,
            has_sword: true,
        }
    );

    client.melt_blade(user_1.clone(), class_1).unwrap();
    assert_eq!(
        client.get_player_stats(&user_1),
        PlayerStat {
            player_address: user_1.clone(),
            sword_class: 0,
            health: 100,
            attack: 10,
            defense: 10,
            in_battle: false,
            has_sword: false,
        }
    );

    client.forge_blade(user_1.clone(), class_2).unwrap();
    assert_eq!(
        client.get_player_stats(&user_1),
        PlayerStat {
            player_address: user_1.clone(),
            sword_class: 2,
            health: 97,
            attack: 26,
            defense: 12,
            in_battle: false,
            has_sword: true,
        }
    );
}

#[test]
fn create_and_join_battle() {
    let (contract_id, user_1, user_2, mut client) = setup_test();
    let battle_name = String::from("Constantine");

    client.add_player(user_1.clone()).unwrap();
    assert_eq!(client.create_battle(battle_name.clone(), user_1.clone()), Ok(()));

    let expected_battle_after_create = Battle {
        battle_status: BattleStatus::Pending,
        name: battle_name.clone(),
        player_one: user_1.clone(),
        player_two: contract_id.clone(),
        move_one: Move::NoMove,
        move_two: Move::NoMove,
        winner: contract_id.clone(),
    };
    assert_eq!(client.get_battle(&battle_name), expected_battle_after_create.clone());
    assert!(client.get_player_stats(&user_1).in_battle);

    client.add_player(user_2.clone()).unwrap();
    assert_eq!(client.join_battle(battle_name.clone(), user_2.clone()), Ok(()));

    assert!(client.get_player_stats(&user_2).in_battle);
    let player_1 = client.get_battle(&battle_name).player_one;

    let expected_battle_after_join = Battle {
        battle_status: BattleStatus::Started,
        name: battle_name.clone(),
        player_one: player_1.clone(),
        player_two: user_2.clone(),
        move_one: Move::NoMove,
        move_two: Move::NoMove,
        winner: contract_id.clone(),
    };
    assert_eq!(client.get_battle(&battle_name), expected_battle_after_join.clone());
}

#[test]
fn test_enum() {
    let (_contract_id, user_1, user_2, mut client) = setup_test();
    client.add_player(user_1.clone()).unwrap();
    client.add_player(user_2.clone()).unwrap();

    assert_eq!(client.increase_health(user_1.clone(), 1), 101);
    assert_eq!(client.get_player_stats(&user_1), stat(&user_1, 0, 101, 10, 10, false, false));

    assert_eq!(client.increase_health(user_1.clone(), 2), 103);
    assert_eq!(client.get_player_stats(&user_1), stat(&user_1, 0, 103, 10, 10, false, false));

    assert_eq!(client.increase_health(user_2.clone(), 10), 110);
    assert_eq!(client.get_player_stats(&user_2), stat(&user_2, 0, 110, 10, 10, false, false));

    assert_eq!(client.increase_health(user_2.clone(), 10), 120);
    assert_eq!(client.get_player_stats(&user_2), stat(&user_2, 0, 120, 10, 10, false, false));
}

#[test]
fn test_decrement() {
    let (_contract_id, user_1, _user_2, mut client) = setup_test();
    client.add_player(user_1.clone()).unwrap();

    assert_eq!(client.increase_health(user_1.clone(), 10), 110);
    assert_eq!(client.get_player_stats(&user_1), stat(&user_1, 0, 110, 10, 10, false, false));

    assert_eq!(client.decrease_health(user_1.clone(), 9), 101);
    assert_eq!(client.get_player_stats(&user_1), stat(&user_1, 0, 101, 10, 10, false, false));
}

#[test]
fn test_create_and_join_battle() {
    let (contract_id, user_1, user_2, mut client) = setup_test();
    let battle_name = String::from("Constantine");

    client.create_battle(battle_name.clone(), user_1.clone()).unwrap();
    assert_eq!(
        client.get_battle(&battle_name),
        Battle {
            battle_status: BattleStatus::Pending,
            name: battle_name.clone(),
            player_one: user_1.clone(),
            player_two: contract_id.clone(),
            move_one: Move::NoMove,
            move_two: Move::NoMove,
            winner: contract_id.clone(),
        }
    );
    assert_eq!(client.get_player_stats(&user_1).in_battle, true);

    client.join_battle(battle_name.clone(), user_2.clone()).unwrap();
    assert_eq!(
        client.get_battle(&battle_name),
        Battle {
            battle_status: BattleStatus::Started,
            name: battle_name.clone(),
            player_one: user_1.clone(),
            player_two: user_2.clone(),
            move_one: Move::NoMove,
            move_two: Move::NoMove,
            winner: contract_id.clone(),
        }
    );
}

#[test]
fn register_twice_is_refused() {
    let (_c, user_1, _u2, mut client) = setup_test();
    client.add_player(user_1.clone()).unwrap();
    client.forge_blade(user_1.clone(), 3).unwrap();
    assert_eq!(client.add_player(user_1.clone()), Err(GameError::AlreadyRegistered));
    assert_eq!(client.get_player_stats(&user_1), stat(&user_1, 3, 107, 21, 7, false, true));
    assert_eq!(client.get_players(), vec![user_1.clone()]);
}

#[test]
fn unregistered_player_reads_as_zero() {
    let (contract_id, _u1, _u2, client) = setup_test();
    let stranger = String::from("GSTRANGER");
    assert_eq!(client.get_player_stats(&stranger), stat(&contract_id, 0, 0, 0, 0, false, false));
    assert_eq!(client.get_players(), Vec::<String>::new());
}

#[test]
fn forge_claymore_values_and_ledger() {
    let (_c, user_1, _u2, mut client) = setup_test();
    client.add_player(user_1.clone()).unwrap();
    assert_eq!(client.balance_of(&user_1, 3), 0);
    client.forge_blade(user_1.clone(), 3).unwrap();
    assert_eq!(client.get_player_stats(&user_1), stat(&user_1, 3, 107, 21, 7, false, true));
    assert_eq!(client.balance_of(&user_1, 3), 1);
    assert_eq!(client.balance_of(&user_1, 1), 0);
    client.melt_blade(user_1.clone(), 3).unwrap();
    assert_eq!(client.balance_of(&user_1, 3), 0);
}

#[test]
fn equip_errors() {
    let (_c, user_1, _u2, mut client) = setup_test();
    client.add_player(user_1.clone()).unwrap();
    assert_eq!(client.forge_blade(user_1.clone(), 0), Err(GameError::InvalidClass));
    assert_eq!(client.forge_blade(user_1.clone(), 4), Err(GameError::InvalidClass));
    assert_eq!(client.melt_blade(user_1.clone(), 1), Err(GameError::NotEquipped));
    client.forge_blade(user_1.clone(), 1).unwrap();
    assert_eq!(client.forge_blade(user_1.clone(), 2), Err(GameError::AlreadyEquipped));
    assert_eq!(client.get_player_stats(&user_1), stat(&user_1, 1, 108, 14, 13, false, true));
}

#[test]
fn equipment_is_locked_in_battle() {
    let (_c, user_1, user_2, mut client) = setup_test();
    client.add_player(user_1.clone()).unwrap();
    client.add_player(user_2.clone()).unwrap();
    client.forge_blade(user_2.clone(), 2).unwrap();
    client.create_battle(String::from("arena"), user_1.clone()).unwrap();
    client.join_battle(String::from("arena"), user_2.clone()).unwrap();
    assert_eq!(client.forge_blade(user_1.clone(), 1), Err(GameError::InBattle));
    assert_eq!(client.melt_blade(user_2.clone(), 2), Err(GameError::InBattle));
    assert_eq!(client.get_player_stats(&user_1), stat(&user_1, 0, 100, 10, 10, true, false));
    assert_eq!(client.get_player_stats(&user_2), stat(&user_2, 2, 97, 26, 12, true, true));
}

#[test]
fn equip_then_unequip_restores_baseline_for_every_class() {
    for class in 1..=3u32 {
        let (_c, user_1, _u2, mut client) = setup_test();
        client.add_player(user_1.clone()).unwrap();
        client.forge_blade(user_1.clone(), class).unwrap();
        client.melt_blade(user_1.clone(), class).unwrap();
        assert_eq!(client.get_player_stats(&user_1), stat(&user_1, 0, 100, 10, 10, false, false));
    }
}

#[test]
fn sabre_on_zero_health_saturates() {
    let (contract_id, _u1, _u2, mut client) = setup_test();
    let stranger = String::from("GSTRANGER");
    client.forge_blade(stranger.clone(), 2).unwrap();
    assert_eq!(client.get_player_stats(&stranger), stat(&contract_id, 2, 0, 16, 2, false, true));
}

#[test]
fn battle_creation_errors() {
    let (_c, user_1, user_2, mut client) = setup_test();
    let name = String::from("arena");
    client.add_player(user_1.clone()).unwrap();
    client.add_player(user_2.clone()).unwrap();
    client.create_battle(name.clone(), user_1.clone()).unwrap();
    assert_eq!(
        client.create_battle(String::from("other"), user_1.clone()),
        Err(GameError::PlayerAlreadyInBattle)
    );
    assert_eq!(client.create_battle(name.clone(), user_2.clone()), Err(GameError::BattleNameTaken));
    assert_eq!(client.get_battles(), vec![name.clone()]);
    assert_eq!(client.join_battle(name.clone(), user_1.clone()), Err(GameError::PlayerAlreadyInBattle));
}

#[test]
fn third_player_cannot_join() {
    let (_c, user_1, user_2, mut client) = setup_test();
    let name = String::from("arena");
    let user_3 = String::from("GUSERTHREE");
    client.create_battle(name.clone(), user_1.clone()).unwrap();
    client.join_battle(name.clone(), user_2.clone()).unwrap();
    let before = client.get_battle(&name);
    assert_eq!(client.join_battle(name.clone(), user_3.clone()), Err(GameError::BattleAlreadyStarted));
    assert_eq!(client.get_battle(&name), before);
    assert!(!client.get_player_stats(&user_3).in_battle);
}

#[test]
fn auto_battle_starts_at_once() {
    let (contract_id, user_1, _u2, mut client) = setup_test();
    let name = String::from("bot");
    client.add_player(user_1.clone()).unwrap();
    client.create_auto_battle(name.clone(), user_1.clone()).unwrap();
    let b = client.get_battle(&name);
    assert_eq!(b.battle_status, BattleStatus::Started);
    assert_eq!(b.player_one, user_1);
    assert_eq!(b.player_two, contract_id);
    assert!(client.get_player_stats(&user_1).in_battle);
}

#[test]
fn challenge_bot_opens_pending_battle() {
    let (contract_id, user_1, user_2, mut client) = setup_test();
    let name = String::from("arena");
    client.create_battle(name.clone(), user_1.clone()).unwrap();
    client.challenge_bot(user_2.clone(), name.clone()).unwrap();
    let b = client.get_battle(&name);
    assert_eq!(b.battle_status, BattleStatus::Started);
    assert_eq!(b.player_one, user_2);
    assert_eq!(b.player_two, contract_id);
    assert_eq!(client.challenge_bot(user_1.clone(), name.clone()), Err(GameError::BattleAlreadyStarted));
}

fn started(client: &mut BattleContract, name: &str, user_1: &str, user_2: &str) {
    client.add_player(user_1.to_string()).unwrap();
    client.add_player(user_2.to_string()).unwrap();
    client.create_battle(name.to_string(), user_1.to_string()).unwrap();
    client.join_battle(name.to_string(), user_2.to_string()).unwrap();
}

#[test]
fn move_errors() {
    let (_c, user_1, user_2, mut client) = setup_test();
    let name = String::from("arena");
    client.add_player(user_1.clone()).unwrap();
    client.create_battle(name.clone(), user_1.clone()).unwrap();
    assert_eq!(client.attack_or_defend_choice(user_1.clone(), 3, name.clone()), Err(GameError::InvalidChoice));
    assert_eq!(client.attack_or_defend_choice(user_1.clone(), 0, name.clone()), Err(GameError::InvalidChoice));
    assert_eq!(client.attack_or_defend_choice(user_1.clone(), 1, name.clone()), Err(GameError::BattleNotStarted));
    client.add_player(user_2.clone()).unwrap();
    client.join_battle(name.clone(), user_2.clone()).unwrap();
    assert_eq!(
        client.attack_or_defend_choice(String::from("GOUTSIDER"), 1, name.clone()),
        Err(GameError::NotAParticipant)
    );
}

#[test]
fn second_move_in_round_is_refused() {
    let (_c, user_1, user_2, mut client) = setup_test();
    let name = String::from("arena");
    started(&mut client, &name, &user_1, &user_2);
    client.attack_or_defend_choice(user_1.clone(), 2, name.clone()).unwrap();
    assert_eq!(client.get_battle(&name).move_one, Move::Defend);
    assert_eq!(
        client.attack_or_defend_choice(user_1.clone(), 1, name.clone()),
        Err(GameError::MoveAlreadySubmitted)
    );
    assert_eq!(client.get_battle(&name).move_one, Move::Defend);
    assert_eq!(client.get_battle(&name).move_two, Move::NoMove);
}

#[test]
fn decisive_attack_ends_battle() {
    let (_c, user_1, user_2, mut client) = setup_test();
    let name = String::from("arena");
    started(&mut client, &name, &user_1, &user_2);
    assert_eq!(client.increase_attack(user_1.clone(), 90), 100);
    client.attack_or_defend_choice(user_1.clone(), 1, name.clone()).unwrap();
    client.attack_or_defend_choice(user_2.clone(), 1, name.clone()).unwrap();
    let b = client.get_battle(&name);
    assert_eq!(b.battle_status, BattleStatus::Ended);
    assert_eq!(b.winner, user_1);
    assert_eq!(client.get_player_stats(&user_1), stat(&user_1, 0, 100, 100, 10, false, false));
    assert_eq!(client.get_player_stats(&user_2), stat(&user_2, 0, 100, 10, 10, false, false));
    assert_eq!(
        client.attack_or_defend_choice(user_1.clone(), 1, name.clone()),
        Err(GameError::BattleNotStarted)
    );
}

#[test]
fn seat_two_wins_when_seat_one_cannot_finish() {
    let (_c, user_1, user_2, mut client) = setup_test();
    let name = String::from("arena");
    started(&mut client, &name, &user_1, &user_2);
    client.increase_attack(user_2.clone(), 90);
    client.attack_or_defend_choice(user_2.clone(), 1, name.clone()).unwrap();
    client.attack_or_defend_choice(user_1.clone(), 1, name.clone()).unwrap();
    let b = client.get_battle(&name);
    assert_eq!(b.battle_status, BattleStatus::Ended);
    assert_eq!(b.winner, user_2);
    assert!(!client.get_player_stats(&user_1).in_battle);
    assert!(!client.get_player_stats(&user_2).in_battle);
}

#[test]
fn mutual_attack_trades_damage() {
    let (_c, user_1, user_2, mut client) = setup_test();
    let name = String::from("arena");
    started(&mut client, &name, &user_1, &user_2);
    client.attack_or_defend_choice(user_1.clone(), 1, name.clone()).unwrap();
    client.attack_or_defend_choice(user_2.clone(), 1, name.clone()).unwrap();
    assert_eq!(client.get_player_stats(&user_1).health, 90);
    assert_eq!(client.get_player_stats(&user_2).health, 90);
    let b = client.get_battle(&name);
    assert_eq!(b.battle_status, BattleStatus::Started);
    assert_eq!((b.move_one, b.move_two), (Move::NoMove, Move::NoMove));
}

#[test]
fn both_defend_heals_two() {
    let (_c, user_1, user_2, mut client) = setup_test();
    let name = String::from("arena");
    started(&mut client, &name, &user_1, &user_2);
    client.attack_or_defend_choice(user_2.clone(), 2, name.clone()).unwrap();
    client.attack_or_defend_choice(user_1.clone(), 2, name.clone()).unwrap();
    assert_eq!(client.get_player_stats(&user_1).health, 102);
    assert_eq!(client.get_player_stats(&user_2).health, 102);
    let b = client.get_battle(&name);
    assert_eq!(b.battle_status, BattleStatus::Started);
    assert_eq!((b.move_one, b.move_two), (Move::NoMove, Move::NoMove));
}

#[test]
fn attack_against_defense() {
    let (_c, user_1, user_2, mut client) = setup_test();
    let name = String::from("arena");
    client.add_player(user_1.clone()).unwrap();
    client.forge_blade(user_1.clone(), 2).unwrap();
    client.add_player(user_2.clone()).unwrap();
    client.create_battle(name.clone(), user_1.clone()).unwrap();
    client.join_battle(name.clone(), user_2.clone()).unwrap();
    client.attack_or_defend_choice(user_1.clone(), 1, name.clone()).unwrap();
    client.attack_or_defend_choice(user_2.clone(), 2, name.clone()).unwrap();
    // 100 + 10 - 26
    assert_eq!(client.get_player_stats(&user_2).health, 84);
    assert_eq!(client.get_player_stats(&user_1).health, 97);
    // A defense above the blow absorbs it whole.
    client.attack_or_defend_choice(user_1.clone(), 2, name.clone()).unwrap();
    client.attack_or_defend_choice(user_2.clone(), 1, name.clone()).unwrap();
    assert_eq!(client.get_player_stats(&user_1).health, 97);
}

#[test]
fn set_then_get_round_trip() {
    let (_c, user_1, _u2, mut client) = setup_test();
    let p = stat("GELSEWHERE", 3, 55, 66, 77, true, true);
    client.set_player_stats(user_1.clone(), p.clone());
    assert_eq!(client.get_player_stats(&user_1), p);
}
