use komodo_dpow::block::Height;
use komodo_dpow::komodo_hardfork::{
    komodo_check_notary_node_output, komodo_get_notary_id_for_height,
    komodo_get_notary_id_for_timestamp, komodo_is_notary_node_output, komodo_is_notary_pubkey,
    komodo_s1_hardfork_height, komodo_s6_hardfork_height, notary_position, NNData,
    NotaryDataError, NotaryTableError, KMD_SEASON_HEIGHTS, KMD_SEASON_TIMESTAMPS,
};
use komodo_dpow::komodo_notaries::{NOTARIES_ELECTED_SOURCE, NUM_KMD_NOTARIES, NUM_KMD_SEASONS};
use komodo_dpow::komodo_utils::{
    parse_p2pk, public_key_from_hex, InvalidPublicKey, PublicKey, OP_CHECKSIG, OP_PUSH_33,
};
use komodo_dpow::serialization::DateTime32;
use komodo_dpow::transparent::{Output, Script};
use komodo_dpow::value_balance::Amount;

const ARTIK_EU: &str = "03f54b2c24f82632e3cdebe4568ba0acf487a80f8a89779173cdb78f74514847ce";
const JL777_TEST_B: &str = "02ebfc784a4ba768aad88d44d1045d240d47b26e248cafaf1c5169a42d7a61d344";
const DRAGONHOUND_DEV: &str = "038e010c33c56b61389409eea5597fe17967398731e23185c84c472a16fc5d34ab";

fn key(text: &str) -> PublicKey {
    PublicKey::from_slice(hex::decode(text).expect("decode hex").as_ref()).unwrap()
}

fn p2pk_output(text: &str) -> Output {
    let mut raw = vec![OP_PUSH_33];
    raw.extend_from_slice(&hex::decode(text).expect("decode hex"));
    raw.push(OP_CHECKSIG);
    Output { value: Amount(5000), lock_script: Script::new(&raw) }
}

#[test]
fn nn_spk_height_season_0() {
    let pk = PublicKey::from_slice(
        hex::decode("03f54b2c24f82632e3cdebe4568ba0acf487a80f8a89779173cdb78f74514847ce")
            .expect("decode hex")
            .as_ref(),
    )
    .unwrap();

    if let Ok(nndata) = NNData::new() {
        assert!(
            nndata
                .komodo_get_notary_id_for_height(&Height(814000 - 1), &pk)
                .expect("valid season for height")
                .is_some(),
            "notary pubkey check broken"
        );
    } else {
        assert!(false, "no nn pubkeys initialised");
    }
}

#[test]
fn nn_spk_height_season_64105() {
    let pk = PublicKey::from_slice(
        hex::decode("033fb7231bb66484081952890d9a03f91164fb27d392d9152ec41336b71b15fbd0")
            .expect("decode hex")
            .as_ref(),
    )
    .unwrap();

    if let Ok(nndata) = NNData::new() {
        assert!(
            nndata
                .komodo_get_notary_id_for_height(&Height(64105), &pk)
                .expect("valid season for height")
                .is_none(),
            "notary pubkey check broken"
        );
    } else {
        assert!(false, "no nn pubkeys initialised");
    }
}

#[test]
fn nn_spk_timestamp_season_0() {
    let pk = PublicKey::from_slice(
        hex::decode("03f54b2c24f82632e3cdebe4568ba0acf487a80f8a89779173cdb78f74514847ce")
            .expect("decode hex")
            .as_ref(),
    )
    .unwrap();

    if let Ok(nndata) = NNData::new() {
        assert!(
            nndata
                .komodo_get_notary_id_for_timestamp(&DateTime32::from(1525132800 - 1), &pk)
                .expect("valid season for timestamp")
                .is_some(),
            "notary pubkey check broken"
        );
    } else {
        assert!(false, "no nn pubkeys initialised");
    }
}

#[test]
fn table_has_seven_seasons_of_sixty_four() {
    assert_eq!(NUM_KMD_SEASONS, 7);
    assert_eq!(NUM_KMD_NOTARIES, 64);
    assert_eq!(NOTARIES_ELECTED_SOURCE.len(), 7);
    for season in NOTARIES_ELECTED_SOURCE.iter() {
        assert_eq!(season.len(), 64);
    }
    let rosters = NNData::init_nn_pubkeys().expect("every key decodes");
    assert_eq!(rosters.len(), 7);
    for (s, roster) in rosters.iter().enumerate() {
        assert_eq!(roster.len(), 64);
        for (j, entry) in roster.iter().enumerate() {
            assert_eq!(entry.0, NOTARIES_ELECTED_SOURCE[s][j].0);
            assert_eq!(
                hex::encode(entry.1.serialize()),
                NOTARIES_ELECTED_SOURCE[s][j].1
            );
        }
    }
}

#[test]
fn season_bounds_are_the_published_ones() {
    assert_eq!(
        KMD_SEASON_HEIGHTS,
        [814000, 1444000, 1670000, 1922000, 2437300, 2963330, 7113400]
    );
    assert_eq!(
        KMD_SEASON_TIMESTAMPS,
        [1525132800, 1563148800, 1576840000, 1592146800, 1623682800, 1656077853, 1751328000]
    );
}

#[test]
fn every_height_up_to_the_last_bound_has_its_season() {
    let nndata = NNData::new().expect("table decodes");
    let rosters = NNData::init_nn_pubkeys().expect("table decodes");
    for (s, bound) in KMD_SEASON_HEIGHTS.iter().enumerate() {
        let at_bound = nndata.get_kmd_season(&Height(*bound)).expect("season at its bound");
        assert_eq!(at_bound, &rosters[s]);
        if s + 1 < KMD_SEASON_HEIGHTS.len() {
            let after = nndata.get_kmd_season(&Height(*bound + 1)).expect("next season");
            assert_eq!(after, &rosters[s + 1]);
        }
        if s > 0 {
            let lowest = nndata
                .get_kmd_season(&Height(KMD_SEASON_HEIGHTS[s - 1] + 1))
                .expect("lowest height of the season");
            assert_eq!(lowest, &rosters[s]);
        }
    }
    assert_eq!(nndata.get_kmd_season(&Height(0)).expect("height 0"), &rosters[0]);
}

#[test]
fn no_season_above_the_last_height() {
    let nndata = NNData::new().expect("table decodes");
    assert!(nndata.get_kmd_season(&Height(7113400)).is_ok());
    assert_eq!(
        nndata.get_kmd_season(&Height(7113401)).unwrap_err(),
        NotaryDataError::NoSeasonForHeight
    );
    assert_eq!(
        nndata.get_kmd_season(&Height(u32::MAX)).unwrap_err(),
        NotaryDataError::NoSeasonForHeight
    );
    assert_eq!(
        nndata.komodo_get_notary_id_for_height(&Height(7113401), &key(ARTIK_EU)),
        Err(NotaryDataError::NoSeasonForHeight)
    );
}

#[test]
fn every_time_up_to_the_last_bound_has_its_season() {
    let nndata = NNData::new().expect("table decodes");
    let rosters = NNData::init_nn_pubkeys().expect("table decodes");
    for (s, bound) in KMD_SEASON_TIMESTAMPS.iter().enumerate() {
        let at_bound = nndata.get_ac_season(&DateTime32::from(*bound)).expect("season at its bound");
        assert_eq!(at_bound, &rosters[s]);
        if s + 1 < KMD_SEASON_TIMESTAMPS.len() {
            let after = nndata
                .get_ac_season(&DateTime32::from(*bound + 1))
                .expect("next season");
            assert_eq!(after, &rosters[s + 1]);
        }
    }
}

#[test]
fn no_season_after_the_last_time() {
    let nndata = NNData::new().expect("table decodes");
    assert_eq!(
        nndata.get_ac_season(&DateTime32::from(1751328001)).unwrap_err(),
        NotaryDataError::NoSeasonForTimestamp
    );
    assert_eq!(
        nndata.komodo_get_notary_id_for_timestamp(&DateTime32::from(1751328001), &key(ARTIK_EU)),
        Err(NotaryDataError::NoSeasonForTimestamp)
    );
}

#[test]
fn heights_and_times_are_looked_up_apart() {
    let nndata = NNData::new().expect("table decodes");
    // Season 0 by height, season 1 by time.
    let pk = key(JL777_TEST_B);
    assert_eq!(nndata.komodo_get_notary_id_for_height(&Height(814000), &pk), Ok(Some(1)));
    assert_eq!(
        nndata.komodo_get_notary_id_for_timestamp(&DateTime32::from(1525132801), &pk),
        Ok(None)
    );
}

#[test]
fn notary_id_is_the_seat_in_the_season() {
    let nndata = NNData::new().expect("table decodes");
    let pk = key(ARTIK_EU);
    assert_eq!(nndata.komodo_get_notary_id_for_height(&Height(813999), &pk), Ok(Some(4)));
    assert_eq!(nndata.komodo_get_notary_id_for_height(&Height(814000), &pk), Ok(Some(4)));
    // The same key sits elsewhere in the next season.
    assert_eq!(nndata.komodo_get_notary_id_for_height(&Height(814001), &pk), Ok(Some(6)));
    assert_eq!(nndata.komodo_get_notary_id_for_height(&Height(1444000), &pk), Ok(Some(6)));
    // And nowhere in the one after.
    assert_eq!(nndata.komodo_get_notary_id_for_height(&Height(1444001), &pk), Ok(None));
    assert_eq!(
        nndata.komodo_get_notary_id_for_height(&Height(7113400), &key(DRAGONHOUND_DEV)),
        Ok(Some(63))
    );
    assert_eq!(
        nndata.komodo_get_notary_id_for_timestamp(&DateTime32::from(1525132800), &pk),
        Ok(Some(4))
    );
    assert_eq!(
        nndata.komodo_get_notary_id_for_timestamp(&DateTime32::from(1525132801), &pk),
        Ok(Some(6))
    );
}

#[test]
fn membership_flips_at_the_bound_of_a_season() {
    let nndata = NNData::new().expect("table decodes");
    let pk = key(JL777_TEST_B);
    assert_eq!(nndata.komodo_get_notary_id_for_height(&Height(814000), &pk), Ok(Some(1)));
    assert_eq!(nndata.komodo_get_notary_id_for_height(&Height(814001), &pk), Ok(None));
    assert!(komodo_is_notary_pubkey(Some(&nndata), &Height(814000), &pk));
    assert!(!komodo_is_notary_pubkey(Some(&nndata), &Height(814001), &pk));
}

#[test]
fn every_seat_of_every_season_is_found() {
    let nndata = NNData::new().expect("table decodes");
    for (s, bound) in KMD_SEASON_HEIGHTS.iter().enumerate() {
        for (j, entry) in NOTARIES_ELECTED_SOURCE[s].iter().enumerate() {
            assert_eq!(
                nndata.komodo_get_notary_id_for_height(&Height(*bound), &key(entry.1)),
                Ok(Some(j as u32))
            );
        }
    }
}

#[test]
fn position_in_a_season_is_the_first_seat() {
    let rosters = NNData::init_nn_pubkeys().expect("table decodes");
    assert_eq!(notary_position(&rosters[0], &key(ARTIK_EU)), Some(4));
    assert_eq!(notary_position(&rosters[2], &key(ARTIK_EU)), None);
    let mut doubled = rosters[0].clone();
    doubled[10] = doubled[4];
    assert_eq!(notary_position(&doubled, &key(ARTIK_EU)), Some(4));
}

#[test]
fn unreachable_notary_data_is_reported() {
    let pk = key(ARTIK_EU);
    assert_eq!(
        komodo_get_notary_id_for_height(None, &Height(1), &pk),
        Err(NotaryDataError::NoNotaryPubkeysInitialised)
    );
    assert_eq!(
        komodo_get_notary_id_for_timestamp(None, &DateTime32::from(1), &pk),
        Err(NotaryDataError::NoNotaryPubkeysInitialised)
    );
    assert_eq!(komodo_s6_hardfork_height(None), Err(NotaryDataError::NoNotaryPubkeysInitialised));
    assert_eq!(komodo_s1_hardfork_height(None), Err(NotaryDataError::NoNotaryPubkeysInitialised));
    assert!(!komodo_is_notary_pubkey(None, &Height(1), &pk));
    assert!(!komodo_is_notary_node_output(None, &Height(1), &p2pk_output(ARTIK_EU)));
    assert_eq!(
        komodo_check_notary_node_output(None, &Height(1), &p2pk_output(ARTIK_EU)),
        Ok(false)
    );
}

#[test]
fn reachable_notary_data_answers() {
    let nndata = NNData::new().expect("table decodes");
    let pk = key(ARTIK_EU);
    assert_eq!(komodo_get_notary_id_for_height(Some(&nndata), &Height(1), &pk), Ok(Some(4)));
    assert_eq!(
        komodo_get_notary_id_for_timestamp(Some(&nndata), &DateTime32::from(1563148800), &pk),
        Ok(Some(6))
    );
    assert_eq!(
        komodo_get_notary_id_for_height(Some(&nndata), &Height(8000000), &pk),
        Err(NotaryDataError::NoSeasonForHeight)
    );
    assert_eq!(
        komodo_get_notary_id_for_timestamp(Some(&nndata), &DateTime32::from(u32::MAX), &pk),
        Err(NotaryDataError::NoSeasonForTimestamp)
    );
}

#[test]
fn hardfork_heights() {
    let nndata = NNData::new().expect("table decodes");
    assert_eq!(komodo_s6_hardfork_height(Some(&nndata)), Ok(Height(2963330)));
    assert_eq!(komodo_s1_hardfork_height(Some(&nndata)), Ok(Height(1670000)));
    assert_eq!(nndata.s6_hardfork_height(), Height(2963330));
    assert_eq!(nndata.december_hardfork_height(), Height(1670000));
}

#[test]
fn notary_output_is_a_pay_to_public_key_of_a_notary() {
    let nndata = NNData::new().expect("table decodes");
    assert!(komodo_is_notary_node_output(Some(&nndata), &Height(814000), &p2pk_output(ARTIK_EU)));
    assert!(komodo_is_notary_node_output(Some(&nndata), &Height(814001), &p2pk_output(ARTIK_EU)));
    assert!(!komodo_is_notary_node_output(
        Some(&nndata),
        &Height(1444001),
        &p2pk_output(ARTIK_EU)
    ));
    assert!(!komodo_is_notary_node_output(
        Some(&nndata),
        &Height(814001),
        &p2pk_output(JL777_TEST_B)
    ));
}

#[test]
fn other_scripts_are_no_notary_outputs() {
    let nndata = NNData::new().expect("table decodes");
    let mut raw = vec![OP_PUSH_33];
    raw.extend_from_slice(&hex::decode(ARTIK_EU).unwrap());
    raw.push(OP_CHECKSIG);

    let empty = Output { value: Amount(1), lock_script: Script::new(&[]) };
    assert!(!komodo_is_notary_node_output(Some(&nndata), &Height(1), &empty));

    let mut trailing = raw.clone();
    trailing.push(0);
    let output = Output { value: Amount(1), lock_script: Script::new(&trailing) };
    assert!(!komodo_is_notary_node_output(Some(&nndata), &Height(1), &output));

    let mut no_checksig = raw.clone();
    no_checksig[34] = 0xad;
    let output = Output { value: Amount(1), lock_script: Script::new(&no_checksig) };
    assert!(!komodo_is_notary_node_output(Some(&nndata), &Height(1), &output));

    let mut wrong_push = raw.clone();
    wrong_push[0] = 0x20;
    let output = Output { value: Amount(1), lock_script: Script::new(&wrong_push) };
    assert!(!komodo_is_notary_node_output(Some(&nndata), &Height(1), &output));

    // The shape of a pay-to-public-key script around bytes that are no key.
    let mut no_key = vec![OP_PUSH_33];
    no_key.extend_from_slice(&[0u8; 33]);
    no_key.push(OP_CHECKSIG);
    let output = Output { value: Amount(1), lock_script: Script::new(&no_key) };
    assert!(!komodo_is_notary_node_output(Some(&nndata), &Height(1), &output));
    // No key is read, so the height needs no season.
    assert!(!komodo_is_notary_node_output(Some(&nndata), &Height(u32::MAX), &output));
    assert_eq!(
        komodo_check_notary_node_output(Some(&nndata), &Height(u32::MAX), &output),
        Ok(false)
    );
}

#[test]
fn checked_notary_output_reports_a_height_without_season() {
    let nndata = NNData::new().expect("table decodes");
    assert_eq!(
        komodo_check_notary_node_output(Some(&nndata), &Height(814000), &p2pk_output(ARTIK_EU)),
        Ok(true)
    );
    assert_eq!(
        komodo_check_notary_node_output(Some(&nndata), &Height(1444001), &p2pk_output(ARTIK_EU)),
        Ok(false)
    );
    assert_eq!(
        komodo_check_notary_node_output(Some(&nndata), &Height(7113401), &p2pk_output(ARTIK_EU)),
        Err(NotaryDataError::NoSeasonForHeight)
    );
}

#[test]
fn parse_p2pk_takes_the_key_out() {
    let output = p2pk_output(ARTIK_EU);
    assert_eq!(parse_p2pk(&output.lock_script), Some(key(ARTIK_EU)));
    assert_eq!(parse_p2pk(&Script::new(&[OP_PUSH_33, OP_CHECKSIG])), None);
}

#[test]
fn keys_are_read_from_both_encodings() {
    let compressed = hex::decode(ARTIK_EU).unwrap();
    let outside = secp256k1::PublicKey::from_slice(&compressed).expect("a key");
    let uncompressed = outside.serialize_uncompressed();
    assert_eq!(uncompressed.len(), 65);
    let from_uncompressed = PublicKey::from_slice(&uncompressed).expect("a key");
    let from_compressed = PublicKey::from_slice(&compressed).expect("a key");
    assert_eq!(from_uncompressed, from_compressed);
    assert!(from_uncompressed.same(&from_compressed));
    assert_eq!(from_uncompressed.serialize().to_vec(), compressed);
    assert_eq!(from_compressed.serialize(), outside.serialize());
    assert!(!from_compressed.same(&key(JL777_TEST_B)));
}

#[test]
fn bytes_that_are_no_key_are_refused() {
    assert_eq!(PublicKey::from_slice(&[]), Err(InvalidPublicKey));
    assert_eq!(PublicKey::from_slice(&[0u8; 33]), Err(InvalidPublicKey));
    assert_eq!(PublicKey::from_slice(&[2u8; 32]), Err(InvalidPublicKey));
    let mut bytes = hex::decode(ARTIK_EU).unwrap();
    bytes[0] = 0x05;
    assert_eq!(PublicKey::from_slice(&bytes), Err(InvalidPublicKey));
}

#[test]
fn keys_are_read_from_hex_text() {
    assert_eq!(public_key_from_hex(ARTIK_EU), Some(key(ARTIK_EU)));
    assert_eq!(public_key_from_hex(&ARTIK_EU.to_uppercase()), Some(key(ARTIK_EU)));
    assert_eq!(
        public_key_from_hex(ARTIK_EU).unwrap().serialize().to_vec(),
        vec![
            0x03, 0xf5, 0x4b, 0x2c, 0x24, 0xf8, 0x26, 0x32, 0xe3, 0xcd, 0xeb, 0xe4, 0x56, 0x8b,
            0xa0, 0xac, 0xf4, 0x87, 0xa8, 0x0f, 0x8a, 0x89, 0x77, 0x91, 0x73, 0xcd, 0xb7, 0x8f,
            0x74, 0x51, 0x48, 0x47, 0xce
        ]
    );
    // An odd number of digits.
    assert_eq!(public_key_from_hex(&ARTIK_EU[1..]), None);
    // A byte that is no digit.
    assert_eq!(public_key_from_hex(&ARTIK_EU.replace("f5", "g5")), None);
    // Hex text of bytes that are no key.
    assert_eq!(public_key_from_hex("00"), None);
    assert_eq!(public_key_from_hex(""), None);
}

#[test]
fn a_season_is_decoded_from_its_source() {
    let roster = NNData::decode_season(&NOTARIES_ELECTED_SOURCE[3]).expect("season decodes");
    assert_eq!(roster.len(), 64);
    assert_eq!(roster[3].0, "hunter_EU");
    assert_eq!(
        roster[3].1,
        key("0378224b4e9d8a0083ce36f2963ec0a4e231ec06b0c780de108e37f41181a89f6a")
    );
}

#[test]
fn a_season_of_another_size_is_refused() {
    assert_eq!(
        NNData::decode_season(&NOTARIES_ELECTED_SOURCE[0][..63]),
        Err(NotaryTableError::WrongRosterSize)
    );
    assert_eq!(NNData::decode_season(&[]), Err(NotaryTableError::WrongRosterSize));
    let mut longer = NOTARIES_ELECTED_SOURCE[0].to_vec();
    longer.push(("one_more", ARTIK_EU));
    assert_eq!(NNData::decode_season(&longer), Err(NotaryTableError::WrongRosterSize));
    // The size is looked at before the keys.
    assert_eq!(
        NNData::decode_season(&[("bad", "zz")]),
        Err(NotaryTableError::WrongRosterSize)
    );
}

#[test]
fn a_season_with_a_broken_key_is_refused() {
    let mut source = NOTARIES_ELECTED_SOURCE[0].to_vec();
    source[17] = ("broken", "03zz");
    assert_eq!(NNData::decode_season(&source), Err(NotaryTableError::UndecodableKey));
    let mut source = NOTARIES_ELECTED_SOURCE[0].to_vec();
    source[63] = (
        "no_point",
        "050000000000000000000000000000000000000000000000000000000000000000",
    );
    assert_eq!(NNData::decode_season(&source), Err(NotaryTableError::UndecodableKey));
}

fn heights(numbers: &[u32]) -> Vec<Height> {
    numbers.iter().map(|n| Height(*n)).collect()
}

fn times(numbers: &[u32]) -> Vec<DateTime32> {
    numbers.iter().map(|n| DateTime32::from(*n)).collect()
}

#[test]
fn notary_data_is_made_from_parts() {
    let rosters = NNData::init_nn_pubkeys().expect("table decodes");
    let nndata = NNData::from_parts(
        times(&[10, 20, 30, 40, 50, 60, 70]),
        heights(&[1, 2, 3, 4, 5, 6, 7]),
        rosters,
    )
    .expect("a table of seasons");
    let pk = key(ARTIK_EU);
    assert_eq!(nndata.komodo_get_notary_id_for_height(&Height(0), &pk), Ok(Some(4)));
    assert_eq!(nndata.komodo_get_notary_id_for_height(&Height(1), &pk), Ok(Some(4)));
    assert_eq!(nndata.komodo_get_notary_id_for_height(&Height(2), &pk), Ok(Some(6)));
    assert_eq!(nndata.komodo_get_notary_id_for_height(&Height(3), &pk), Ok(None));
    assert_eq!(
        nndata.komodo_get_notary_id_for_height(&Height(8), &pk),
        Err(NotaryDataError::NoSeasonForHeight)
    );
    assert_eq!(
        nndata.komodo_get_notary_id_for_timestamp(&DateTime32::from(11), &pk),
        Ok(Some(6))
    );
    assert_eq!(nndata.s6_hardfork_height(), Height(6));
    assert_eq!(nndata.december_hardfork_height(), Height(3));
}

#[test]
fn malformed_season_tables_are_refused() {
    let rosters = || NNData::init_nn_pubkeys().expect("table decodes");
    let good_times = [10, 20, 30, 40, 50, 60, 70];
    let good_heights = [1, 2, 3, 4, 5, 6, 7];
    // Too few heights.
    assert_eq!(
        NNData::from_parts(times(&good_times), heights(&good_heights[..6]), rosters()).unwrap_err(),
        NotaryTableError::MalformedSeasonTable
    );
    // Too many times.
    assert_eq!(
        NNData::from_parts(
            times(&[10, 20, 30, 40, 50, 60, 70, 80]),
            heights(&good_heights),
            rosters()
        )
        .unwrap_err(),
        NotaryTableError::MalformedSeasonTable
    );
    // Too few rosters.
    let mut six = rosters();
    six.pop();
    assert_eq!(
        NNData::from_parts(times(&good_times), heights(&good_heights), six).unwrap_err(),
        NotaryTableError::MalformedSeasonTable
    );
    // Heights that do not grow.
    assert_eq!(
        NNData::from_parts(times(&good_times), heights(&[1, 2, 3, 3, 5, 6, 7]), rosters())
            .unwrap_err(),
        NotaryTableError::MalformedSeasonTable
    );
    // Times that fall.
    assert_eq!(
        NNData::from_parts(times(&[10, 20, 30, 40, 50, 70, 60]), heights(&good_heights), rosters())
            .unwrap_err(),
        NotaryTableError::MalformedSeasonTable
    );
}

#[test]
fn a_table_with_a_short_roster_is_refused() {
    let mut rosters = NNData::init_nn_pubkeys().expect("table decodes");
    rosters[5].pop();
    assert_eq!(
        NNData::from_parts(
            times(&[10, 20, 30, 40, 50, 60, 70]),
            heights(&[1, 2, 3, 4, 5, 6, 7]),
            rosters
        )
        .unwrap_err(),
        NotaryTableError::WrongRosterSize
    );
}

#[test]
fn errors_in_words() {
    assert_eq!(
        NotaryDataError::NoNotaryPubkeysInitialised.message(),
        "no notary pubkeys initialised"
    );
    assert_eq!(NotaryDataError::NoSeasonForHeight.message(), "no season for height");
    assert_eq!(NotaryDataError::NoSeasonForTimestamp.message(), "no season for timestamp");
}
