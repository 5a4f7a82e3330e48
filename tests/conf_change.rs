use confchange_bridge::auth::SolrBasicAuth;
use confchange_bridge::bridge::RefStore;
use confchange_bridge::change::{
    ConfChange, ConfChangeSingle, ConfChangeTransition, ConfChangeType, ConfChangeV2,
};
use confchange_bridge::codec::{
    decode_conf_change, decode_conf_change_v2, encode_conf_change, encode_conf_change_v2,
    merge_conf_change,
};
use confchange_bridge::conf_change::PyConfChange;
use confchange_bridge::convert::{new_conf_change_single, to_joint, to_single};
use confchange_bridge::error::ConfChangeError;

fn sample() -> ConfChange {
    ConfChange {
        id: 3,
        node_id: 7,
        change_type: ConfChangeType::AddLearnerNode,
        context: b"hello".to_vec(),
    }
}

#[test]
fn scenario_encode_decode_and_convert() {
    let mut cc = sample();
    let bytes = encode_conf_change(&cc);
    let back = decode_conf_change(&bytes).unwrap();
    assert!(back.equals(&cc));
    assert_eq!(back, cc);

    let joint = to_joint(&mut cc);
    let expected = ConfChangeV2 {
        changes: vec![ConfChangeSingle { node_id: 7, change_type: ConfChangeType::AddLearnerNode }],
        context: b"hello".to_vec(),
        transition: None,
    };
    assert!(joint.equals(&expected));
    assert!(cc.context.is_empty());
    assert_eq!(cc.id, 3);
    assert_eq!(cc.node_id, 7);
}

#[test]
fn encode_exact_bytes_single() {
    let bytes = encode_conf_change(&sample());
    assert_eq!(bytes, vec![0x08, 3, 0x10, 2, 0x18, 7, 0x22, 5, b'h', b'e', b'l', b'l', b'o']);
}

#[test]
fn encode_default_is_empty() {
    assert!(encode_conf_change(&ConfChange::new()).is_empty());
    assert!(encode_conf_change_v2(&ConfChangeV2::new()).is_empty());
}

#[test]
fn encode_multi_byte_varint() {
    let mut cc = ConfChange::new();
    cc.id = 300;
    assert_eq!(encode_conf_change(&cc), vec![0x08, 0xAC, 0x02]);
    cc.id = u64::MAX;
    let bytes = encode_conf_change(&cc);
    assert_eq!(bytes.len(), 11);
    assert_eq!(decode_conf_change(&bytes).unwrap().id, u64::MAX);
}

#[test]
fn encode_exact_bytes_joint() {
    let v = ConfChangeV2 {
        changes: vec![
            ConfChangeSingle { node_id: 1, change_type: ConfChangeType::AddNode },
            ConfChangeSingle { node_id: 2, change_type: ConfChangeType::RemoveNode },
        ],
        context: vec![9],
        transition: Some(ConfChangeTransition::Auto),
    };
    let bytes = encode_conf_change_v2(&v);
    assert_eq!(
        bytes,
        vec![0x0A, 2, 0x10, 1, 0x0A, 4, 0x08, 1, 0x10, 2, 0x12, 1, 9, 0x18, 0]
    );
    let back = decode_conf_change_v2(&bytes).unwrap();
    assert!(back.equals(&v));
}

#[test]
fn round_trip_single_values() {
    let values = vec![
        ConfChange::new(),
        sample(),
        ConfChange { id: 0, node_id: 1 << 40, change_type: ConfChangeType::AddLearnerNodeV2, context: vec![0; 200] },
        ConfChange { id: u64::MAX, node_id: 0, change_type: ConfChangeType::RemoveNode, context: vec![] },
    ];
    for v in values {
        let back = decode_conf_change(&encode_conf_change(&v)).unwrap();
        assert!(back.equals(&v));
    }
}

#[test]
fn round_trip_joint_values() {
    let values = vec![
        ConfChangeV2::new(),
        ConfChangeV2 {
            changes: vec![ConfChangeSingle { node_id: 0, change_type: ConfChangeType::AddNode }],
            context: vec![],
            transition: Some(ConfChangeTransition::Explicit),
        },
        ConfChangeV2 {
            changes: vec![
                new_conf_change_single(5, ConfChangeType::AddLearnerNode),
                new_conf_change_single(u64::MAX, ConfChangeType::AddLearnerNodeV2),
                new_conf_change_single(300, ConfChangeType::RemoveNode),
            ],
            context: b"ctx".to_vec(),
            transition: Some(ConfChangeTransition::Implicit),
        },
    ];
    for v in values {
        let back = decode_conf_change_v2(&encode_conf_change_v2(&v)).unwrap();
        assert!(back.equals(&v));
    }
}

#[test]
fn decode_three_truncated_bytes() {
    assert_eq!(decode_conf_change(&[0x22, 0x05, b'h']), Err(ConfChangeError::DecodeError));
    assert_eq!(decode_conf_change(&[0x08, 0x96, 0x81]), Err(ConfChangeError::DecodeError));
    assert_eq!(decode_conf_change_v2(&[0x0A, 0x04, 0x08]), Err(ConfChangeError::DecodeError));
}

#[test]
fn decode_rejects_malformed() {
    // change type outside the closed set
    assert_eq!(decode_conf_change(&[0x10, 9]), Err(ConfChangeError::DecodeError));
    // field number zero
    assert_eq!(decode_conf_change(&[0x00, 1]), Err(ConfChangeError::DecodeError));
    // a known field with the wrong wire type
    assert_eq!(decode_conf_change(&[0x0A, 1, 1]), Err(ConfChangeError::DecodeError));
    // wire type that cannot be skipped
    assert_eq!(decode_conf_change(&[0x2B]), Err(ConfChangeError::DecodeError));
    // a varint of eleven bytes
    let mut long = vec![0x08];
    long.extend(vec![0x80; 10]);
    long.push(0x01);
    assert_eq!(decode_conf_change(&long), Err(ConfChangeError::DecodeError));
    // transition mode outside its set
    assert_eq!(decode_conf_change_v2(&[0x18, 3]), Err(ConfChangeError::DecodeError));
}

#[test]
fn decode_skips_unknown_fields() {
    // field 9 as varint, field 10 as 8 bytes, field 11 as bytes, field 12 as 4 bytes
    let bytes = vec![
        0x48, 0x05, 0x51, 1, 2, 3, 4, 5, 6, 7, 8, 0x5A, 2, 0xFF, 0xFF, 0x65, 1, 2, 3, 4, 0x18, 7,
    ];
    let c = decode_conf_change(&bytes).unwrap();
    let mut expected = ConfChange::new();
    expected.node_id = 7;
    assert!(c.equals(&expected));
}

#[test]
fn decode_last_field_wins() {
    let c = decode_conf_change(&[0x08, 1, 0x08, 2]).unwrap();
    assert_eq!(c.id, 2);
}

#[test]
fn merge_overwrites_present_fields_only() {
    let mut target = sample();
    merge_conf_change(&mut target, &[0x18, 9]).unwrap();
    assert_eq!(target.node_id, 9);
    assert_eq!(target.id, 3);
    assert_eq!(target.context, b"hello".to_vec());
    let before = target.clone();
    assert_eq!(merge_conf_change(&mut target, &[0x18]), Err(ConfChangeError::DecodeError));
    assert_eq!(target, before);
}

#[test]
fn conversion_loses_id_only() {
    let mut x = sample();
    let original = x.clone();
    let joint = to_joint(&mut x);
    let single = to_single(&joint).unwrap();
    assert_eq!(single.id, 0);
    assert_eq!(single.node_id, original.node_id);
    assert_eq!(single.change_type, original.change_type);
    assert_eq!(single.context, original.context);
    assert!(!single.equals(&original));
}

#[test]
fn to_single_unsupported() {
    let two = ConfChangeV2 {
        changes: vec![
            new_conf_change_single(1, ConfChangeType::AddNode),
            new_conf_change_single(2, ConfChangeType::AddNode),
        ],
        context: vec![],
        transition: None,
    };
    assert_eq!(to_single(&two), Err(ConfChangeError::UnsupportedConversion));
    let none = ConfChangeV2::new();
    assert_eq!(to_single(&none), Err(ConfChangeError::UnsupportedConversion));
    let with_mode = ConfChangeV2 {
        changes: vec![new_conf_change_single(1, ConfChangeType::AddNode)],
        context: vec![],
        transition: Some(ConfChangeTransition::Auto),
    };
    assert_eq!(to_single(&with_mode), Err(ConfChangeError::UnsupportedConversion));
}

#[test]
fn handle_stale_after_replace() {
    let mut store = RefStore::new();
    let owner = PyConfChange::new(&mut store);
    let h = owner.make_ref(&store);
    assert_eq!(h.set_id(&mut store, 5), Ok(()));
    assert_eq!(h.get_id(&store), Ok(5));
    owner.replace(&mut store, sample());
    assert_eq!(h.get_id(&store), Err(ConfChangeError::StaleReference));
    assert_eq!(h.set_node_id(&mut store, 1), Err(ConfChangeError::StaleReference));
    assert_eq!(h.encode(&store), Err(ConfChangeError::StaleReference));
    assert!(!h.is_live(&store));
    let fresh = owner.make_ref(&store);
    assert_eq!(fresh.get_id(&store), Ok(3));
    assert_eq!(fresh.get_node_id(&store), Ok(7));
}

#[test]
fn handle_stale_after_release() {
    let mut store = RefStore::new();
    let owner = PyConfChange::decode(&mut store, &encode_conf_change(&sample())).unwrap();
    let h = owner.make_ref(&store);
    let value = owner.release(&mut store);
    assert!(value.equals(&sample()));
    assert_eq!(h.get_context(&store), Err(ConfChangeError::StaleReference));
    assert_eq!(h.clear_context(&mut store), Err(ConfChangeError::StaleReference));
    assert!(matches!(h.as_v1(&store), Err(ConfChangeError::StaleReference)));
}

#[test]
fn handles_alias_the_owner() {
    let mut store = RefStore::new();
    let owner = PyConfChange::default(&mut store);
    let h1 = owner.make_ref(&store);
    let h2 = owner.make_ref(&store);
    h1.set_node_id(&mut store, 42).unwrap();
    h1.set_context(&mut store, vec![1, 2, 3]).unwrap();
    assert_eq!(h2.get_node_id(&store), Ok(42));
    assert_eq!(h2.get_context(&store), Ok(vec![1, 2, 3]));
    let mut expected = ConfChange::new();
    expected.node_id = 42;
    expected.context = vec![1, 2, 3];
    assert!(owner.equals(&store, &expected));
    assert_eq!(h2.equals(&store, &expected), Ok(true));
}

#[test]
fn set_change_type_closed_set() {
    let mut store = RefStore::new();
    let owner = PyConfChange::new(&mut store);
    let h = owner.make_ref(&store);
    assert_eq!(h.set_change_type(&mut store, 2), Ok(()));
    assert_eq!(h.get_change_type(&store), Ok(ConfChangeType::AddLearnerNode));
    assert_eq!(h.set_change_type(&mut store, 4), Err(ConfChangeError::InvalidEnumValue));
    assert_eq!(h.get_change_type(&store), Ok(ConfChangeType::AddLearnerNode));
    assert_eq!(h.clear_change_type(&mut store), Ok(()));
    assert_eq!(h.get_change_type(&store), Ok(ConfChangeType::AddNode));
}

#[test]
fn clear_resets_defaults() {
    let mut store = RefStore::new();
    let owner = PyConfChange::new(&mut store);
    let h = owner.make_ref(&store);
    h.merge_from_bytes(&mut store, &encode_conf_change(&sample())).unwrap();
    h.clear_id(&mut store).unwrap();
    h.clear_node_id(&mut store).unwrap();
    h.clear_context(&mut store).unwrap();
    let mut expected = ConfChange::new();
    expected.change_type = ConfChangeType::AddLearnerNode;
    assert_eq!(h.equals(&store, &expected), Ok(true));
}

#[test]
fn handle_merge_from_bytes() {
    let mut store = RefStore::new();
    let owner = PyConfChange::new(&mut store);
    let h = owner.make_ref(&store);
    h.set_id(&mut store, 8).unwrap();
    h.merge_from_bytes(&mut store, &[0x22, 2, b'o', b'k']).unwrap();
    assert_eq!(h.get_id(&store), Ok(8));
    assert_eq!(h.get_context(&store), Ok(b"ok".to_vec()));
    assert_eq!(h.merge_from_bytes(&mut store, &[0x22, 9]), Err(ConfChangeError::DecodeError));
    assert_eq!(h.get_context(&store), Ok(b"ok".to_vec()));
}

#[test]
fn handle_into_v2_and_as_v2() {
    let mut store = RefStore::new();
    let mut joint = RefStore::new();
    let owner = PyConfChange::decode(&mut store, &encode_conf_change(&sample())).unwrap();
    let h = owner.make_ref(&store);

    let copy = h.as_v2(&store, &mut joint).unwrap();
    assert_eq!(h.get_context(&store), Ok(b"hello".to_vec()));
    let expected = ConfChangeV2 {
        changes: vec![ConfChangeSingle { node_id: 7, change_type: ConfChangeType::AddLearnerNode }],
        context: b"hello".to_vec(),
        transition: None,
    };
    assert_eq!(copy.encode(&joint), encode_conf_change_v2(&expected));

    let moved = h.into_v2(&mut store, &mut joint).unwrap();
    assert_eq!(h.get_context(&store), Ok(vec![]));
    assert_eq!(h.get_id(&store), Ok(3));
    assert_eq!(moved.encode(&joint), encode_conf_change_v2(&expected));

    let back = moved.as_v1(&joint, &mut store).unwrap();
    let r = back.make_ref(&store);
    assert_eq!(r.get_id(&store), Ok(0));
    assert_eq!(r.get_node_id(&store), Ok(7));
    assert_eq!(r.get_context(&store), Ok(b"hello".to_vec()));
}

#[test]
fn handle_clone_is_independent() {
    let mut store = RefStore::new();
    let owner = PyConfChange::new(&mut store);
    let h = owner.make_ref(&store);
    h.set_id(&mut store, 1).unwrap();
    let copy = h.clone(&mut store).unwrap();
    let c = copy.make_ref(&store);
    c.set_id(&mut store, 2).unwrap();
    assert_eq!(h.get_id(&store), Ok(1));
    assert_eq!(c.get_id(&store), Ok(2));
    assert_eq!(h.as_v1(&store).unwrap().unwrap().get_id(&store), Ok(1));
}

#[test]
fn joint_decode_owner_and_unsupported() {
    let mut store = RefStore::new();
    let mut joint = RefStore::new();
    let two = ConfChangeV2 {
        changes: vec![
            new_conf_change_single(1, ConfChangeType::AddNode),
            new_conf_change_single(2, ConfChangeType::RemoveNode),
        ],
        context: vec![],
        transition: None,
    };
    let owner = confchange_bridge::conf_change::PyConfChangeV2::decode(&mut joint, &encode_conf_change_v2(&two)).unwrap();
    let handle = owner.make_ref(&joint);
    assert!(joint.get(&handle).unwrap().equals(&two));
    assert!(matches!(owner.as_v1(&joint, &mut store), Err(ConfChangeError::UnsupportedConversion)));
}

#[test]
fn basic_auth_new() {
    let auth = SolrBasicAuth::new("solr", Some("SolrRocks"));
    assert_eq!(auth.username, "solr");
    assert_eq!(auth.password, Some("SolrRocks".to_string()));
    let anon = SolrBasicAuth::new("guest", None);
    assert_eq!(anon.username, "guest");
    assert_eq!(anon.password, None);
}

#[test]
fn format_renders_all_fields() {
    let text = confchange_bridge::format::format_confchange(&sample(), "b\"hello\"");
    assert_eq!(
        text,
        "ConfChange { change_type: AddLearnerNode, node_id: 7, context: b\"hello\", id: 3 }"
    );
    let mut big = ConfChange::new();
    big.node_id = 1234567890;
    big.id = u64::MAX;
    let text = confchange_bridge::format::format_confchange(&big, "[]");
    assert_eq!(
        text,
        "ConfChange { change_type: AddNode, node_id: 1234567890, context: [], id: 18446744073709551615 }"
    );
}

#[test]
fn handle_repr_checks_liveness() {
    let mut store = RefStore::new();
    let owner = PyConfChange::new(&mut store);
    let h = owner.make_ref(&store);
    assert_eq!(
        h.repr(&store, "[]"),
        Ok("ConfChange { change_type: AddNode, node_id: 0, context: [], id: 0 }".to_string())
    );
    owner.replace(&mut store, sample());
    assert_eq!(h.repr(&store, "[]"), Err(ConfChangeError::StaleReference));
}
