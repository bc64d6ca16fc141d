use celestia_da_client::blob::Commitment;
use celestia_da_client::blob_id::BlobId;
use celestia_da_client::hex_text::{from_hex, to_hex};
use celestia_da_client::namespace::Namespace;

fn sample_commitment() -> Commitment {
    let mut hash = [0u8; 32];
    hash.copy_from_slice(
        &from_hex("9b40387de53a16a779672f6d77733b967b46f00dcf2aa7ba61dba0980b16cf6f").unwrap(),
    );
    Commitment(hash)
}

#[test]
fn hex_writes_lower_case_pairs() {
    assert_eq!(to_hex(&[1, 2, 3, 15, 16]), "0102030f10");
    assert_eq!(to_hex(&[]), "");
    assert_eq!(to_hex(&[0xab, 0xcd, 0xef, 0x00, 0xff]), "abcdef00ff");
}

#[test]
fn hex_reads_both_cases() {
    assert_eq!(from_hex("f9b4ca"), Some(vec![0xf9, 0xb4, 0xca]));
    assert_eq!(from_hex("F9B4CA"), Some(vec![0xf9, 0xb4, 0xca]));
    assert_eq!(from_hex("f9B4Ca"), Some(vec![0xf9, 0xb4, 0xca]));
    assert_eq!(from_hex(""), Some(vec![]));
}

#[test]
fn hex_refuses_what_is_no_hex() {
    assert_eq!(from_hex("123"), None);
    assert_eq!(from_hex("zz"), None);
    assert_eq!(from_hex("12 4"), None);
    assert_eq!(from_hex("é"), None);
    assert_eq!(from_hex("0g"), None);
}

#[test]
fn hex_round_trip() {
    let all: Vec<u8> = (0..=255u8).collect();
    assert_eq!(from_hex(&to_hex(&all)), Some(all));
}

#[test]
fn namespace_v0_pads_a_suffix() {
    let ns = Namespace::new_v0(&[1, 2, 3, 4, 5]).unwrap();
    let mut expected = [0u8; 29];
    expected[24..].copy_from_slice(&[1, 2, 3, 4, 5]);
    assert_eq!(ns.as_bytes(), &expected);

    let empty = Namespace::new_v0(&[]).unwrap();
    assert_eq!(empty.as_bytes(), &[0u8; 29]);

    let full = Namespace::new_v0(&[9; 10]).unwrap();
    let mut expected = [0u8; 29];
    expected[19..].copy_from_slice(&[9; 10]);
    assert_eq!(full.as_bytes(), &expected);
}

#[test]
fn namespace_v0_takes_a_full_id() {
    let mut id = [0u8; 28];
    id[18] = 7;
    id[27] = 8;
    let ns = Namespace::new_v0(&id).unwrap();
    let mut expected = [0u8; 29];
    expected[19] = 7;
    expected[28] = 8;
    assert_eq!(ns.as_bytes(), &expected);
}

#[test]
fn namespace_v0_refuses_other_ids() {
    assert_eq!(Namespace::new_v0(&[1; 11]), None);
    assert_eq!(Namespace::new_v0(&[0; 27]), None);
    assert_eq!(Namespace::new_v0(&[0; 29]), None);
    let mut id = [0u8; 28];
    id[4] = 1;
    assert_eq!(Namespace::new_v0(&id), None);
    id[4] = 0;
    id[17] = 1;
    assert_eq!(Namespace::new_v0(&id), None);
}

#[test]
fn namespace_from_raw_knows_both_versions() {
    assert!(Namespace::from_raw(&[0u8; 29]).is_some());
    assert!(Namespace::from_raw(&[255u8; 29]).is_some());
    let mut tail = [255u8; 29];
    tail[28] = 0xfe;
    assert_eq!(Namespace::from_raw(&tail).unwrap().as_bytes(), &tail);

    assert_eq!(Namespace::from_raw(&[0u8; 28]), None);
    assert_eq!(Namespace::from_raw(&[0u8; 30]), None);
    let mut other_version = [0u8; 29];
    other_version[0] = 1;
    assert_eq!(Namespace::from_raw(&other_version), None);
    let mut bad_prefix = [0u8; 29];
    bad_prefix[18] = 1;
    assert_eq!(Namespace::from_raw(&bad_prefix), None);
    let mut bad_reserved = [255u8; 29];
    bad_reserved[27] = 0;
    assert_eq!(Namespace::from_raw(&bad_reserved), None);
}

#[test]
fn namespace_agrees_with_the_network_types() {
    let ours = Namespace::new_v0(b"any-suffix").unwrap();
    let theirs = celestia_types::nmt::Namespace::new_v0(b"any-suffix").unwrap();
    assert_eq!(&ours.as_bytes()[..], theirs.as_bytes());
}

#[test]
fn commitment_of_a_known_blob() {
    let ns = Namespace::new_v0(&[1, 2, 3, 4, 5]).unwrap();
    let data = b"some data to store on blockchain".to_vec();
    let (commitment, payload) = Commitment::from_blob(&ns, data.clone()).unwrap();
    assert_eq!(commitment, sample_commitment());
    assert_eq!(payload, data);
}

#[test]
fn commitment_agrees_with_the_network_types() {
    let ns = Namespace::new_v0(&[7; 10]).unwrap();
    let data = vec![3u8; 2000];
    let (commitment, _) = Commitment::from_blob(&ns, data.clone()).unwrap();
    let theirs = celestia_types::Blob::new(
        celestia_types::nmt::Namespace::new_v0(&[7; 10]).unwrap(),
        data,
    )
    .unwrap();
    assert_eq!(commitment.0, theirs.commitment.0);
}

#[test]
fn commitment_of_no_data_exists() {
    let ns = Namespace::new_v0(&[1]).unwrap();
    assert!(Commitment::from_blob(&ns, vec![]).is_some());
}

#[test]
fn commitment_depends_on_data_and_namespace() {
    let ns = Namespace::new_v0(&[1]).unwrap();
    let other_ns = Namespace::new_v0(&[2]).unwrap();
    let (a, _) = Commitment::from_blob(&ns, vec![0; 1000]).unwrap();
    let (b, _) = Commitment::from_blob(&ns, vec![0; 1000]).unwrap();
    let (c, _) = Commitment::from_blob(&ns, vec![0; 1001]).unwrap();
    let (d, _) = Commitment::from_blob(&other_ns, vec![0; 1000]).unwrap();
    assert_eq!(a, b);
    assert_ne!(a, c);
    assert_ne!(a, d);
}

#[test]
fn blob_id_bytes_have_the_fixed_layout() {
    let id = BlobId {
        commitment: sample_commitment(),
        namespace: Namespace::new_v0(&[1, 2, 3, 4, 5]).unwrap(),
        height: 42,
    };
    let expected = "2c000000000000006d30413466655536467164355a79397464334d376c6e7447384133504b716536596475676d4173577a32383d28000000000000004141414141414141414141414141414141414141414141414141414141414141415149444241553d2a00000000000000";
    assert_eq!(id.to_bytes().len(), 108);
    assert_eq!(to_hex(&id.to_bytes()), expected);
    assert_eq!(id.encode(), expected);
}

#[test]
fn blob_id_of_zeros() {
    let id = BlobId {
        commitment: Commitment([0; 32]),
        namespace: Namespace::new_v0(&[]).unwrap(),
        height: 0,
    };
    assert_eq!(
        id.encode(),
        "2c00000000000000414141414141414141414141414141414141414141414141414141414141414141414141414141414141413d28000000000000004141414141414141414141414141414141414141414141414141414141414141414141414141413d0000000000000000"
    );
}

#[test]
fn blob_id_round_trip() {
    let ids = [
        BlobId {
            commitment: sample_commitment(),
            namespace: Namespace::new_v0(&[1, 2, 3, 4, 5]).unwrap(),
            height: 42,
        },
        BlobId {
            commitment: Commitment([0; 32]),
            namespace: Namespace::new_v0(&[]).unwrap(),
            height: 0,
        },
        BlobId {
            commitment: Commitment([255; 32]),
            namespace: Namespace::from_raw(&[255; 29]).unwrap(),
            height: u64::MAX,
        },
    ];
    for id in ids {
        assert_eq!(BlobId::decode(&id.encode()), Some(id));
        assert_eq!(BlobId::from_bytes(&id.to_bytes()), Some(id));
    }
}

#[test]
fn blob_id_reads_upper_case_text() {
    let id = BlobId {
        commitment: sample_commitment(),
        namespace: Namespace::new_v0(&[1, 2, 3, 4, 5]).unwrap(),
        height: 42,
    };
    assert_eq!(BlobId::decode(&id.encode().to_uppercase()), Some(id));
}

#[test]
fn blob_id_refuses_other_text() {
    assert_eq!(BlobId::decode("zz"), None);
    assert_eq!(BlobId::decode(""), None);
    assert_eq!(BlobId::decode("00"), None);
    assert_eq!(BlobId::decode("2c0000000000000041"), None);

    let id = BlobId {
        commitment: Commitment([0; 32]),
        namespace: Namespace::new_v0(&[]).unwrap(),
        height: 0,
    };
    let text = id.encode();
    // one digit short, and the height cut off
    assert_eq!(BlobId::decode(&text[..text.len() - 1]), None);
    assert_eq!(BlobId::decode(&text[..text.len() - 2]), None);
    // a namespace of a version that the network does not know
    let mut bytes = id.to_bytes();
    bytes[60] = b'B';
    assert_eq!(BlobId::from_bytes(&bytes), None);
}
