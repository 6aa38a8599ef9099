use dds_data::ChangeKind;
use dds_data::DDSData;
use dds_data::KeyHash;
use dds_data::SerializedPayload;

fn payload_of(bytes: &[u8]) -> SerializedPayload {
    SerializedPayload::from_vec(bytes.to_vec())
}

#[test]
fn data_sample_of_37_bytes() {
    let raw: Vec<u8> = (0..37u8).collect();
    let d = DDSData::new(payload_of(&raw));
    assert_eq!(d.payload_size(), 37);
    assert_eq!(d.change_kind(), ChangeKind::Alive);
}

#[test]
fn data_sample_with_empty_payload_is_alive() {
    let d = DDSData::new(payload_of(&[]));
    assert_eq!(d.change_kind(), ChangeKind::Alive);
    assert_eq!(d.payload_size(), 0);
}

#[test]
fn dispose_by_key_of_9_bytes() {
    let key: Vec<u8> = vec![9, 8, 7, 6, 5, 4, 3, 2, 1];
    let d = DDSData::new_disposed_by_key(ChangeKind::Disposed, payload_of(&key));
    assert_eq!(d.payload_size(), 9);
    assert_eq!(d.change_kind(), ChangeKind::Disposed);
}

#[test]
fn dispose_by_key_hash_has_constant_size() {
    let zero = KeyHash::new([0u8; 16]);
    let d = DDSData::new_disposed_by_key_hash(ChangeKind::Unregistered, zero);
    assert_eq!(d.payload_size(), 16);
    assert_eq!(d.change_kind(), ChangeKind::Unregistered);

    let patterned = KeyHash::new([0xAB; 16]);
    let d2 = DDSData::new_disposed_by_key_hash(ChangeKind::Unregistered, patterned);
    assert_eq!(d2.payload_size(), 16);
    assert_eq!(d2.change_kind(), ChangeKind::Unregistered);
}

#[test]
fn dispose_variants_pass_kind_through() {
    let k = payload_of(&[1, 2]);
    let h = KeyHash::new([7u8; 16]);
    assert_eq!(
        DDSData::new_disposed_by_key(ChangeKind::Disposed, k.clone()).change_kind(),
        ChangeKind::Disposed
    );
    assert_eq!(
        DDSData::new_disposed_by_key(ChangeKind::Unregistered, k).change_kind(),
        ChangeKind::Unregistered
    );
    assert_eq!(
        DDSData::new_disposed_by_key_hash(ChangeKind::Disposed, h).change_kind(),
        ChangeKind::Disposed
    );
    assert_eq!(
        DDSData::new_disposed_by_key_hash(ChangeKind::Unregistered, h).change_kind(),
        ChangeKind::Unregistered
    );
}

#[test]
fn equal_values_compare_equal() {
    let a = DDSData::new(payload_of(&[1, 2, 3]));
    let b = DDSData::new(payload_of(&[1, 2, 3]));
    assert_eq!(a, b);

    let c = DDSData::new_disposed_by_key(ChangeKind::Disposed, payload_of(&[4, 5]));
    let d = DDSData::new_disposed_by_key(ChangeKind::Disposed, payload_of(&[4, 5]));
    assert_eq!(c, d);

    let e = DDSData::new_disposed_by_key_hash(ChangeKind::Unregistered, KeyHash::new([3u8; 16]));
    let f = DDSData::new_disposed_by_key_hash(ChangeKind::Unregistered, KeyHash::new([3u8; 16]));
    assert_eq!(e, f);
}

#[test]
fn differing_values_compare_unequal() {
    let data = DDSData::new(payload_of(&[1, 2, 3]));
    let data_other = DDSData::new(payload_of(&[1, 2, 4]));
    assert_ne!(data, data_other);

    let by_key = DDSData::new_disposed_by_key(ChangeKind::Disposed, payload_of(&[1, 2, 3]));
    let by_key_other_kind =
        DDSData::new_disposed_by_key(ChangeKind::Unregistered, payload_of(&[1, 2, 3]));
    assert_ne!(by_key, by_key_other_kind);

    let by_hash =
        DDSData::new_disposed_by_key_hash(ChangeKind::Disposed, KeyHash::new([0u8; 16]));
    let mut other_hash = [0u8; 16];
    other_hash[15] = 1;
    let by_hash_other =
        DDSData::new_disposed_by_key_hash(ChangeKind::Disposed, KeyHash::new(other_hash));
    assert_ne!(by_hash, by_hash_other);

    // All three variant pairings are unequal even over equal carried bytes.
    assert_ne!(data, by_key);
    assert_ne!(data, by_hash);
    assert_ne!(by_key, by_hash);
}

#[test]
fn clone_equals_original() {
    let a = DDSData::new(payload_of(&[10, 20, 30]));
    let b = a.clone();
    assert_eq!(a, b);
    assert_eq!(b.payload_size(), 3);

    let c = DDSData::new_disposed_by_key(ChangeKind::Disposed, payload_of(&[1]));
    assert_eq!(c.clone(), c);

    let d = DDSData::new_disposed_by_key_hash(ChangeKind::Unregistered, KeyHash::new([5u8; 16]));
    assert_eq!(d.clone(), d);
}

#[test]
fn clone_shares_without_disturbing_original() {
    let a = DDSData::new(payload_of(&[1, 2, 3, 4]));
    let b = a.clone();
    drop(b);
    assert_eq!(a.payload_size(), 4);
    assert_eq!(a.data(), Some(bytes::Bytes::from(vec![1u8, 2, 3, 4])));
}

#[test]
fn data_returns_the_carried_buffer() {
    let payload: Vec<u8> = vec![42, 43, 44];
    let d = DDSData::new(payload_of(&payload));
    assert_eq!(d.data(), Some(bytes::Bytes::from(payload.clone())));

    let k = DDSData::new_disposed_by_key(ChangeKind::Disposed, payload_of(&payload));
    assert_eq!(k.data(), Some(bytes::Bytes::from(payload)));

    let h = DDSData::new_disposed_by_key_hash(ChangeKind::Disposed, KeyHash::new([0u8; 16]));
    assert_eq!(h.data(), None);
}

#[test]
fn serialized_payload_reports_its_length_and_contents() {
    let p = SerializedPayload::new(bytes::Bytes::from(vec![1u8, 1, 2, 3, 5]));
    assert_eq!(p.len(), 5);
    let q = payload_of(&[1, 1, 2, 3, 5]);
    assert_eq!(p, q);
    let r = payload_of(&[1, 1, 2, 3, 6]);
    assert_ne!(p, r);
    assert_eq!(p.clone(), p);
}

#[test]
fn key_hash_equality_is_by_contents() {
    let a = KeyHash::new([1u8; 16]);
    let b = KeyHash::new([1u8; 16]);
    assert_eq!(a, b);

    let mut raw = [1u8; 16];
    raw[0] = 2;
    assert_ne!(a, KeyHash::new(raw));
    let mut raw_last = [1u8; 16];
    raw_last[15] = 0;
    assert_ne!(a, KeyHash::new(raw_last));
}
