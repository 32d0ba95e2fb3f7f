use offst_funder::ids::{MapKey, PublicKey, Uid};
use offst_funder::key_map::KeyMap;

#[test]
fn key_map_insert_get_remove() {
    let mut m: KeyMap<Uid, u32> = KeyMap::new();
    assert_eq!(m.insert(Uid([1; 16]), 10), None);
    assert_eq!(m.insert(Uid([2; 16]), 20), None);
    assert_eq!(m.insert(Uid([1; 16]), 11), Some(10));
    assert_eq!(m.get(&Uid([1; 16])), Some(&11));
    assert_eq!(m.get(&Uid([2; 16])), Some(&20));
    assert_eq!(m.remove(&Uid([2; 16])), Some(20));
    assert_eq!(m.remove(&Uid([2; 16])), None);
    assert!(!m.contains_key(&Uid([2; 16])));
    assert!(m.contains_key(&Uid([1; 16])));
}

#[test]
fn identifiers_compare_by_bytes() {
    let mut a = [7u8; 32];
    let k1 = PublicKey(a);
    a[31] = 8;
    let k2 = PublicKey(a);
    assert!(k1.same(&PublicKey([7; 32])));
    assert!(!k1.same(&k2));
}
