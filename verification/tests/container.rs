use owned_data::{Key, KeyGen, OwnedData, Ref};

#[test]
fn fresh_container_is_empty() {
    let d: OwnedData<i32> = OwnedData::new();
    assert_eq!(d.len(), 0);
    assert!(d.keys().is_empty());
}

#[test]
fn len_grows_with_each_insertion() {
    let mut d: OwnedData<i32> = OwnedData::new();
    for i in 0..10 {
        assert_eq!(d.len(), i);
        d.add(i as i32);
        assert_eq!(d.len(), i + 1);
    }
}

#[test]
fn many_insertions_give_pairwise_distinct_ids() {
    let mut d: OwnedData<u32> = OwnedData::new();
    let mut ids: Vec<Key<u32>> = Vec::new();
    for v in 0..100u32 {
        ids.push(d.add(v));
    }
    for i in 0..ids.len() {
        for j in 0..ids.len() {
            if i != j {
                assert!(ids[i] != ids[j]);
            }
        }
    }
}

#[test]
fn generator_issues_distinct_keys() {
    let mut g: KeyGen<String> = KeyGen::new();
    let a = g.next();
    let b = g.next();
    let c = g.next();
    assert!(a != b && b != c && a != c);
    assert_eq!(a, a.clone());
}

#[test]
fn get_after_add_reads_inserted_value() {
    let mut d: OwnedData<String> = OwnedData::new();
    for word in ["alpha", "beta", "gamma"] {
        let k = d.add(String::from(word));
        let h = d.get(k).expect("a fresh insertion must resolve");
        assert_eq!(h.read(&d), word);
    }
}

#[test]
fn write_through_one_clone_is_read_through_the_other() {
    let mut d: OwnedData<i32> = OwnedData::new();
    let k = d.add(5);
    let h1 = d.get(k).unwrap();
    let h2 = h1.clone();
    h1.write(&mut d, 6);
    assert_eq!(*h2.read(&d), 6);
    h2.write(&mut d, 7);
    assert_eq!(*h1.read(&d), 7);
}

#[test]
fn keys_lists_exactly_the_issued_identifiers() {
    let mut d: OwnedData<u8> = OwnedData::new();
    let mut issued: Vec<Key<u8>> = Vec::new();
    for v in [3u8, 1, 4, 1, 5, 9, 2, 6] {
        issued.push(d.add(v));
    }
    let listed = d.keys();
    assert_eq!(listed.len(), issued.len());
    for k in &issued {
        assert!(listed.contains(k));
    }
    for k in &listed {
        assert!(issued.contains(k));
    }
}

#[test]
fn get_on_a_foreign_identifier_returns_none() {
    let mut a: OwnedData<i32> = OwnedData::new();
    a.add(1);
    let foreign = a.add(2);

    let empty: OwnedData<i32> = OwnedData::new();
    assert!(empty.get(foreign).is_none());

    let mut small: OwnedData<i32> = OwnedData::new();
    small.add(7);
    assert!(small.get(foreign).is_none());
}

#[test]
fn dropping_every_handle_keeps_the_entry_reachable() {
    let mut d: OwnedData<i32> = OwnedData::new();
    let k = d.add(42);
    {
        let h = d.get(k).unwrap();
        let g = h.clone();
        assert_eq!(*g.read(&d), 42);
    }
    let fresh = d.get(k).expect("the table still owns the entry");
    assert_eq!(*fresh.read(&d), 42);
}

#[test]
fn insert_mutate_and_resolve_again() {
    let mut d: OwnedData<i32> = OwnedData::new();
    let k0 = d.add(10);
    let k1 = d.add(20);
    assert!(k0 != k1);
    let h = d.get(k0).unwrap();
    assert_eq!(*h.read(&d), 10);
    h.write(&mut d, 11);
    let again = d.get(k0).unwrap();
    assert_eq!(*again.read(&d), 11);
    assert_eq!(*d.get(k1).unwrap().read(&d), 20);
}

#[test]
fn handle_from_a_bare_key_reads_the_entry() {
    let mut d: OwnedData<i32> = OwnedData::new();
    let k = d.add(30);
    let h = Ref::new(k);
    assert_eq!(*h.read(&d), 30);
}

#[test]
fn debug_rendering_names_the_identifier_not_the_value() {
    let mut d: OwnedData<i32> = OwnedData::new();
    let k = d.add(777);
    let h = d.get(k).unwrap();
    let shown = format!("{:?}", h);
    assert!(!shown.contains("777"));
}
