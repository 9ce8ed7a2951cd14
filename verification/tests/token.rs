use unique_token::Unique;
use unique_token::UniqueSource;

#[test]
fn test_eq() {
    let mut source = UniqueSource::new();
    let x = Unique::new(&mut source);
    let y = Unique::new(&mut source);
    assert!(&x != &y);
    assert!(&x == &x.clone());
    assert!(&y == &y.clone());
}

#[test]
fn test_into_u64() {
    let mut source = UniqueSource::new();
    let x = Unique::new(&mut source);
    let y = Unique::new(&mut source);
    assert_ne!(u64::from(&x), u64::from(&y));
    assert_eq!(u64::from(&x), u64::from(&x.clone()));
    assert_eq!(u64::from(&y), u64::from(&y.clone()));
}

#[test]
fn test_duplicates_equal_originals_differ() {
    let mut source = UniqueSource::new();
    let x = Unique::new(&mut source);
    let y = Unique::new(&mut source);
    assert!(x != y);
    assert!(x == x.duplicate());
    assert!(y == y.duplicate());
    assert_ne!(u64::from(&x), u64::from(&y));
    assert_eq!(u64::from(&x), u64::from(&x.duplicate()));
}

#[test]
fn test_duplication_chain_keeps_identity() {
    let mut source = UniqueSource::new();
    let t = Unique::new(&mut source);
    let mut d = t.duplicate();
    for _ in 0..10 {
        d = d.duplicate();
    }
    assert!(t == d);
    assert_eq!(u64::from(&t), u64::from(&d));
}

#[test]
fn test_identifiers_start_at_one_and_increase() {
    let mut source = UniqueSource::new();
    let x = Unique::new(&mut source);
    let y = Unique::new(&mut source);
    let z = Unique::new(&mut source);
    assert_eq!(u64::from(&x), 1);
    assert_eq!(u64::from(&y), 2);
    assert_eq!(u64::from(&z), 3);
}

#[test]
fn test_many_creations_pairwise_distinct() {
    let mut source = UniqueSource::new();
    let mut ids: Vec<u64> = Vec::new();
    for _ in 0..256 {
        let t = Unique::new(&mut source);
        ids.push(u64::from(&t));
    }
    for i in 0..ids.len() {
        for j in 0..ids.len() {
            if i != j {
                assert_ne!(ids[i], ids[j]);
            }
        }
    }
}

#[test]
fn test_exhaustion_boundary() {
    let mut source = UniqueSource::starting_at(u64::MAX - 1);
    let a = Unique::try_new(&mut source).expect("one identifier left before the last");
    assert_eq!(u64::from(&a), u64::MAX - 1);
    let b = Unique::try_new(&mut source).expect("the last identifier is still valid");
    assert_eq!(u64::from(&b), u64::MAX);
    assert_ne!(u64::from(&b), 0);
    assert!(Unique::try_new(&mut source).is_none());
    assert!(Unique::try_new(&mut source).is_none());
}

#[test]
fn test_exhausted_source_yields_nothing() {
    let mut source = UniqueSource::starting_at(0);
    assert!(Unique::try_new(&mut source).is_none());
}

#[test]
fn test_try_new_matches_new() {
    let mut source = UniqueSource::new();
    let x = Unique::try_new(&mut source).expect("a fresh source is not exhausted");
    let y = Unique::new(&mut source);
    assert_eq!(u64::from(&x), 1);
    assert_eq!(u64::from(&y), 2);
}
