use toy_hover_battle::chunks::{chunk_seed, needed_chunks, neighbourhood, reload_plan, take_at};

#[test]
fn chunk_seeds_match_the_splitmix_mix() {
    assert_eq!(chunk_seed(12345, 0, 0), 17540659726606785873);
    assert_eq!(chunk_seed(12345, 1, 0), 12675120513759609703);
    assert_eq!(chunk_seed(12345, 0, 1), 9959965986460641125);
    assert_eq!(chunk_seed(12345, -1, -1), 9600530960215604855);
    assert_eq!(chunk_seed(1, 2, 3), 5276776473453841701);
    assert_eq!(chunk_seed(0, 0, 0), 0);
}

#[test]
fn neighbours_are_the_three_by_three_block() {
    let n = neighbourhood((5, -2));
    assert_eq!(
        n,
        vec![(4, -3), (5, -3), (6, -3), (4, -2), (5, -2), (6, -2), (4, -1), (5, -1), (6, -1)]
    );
}

#[test]
fn needed_chunks_are_sorted_and_unique() {
    let keys = needed_chunks(&[(0, 0), (1, 0)], 1);
    assert_eq!(keys.len(), 12);
    assert_eq!(keys[0], (-1, -1));
    assert_eq!(keys[11], (2, 1));
    for w in keys.windows(2) {
        assert!(w[0] < w[1]);
    }
    let same = needed_chunks(&[(3, 3), (3, 3)], 2);
    assert_eq!(same.len(), 25);
    assert!(needed_chunks(&[], 2).is_empty());
    assert_eq!(needed_chunks(&[(7, -7)], 0), vec![(7, -7)]);
}

#[test]
fn take_at_removes_one_item_or_nothing() {
    let mut v = vec!['a', 'b', 'c'];
    assert_eq!(take_at(&mut v, 1), Some('b'));
    assert_eq!(v, vec!['a', 'c']);
    assert_eq!(take_at(&mut v, 2), None);
    assert_eq!(v, vec!['a', 'c']);
}

#[test]
fn reload_plan_generates_the_missing_and_drops_the_stale() {
    let loaded = vec![(0, 0), (5, 5), (1, 0)];
    let needed = vec![(-1, 0), (0, 0), (1, 0), (2, 0)];
    let (missing, stale) = reload_plan(&loaded, &needed);
    assert_eq!(missing, vec![(-1, 0), (2, 0)]);
    assert_eq!(stale, vec![(5, 5)]);
}

#[test]
fn reload_plan_is_empty_when_nothing_moved() {
    let keys = needed_chunks(&[(3, -2)], 1);
    let (missing, stale) = reload_plan(&keys, &keys);
    assert!(missing.is_empty());
    assert!(stale.is_empty());
    let (missing, stale) = reload_plan(&[], &keys);
    assert_eq!(missing, keys);
    assert!(stale.is_empty());
}
