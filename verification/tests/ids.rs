use simple_crate::utils::IdGenerator;
use simple_crate::utils::generate_id;

#[test]
fn first_id_is_one() {
    let mut gen = IdGenerator::new();
    assert_eq!(gen.next_id(), 1);
    assert_eq!(gen.next_id(), 2);
    assert_eq!(gen.next_id(), 3);
}

#[test]
fn generate_id_advances_counter() {
    let mut gen = IdGenerator::new();
    assert_eq!(generate_id(&mut gen), 1);
    assert_eq!(generate_id(&mut gen), 2);
}

#[test]
fn run_of_ids_is_distinct_and_consecutive() {
    let mut gen = IdGenerator::new();
    let ids = gen.next_ids(6);
    assert_eq!(ids, vec![1, 2, 3, 4, 5, 6]);
    for i in 0..ids.len() {
        for j in 0..ids.len() {
            if i != j {
                assert_ne!(ids[i], ids[j]);
            }
        }
    }
    assert_eq!(gen.next_id(), 7);
}

#[test]
fn independent_generators_do_not_share_state() {
    let mut a = IdGenerator::new();
    let mut b = IdGenerator::new();
    assert_eq!(a.next_id(), 1);
    assert_eq!(b.next_id(), 1);
    assert_eq!(a.next_id(), 2);
}
