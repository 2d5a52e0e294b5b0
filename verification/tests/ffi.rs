use voluntary_servitude::ffi::{
    vs_append, vs_clear, vs_destroy, vs_empty, vs_iter, vs_iter_destroy, vs_iter_index, vs_iter_len,
    vs_iter_next, vs_len, vs_new,
};
use voluntary_servitude::VS;

#[test]
fn new() {
    let (status, released) = vs_destroy(Some(vs_new::<i32>()), false);
    assert_eq!((status, released.len()), (0, 0));
    let (status, released) = vs_destroy(Some(vs_new::<i32>()), true);
    assert_eq!((status, released.len()), (0, 0));
}

#[test]
fn null_ptr() {
    let vs = vs_new();
    assert_eq!(vs_append(None, Some(1)), 1);
    assert_eq!(vs_append(Some(&vs), None), 1);
    assert_eq!(vs_append(Some(&vs), Some(1)), 0);
    assert_eq!(vs_len::<i32>(None), 0);
    assert_eq!(vs_len(Some(&vs)), 1);

    assert!(vs_iter::<i32>(None).is_none());
    let mut iter = vs_iter(Some(&vs)).unwrap();
    assert_eq!(vs_iter_index(Some(&iter)), 0);
    assert_eq!(vs_iter_len(Some(&iter)), 1);
    assert_eq!(vs_iter_next(Some(&mut iter)).as_deref(), Some(&1));
    assert_eq!(vs_iter_index(Some(&iter)), 1);
    assert!(vs_iter_next(Some(&mut iter)).is_none());
    assert_eq!(vs_iter_destroy(Some(iter), true).0, 0);

    assert_eq!(vs_clear::<i32>(None), 1);
    assert_eq!(vs_clear(Some(&vs)), 0);
    assert_eq!(vs_len(Some(&vs)), 0);
    let iter = vs_iter(Some(&vs)).unwrap();
    assert_eq!(vs_iter_index(Some(&iter)), 0);
    assert_eq!(vs_iter_len(Some(&iter)), 0);
    assert_eq!(vs_iter_next::<i32>(None), None);
    assert_eq!(vs_iter_index::<i32>(None), 0);
    assert_eq!(vs_iter_len::<i32>(None), 0);

    assert_eq!(vs_destroy(Some(vs), true).0, 0);
    assert_eq!(vs_iter_destroy(Some(iter), true).0, 0);
    assert_eq!(vs_destroy::<i32>(None, true).0, 1);
    assert_eq!(vs_iter_destroy::<i32>(None, true).0, 1);
}

#[test]
fn iter() {
    let new = vs_new();
    let mut iter = vs_iter(Some(&new)).unwrap();
    assert_eq!(vs_iter_index(Some(&iter)), 0);
    assert!(vs_iter_next(Some(&mut iter)).is_none());
    assert_eq!(vs_iter_index(Some(&iter)), 0);
    assert_eq!(vs_len(Some(&new)), 0);
    assert_eq!(vs_iter_len(Some(&iter)), 0);

    assert_eq!(vs_append(Some(&new), Some(32)), 0);
    assert_eq!(vs_iter_len(Some(&iter)), 0);
    assert_eq!(vs_len(Some(&new)), 1);

    vs_iter_destroy(Some(iter), true);
    let mut iter = vs_iter(Some(&new)).unwrap();
    assert_eq!(vs_append(Some(&new), Some(32)), 0);
    assert_eq!(vs_iter_len(Some(&iter)), 2);
    assert_eq!(vs_iter_index(Some(&iter)), 0);
    assert_eq!(vs_len(Some(&new)), 2);
    assert_eq!(vs_iter_next(Some(&mut iter)).as_deref(), Some(&32));
    assert_eq!(vs_iter_index(Some(&iter)), 1);
    assert_eq!(vs_iter_next(Some(&mut iter)).as_deref(), Some(&32));
    assert!(vs_iter_next(Some(&mut iter)).is_none());
    assert_eq!(vs_iter_index(Some(&iter)), 2);
    assert_eq!(vs_iter_destroy(Some(iter), true).0, 0);

    let mut iter = vs_iter(Some(&new)).unwrap();
    assert_eq!(vs_iter_len(Some(&iter)), 2);
    assert_eq!(vs_append(Some(&new), Some(10)), 0);
    assert_eq!(vs_append(Some(&new), Some(32)), 0);
    assert_eq!(vs_append(Some(&new), Some(10)), 0);
    assert_eq!(vs_iter_len(Some(&iter)), 5);
    assert_eq!(vs_len(Some(&new)), 5);
    for expected in [32, 32, 10, 32, 10] {
        assert_eq!(vs_iter_next(Some(&mut iter)).as_deref(), Some(&expected));
    }
    assert!(vs_iter_next(Some(&mut iter)).is_none());

    assert_eq!(vs_iter_destroy(Some(iter), true).0, 0);
    let mut iter = vs_iter(Some(&new)).unwrap();
    assert_eq!(vs_clear(Some(&new)), 0);
    assert_eq!(vs_len(Some(&new)), 0);

    assert_eq!(vs_iter_len(Some(&iter)), 5);
    for expected in [32, 32, 10, 32, 10] {
        assert_eq!(vs_iter_next(Some(&mut iter)).as_deref(), Some(&expected));
    }
    assert!(vs_iter_next(Some(&mut iter)).is_none());

    let (status, released) = vs_iter_destroy(Some(iter), true);
    assert_eq!(status, 0);
    assert_eq!(released.iter().map(|x| **x).collect::<Vec<i32>>(), vec![32, 32, 10, 32, 10]);
    let mut iter = vs_iter(Some(&new)).unwrap();
    assert!(vs_iter_next(Some(&mut iter)).is_none());
    assert_eq!(vs_iter_len(Some(&iter)), 0);

    assert_eq!(vs_destroy::<i32>(None, true).0, 1);
    assert_eq!(vs_destroy(Some(new), true).0, 0);
    assert_eq!(vs_iter_destroy::<i32>(None, true).0, 1);
    assert_eq!(vs_iter_destroy(Some(iter), true).0, 0);
}

#[test]
fn empty_status() {
    let vs = VS::from_vec(vec![5]);
    let iter = vs_empty(Some(&vs)).unwrap();
    assert_eq!(vs_iter_len(Some(&iter)), 1);
    assert_eq!(vs_len(Some(&vs)), 0);
    assert!(vs_empty::<i32>(None).is_none());
}

#[test]
fn destroy_releases_only_the_last_owner() {
    let vs = VS::from_vec(vec![1, 2]);
    let iter = vs.iter();
    let (status, released) = vs_destroy(Some(vs), true);
    assert_eq!((status, released.len()), (0, 0));
    let (status, released) = vs_iter_destroy(Some(iter), true);
    assert_eq!(status, 0);
    assert_eq!(released.iter().map(|x| **x).collect::<Vec<i32>>(), vec![1, 2]);

    let vs = VS::from_vec(vec![1, 2]);
    let (status, released) = vs_destroy(Some(vs), false);
    assert_eq!((status, released.len()), (0, 0));
}

#[test]
fn iter_destroy_releases_the_last_owned_chain() {
    let list = VS::from_vec(vec![7, 8]);
    let iter = vs_iter(Some(&list)).unwrap();
    drop(list);
    let (status, released) = vs_iter_destroy(Some(iter), true);
    assert_eq!(status, 0);
    let values: Vec<i32> = released.iter().map(|x| **x).collect();
    assert_eq!(values, vec![7, 8]);
}
